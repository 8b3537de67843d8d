use steam_mobile::errors::AuthError;
use steam_mobile::linker::{
    add_authenticator_plan, finalize_check, validate_phone_number, AddAuthenticatorAction,
    AddAuthenticatorStep, RemoveAuthenticatorScheme,
};

#[test]
fn phone_numbers_need_plus_and_digits() {
    assert!(validate_phone_number("+5511976914922"));
    assert!(validate_phone_number("+12025550142"));
    assert!(!validate_phone_number("5511976914922"));
    assert!(!validate_phone_number("+55 11 976914922"));
    assert!(!validate_phone_number("+55119"));
    assert!(!validate_phone_number(""));
}

#[test]
fn fresh_account_without_phone_registers_one() {
    let plan = add_authenticator_plan(&AddAuthenticatorStep::InitialStep, false, "+5511976914922");
    match plan {
        Ok(AddAuthenticatorAction::AddPhoneNumber(p)) => assert_eq!(p, "+5511976914922"),
        other => panic!("unexpected plan: {:?}", other),
    }
}

#[test]
fn bad_phone_number_is_a_linker_error() {
    let plan = add_authenticator_plan(&AddAuthenticatorStep::InitialStep, false, "not-a-phone");
    assert!(matches!(plan, Err(AuthError::Linker(_))));
}

#[test]
fn confirmed_email_leads_to_attachment() {
    let plan = add_authenticator_plan(&AddAuthenticatorStep::EmailConfirmation, false, "");
    assert!(matches!(plan, Ok(AddAuthenticatorAction::ConfirmEmailThenAttach)));
}

#[test]
fn registered_phone_skips_the_email_signal() {
    let plan = add_authenticator_plan(&AddAuthenticatorStep::InitialStep, true, "");
    assert!(matches!(plan, Ok(AddAuthenticatorAction::AttachOnly)));
    let plan = add_authenticator_plan(&AddAuthenticatorStep::EmailConfirmation, true, "");
    assert!(matches!(plan, Ok(AddAuthenticatorAction::AttachOnly)));
}

#[test]
fn finalization_requires_the_visible_phone() {
    assert!(finalize_check(true).is_ok());
    assert!(matches!(finalize_check(false), Err(AuthError::Linker(_))));
}

#[test]
fn removal_scheme_codes() {
    assert_eq!(RemoveAuthenticatorScheme::ReturnToEmailCodes.scheme_code(), 1);
    assert_eq!(RemoveAuthenticatorScheme::RemoveCompletely.scheme_code(), 2);
}
