//! The authenticator-enrollment dialogue: which action each step of the
//! add-authenticator flow takes, phone-number validation, and the
//! finalization re-check. The network calls themselves happen outside; the
//! decisions are all here.

use vstd::prelude::*;
use crate::errors::{AuthError, LinkerError};
use crate::strutil::spec_is_digit;
use crate::user::MobileAuthFile;

verus! {

/// Where the multi-turn enrollment dialogue stands.
#[derive(Debug)]
pub enum AddAuthenticatorStep {
    /// Nothing has happened yet.
    InitialStep,
    /// A phone number was added; the account's e-mail must confirm it.
    EmailConfirmation,
    /// The authenticator is attached; the secret bundle must be saved
    /// before finalization.
    MobileAuth(MobileAuthFile),
}

/// How an authenticator is removed from the account.
#[derive(Debug, Clone, Copy, PartialEq, Eq, Structural)]
pub enum RemoveAuthenticatorScheme {
    /// Fall back to e-mail confirmation codes.
    ReturnToEmailCodes,
    /// Remove the protection completely.
    RemoveCompletely,
}

/// The numeric scheme field the removal endpoint takes.
pub open spec fn spec_scheme_code(s: RemoveAuthenticatorScheme) -> u8 {
    match s {
        RemoveAuthenticatorScheme::ReturnToEmailCodes => 1,
        RemoveAuthenticatorScheme::RemoveCompletely => 2,
    }
}

impl RemoveAuthenticatorScheme {
    pub fn scheme_code(self) -> (r: u8)
        ensures
            r == spec_scheme_code(self),
    {
        match self {
            RemoveAuthenticatorScheme::ReturnToEmailCodes => 1,
            RemoveAuthenticatorScheme::RemoveCompletely => 2,
        }
    }
}

/// A usable phone number: a plus sign followed by seven to fifteen digits,
/// country and area code included.
pub open spec fn spec_valid_phone(s: Seq<char>) -> bool {
    &&& 8 <= s.len() <= 16
    &&& s[0] == '+'
    &&& forall|i: int| 1 <= i < s.len() ==> spec_is_digit(#[trigger] s[i])
}

pub fn validate_phone_number(phone_number: &str) -> (r: bool)
    ensures
        r == spec_valid_phone(phone_number@),
{
    let n = phone_number.unicode_len();
    if n < 8 || n > 16 {
        return false;
    }
    if phone_number.get_char(0) != '+' {
        return false;
    }
    let mut i: usize = 1;
    while i < n
        invariant
            1 <= i <= n,
            n == phone_number@.len(),
            forall|j: int| 1 <= j < i ==> spec_is_digit(#[trigger] phone_number@[j]),
        decreases n - i,
    {
        let v = phone_number.get_char(i) as u32;
        if v < 48 || v > 57 {
            assert(!spec_is_digit(phone_number@[i as int]));
            return false;
        }
        i += 1;
    }
    true
}

/// The outward action one turn of the enrollment dialogue performs before
/// the authenticator is attached.
#[derive(Debug)]
pub enum AddAuthenticatorAction {
    /// Register this number with the account, then wait for the service to
    /// catch up; the dialogue resumes at the e-mail confirmation step.
    AddPhoneNumber(String),
    /// Signal that the e-mail confirmation was clicked, then request the
    /// authenticator's attachment.
    ConfirmEmailThenAttach,
    /// A phone number is already registered: request the attachment
    /// straight away; signalling an e-mail confirmation now would make the
    /// finalization fail.
    AttachOnly,
}

/// Decides one turn of the dialogue from the step reached and whether the
/// account already has a phone number. An account without a phone entering
/// at the initial step must bring a usable number.
pub fn add_authenticator_plan(
    current_step: &AddAuthenticatorStep,
    account_has_phone: bool,
    phone_number: &str,
) -> (r: Result<AddAuthenticatorAction, AuthError>)
    ensures
        match r {
            Ok(a) => {
                &&& (a matches AddAuthenticatorAction::AddPhoneNumber(p) ==> !account_has_phone
                    && current_step is InitialStep && spec_valid_phone(phone_number@) && p@
                    == phone_number@)
                &&& (a is ConfirmEmailThenAttach ==> !account_has_phone && !(
                current_step is InitialStep))
                &&& (a is AttachOnly ==> account_has_phone)
            },
            Err(e) => !account_has_phone && current_step is InitialStep && !spec_valid_phone(
                phone_number@,
            ) && e is Linker,
        },
{
    if account_has_phone {
        return Ok(AddAuthenticatorAction::AttachOnly);
    }
    match current_step {
        AddAuthenticatorStep::InitialStep => {
            if validate_phone_number(phone_number) {
                Ok(AddAuthenticatorAction::AddPhoneNumber(String::from_str(phone_number)))
            } else {
                Err(
                    AuthError::Linker(
                        LinkerError::GeneralFailure(
                            String::from_str(
                                "Invalid phone number. Should be in format of: +(CountryCode)(AreaCode)(PhoneNumber). E.g +5511976914922",
                            ),
                        ),
                    ),
                )
            }
        },
        _ => Ok(AddAuthenticatorAction::ConfirmEmailThenAttach),
    }
}

/// The finalization re-check: after the SMS code is confirmed and the
/// fixed propagation delay has passed, the phone registration must be
/// visible; where it still is not, that is a hard failure and no further
/// retry is made.
pub fn finalize_check(account_has_phone_now: bool) -> (r: Result<(), AuthError>)
    ensures
        match r {
            Ok(()) => account_has_phone_now,
            Err(e) => !account_has_phone_now && e is Linker,
        },
{
    if account_has_phone_now {
        Ok(())
    } else {
        Err(
            AuthError::Linker(
                LinkerError::GeneralFailure(String::from_str("This should not happen.")),
            ),
        )
    }
}

} // verus!
