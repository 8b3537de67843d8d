use steam_mobile::client::{encode_proto_payload, HttpMethod};
use steam_mobile::errors::InternalError;
use steam_mobile::types::{
    ApiKeyRegisterRequest, ConfirmationMultiAcceptRequest, FinalizeLoginRequest,
    IEconServiceGetTradeOffersRequest,
};

#[test]
fn finalize_login_request_points_back_home() {
    let req = FinalizeLoginRequest::new("refresh-token".to_string(), "sid".to_string());
    assert_eq!(req.nonce, "refresh-token");
    assert_eq!(req.session_id, "sid");
    assert_eq!(req.redir, "https://steamcommunity.com/login/home?goto=");
}

#[test]
fn multi_accept_request_defaults() {
    let req = ConfirmationMultiAcceptRequest::default();
    assert_eq!(req.device_kind, "android");
    assert_eq!(req.tag, "conf");
    assert_eq!(req.steamid, "");
    assert!(req.confirmation_id.is_empty());
    assert!(req.confirmation_key.is_empty());
}

#[test]
fn trade_offers_request_defaults() {
    let req = IEconServiceGetTradeOffersRequest::default();
    assert_eq!(req.active_only, 1);
    assert_eq!(req.get_descriptions, 1);
    assert_eq!(req.get_received_offers, 1);
    assert_eq!(req.get_sent_offers, 0);
    assert_eq!(req.api_key, "");
    assert_eq!(req.time_historical_cutoff, u32::MAX);
}

#[test]
fn api_key_register_request_defaults() {
    let req = ApiKeyRegisterRequest::default();
    assert_eq!(req.agree_to_terms, "agreed");
    assert_eq!(req.domain, "localhost");
    assert_eq!(req.submit, "Register");
}

#[test]
fn proto_payloads_use_the_method_matching_engine() {
    let message = vec![0xfbu8, 0xef, 0x01];
    let (key, value) = encode_proto_payload(HttpMethod::Get, &message).unwrap();
    assert_eq!(key, "input_protobuf_encoded");
    assert_eq!(value, "--8B");
    let (_, value) = encode_proto_payload(HttpMethod::Post, &message).unwrap();
    assert_eq!(value, "++8B");
}

#[test]
fn proto_payloads_refuse_other_methods() {
    let message = vec![1u8, 2, 3];
    let res = encode_proto_payload(HttpMethod::Head, &message);
    assert!(matches!(res, Err(InternalError::GeneralFailure(_))));
}
