//! Error taxonomy: login failures callers can branch on, internal transport
//! and decoding failures, authenticator-enrollment failures, and the
//! distinguished session-expiry signal.

use vstd::prelude::*;

verus! {

/// A permanent failure of the login handshake.
#[derive(Debug)]
pub enum LoginError {
    /// The service demands a captcha; the guid identifies the challenge.
    CaptchaRequired { captcha_guid: String },
    /// The service rejected the credentials themselves.
    IncorrectCredentials,
    /// Any other well-formed rejection, with the captured reason.
    GeneralFailure(String),
}

/// A failure below the protocol: the network or the payload shape.
#[derive(Debug)]
pub enum InternalError {
    NetworkFailure(String),
    DeserializationFailure(String),
    GeneralFailure(String),
}

/// A failure of the authenticator-enrollment workflow.
#[derive(Debug)]
pub enum LinkerError {
    GeneralFailure(String),
}

/// Everything an authenticator operation can surface.
#[derive(Debug)]
pub enum AuthError {
    Login(LoginError),
    Internal(InternalError),
    Linker(LinkerError),
    /// The session guard found the session no longer valid; the caller must
    /// log in again with the same identity and replace its authenticator.
    SessionExpired,
}

} // verus!
