//! The login handshake: obtain a session identifier cookie, synchronize the
//! clock, fetch the public-key material, encrypt the password, submit the
//! credentials with the one-time code, and classify the outcome. The
//! handshake consumes the transport's replies as plain values; the retry
//! driver runs it over a scripted sequence of attempts.

use vstd::prelude::*;
use crate::crypto::{
    be_sig_len, be_val_in_exponent_range, base64_encode, base64_std_of, hex_decode,
    rsa_encrypt_pkcs1v15, spec_be_sig_len, spec_hex_decode, spec_rsa_key_accepted,
};
use crate::errors::{AuthError, InternalError, LoginError};
use crate::retry::{RetryClass, RetryPolicy};
use crate::session::SessionCache;
use crate::strutil::{
    i64_to_dec_string, parse_u64, spec_contains, spec_i64_dec, spec_parse_u64, str_contains,
};
use crate::totp::{generate_auth_code, spec_auth_code, Secret};
use crate::types::{LoginCaptcha, LoginRequest, Oauth, RSAResponse};
use crate::user::SteamUser;

verus! {

/// The service's canonical phrase for rejected credentials.
pub const INCORRECT_CREDENTIALS_PHRASE: &'static str =
    "The account name or password that you have entered is incorrect";

/// Reason used when the first response carries no usable session cookie.
pub const MSG_NO_SESSION_COOKIE: &'static str = "no session id cookie came back";

/// Reason used when the clock-synchronization reply is missing.
pub const MSG_NO_TIME_OFFSET: &'static str = "no time offset came back";

/// Reason used when the public-key reply is missing.
pub const MSG_NO_RSA_KEY: &'static str = "no public key material came back";

/// Reason used when the public-key material does not decode as hex.
pub const MSG_BAD_RSA_HEX: &'static str = "public key material is not valid hex";

/// Reason used when rsa would reject the decoded key material.
pub const MSG_RSA_KEY_REJECTED: &'static str = "public key material was rejected";

/// Reason used when the password cannot fit under the given key.
pub const MSG_PASSWORD_TOO_LONG: &'static str = "password too long for the service's key";

/// Reason used when the two-factor secret does not decode as base64.
pub const MSG_BAD_SHARED_SECRET: &'static str = "two-factor secret is not valid base64";

/// Reason used when a success payload carries a non-numeric account id.
pub const MSG_BAD_STEAMID: &'static str = "login response carries a non-numeric account id";

/// Reason used when every allowed attempt was spent.
pub const MSG_NEVER_ATTEMPTED: &'static str = "login was never attempted";

/// The classified result of one login attempt.
#[derive(Debug)]
pub enum LoginOutcome {
    /// The handshake went through; the cache holds the account id and the
    /// session tokens.
    Success(SessionCache),
    /// The service demands a captcha before it will look at credentials.
    CaptchaRequired { guid: String },
    /// The service rejected the credentials themselves.
    IncorrectCredentials,
    /// A network-level or malformed-response failure, worth retrying.
    TransientFailure(String),
    /// Any other well-formed rejection; never retried.
    GeneralFailure(String),
}

pub open spec fn spec_outcome_is_transient(o: LoginOutcome) -> bool {
    o is TransientFailure
}

pub fn outcome_retry_class(o: &LoginOutcome) -> (r: RetryClass)
    ensures
        r == (if spec_outcome_is_transient(*o) {
            RetryClass::Retryable
        } else {
            RetryClass::Fatal
        }),
{
    match o {
        LoginOutcome::TransientFailure(_) => RetryClass::Retryable,
        _ => RetryClass::Fatal,
    }
}

/// The credential submission's reply, already decoded to plain values by
/// the transport edge.
#[derive(Debug)]
pub enum LoginReply {
    /// The request itself failed.
    NetworkError(String),
    /// The body was not a well-formed payload.
    Malformed(String),
    /// A well-formed payload, with whatever fields it carried.
    Parsed {
        success: bool,
        requires_twofactor: bool,
        captcha_needed: bool,
        captcha_gid: String,
        message: String,
        oauth: Option<Oauth>,
    },
}

/// How a submission reply is classified, case by case: a token block is
/// success; a set captcha flag demands a captcha; the canonical phrase
/// means rejected credentials; any other well-formed payload is a general
/// failure; network-level and malformed replies are transient.
pub open spec fn spec_classified(reply: LoginReply, o: LoginOutcome) -> bool {
    match reply {
        LoginReply::NetworkError(r) => o matches LoginOutcome::TransientFailure(m) && m@ == r@,
        LoginReply::Malformed(r) => o matches LoginOutcome::TransientFailure(m) && m@ == r@,
        LoginReply::Parsed { success, captcha_needed, captcha_gid, message, oauth, .. } => {
            if success && oauth is Some {
                match spec_parse_u64(oauth->Some_0.steamid@) {
                    Some(id64) => o matches LoginOutcome::Success(c) && c.steamid == id64
                        && c.oauth_token@ == oauth->Some_0.oauth_token@ && c.wgtoken@
                        == oauth->Some_0.wgtoken@ && c.wgtoken_secure@
                        == oauth->Some_0.wgtoken_secure@ && c.api_key is None,
                    None => o matches LoginOutcome::TransientFailure(m) && m@
                        == MSG_BAD_STEAMID@,
                }
            } else if captcha_needed {
                o matches LoginOutcome::CaptchaRequired { guid } && guid@ == captcha_gid@
            } else if spec_contains(message@, INCORRECT_CREDENTIALS_PHRASE@) {
                o is IncorrectCredentials
            } else {
                o matches LoginOutcome::GeneralFailure(m) && m@ == message@
            }
        },
    }
}

/// Classifies a submission reply. Exactly one outcome fits each reply.
pub fn classify_login_reply(reply: &LoginReply) -> (r: LoginOutcome)
    ensures
        spec_classified(*reply, r),
{
    match reply {
        LoginReply::NetworkError(m) => LoginOutcome::TransientFailure(m.clone()),
        LoginReply::Malformed(m) => LoginOutcome::TransientFailure(m.clone()),
        LoginReply::Parsed { success, captcha_needed, captcha_gid, message, oauth, .. } => {
            if *success && oauth.is_some() {
                let o = match oauth {
                    Some(o) => o,
                    None => unreached(),
                };
                match parse_u64(o.steamid.as_str()) {
                    Some(id64) => LoginOutcome::Success(
                        SessionCache::new(
                            id64,
                            o.oauth_token.clone(),
                            o.wgtoken.clone(),
                            o.wgtoken_secure.clone(),
                        ),
                    ),
                    None => LoginOutcome::TransientFailure(String::from_str(MSG_BAD_STEAMID)),
                }
            } else if *captcha_needed {
                LoginOutcome::CaptchaRequired { guid: captcha_gid.clone() }
            } else if str_contains(message.as_str(), INCORRECT_CREDENTIALS_PHRASE) {
                LoginOutcome::IncorrectCredentials
            } else {
                LoginOutcome::GeneralFailure(message.clone())
            }
        },
    }
}

/// The position of the first '=' in the header, or the length where none
/// occurs.
pub open spec fn spec_eq_pos(s: Seq<char>) -> int
    decreases s.len(),
{
    if s.len() == 0 {
        0
    } else if s[0] == '=' {
        0
    } else {
        1 + spec_eq_pos(s.drop_first())
    }
}

proof fn lemma_eq_pos(s: Seq<char>)
    ensures
        0 <= spec_eq_pos(s) <= s.len(),
        spec_eq_pos(s) < s.len() ==> s[spec_eq_pos(s)] == '=',
        forall|j: int| 0 <= j < spec_eq_pos(s) ==> s[j] != '=',
    decreases s.len(),
{
    if s.len() > 0 && s[0] != '=' {
        lemma_eq_pos(s.drop_first());
        assert forall|j: int| 0 <= j < spec_eq_pos(s) implies s[j] != '=' by {
            if j > 0 {
                assert(s.drop_first()[j - 1] == s[j]);
            }
        }
    }
}

/// The session identifier carried by the set-cookie header: the 24
/// characters after the first '=', where the header is long enough.
pub open spec fn spec_session_id_of(s: Seq<char>) -> Option<Seq<char>> {
    let p = spec_eq_pos(s);
    if p < s.len() && p + 25 <= s.len() {
        Some(s.subrange(p + 1, p + 25))
    } else {
        None
    }
}

/// Cuts the session identifier out of the set-cookie header.
pub fn extract_session_id(header: &str) -> (r: Option<String>)
    ensures
        match r {
            Some(v) => spec_session_id_of(header@) == Some(v@),
            None => spec_session_id_of(header@) is None,
        },
{
    let n = header.unicode_len();
    let mut i: usize = 0;
    while i < n
        invariant
            0 <= i <= n,
            n == header@.len(),
            forall|j: int| 0 <= j < i ==> header@[j] != '=',
        decreases n - i,
    {
        if header.get_char(i) == '=' {
            proof {
                lemma_eq_pos(header@);
                let p = spec_eq_pos(header@);
                if p < i {
                    assert(header@[p] == '=');
                }
                if p > i {
                    assert(header@[i as int] != '=');
                }
                assert(p == i);
            }
            if n - i >= 25 {
                let sid = header.substring_char(i + 1, i + 25);
                return Some(String::from_str(sid));
            } else {
                return None;
            }
        }
        i += 1;
    }
    proof {
        lemma_eq_pos(header@);
        let p = spec_eq_pos(header@);
        if p < n {
            assert(header@[p] == '=');
        }
        assert(p == n);
    }
    None
}

/// The synchronized time: the local clock plus the measured offset.
pub open spec fn spec_synced_time(local_time: u64, offset: i64) -> u64 {
    (local_time + offset) as u64
}

/// The time fields a handshake attempt may carry without arithmetic ever
/// leaving the machine's range.
pub open spec fn spec_time_fields_ok(local_time: u64, offset: i64) -> bool {
    &&& local_time <= 0x100_0000_0000u64
    &&& -0x100_0000_0000i64 <= offset <= 0x100_0000_0000i64
    &&& local_time + offset >= 0
}

/// The key material decodes as hex and rsa would accept it: the modulus
/// holds at least 11 and at most 512 significant bytes, the exponent lies
/// in rsa's accepted range.
pub open spec fn spec_key_material_ok(rsa: RSAResponse) -> bool {
    &&& spec_hex_decode(rsa.publickey_mod@) is Some
    &&& spec_hex_decode(rsa.publickey_exp@) is Some
    &&& spec_be_sig_len(spec_hex_decode(rsa.publickey_mod@)->Some_0) >= 11
    &&& spec_rsa_key_accepted(
        spec_hex_decode(rsa.publickey_mod@)->Some_0,
        spec_hex_decode(rsa.publickey_exp@)->Some_0,
    )
}

/// The password's UTF-8 bytes do not fit the key's PKCS#1 v1.5 bound of
/// key size minus 11.
pub open spec fn spec_password_too_long<M>(user: SteamUser<M>, rsa: RSAResponse) -> bool {
    vstd::utf8::encode_utf8(user.password@).len() + 11 > spec_be_sig_len(
        spec_hex_decode(rsa.publickey_mod@)->Some_0,
    )
}

/// The bundle's two-factor secret is not valid base64.
pub open spec fn spec_bad_shared_secret<M>(user: SteamUser<M>) -> bool {
    user.mafile is Some && crate::crypto::base64_std_decode_of(
        user.mafile->Some_0.shared_secret@,
    ) is None
}

/// Builds the credential payload: decode and vet the public-key material,
/// encrypt the password under it, compute the one-time code at the
/// synchronized time where the secret bundle is present, and fill the wire
/// fields. Every failure is exact; the password field is the standard
/// base64 of a key-sized ciphertext whose bytes depend on the encryption's
/// random padding.
pub fn build_login_submission<M>(
    user: &SteamUser<M>,
    rsa: &RSAResponse,
    time_offset: i64,
    local_time: u64,
    captcha: Option<&LoginCaptcha>,
) -> (r: Result<LoginRequest, LoginOutcome>)
    requires
        spec_time_fields_ok(local_time, time_offset),
    ensures
        match r {
            Ok(req) => {
                &&& spec_key_material_ok(*rsa)
                &&& !spec_password_too_long(*user, *rsa)
                &&& !spec_bad_shared_secret(*user)
                &&& req.username@ == user.username@
                &&& req.donotcache@ == spec_i64_dec(time_offset * 1000)
                &&& req.twofactorcode@ == (if user.mafile is Some {
                    spec_auth_code(
                        crate::crypto::base64_std_decode_of(
                            user.mafile->Some_0.shared_secret@,
                        )->Some_0,
                        spec_synced_time(local_time, time_offset),
                    )
                } else {
                    Seq::<char>::empty()
                })
                &&& (exists|c: Seq<u8>|
                    req.password@ == #[trigger] base64_std_of(c) && c.len() == spec_be_sig_len(
                        spec_hex_decode(rsa.publickey_mod@)->Some_0,
                    ))
                &&& req.emailauth@.len() == 0
                &&& req.emailsteamid@.len() == 0
                &&& req.captcha_gid@ == (match captcha {
                    Some(c) => c.guid@,
                    None => "-1"@,
                })
                &&& req.captcha_text@ == (match captcha {
                    Some(c) => c.text@,
                    None => Seq::<char>::empty(),
                })
                &&& req.rsa_timestamp@ == rsa.timestamp@
                &&& req.remember_login@ == "false"@
                &&& req.oauth_client_id@ == "DE45CD61"@
                &&& req.oauth_scope@ == "read_profile write_profile read_client write_client"@
            },
            Err(o) => {
                if spec_hex_decode(rsa.publickey_mod@) is None || spec_hex_decode(
                    rsa.publickey_exp@,
                ) is None {
                    o matches LoginOutcome::TransientFailure(m) && m@ == MSG_BAD_RSA_HEX@
                } else if !spec_key_material_ok(*rsa) {
                    o matches LoginOutcome::TransientFailure(m) && m@ == MSG_RSA_KEY_REJECTED@
                } else if spec_password_too_long(*user, *rsa) {
                    o matches LoginOutcome::GeneralFailure(m) && m@ == MSG_PASSWORD_TOO_LONG@
                } else {
                    spec_bad_shared_secret(*user) && (o matches LoginOutcome::GeneralFailure(m)
                        && m@ == MSG_BAD_SHARED_SECRET@)
                }
            },
        },
{
    let modulus = match hex_decode(rsa.publickey_mod.as_str()) {
        Some(m) => m,
        None => {
            return Err(LoginOutcome::TransientFailure(String::from_str(MSG_BAD_RSA_HEX)));
        },
    };
    let exponent = match hex_decode(rsa.publickey_exp.as_str()) {
        Some(e) => e,
        None => {
            return Err(LoginOutcome::TransientFailure(String::from_str(MSG_BAD_RSA_HEX)));
        },
    };
    let key_size = be_sig_len(modulus.as_slice());
    if key_size < 11 || key_size > 512 || !be_val_in_exponent_range(exponent.as_slice()) {
        return Err(LoginOutcome::TransientFailure(String::from_str(MSG_RSA_KEY_REJECTED)));
    }
    let password_bytes = user.password.as_str().as_bytes_vec();
    if password_bytes.len() > key_size - 11 {
        return Err(LoginOutcome::GeneralFailure(String::from_str(MSG_PASSWORD_TOO_LONG)));
    }
    let synced: u64 = ((local_time as i64) + time_offset) as u64;
    let two_factor_code = match &user.mafile {
        Some(f) => {
            let secret = match crate::crypto::base64_decode(f.shared_secret.as_str()) {
                Some(bytes) => Secret::new(bytes),
                None => {
                    return Err(
                        LoginOutcome::GeneralFailure(String::from_str(MSG_BAD_SHARED_SECRET)),
                    );
                },
            };
            generate_auth_code(&secret, synced)
        },
        None => String::new(),
    };
    // the checks above are exactly the wrapper's success condition
    let encrypted = match rsa_encrypt_pkcs1v15(
        modulus.as_slice(),
        exponent.as_slice(),
        password_bytes.as_slice(),
    ) {
        Some(c) => c,
        None => unreached(),
    };
    let password_b64 = base64_encode(encrypted.as_slice());
    let captcha_gid = match captcha {
        Some(c) => c.guid.clone(),
        None => String::from_str("-1"),
    };
    let captcha_text = match captcha {
        Some(c) => c.text.clone(),
        None => String::new(),
    };
    Ok(
        LoginRequest {
            donotcache: i64_to_dec_string(time_offset * 1000),
            username: user.username.clone(),
            password: password_b64,
            twofactorcode: two_factor_code,
            emailauth: String::new(),
            captcha_gid,
            captcha_text,
            emailsteamid: String::new(),
            rsa_timestamp: rsa.timestamp.clone(),
            remember_login: String::from_str("false"),
            oauth_client_id: String::from_str("DE45CD61"),
            oauth_scope: String::from_str("read_profile write_profile read_client write_client"),
        },
    )
}

/// What one handshake attempt consumes from the transport, as plain
/// values: the session cookie header, the measured time offset, the
/// public-key material, the local clock at submission, and the
/// submission's reply. A missing stage stands for that stage's request
/// failing.
#[derive(Debug)]
pub struct AttemptScript {
    pub session_set_cookie: Option<String>,
    pub time_offset: Option<i64>,
    pub rsa: Option<RSAResponse>,
    pub local_time: u64,
    pub submit: LoginReply,
}

impl AttemptScript {
    /// The time fields stay inside the machine's range.
    pub open spec fn wf(&self) -> bool {
        match self.time_offset {
            Some(o) => spec_time_fields_ok(self.local_time, o),
            None => true,
        }
    }
}

/// An attempt fails before the submission, retryably, when a stage's reply
/// is missing, the session cookie holds no identifier, the key material is
/// not hex, or rsa would reject the key. The exact reason, in order of
/// discovery:
pub open spec fn spec_stage_transient_msg(a: AttemptScript) -> Option<Seq<char>> {
    if a.session_set_cookie is None {
        Some(MSG_NO_SESSION_COOKIE@)
    } else if spec_session_id_of(a.session_set_cookie->Some_0@) is None {
        Some(MSG_NO_SESSION_COOKIE@)
    } else if a.time_offset is None {
        Some(MSG_NO_TIME_OFFSET@)
    } else if a.rsa is None {
        Some(MSG_NO_RSA_KEY@)
    } else if spec_hex_decode(a.rsa->Some_0.publickey_mod@) is None || spec_hex_decode(
        a.rsa->Some_0.publickey_exp@,
    ) is None {
        Some(MSG_BAD_RSA_HEX@)
    } else if !spec_key_material_ok(a.rsa->Some_0) {
        Some(MSG_RSA_KEY_REJECTED@)
    } else {
        None
    }
}

pub open spec fn spec_stage_transient(a: AttemptScript) -> bool {
    spec_stage_transient_msg(a) is Some
}

/// A submission reply that classifies as transient: the request failed,
/// the body was malformed, or a success payload carried a non-numeric
/// account id.
pub open spec fn spec_submit_transient(reply: LoginReply) -> bool {
    match reply {
        LoginReply::NetworkError(_) => true,
        LoginReply::Malformed(_) => true,
        LoginReply::Parsed { success, oauth, .. } => success && oauth is Some && spec_parse_u64(
            oauth->Some_0.steamid@,
        ) is None,
    }
}

/// Exactly when an attempt's outcome is transient, so the run goes on:
/// a stage failed, or the preparation went through and the submission
/// reply classifies as transient.
pub open spec fn spec_attempt_retries<M>(user: SteamUser<M>, a: AttemptScript) -> bool {
    ||| spec_stage_transient(a)
    ||| (!spec_stage_transient(a) && !spec_password_too_long(user, a.rsa->Some_0)
        && !spec_bad_shared_secret(user) && spec_submit_transient(a.submit))
}

/// What one attempt hands back: the classified outcome, and the session
/// identifier where one was cut out of the cookie header.
#[derive(Debug)]
pub struct AttemptResult {
    pub outcome: LoginOutcome,
    pub session_id: Option<String>,
}

/// The one outcome each attempt has, deterministically: the first failing
/// stage's transient reason; else the two permanent preparation failures,
/// in order; else the classification of the submission's reply.
pub open spec fn spec_attempt_outcome_ok<M>(
    user: SteamUser<M>,
    a: AttemptScript,
    o: LoginOutcome,
) -> bool {
    match spec_stage_transient_msg(a) {
        Some(m) => o matches LoginOutcome::TransientFailure(mm) && mm@ == m,
        None => {
            if spec_password_too_long(user, a.rsa->Some_0) {
                o matches LoginOutcome::GeneralFailure(m) && m@ == MSG_PASSWORD_TOO_LONG@
            } else if spec_bad_shared_secret(user) {
                o matches LoginOutcome::GeneralFailure(m) && m@ == MSG_BAD_SHARED_SECRET@
            } else {
                spec_classified(a.submit, o)
            }
        },
    }
}

/// What run_attempt promises of its result: the attempt's one outcome, and
/// the session identifier exactly where the cookie stage produced one.
pub open spec fn spec_attempt_result_ok<M>(
    user: SteamUser<M>,
    a: AttemptScript,
    r: AttemptResult,
) -> bool {
    &&& spec_attempt_outcome_ok(user, a, r.outcome)
    &&& (match a.session_set_cookie {
        Some(h) => (match spec_session_id_of(h@) {
            Some(sid) => r.session_id matches Some(s) && s@ == sid,
            None => r.session_id is None,
        }),
        None => r.session_id is None,
    })
}

/// Runs one handshake attempt over its scripted replies.
pub fn run_attempt<M>(user: &SteamUser<M>, a: &AttemptScript) -> (r: AttemptResult)
    requires
        a.wf(),
    ensures
        spec_attempt_result_ok(*user, *a, r),
{
    let header = match &a.session_set_cookie {
        Some(h) => h,
        None => {
            return AttemptResult {
                outcome: LoginOutcome::TransientFailure(String::from_str(MSG_NO_SESSION_COOKIE)),
                session_id: None,
            };
        },
    };
    let session_id = match extract_session_id(header.as_str()) {
        Some(sid) => sid,
        None => {
            return AttemptResult {
                outcome: LoginOutcome::TransientFailure(String::from_str(MSG_NO_SESSION_COOKIE)),
                session_id: None,
            };
        },
    };
    let offset = match a.time_offset {
        Some(o) => o,
        None => {
            return AttemptResult {
                outcome: LoginOutcome::TransientFailure(String::from_str(MSG_NO_TIME_OFFSET)),
                session_id: Some(session_id),
            };
        },
    };
    let rsa = match &a.rsa {
        Some(r) => r,
        None => {
            return AttemptResult {
                outcome: LoginOutcome::TransientFailure(String::from_str(MSG_NO_RSA_KEY)),
                session_id: Some(session_id),
            };
        },
    };
    match build_login_submission(user, rsa, offset, a.local_time, None) {
        Ok(_req) => {
            let outcome = classify_login_reply(&a.submit);
            AttemptResult { outcome, session_id: Some(session_id) }
        },
        Err(o) => AttemptResult { outcome: o, session_id: Some(session_id) },
    }
}

/// What a whole successful login run hands back.
#[derive(Debug)]
pub struct LoginSuccessData {
    pub cache: SessionCache,
    pub session_id: String,
}

/// How a final, non-retried outcome surfaces as the run's error, case by
/// case; a transient outcome surfaces only once the run is `exhausted` —
/// out of attempts or out of budget — and a success never surfaces as an
/// error at all.
pub open spec fn spec_error_of_outcome(o: LoginOutcome, e: AuthError, exhausted: bool) -> bool {
    match o {
        LoginOutcome::Success(_) => false,
        LoginOutcome::CaptchaRequired { guid } => (e matches AuthError::Login(
            LoginError::CaptchaRequired { captcha_guid },
        ) && captcha_guid@ == guid@),
        LoginOutcome::IncorrectCredentials => e matches AuthError::Login(
            LoginError::IncorrectCredentials,
        ),
        LoginOutcome::GeneralFailure(m) => (e matches AuthError::Login(
            LoginError::GeneralFailure(m2),
        ) && m2@ == m@),
        LoginOutcome::TransientFailure(m) => exhausted && (e matches AuthError::Internal(
            InternalError::NetworkFailure(m2),
        ) && m2@ == m@),
    }
}

/// Drives the handshake under the retry policy over a scripted sequence
/// of attempts: every attempt before the last came back transient and was
/// retried; the run stops at the first final outcome, or with the last
/// transient one once the attempts or the policy's budget run out. The
/// pair carries the result and how many attempts were spent.
pub fn run_login_attempts<M>(
    user: &SteamUser<M>,
    attempts: &Vec<AttemptScript>,
    policy: &RetryPolicy,
) -> (r: (Result<LoginSuccessData, AuthError>, usize))
    requires
        policy.wf(),
        forall|i: int| 0 <= i < attempts@.len() ==> (#[trigger] attempts@[i]).wf(),
    ensures
        attempts@.len() == 0 ==> r.0 is Err && r.1 == 0,
        attempts@.len() > 0 ==> 1 <= r.1 <= attempts@.len() && r.1 <= policy.max_attempts,
        forall|j: int| 0 <= j < r.1 - 1 ==> spec_attempt_retries(*user, #[trigger] attempts@[j]),
        (match r.0 {
            Ok(d) => {
                &&& r.1 >= 1
                &&& spec_attempt_outcome_ok(
                    *user,
                    attempts@[r.1 - 1],
                    LoginOutcome::Success(d.cache),
                )
                &&& d.cache.api_key is None
                &&& Some(d.session_id@) == spec_session_id_of(
                    attempts@[r.1 - 1].session_set_cookie->Some_0@,
                )
            },
            Err(e) => attempts@.len() == 0 || (exists|o: LoginOutcome|
                #[trigger] spec_attempt_outcome_ok(*user, attempts@[r.1 - 1], o)
                    && spec_error_of_outcome(
                    o,
                    e,
                    r.1 == policy.max_attempts || r.1 == attempts@.len(),
                )),
        }),
{
    let n = attempts.len();
    if n == 0 {
        return (
            Err(
                AuthError::Internal(
                    InternalError::NetworkFailure(String::from_str(MSG_NEVER_ATTEMPTED)),
                ),
            ),
            0,
        );
    }
    let mut i: usize = 0;
    loop
        invariant
            0 <= i < n,
            n == attempts@.len(),
            i < policy.max_attempts,
            policy.wf(),
            forall|k: int| 0 <= k < attempts@.len() ==> (#[trigger] attempts@[k]).wf(),
            forall|j: int| 0 <= j < i ==> spec_attempt_retries(*user, #[trigger] attempts@[j]),
        decreases n - i,
    {
        let result = run_attempt(user, &attempts[i]);
        let ghost the_outcome = result.outcome;
        let used = i + 1;
        let exhausted = used >= policy.max_attempts as usize || used >= n;
        match result.outcome {
            LoginOutcome::Success(cache) => {
                let sid = match result.session_id {
                    Some(s) => s,
                    None => unreached(),
                };
                proof {
                    assert(the_outcome == LoginOutcome::Success(cache));
                }
                return (Ok(LoginSuccessData { cache, session_id: sid }), used);
            },
            LoginOutcome::CaptchaRequired { guid } => {
                let e = AuthError::Login(LoginError::CaptchaRequired { captcha_guid: guid });
                proof {
                    assert(spec_attempt_outcome_ok(*user, attempts@[i as int], the_outcome));
                    assert(spec_error_of_outcome(the_outcome, e, exhausted));
                }
                return (Err(e), used);
            },
            LoginOutcome::IncorrectCredentials => {
                let e = AuthError::Login(LoginError::IncorrectCredentials);
                proof {
                    assert(spec_attempt_outcome_ok(*user, attempts@[i as int], the_outcome));
                    assert(spec_error_of_outcome(the_outcome, e, exhausted));
                }
                return (Err(e), used);
            },
            LoginOutcome::GeneralFailure(m) => {
                let e = AuthError::Login(LoginError::GeneralFailure(m));
                proof {
                    assert(spec_attempt_outcome_ok(*user, attempts@[i as int], the_outcome));
                    assert(spec_error_of_outcome(the_outcome, e, exhausted));
                }
                return (Err(e), used);
            },
            LoginOutcome::TransientFailure(m) => {
                if exhausted {
                    let e = AuthError::Internal(InternalError::NetworkFailure(m));
                    proof {
                        assert(spec_attempt_outcome_ok(*user, attempts@[i as int], the_outcome));
                        assert(spec_error_of_outcome(the_outcome, e, true));
                    }
                    return (Err(e), used);
                }
                // a transient outcome with budget left: the attempt retries
                proof {
                    assert(spec_attempt_retries(*user, attempts@[i as int]));
                }
            },
        }
        i = used;
    }
}

} // verus!
