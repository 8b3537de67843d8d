//! The wire-facing value types: what the service's endpoints take and hand
//! back, held as plain values. Serialization lives outside the library; the
//! contracts here fix the field values themselves.

use vstd::prelude::*;

verus! {

/// A solved captcha, quoted back to the login endpoint.
#[derive(Debug)]
pub struct LoginCaptcha {
    /// Captcha GUID, i.e. its unique identifier.
    pub guid: String,
    /// Text transcription of the captcha.
    pub text: String,
}

/// One batched confirmation action: scalar fields plus the flattened,
/// indexed id and key lists.
#[derive(Debug)]
pub struct ConfirmationMultiAcceptRequest {
    pub steamid: String,
    pub confirmation_hash: String,
    pub device_kind: String,
    /// Accept or cancel confirmation.
    pub operation: String,
    pub device_id: String,
    pub time: String,
    pub tag: String,
    pub confirmation_id: Vec<(String, String)>,
    pub confirmation_key: Vec<(String, String)>,
}

impl Default for ConfirmationMultiAcceptRequest {
    fn default() -> (r: ConfirmationMultiAcceptRequest)
        ensures
            r.steamid@.len() == 0,
            r.confirmation_hash@.len() == 0,
            r.device_kind@ == "android"@,
            r.operation@.len() == 0,
            r.device_id@.len() == 0,
            r.time@.len() == 0,
            r.tag@ == "conf"@,
            r.confirmation_id@.len() == 0,
            r.confirmation_key@.len() == 0,
    {
        ConfirmationMultiAcceptRequest {
            steamid: String::new(),
            confirmation_hash: String::new(),
            device_kind: String::from_str("android"),
            operation: String::new(),
            device_id: String::new(),
            time: String::new(),
            tag: String::from_str("conf"),
            confirmation_id: Vec::new(),
            confirmation_key: Vec::new(),
        }
    }
}

#[derive(Debug)]
pub struct ConfirmationDetailsResponse {
    pub success: bool,
    pub html: String,
}

#[derive(Debug)]
pub struct ParentalUnlockResponse {
    pub success: bool,
    /// The service's numeric result code.
    pub eresult: i32,
    pub error_message: bool,
}

#[derive(Debug)]
pub struct BooleanResponse {
    pub success: bool,
}

#[derive(Debug)]
pub struct ParentalUnlockRequest {
    /// Parental unlock code.
    pub pin: String,
    pub sessionid: String,
}

#[derive(Debug)]
pub struct IEconServiceGetTradeOffersRequest {
    pub active_only: u8,
    pub get_descriptions: u8,
    pub get_sent_offers: u8,
    pub get_received_offers: u8,
    pub api_key: String,
    pub time_historical_cutoff: u32,
}

impl Default for IEconServiceGetTradeOffersRequest {
    fn default() -> (r: IEconServiceGetTradeOffersRequest)
        ensures
            r.active_only == 1,
            r.get_descriptions == 1,
            r.get_received_offers == 1,
            r.get_sent_offers == 0,
            r.api_key@.len() == 0,
            r.time_historical_cutoff == u32::MAX,
    {
        IEconServiceGetTradeOffersRequest {
            active_only: 1,
            get_descriptions: 1,
            get_received_offers: 1,
            get_sent_offers: 0,
            api_key: String::new(),
            time_historical_cutoff: u32::MAX,
        }
    }
}

#[derive(Debug)]
pub struct LoginErrorGenericMessage {
    pub success: bool,
    pub message: String,
}

/// The successful login payload: flags plus the embedded token block.
#[derive(Debug)]
pub struct LoginResponseMobile {
    pub success: bool,
    pub requires_twofactor: bool,
    pub redirect_uri: String,
    pub login_complete: bool,
    pub oauth: Oauth,
}

/// The embedded OAuth-style token block of a successful login.
#[derive(Debug)]
pub struct Oauth {
    pub steamid: String,
    pub account_name: String,
    /// Also known as the access token; refreshes sessions.
    pub oauth_token: String,
    pub wgtoken: String,
    pub wgtoken_secure: String,
}

impl Oauth {
    pub fn duplicate(&self) -> (r: Oauth)
        ensures
            r == *self,
    {
        Oauth {
            steamid: self.steamid.clone(),
            account_name: self.account_name.clone(),
            oauth_token: self.oauth_token.clone(),
            wgtoken: self.wgtoken.clone(),
            wgtoken_secure: self.wgtoken_secure.clone(),
        }
    }
}

#[derive(Debug)]
pub struct ApiKeyRegisterRequest {
    pub agree_to_terms: String,
    pub domain: String,
    pub submit: String,
}

impl Default for ApiKeyRegisterRequest {
    fn default() -> (r: ApiKeyRegisterRequest)
        ensures
            r.agree_to_terms@ == "agreed"@,
            r.domain@ == "localhost"@,
            r.submit@ == "Register"@,
    {
        ApiKeyRegisterRequest {
            agree_to_terms: String::from_str("agreed"),
            domain: String::from_str("localhost"),
            submit: String::from_str("Register"),
        }
    }
}

#[derive(Debug)]
pub struct ISteamUserAuthResponse {
    pub token: String,
    pub token_secure: String,
}

#[derive(Debug)]
pub struct ISteamUserAuthRequest {
    pub steamid: String,
    pub session_key: String,
    pub encrypted_loginkey: String,
}

#[derive(Debug)]
pub struct ResolveVanityUrlBaseResponse {
    pub response: ResolveVanityUrlResponse,
}

#[derive(Debug)]
pub struct ResolveVanityUrlResponse {
    pub steamid: String,
    pub success: i64,
}

#[derive(Debug)]
pub struct ResolveVanityUrlRequest {
    pub api_key: String,
    pub vanity_url: String,
}

#[derive(Debug)]
pub struct RSAResponseBase {
    pub inner: RSAResponse,
}

/// The public-key material for password encryption: modulus and exponent
/// as hex text, and the timestamp quoted back on submission.
#[derive(Debug)]
pub struct RSAResponse {
    pub publickey_mod: String,
    pub publickey_exp: String,
    pub timestamp: String,
}

impl RSAResponse {
    pub fn duplicate(&self) -> (r: RSAResponse)
        ensures
            r == *self,
    {
        RSAResponse {
            publickey_mod: self.publickey_mod.clone(),
            publickey_exp: self.publickey_exp.clone(),
            timestamp: self.timestamp.clone(),
        }
    }
}

/// The credential payload of the login submission, wire field by wire
/// field.
#[derive(Debug)]
pub struct LoginRequest {
    pub donotcache: String,
    pub username: String,
    /// The password, RSA-encrypted and base64-rendered.
    pub password: String,
    pub twofactorcode: String,
    pub emailauth: String,
    pub captcha_gid: String,
    pub captcha_text: String,
    pub emailsteamid: String,
    pub rsa_timestamp: String,
    pub remember_login: String,
    pub oauth_client_id: String,
    pub oauth_scope: String,
}

impl LoginRequest {
    /// The submission as the wire's form fields, in order, under the exact
    /// names the endpoint takes.
    pub fn to_form_fields(&self) -> (r: Vec<(String, String)>)
        ensures
            r@.len() == 12,
            r@[0].0@ == "donotcache"@ && r@[0].1 == self.donotcache,
            r@[1].0@ == "username"@ && r@[1].1 == self.username,
            r@[2].0@ == "password"@ && r@[2].1 == self.password,
            r@[3].0@ == "twofactorcode"@ && r@[3].1 == self.twofactorcode,
            r@[4].0@ == "emailauth"@ && r@[4].1 == self.emailauth,
            r@[5].0@ == "captchagid"@ && r@[5].1 == self.captcha_gid,
            r@[6].0@ == "captcha_text"@ && r@[6].1 == self.captcha_text,
            r@[7].0@ == "emailsteamid"@ && r@[7].1 == self.emailsteamid,
            r@[8].0@ == "rsatimestamp"@ && r@[8].1 == self.rsa_timestamp,
            r@[9].0@ == "remember_login"@ && r@[9].1 == self.remember_login,
            r@[10].0@ == "oauth_client_id"@ && r@[10].1 == self.oauth_client_id,
            r@[11].0@ == "oauth_scope"@ && r@[11].1 == self.oauth_scope,
    {
        let mut out: Vec<(String, String)> = Vec::new();
        out.push((String::from_str("donotcache"), self.donotcache.clone()));
        out.push((String::from_str("username"), self.username.clone()));
        out.push((String::from_str("password"), self.password.clone()));
        out.push((String::from_str("twofactorcode"), self.twofactorcode.clone()));
        out.push((String::from_str("emailauth"), self.emailauth.clone()));
        out.push((String::from_str("captchagid"), self.captcha_gid.clone()));
        out.push((String::from_str("captcha_text"), self.captcha_text.clone()));
        out.push((String::from_str("emailsteamid"), self.emailsteamid.clone()));
        out.push((String::from_str("rsatimestamp"), self.rsa_timestamp.clone()));
        out.push((String::from_str("remember_login"), self.remember_login.clone()));
        out.push((String::from_str("oauth_client_id"), self.oauth_client_id.clone()));
        out.push((String::from_str("oauth_scope"), self.oauth_scope.clone()));
        out
    }
}

#[derive(Debug)]
pub struct FinalizeLoginRequest {
    pub nonce: String,
    pub session_id: String,
    pub redir: String,
}

impl FinalizeLoginRequest {
    pub fn new(refresh_token: String, session_id: String) -> (r: FinalizeLoginRequest)
        ensures
            r.nonce == refresh_token,
            r.session_id == session_id,
            r.redir@ == crate::STEAM_COMMUNITY_BASE@ + "/login/home?goto="@,
    {
        let redir = String::from_str(crate::STEAM_COMMUNITY_BASE).concat("/login/home?goto=");
        FinalizeLoginRequest { nonce: refresh_token, session_id, redir }
    }
}

#[derive(Debug)]
pub struct FinalizeLoginResponseBase {
    pub steam_id: String,
    pub redir: String,
    pub domain_tokens: Vec<DomainToken>,
}

/// One of the service's domains to ping, with its tokens.
#[derive(Debug)]
pub struct DomainToken {
    pub url: String,
    pub params: DomainTokenData,
}

/// Tokens that authenticate into one of the service's domains.
#[derive(Debug)]
pub struct DomainTokenData {
    pub nonce: String,
    pub auth: String,
    pub steam_id: Option<String>,
}

} // verus!
