//! The long-lived per-account identity: credentials, and, where the account
//! carries one, the secret bundle with the two-factor and confirmation
//! secrets. Whether the bundle is present is tracked at the type level.

use vstd::prelude::*;
use core::marker::PhantomData;

verus! {

/// The persisted secret bundle: two-factor shared secret, confirmation
/// signing secret, and the device identifier, all as handed out by the
/// service.
#[derive(Debug)]
pub struct MobileAuthFile {
    /// Base64 form of the two-factor shared secret.
    pub shared_secret: String,
    /// Base64 form of the confirmation signing secret.
    pub identity_secret: String,
    pub device_id: String,
    pub account_name: Option<String>,
}

impl MobileAuthFile {
    pub fn new(shared_secret: String, identity_secret: String, device_id: String) -> (r:
        MobileAuthFile)
        ensures
            r.shared_secret == shared_secret,
            r.identity_secret == identity_secret,
            r.device_id == device_id,
            r.account_name is None,
    {
        MobileAuthFile { shared_secret, identity_secret, device_id, account_name: None }
    }

    pub fn duplicate(&self) -> (r: MobileAuthFile)
        ensures
            r == *self,
    {
        MobileAuthFile {
            shared_secret: self.shared_secret.clone(),
            identity_secret: self.identity_secret.clone(),
            device_id: self.device_id.clone(),
            account_name: match &self.account_name {
                Some(n) => Some(n.clone()),
                None => None,
            },
        }
    }
}

/// Type-level mark: the identity carries its secret bundle.
#[derive(Clone, Copy, Debug)]
pub struct PresentMaFile;

/// Type-level mark: the identity has no secret bundle.
#[derive(Clone, Copy, Debug)]
pub struct AbsentMaFile;

/// An account identity. `MaFileState` says at the type level whether the
/// secret bundle is present; the bundle field agrees with the mark through
/// the constructors, which are the only way to build one.
#[derive(Debug)]
pub struct SteamUser<MaFileState> {
    pub username: String,
    pub password: String,
    pub parental_code: Option<String>,
    pub mafile: Option<MobileAuthFile>,
    pub mafile_state: PhantomData<MaFileState>,
}

impl<M> SteamUser<M> {
    /// The bundle is there to be used.
    pub open spec fn has_mafile(&self) -> bool {
        self.mafile is Some
    }
}

impl SteamUser<AbsentMaFile> {
    pub fn new(username: String, password: String) -> (r: SteamUser<AbsentMaFile>)
        ensures
            r.username == username,
            r.password == password,
            !r.has_mafile(),
            r.parental_code is None,
    {
        SteamUser {
            username,
            password,
            parental_code: None,
            mafile: None,
            mafile_state: PhantomData,
        }
    }
}

impl SteamUser<PresentMaFile> {
    pub fn with_mafile(username: String, password: String, mafile: MobileAuthFile) -> (r: SteamUser<
        PresentMaFile,
    >)
        ensures
            r.username == username,
            r.password == password,
            r.mafile == Some(mafile),
            r.has_mafile(),
            r.parental_code is None,
    {
        SteamUser {
            username,
            password,
            parental_code: None,
            mafile: Some(mafile),
            mafile_state: PhantomData,
        }
    }

    /// The confirmation signing secret, in its base64 form.
    pub fn identity_secret(&self) -> (r: &String)
        requires
            self.has_mafile(),
        ensures
            *r == self.mafile->Some_0.identity_secret,
    {
        match &self.mafile {
            Some(f) => &f.identity_secret,
            None => unreached(),
        }
    }

    /// The two-factor shared secret, in its base64 form.
    pub fn shared_secret(&self) -> (r: &String)
        requires
            self.has_mafile(),
        ensures
            *r == self.mafile->Some_0.shared_secret,
    {
        match &self.mafile {
            Some(f) => &f.shared_secret,
            None => unreached(),
        }
    }

    pub fn device_id(&self) -> (r: &String)
        requires
            self.has_mafile(),
        ensures
            *r == self.mafile->Some_0.device_id,
    {
        match &self.mafile {
            Some(f) => &f.device_id,
            None => unreached(),
        }
    }
}

} // verus!
