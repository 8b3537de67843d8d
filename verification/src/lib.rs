pub mod client;
pub mod confirmation;
pub mod cookies;
pub mod crypto;
pub mod errors;
pub mod guard;
pub mod linker;
pub mod login;
pub mod retry;
pub mod session;
pub mod signer;
pub mod steamid;
pub mod strutil;
pub mod totp;
pub mod types;
pub mod user;

use vstd::prelude::*;

verus! {

/// Base address of the community site.
pub const STEAM_COMMUNITY_BASE: &'static str = "https://steamcommunity.com";

/// Base address of the store site.
pub const STEAM_STORE_BASE: &'static str = "https://store.steampowered.com";

/// Host of the community site.
pub const STEAM_COMMUNITY_HOST: &'static str = "steamcommunity.com";

/// Host of the help site.
pub const STEAM_HELP_HOST: &'static str = "help.steampowered.com";

/// Host of the store site.
pub const STEAM_STORE_HOST: &'static str = "store.steampowered.com";

/// The page the mobile login flow starts from.
pub const MOBILE_REFERER: &'static str = "https://steamcommunity.com/mobilelogin";

/// Seconds the service needs before a newly added phone number shows up.
pub const STEAM_ADD_PHONE_CATCHUP_SECS: u64 = 5;

/// Milliseconds the handshake waits between the key request and the
/// credential submission.
pub const STEAM_DELAY_MS: u64 = 350;

} // verus!
