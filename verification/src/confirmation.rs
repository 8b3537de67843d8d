//! Pending confirmations and what is sent to list them and act on them:
//! the signed listing query, and the batched accept/cancel request with the
//! selected confirmations' ids and keys flattened into indexed pairs.

use vstd::prelude::*;
use crate::signer::{generate_confirmation_hash, spec_confirmation_hash};
use crate::strutil::{spec_parse_u64, spec_u64_dec, string_push, u64_to_dec_string, parse_u64};
use crate::totp::Secret;
use crate::types::ConfirmationMultiAcceptRequest;

verus! {

/// Kinds of mobile confirmations.
#[derive(Debug, Copy, Clone, PartialEq, Eq, Structural)]
pub enum EConfirmationType {
    /// Unknown confirmation.
    Unknown,
    /// Under rare circumstances this might pop up.
    Generic,
    /// Confirmation from a trade offer.
    Trade,
    /// Confirmation from the market.
    Market,
    FeatureOptOut,
    /// Confirmation for a phone number change.
    PhoneNumberChange,
    /// Confirmation for account recovery.
    AccountRecovery,
    /// Confirmation for creating a new API key.
    APIKey,
}

/// The numeric code each kind travels as.
pub open spec fn spec_confirmation_type_code(t: EConfirmationType) -> u8 {
    match t {
        EConfirmationType::Unknown => 0,
        EConfirmationType::Generic => 1,
        EConfirmationType::Trade => 2,
        EConfirmationType::Market => 3,
        EConfirmationType::FeatureOptOut => 4,
        EConfirmationType::PhoneNumberChange => 5,
        EConfirmationType::AccountRecovery => 6,
        EConfirmationType::APIKey => 9,
    }
}

impl EConfirmationType {
    pub fn code(self) -> (r: u8)
        ensures
            r == spec_confirmation_type_code(self),
    {
        match self {
            EConfirmationType::Unknown => 0,
            EConfirmationType::Generic => 1,
            EConfirmationType::Trade => 2,
            EConfirmationType::Market => 3,
            EConfirmationType::FeatureOptOut => 4,
            EConfirmationType::PhoneNumberChange => 5,
            EConfirmationType::AccountRecovery => 6,
            EConfirmationType::APIKey => 9,
        }
    }

    /// The kind a numeric code names, if any.
    pub fn from_code(code: u8) -> (r: Option<EConfirmationType>)
        ensures
            match r {
                Some(t) => spec_confirmation_type_code(t) == code,
                None => code != 0 && code != 1 && code != 2 && code != 3 && code != 4 && code != 5
                    && code != 6 && code != 9,
            },
    {
        match code {
            0 => Some(EConfirmationType::Unknown),
            1 => Some(EConfirmationType::Generic),
            2 => Some(EConfirmationType::Trade),
            3 => Some(EConfirmationType::Market),
            4 => Some(EConfirmationType::FeatureOptOut),
            5 => Some(EConfirmationType::PhoneNumberChange),
            6 => Some(EConfirmationType::AccountRecovery),
            9 => Some(EConfirmationType::APIKey),
            _ => None,
        }
    }
}

/// A pending confirmation, as listed by the service.
#[derive(Debug)]
pub struct Confirmation {
    pub id: String,
    pub key: String,
    pub kind: EConfirmationType,
    pub creation_time: i64,
    pub creator_id: String,
    pub kind_name: String,
}

/// A creator field read as a number, the way a decimal integer parse
/// reads it: digits, allowing one leading plus sign.
pub open spec fn spec_creator_number(s: Seq<char>) -> Option<u64> {
    if s.len() > 0 && s[0] == '+' {
        spec_parse_u64(s.drop_first())
    } else {
        spec_parse_u64(s)
    }
}

impl Confirmation {
    pub fn duplicate(&self) -> (r: Confirmation)
        ensures
            r == *self,
    {
        Confirmation {
            id: self.id.clone(),
            key: self.key.clone(),
            kind: self.kind,
            creation_time: self.creation_time,
            creator_id: self.creator_id.clone(),
            kind_name: self.kind_name.clone(),
        }
    }

    /// The trade offer this confirmation belongs to, where it is one: the
    /// creator field read as a number, meaningful only for the trade kind.
    pub fn trade_offer_id(&self) -> (r: Option<u64>)
        ensures
            r == (if self.kind is Trade {
                spec_creator_number(self.creator_id@)
            } else {
                Option::<u64>::None
            }),
    {
        if matches!(self.kind, EConfirmationType::Trade) {
            let s = self.creator_id.as_str();
            let n = s.unicode_len();
            if n > 0 && s.get_char(0) == '+' {
                let digits = s.substring_char(1, n);
                proof {
                    assert(digits@ =~= self.creator_id@.drop_first());
                }
                parse_u64(digits)
            } else {
                parse_u64(s)
            }
        } else {
            None
        }
    }

    /// Whether this confirmation is the trade kind and belongs to the given
    /// trade offer.
    pub fn has_trade_offer_id(&self, offer_id: u64) -> (r: bool)
        ensures
            r == (self.kind is Trade && spec_creator_number(self.creator_id@) == Some(offer_id)),
    {
        match self.trade_offer_id() {
            Some(v) => v == offer_id,
            None => false,
        }
    }
}

/// A collection of pending confirmations.
#[derive(Debug)]
pub struct Confirmations(pub Vec<Confirmation>);

impl Confirmations {
    pub fn new(items: Vec<Confirmation>) -> (r: Confirmations)
        ensures
            r.0@ == items@,
    {
        Confirmations(items)
    }

    pub fn is_empty(&self) -> (r: bool)
        ensures
            r == (self.0@.len() == 0),
    {
        self.0.len() == 0
    }

    pub fn len(&self) -> (r: usize)
        ensures
            r == self.0@.len(),
    {
        self.0.len()
    }
}

/// What accepting or denying means on the wire, and the tag each action
/// signs with.
#[derive(Debug, Eq, PartialEq, Copy, Clone, Structural)]
pub enum ConfirmationAction {
    Retrieve,
    Accept,
    Deny,
}

impl ConfirmationAction {
    /// The operation field of an acting request; retrieval has none.
    pub fn as_operation(self) -> (r: Option<&'static str>)
        ensures
            match r {
                Some(op) => (self is Accept && op@ == "allow"@) || (self is Deny && op@
                    == "cancel"@),
                None => self is Retrieve,
            },
    {
        match self {
            ConfirmationAction::Accept => Some("allow"),
            ConfirmationAction::Deny => Some("cancel"),
            ConfirmationAction::Retrieve => None,
        }
    }

    /// The tag the action signs with: listing signs "conf", acting signs
    /// the operation itself.
    pub fn as_tag(self) -> (r: &'static str)
        ensures
            (self is Retrieve ==> r@ == "conf"@),
            (self is Accept ==> r@ == "allow"@),
            (self is Deny ==> r@ == "cancel"@),
    {
        match self {
            ConfirmationAction::Retrieve => "conf",
            ConfirmationAction::Accept => "allow",
            ConfirmationAction::Deny => "cancel",
        }
    }
}

/// Details fetched for one confirmation.
#[derive(Debug, Clone, Copy, PartialEq, Eq, Structural)]
pub struct ConfirmationDetails {
    /// The trade offer id, where the confirmation is the trade kind.
    pub trade_offer_id: Option<i64>,
}

/// The scalar query parameters every confirmation request carries: device
/// id, account id, signature, time, device kind, and tag.
pub open spec fn spec_confirmation_query(
    secret: Seq<u8>,
    device_id: Seq<char>,
    steamid: u64,
    time: u64,
    tag: Seq<char>,
) -> Seq<(Seq<char>, Seq<char>)> {
    seq![
        ("p"@, device_id),
        ("a"@, spec_u64_dec(steamid as nat)),
        ("k"@, spec_confirmation_hash(secret, tag, time)),
        ("t"@, spec_u64_dec(time as nat)),
        ("m"@, "android"@),
        ("tag"@, tag),
    ]
}

/// Builds the signed listing query: sign the action's tag at the
/// synchronized time and attach device id, account id, time, and the
/// device-kind constant.
pub fn build_confirmation_query(
    secret: &Secret,
    device_id: &str,
    steamid: u64,
    time: u64,
    action: ConfirmationAction,
) -> (r: Vec<(String, String)>)
    ensures
        r@.len() == 6,
        ({
            let q = spec_confirmation_query(
                secret.bytes@,
                device_id@,
                steamid,
                time,
                spec_action_tag(action),
            );
            forall|i: int|
                0 <= i < 6 ==> (#[trigger] r@[i]).0@ == q[i].0 && r@[i].1@ == q[i].1
        }),
{
    let tag = action.as_tag();
    let hash = generate_confirmation_hash(secret, tag, time);
    let mut out: Vec<(String, String)> = Vec::new();
    out.push((String::from_str("p"), String::from_str(device_id)));
    out.push((String::from_str("a"), u64_to_dec_string(steamid)));
    out.push((String::from_str("k"), hash));
    out.push((String::from_str("t"), u64_to_dec_string(time)));
    out.push((String::from_str("m"), String::from_str("android")));
    out.push((String::from_str("tag"), String::from_str(tag)));
    out
}

/// The tag an action signs with.
pub open spec fn spec_action_tag(action: ConfirmationAction) -> Seq<char> {
    match action {
        ConfirmationAction::Retrieve => "conf"@,
        ConfirmationAction::Accept => "allow"@,
        ConfirmationAction::Deny => "cancel"@,
    }
}

/// The operation field of an acting request.
pub open spec fn spec_action_operation(action: ConfirmationAction) -> Seq<char> {
    match action {
        ConfirmationAction::Retrieve => Seq::empty(),
        ConfirmationAction::Accept => "allow"@,
        ConfirmationAction::Deny => "cancel"@,
    }
}

/// The indexed parameter name for the i-th selected id.
pub open spec fn spec_id_key(i: nat) -> Seq<char> {
    "id["@ + spec_u64_dec(i) + seq![']']
}

/// The indexed parameter name for the i-th selected key.
pub open spec fn spec_key_key(i: nat) -> Seq<char> {
    "key["@ + spec_u64_dec(i) + seq![']']
}

/// The batched acting request is exactly this: the action's operation and
/// tag, a signature of that tag at the given time, the account and device
/// fields, and one indexed id/key pair per selected confirmation.
pub open spec fn spec_multi_accept_request(
    r: ConfirmationMultiAcceptRequest,
    secret: Seq<u8>,
    device_id: Seq<char>,
    steamid: u64,
    time: u64,
    action: ConfirmationAction,
    items: Seq<Confirmation>,
) -> bool {
    &&& r.steamid@ == spec_u64_dec(steamid as nat)
    &&& r.confirmation_hash@ == spec_confirmation_hash(secret, spec_action_tag(action), time)
    &&& r.device_kind@ == "android"@
    &&& r.operation@ == spec_action_operation(action)
    &&& r.device_id@ == device_id
    &&& r.time@ == spec_u64_dec(time as nat)
    &&& r.tag@ == spec_action_tag(action)
    &&& r.confirmation_id@.len() == items.len()
    &&& r.confirmation_key@.len() == items.len()
    &&& forall|i: int|
        0 <= i < items.len() ==> (#[trigger] r.confirmation_id@[i]).0@ == spec_id_key(i as nat)
            && r.confirmation_id@[i].1@ == items[i].id@
    &&& forall|i: int|
        0 <= i < items.len() ==> (#[trigger] r.confirmation_key@[i]).0@ == spec_key_key(i as nat)
            && r.confirmation_key@[i].1@ == items[i].key@
}

/// Builds the one batched request that acts on the selected confirmations.
pub fn build_multi_accept_request(
    secret: &Secret,
    device_id: &str,
    steamid: u64,
    action: ConfirmationAction,
    items: &Confirmations,
    time: u64,
) -> (r: ConfirmationMultiAcceptRequest)
    requires
        !(action is Retrieve),
    ensures
        spec_multi_accept_request(r, secret.bytes@, device_id@, steamid, time, action, items.0@),
{
    let tag = action.as_tag();
    let operation = match action.as_operation() {
        Some(op) => String::from_str(op),
        None => String::new(),
    };
    let hash = generate_confirmation_hash(secret, tag, time);
    let n = items.0.len();
    let mut ids: Vec<(String, String)> = Vec::new();
    let mut keys: Vec<(String, String)> = Vec::new();
    let mut i: usize = 0;
    while i < n
        invariant
            0 <= i <= n,
            n == items.0@.len(),
            ids@.len() == i,
            keys@.len() == i,
            forall|j: int|
                0 <= j < i ==> (#[trigger] ids@[j]).0@ == spec_id_key(j as nat) && ids@[j].1@
                    == items.0@[j].id@,
            forall|j: int|
                0 <= j < i ==> (#[trigger] keys@[j]).0@ == spec_key_key(j as nat) && keys@[j].1@
                    == items.0@[j].key@,
        decreases n - i,
    {
        let mut id_name = String::from_str("id[");
        let idx = u64_to_dec_string(i as u64);
        id_name.append(idx.as_str());
        string_push(&mut id_name, ']');
        let mut key_name = String::from_str("key[");
        key_name.append(idx.as_str());
        string_push(&mut key_name, ']');
        ids.push((id_name, items.0[i].id.clone()));
        keys.push((key_name, items.0[i].key.clone()));
        i += 1;
    }
    ConfirmationMultiAcceptRequest {
        steamid: u64_to_dec_string(steamid),
        confirmation_hash: hash,
        device_kind: String::from_str("android"),
        operation,
        device_id: String::from_str(device_id),
        time: u64_to_dec_string(time),
        tag: String::from_str(tag),
        confirmation_id: ids,
        confirmation_key: keys,
    }
}

/// Acting on an empty selection is a no-op: no request leaves. Otherwise
/// exactly one batched request is built, holding only the selected
/// confirmations' ids and keys, signed with the action's tag.
pub fn process_confirmations(
    secret: &Secret,
    device_id: &str,
    steamid: u64,
    action: ConfirmationAction,
    items: &Confirmations,
    time: u64,
) -> (r: Option<ConfirmationMultiAcceptRequest>)
    requires
        !(action is Retrieve),
    ensures
        match r {
            Some(req) => items.0@.len() > 0 && spec_multi_accept_request(
                req,
                secret.bytes@,
                device_id@,
                steamid,
                time,
                action,
                items.0@,
            ),
            None => items.0@.len() == 0,
        },
{
    if items.is_empty() {
        None
    } else {
        Some(build_multi_accept_request(secret, device_id, steamid, action, items, time))
    }
}

} // verus!
