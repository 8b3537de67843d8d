//! The numeric account-identifier codec: conversions between the packed
//! 64-bit form, the short "steam3" account number, and the bracketed text
//! forms, plus a scanner that finds either text form inside free text.

use vstd::prelude::*;
use crate::strutil::{
    lemma_dec_val_upper, parse_u64, spec_all_digits, spec_dec_val, spec_digit_val, spec_is_digit,
    spec_parse_u64, spec_pow10,
};

verus! {

#[derive(Debug, Clone, Copy, PartialEq, Eq, Structural)]
pub enum EUniverse {
    Invalid,
    Public,
    Beta,
    Internal,
    Dev,
}

pub open spec fn spec_universe_value(u: EUniverse) -> u8 {
    match u {
        EUniverse::Invalid => 0,
        EUniverse::Public => 1,
        EUniverse::Beta => 2,
        EUniverse::Internal => 3,
        EUniverse::Dev => 4,
    }
}

pub fn universe_value(u: EUniverse) -> (r: u8)
    ensures
        r == spec_universe_value(u),
{
    match u {
        EUniverse::Invalid => 0,
        EUniverse::Public => 1,
        EUniverse::Beta => 2,
        EUniverse::Internal => 3,
        EUniverse::Dev => 4,
    }
}

pub open spec fn spec_universe_of_digit(d: int) -> EUniverse {
    if d == 0 {
        EUniverse::Invalid
    } else if d == 1 {
        EUniverse::Public
    } else if d == 2 {
        EUniverse::Beta
    } else if d == 3 {
        EUniverse::Internal
    } else {
        EUniverse::Dev
    }
}

pub fn universe_of_digit(d: u8) -> (r: EUniverse)
    requires
        d <= 4,
    ensures
        r == spec_universe_of_digit(d as int),
{
    if d == 0 {
        EUniverse::Invalid
    } else if d == 1 {
        EUniverse::Public
    } else if d == 2 {
        EUniverse::Beta
    } else if d == 3 {
        EUniverse::Internal
    } else {
        EUniverse::Dev
    }
}

#[derive(Debug, Clone, Copy, PartialEq, Eq, Structural)]
pub enum EAccountType {
    Invalid,
    Individual,
    Multiseat,
    GameServer,
    AnonGameServer,
    Pending,
    ContentServer,
    Clan,
    Chat,
    ConsoleUser,
    AnonUser,
}

pub open spec fn spec_account_type_value(t: EAccountType) -> u8 {
    match t {
        EAccountType::Invalid => 0,
        EAccountType::Individual => 1,
        EAccountType::Multiseat => 2,
        EAccountType::GameServer => 3,
        EAccountType::AnonGameServer => 4,
        EAccountType::Pending => 5,
        EAccountType::ContentServer => 6,
        EAccountType::Clan => 7,
        EAccountType::Chat => 8,
        EAccountType::ConsoleUser => 9,
        EAccountType::AnonUser => 10,
    }
}

pub fn account_type_value(t: EAccountType) -> (r: u8)
    ensures
        r == spec_account_type_value(t),
{
    match t {
        EAccountType::Invalid => 0,
        EAccountType::Individual => 1,
        EAccountType::Multiseat => 2,
        EAccountType::GameServer => 3,
        EAccountType::AnonGameServer => 4,
        EAccountType::Pending => 5,
        EAccountType::ContentServer => 6,
        EAccountType::Clan => 7,
        EAccountType::Chat => 8,
        EAccountType::ConsoleUser => 9,
        EAccountType::AnonUser => 10,
    }
}

/// The account-type letter used in the bracketed text form.
pub open spec fn spec_account_type_of_symbol(c: char) -> Option<EAccountType> {
    if c == 'A' {
        Some(EAccountType::AnonGameServer)
    } else if c == 'G' {
        Some(EAccountType::GameServer)
    } else if c == 'M' {
        Some(EAccountType::Multiseat)
    } else if c == 'P' {
        Some(EAccountType::Pending)
    } else if c == 'C' {
        Some(EAccountType::ContentServer)
    } else if c == 'g' {
        Some(EAccountType::Clan)
    } else if c == 'T' {
        Some(EAccountType::Chat)
    } else if c == 'I' {
        Some(EAccountType::Invalid)
    } else if c == 'U' {
        Some(EAccountType::Individual)
    } else if c == 'a' {
        Some(EAccountType::AnonUser)
    } else {
        None
    }
}

pub fn account_type_of_symbol(c: char) -> (r: Option<EAccountType>)
    ensures
        r == spec_account_type_of_symbol(c),
{
    if c == 'A' {
        Some(EAccountType::AnonGameServer)
    } else if c == 'G' {
        Some(EAccountType::GameServer)
    } else if c == 'M' {
        Some(EAccountType::Multiseat)
    } else if c == 'P' {
        Some(EAccountType::Pending)
    } else if c == 'C' {
        Some(EAccountType::ContentServer)
    } else if c == 'g' {
        Some(EAccountType::Clan)
    } else if c == 'T' {
        Some(EAccountType::Chat)
    } else if c == 'I' {
        Some(EAccountType::Invalid)
    } else if c == 'U' {
        Some(EAccountType::Individual)
    } else if c == 'a' {
        Some(EAccountType::AnonUser)
    } else {
        None
    }
}

/// An account identifier, split into its packed bit fields.
#[derive(Debug, Clone, Copy, PartialEq, Eq, Structural)]
pub struct SteamID {
    /// The low parity bit.
    pub account_id: bool,
    /// The 31-bit account number.
    pub account_number: u32,
    /// The 20-bit instance field.
    pub account_instance: u32,
    /// The 4-bit account type.
    pub account_type: u8,
    /// The 8-bit universe.
    pub universe: u8,
}

impl SteamID {
    pub open spec fn wf(&self) -> bool {
        &&& self.account_number < 0x8000_0000u32
        &&& self.account_instance < 0x10_0000u32
        &&& self.account_type < 16
    }

    /// The packed 63-bit form: universe (top bit dropped), type, instance,
    /// account number, parity bit.
    pub open spec fn spec_to_steam64(&self) -> u64 {
        (((self.universe & 0x7f) as u64) << 56) | ((self.account_type as u64) << 52) | ((
        self.account_instance as u64) << 32) | ((self.account_number as u64) << 1) | (
        if self.account_id {
            1u64
        } else {
            0u64
        })
    }

    /// The short form: twice the account number plus the parity bit.
    pub open spec fn spec_to_steam3(&self) -> int {
        (self.account_number as int) * 2 + (if self.account_id {
            1int
        } else {
            0int
        })
    }

    pub fn to_steam3(&self) -> (r: u64)
        ensures
            r == self.spec_to_steam3(),
    {
        let z = self.account_number as u64;
        let y: u64 = if self.account_id {
            1
        } else {
            0
        };
        z * 2 + y
    }

    pub fn to_steam64(&self) -> (r: u64)
        ensures
            r == self.spec_to_steam64(),
    {
        (((self.universe & 0x7f) as u64) << 56u64) | ((self.account_type as u64) << 52u64) | ((
        self.account_instance as u64) << 32u64) | ((self.account_number as u64) << 1u64) | (
        if self.account_id {
            1u64
        } else {
            0u64
        })
    }

    /// Defaults: the public universe, an individual account, instance 1.
    pub fn from_steam3(steam3: u32, universe: Option<EUniverse>, account_type: Option<
        EAccountType,
    >) -> (r: SteamID)
        ensures
            r == spec_from_steam3(
                steam3,
                match universe {
                    Some(u) => u,
                    None => EUniverse::Public,
                },
                match account_type {
                    Some(t) => t,
                    None => EAccountType::Individual,
                },
            ),
            r.wf(),
    {
        let u = match universe {
            Some(u) => u,
            None => EUniverse::Public,
        };
        let t = match account_type {
            Some(t) => t,
            None => EAccountType::Individual,
        };
        let parity = steam3 & 1;
        assert(steam3 & 1 == steam3 % 2) by (bit_vector);
        assert((steam3 - steam3 % 2) / 2 == steam3 / 2);
        SteamID {
            account_id: parity != 0,
            account_number: (steam3 - parity) / 2,
            account_instance: 1,
            account_type: account_type_value(t),
            universe: universe_value(u),
        }
    }

    pub fn from_steam64(steam64: u64) -> (r: SteamID)
        ensures
            r == spec_from_steam64(steam64),
            r.wf(),
    {
        let r = SteamID {
            account_id: steam64 & 1 == 1,
            account_number: ((steam64 >> 1u64) & 0x7fff_ffff) as u32,
            account_instance: ((steam64 >> 32u64) & 0xf_ffff) as u32,
            account_type: ((steam64 >> 52u64) & 0xf) as u8,
            universe: (steam64 >> 56u64) as u8,
        };
        assert((steam64 >> 1u64) & 0x7fff_ffff < 0x8000_0000 && (steam64 >> 32u64) & 0xf_ffff
            < 0x10_0000 && (steam64 >> 52u64) & 0xf < 16) by (bit_vector);
        r
    }

    /// Scans free text for either identifier form: the bracketed
    /// "[T:U:D]" form first, then a seventeen-digit number starting with 7.
    pub fn parse(steamid: &str) -> (r: Option<SteamID>)
        ensures
            match r {
                Some(sid) => spec_parse_found(steamid@, sid),
                None => (forall|i: int| !spec_steam3_at(steamid@, i)) && (forall|i: int|
                    !spec_steam64_at(steamid@, i)),
            },
    {
        let n = steamid.unicode_len();
        let mut i: usize = 0;
        while i < n
            invariant
                0 <= i <= n,
                n == steamid@.len(),
                forall|j: int| 0 <= j < i ==> !spec_steam3_at(steamid@, j),
            decreases n - i,
        {
            match steam3_at(steamid, i, n) {
                Some(sid) => {
                    proof {
                        assert(spec_steam3_at(steamid@, i as int));
                        assert(spec_parse_found(steamid@, sid));
                    }
                    return Some(sid);
                },
                None => {},
            }
            i += 1;
        }
        assert forall|j: int| !spec_steam3_at(steamid@, j) by {
            if 0 <= j < n {
            } else {
            }
        }
        let mut i: usize = 0;
        while i < n
            invariant
                0 <= i <= n,
                n == steamid@.len(),
                forall|j: int| !spec_steam3_at(steamid@, j),
                forall|j: int| 0 <= j < i ==> !spec_steam64_at(steamid@, j),
            decreases n - i,
        {
            match steam64_at(steamid, i, n) {
                Some(sid) => {
                    proof {
                        assert(spec_steam64_at(steamid@, i as int));
                        assert(spec_parse_found(steamid@, sid));
                    }
                    return Some(sid);
                },
                None => {},
            }
            i += 1;
        }
        None
    }
}

/// What a successful scan yields: the identifier of the leftmost bracketed
/// token, or, where no bracketed token occurs at all, the identifier of the
/// leftmost seventeen-digit token.
pub open spec fn spec_parse_found(s: Seq<char>, sid: SteamID) -> bool {
    ||| (exists|i: int|
        #![trigger spec_steam3_at(s, i)]
        spec_steam3_at(s, i) && sid == spec_sid_steam3_at(s, i) && (forall|j: int|
            0 <= j < i ==> !spec_steam3_at(s, j)))
    ||| ((forall|k: int| !spec_steam3_at(s, k)) && (exists|i: int|
        #![trigger spec_steam64_at(s, i)]
        spec_steam64_at(s, i) && sid == spec_sid_steam64_at(s, i) && (forall|j: int|
            0 <= j < i ==> !spec_steam64_at(s, j))))
}

/// The identifier built from the short form.
pub open spec fn spec_from_steam3(steam3: u32, universe: EUniverse, t: EAccountType) -> SteamID {
    SteamID {
        account_id: steam3 % 2 == 1,
        account_number: (steam3 / 2) as u32,
        account_instance: 1,
        account_type: spec_account_type_value(t),
        universe: spec_universe_value(universe),
    }
}

/// The identifier unpacked from the 64-bit form.
pub open spec fn spec_from_steam64(v: u64) -> SteamID {
    SteamID {
        account_id: v & 1 == 1,
        account_number: ((v >> 1u64) & 0x7fff_ffff) as u32,
        account_instance: ((v >> 32u64) & 0xf_ffff) as u32,
        account_type: ((v >> 52u64) & 0xf) as u8,
        universe: (v >> 56u64) as u8,
    }
}

/// Unpacking and repacking gives the value back, for any value whose top
/// bit is clear.
pub proof fn lemma_steam64_round_trip(v: u64)
    requires
        v < 0x8000_0000_0000_0000u64,
    ensures
        spec_from_steam64(v).spec_to_steam64() == v,
{
    let s = spec_from_steam64(v);
    assert(((((v >> 56u64) as u8 & 0x7f) as u64) << 56) | (((((v >> 52u64) & 0xf) as u8) as u64)
        << 52) | (((((v >> 32u64) & 0xf_ffff) as u32) as u64) << 32) | (((((v >> 1u64)
        & 0x7fff_ffff) as u32) as u64) << 1) | (if v & 1 == 1 {
        1u64
    } else {
        0u64
    }) == v) by (bit_vector)
        requires
            v < 0x8000_0000_0000_0000u64,
    ;
}

/// The first position at or after `i` holding no decimal digit.
pub open spec fn spec_digit_run_end(s: Seq<char>, i: int) -> int
    decreases s.len() - i
        when 0 <= i <= s.len()
{
    if i >= s.len() || !spec_is_digit(s[i]) {
        i
    } else {
        spec_digit_run_end(s, i + 1)
    }
}

proof fn lemma_digit_run(s: Seq<char>, i: int)
    requires
        0 <= i <= s.len(),
    ensures
        i <= spec_digit_run_end(s, i) <= s.len(),
        forall|j: int| i <= j < spec_digit_run_end(s, i) ==> spec_is_digit(#[trigger] s[j]),
        spec_digit_run_end(s, i) < s.len() ==> !spec_is_digit(s[spec_digit_run_end(s, i)]),
    decreases s.len() - i,
{
    if i < s.len() && spec_is_digit(s[i]) {
        lemma_digit_run(s, i + 1);
    }
}

/// A run of digits reaching `m` pushes the run's end at least to `m`.
proof fn lemma_digit_run_lower(s: Seq<char>, i: int, m: int)
    requires
        0 <= i <= m <= s.len(),
        forall|j: int| i <= j < m ==> spec_is_digit(#[trigger] s[j]),
    ensures
        spec_digit_run_end(s, i) >= m,
    decreases m - i,
{
    if i < m {
        assert(spec_is_digit(s[i]));
        lemma_digit_run_lower(s, i + 1, m);
        assert(spec_digit_run_end(s, i) == spec_digit_run_end(s, i + 1));
    } else {
        lemma_digit_run(s, i);
    }
}

/// The end of the maximal digit run starting at `j`.
fn digit_run_end(s: &str, j: usize, n: usize) -> (e: usize)
    requires
        j <= n,
        n == s@.len(),
    ensures
        e == spec_digit_run_end(s@, j as int),
        j <= e <= n,
    decreases n - j,
{
    if j >= n {
        return j;
    }
    let c = s.get_char(j);
    let v = c as u32;
    if 48 <= v && v <= 57 {
        digit_run_end(s, j + 1, n)
    } else {
        j
    }
}

/// A bracketed "[T:U:D]" token stands at position `i`: a supported type
/// letter, a universe digit up to 4, and an account number that fits the
/// short form.
pub open spec fn spec_steam3_at(s: Seq<char>, i: int) -> bool {
    &&& 0 <= i
    &&& i + 6 < s.len()
    &&& s[i] == '['
    &&& spec_account_type_of_symbol(s[i + 1]) is Some
    &&& s[i + 2] == ':'
    &&& spec_is_digit(s[i + 3])
    &&& spec_digit_val(s[i + 3]) <= 4
    &&& s[i + 4] == ':'
    &&& {
        let e = spec_digit_run_end(s, i + 5);
        &&& e > i + 5
        &&& e < s.len()
        &&& s[e] == ']'
        &&& spec_dec_val(s.subrange(i + 5, e)) <= u32::MAX
    }
}

/// The identifier encoded by the steam3 token at position `i`.
pub open spec fn spec_sid_steam3_at(s: Seq<char>, i: int) -> SteamID {
    spec_from_steam3(
        spec_dec_val(s.subrange(i + 5, spec_digit_run_end(s, i + 5))) as u32,
        spec_universe_of_digit(spec_digit_val(s[i + 3])),
        spec_account_type_of_symbol(s[i + 1])->Some_0,
    )
}

/// A seventeen-digit token starting with 7 stands at position `i`.
pub open spec fn spec_steam64_at(s: Seq<char>, i: int) -> bool {
    &&& 0 <= i
    &&& i + 17 <= s.len()
    &&& s[i] == '7'
    &&& forall|j: int| i <= j < i + 17 ==> spec_is_digit(#[trigger] s[j])
}

/// The identifier encoded by the steam64 token at position `i`.
pub open spec fn spec_sid_steam64_at(s: Seq<char>, i: int) -> SteamID {
    spec_from_steam64(spec_dec_val(s.subrange(i, i + 17)) as u64)
}

/// Tries the bracketed form at one position.
fn steam3_at(s: &str, i: usize, n: usize) -> (r: Option<SteamID>)
    requires
        i < n,
        n == s@.len(),
    ensures
        match r {
            Some(sid) => spec_steam3_at(s@, i as int) && sid == spec_sid_steam3_at(s@, i as int),
            None => !spec_steam3_at(s@, i as int),
        },
{
    if n - i <= 6 {
        return None;
    }
    if s.get_char(i) != '[' {
        return None;
    }
    let t = match account_type_of_symbol(s.get_char(i + 1)) {
        Some(t) => t,
        None => {
            return None;
        },
    };
    if s.get_char(i + 2) != ':' {
        return None;
    }
    let uc = s.get_char(i + 3);
    let ucv = uc as u32;
    if ucv < 48 || ucv > 52 {
        assert(!(spec_is_digit(s@[i + 3]) && spec_digit_val(s@[i + 3]) <= 4));
        return None;
    }
    let ud: u8 = (ucv - 48) as u8;
    if s.get_char(i + 4) != ':' {
        return None;
    }
    // the run of digits after the second colon
    let e = digit_run_end(s, i + 5, n);
    if e == i + 5 {
        return None;
    }
    if e >= n {
        return None;
    }
    if s.get_char(e) != ']' {
        return None;
    }
    let digits = s.substring_char(i + 5, e);
    let value = match parse_u64(digits) {
        Some(v) => v,
        None => {
            proof {
                lemma_digit_run(s@, i + 5);
                assert(digits@ =~= s@.subrange(i + 5, e as int));
                assert(spec_all_digits(digits@));
                assert(digits@.len() > 0);
                if spec_steam3_at(s@, i as int) {
                    assert(spec_dec_val(digits@) <= u32::MAX);
                    assert(spec_parse_u64(digits@) is Some);
                }
            }
            return None;
        },
    };
    proof {
        lemma_digit_run(s@, i + 5);
        assert(digits@ =~= s@.subrange(i + 5, e as int));
        assert(spec_all_digits(digits@));
        lemma_dec_val_upper(digits@);
        assert(value == spec_dec_val(digits@));
    }
    if value > 0xffff_ffffu64 {
        return None;
    }
    let sid = SteamID::from_steam3(
        value as u32,
        Some(universe_of_digit(ud)),
        Some(t),
    );
    proof {
        assert(spec_steam3_at(s@, i as int));
        assert(sid == spec_sid_steam3_at(s@, i as int));
    }
    Some(sid)
}

/// Tries the seventeen-digit form at one position.
fn steam64_at(s: &str, i: usize, n: usize) -> (r: Option<SteamID>)
    requires
        i < n,
        n == s@.len(),
    ensures
        match r {
            Some(sid) => spec_steam64_at(s@, i as int) && sid == spec_sid_steam64_at(s@, i as int),
            None => !spec_steam64_at(s@, i as int),
        },
{
    if n - i < 17 {
        return None;
    }
    if s.get_char(i) != '7' {
        return None;
    }
    let e = digit_run_end(s, i, n);
    proof {
        lemma_digit_run(s@, i as int);
    }
    if e < i + 17 {
        proof {
            if spec_steam64_at(s@, i as int) {
                lemma_digit_run_lower(s@, i as int, i + 17);
            }
        }
        return None;
    }
    let digits = s.substring_char(i, i + 17);
    proof {
        assert(spec_all_digits(digits@));
        lemma_dec_val_upper(digits@);
        reveal_with_fuel(spec_pow10, 18);
        assert(spec_pow10(17) == 100_000_000_000_000_000);
    }
    let value = match parse_u64(digits) {
        Some(v) => v,
        None => {
            proof {
                assert(false);
            }
            return None;
        },
    };
    Some(SteamID::from_steam64(value))
}

} // verus!
