//! One-time-code generation: a pure function of the shared secret and the
//! synchronized time, using the 30-second step and the service's restricted
//! code alphabet.

use vstd::prelude::*;
use crate::crypto::{base64_decode, base64_std_decode_of, hmac_sha1, hmac_sha1_of};
use crate::errors::{AuthError, InternalError};
use crate::strutil::string_push;

verus! {

/// A decoded two-factor secret.
#[derive(Debug)]
pub struct Secret {
    pub bytes: Vec<u8>,
}

impl Secret {
    pub fn new(bytes: Vec<u8>) -> (r: Secret)
        ensures
            r.bytes@ == bytes@,
    {
        Secret { bytes }
    }

    /// Decodes a secret from its usual base64 form.
    pub fn from_b64(s: &str) -> (r: Result<Secret, AuthError>)
        ensures
            match r {
                Ok(sec) => base64_std_decode_of(s@) == Some(sec.bytes@),
                Err(e) => base64_std_decode_of(s@) is None && e is Internal,
            },
    {
        match base64_decode(s) {
            Some(v) => Ok(Secret { bytes: v }),
            None => Err(
                AuthError::Internal(
                    InternalError::DeserializationFailure(
                        String::from_str("secret is not valid base64"),
                    ),
                ),
            ),
        }
    }
}

/// The 8 big-endian bytes of a 64-bit value.
pub open spec fn spec_be8(t: u64) -> Seq<u8> {
    seq![
        (t >> 56) as u8,
        (t >> 48) as u8,
        (t >> 40) as u8,
        (t >> 32) as u8,
        (t >> 24) as u8,
        (t >> 16) as u8,
        (t >> 8) as u8,
        t as u8,
    ]
}

pub fn be8_bytes(t: u64) -> (r: Vec<u8>)
    ensures
        r@ == spec_be8(t),
{
    let mut v: Vec<u8> = Vec::new();
    v.push((t >> 56) as u8);
    v.push((t >> 48) as u8);
    v.push((t >> 40) as u8);
    v.push((t >> 32) as u8);
    v.push((t >> 24) as u8);
    v.push((t >> 16) as u8);
    v.push((t >> 8) as u8);
    v.push(t as u8);
    proof {
        assert(v@ =~= spec_be8(t));
    }
    v
}

/// The service's restricted code alphabet, by position.
pub open spec fn spec_code_char(i: int) -> char {
    if i == 0 {
        '2'
    } else if i == 1 {
        '3'
    } else if i == 2 {
        '4'
    } else if i == 3 {
        '5'
    } else if i == 4 {
        '6'
    } else if i == 5 {
        '7'
    } else if i == 6 {
        '8'
    } else if i == 7 {
        '9'
    } else if i == 8 {
        'B'
    } else if i == 9 {
        'C'
    } else if i == 10 {
        'D'
    } else if i == 11 {
        'F'
    } else if i == 12 {
        'G'
    } else if i == 13 {
        'H'
    } else if i == 14 {
        'J'
    } else if i == 15 {
        'K'
    } else if i == 16 {
        'M'
    } else if i == 17 {
        'N'
    } else if i == 18 {
        'P'
    } else if i == 19 {
        'Q'
    } else if i == 20 {
        'R'
    } else if i == 21 {
        'T'
    } else if i == 22 {
        'V'
    } else if i == 23 {
        'W'
    } else if i == 24 {
        'X'
    } else {
        'Y'
    }
}

pub fn code_char(i: u32) -> (c: char)
    requires
        i < 26,
    ensures
        c == spec_code_char(i as int),
{
    if i == 0 {
        '2'
    } else if i == 1 {
        '3'
    } else if i == 2 {
        '4'
    } else if i == 3 {
        '5'
    } else if i == 4 {
        '6'
    } else if i == 5 {
        '7'
    } else if i == 6 {
        '8'
    } else if i == 7 {
        '9'
    } else if i == 8 {
        'B'
    } else if i == 9 {
        'C'
    } else if i == 10 {
        'D'
    } else if i == 11 {
        'F'
    } else if i == 12 {
        'G'
    } else if i == 13 {
        'H'
    } else if i == 14 {
        'J'
    } else if i == 15 {
        'K'
    } else if i == 16 {
        'M'
    } else if i == 17 {
        'N'
    } else if i == 18 {
        'P'
    } else if i == 19 {
        'Q'
    } else if i == 20 {
        'R'
    } else if i == 21 {
        'T'
    } else if i == 22 {
        'V'
    } else if i == 23 {
        'W'
    } else if i == 24 {
        'X'
    } else {
        'Y'
    }
}

/// The 31-bit word the code is drawn from: four digest bytes starting at the
/// nibble offset held by the digest's last byte.
pub open spec fn spec_truncated_word(d: Seq<u8>) -> u32 {
    let off = (d[19] & 0x0f) as int;
    (((d[off] as u32 & 0x7f) << 24) | ((d[off + 1] as u32) << 16) | ((d[off + 2] as u32) << 8) | (
    d[off + 3] as u32))
}

/// The five-character one-time code for a secret and a synchronized time.
/// Only the 30-second step of the time enters the keyed hash, so the code is
/// constant across each 30-second window.
pub open spec fn spec_auth_code(secret: Seq<u8>, time: u64) -> Seq<char> {
    let d = hmac_sha1_of(secret, spec_be8(time / 30));
    let w = spec_truncated_word(d);
    seq![
        spec_code_char((w % 26) as int),
        spec_code_char(((w / 26) % 26) as int),
        spec_code_char(((w / 676) % 26) as int),
        spec_code_char(((w / 17576) % 26) as int),
        spec_code_char(((w / 456976) % 26) as int),
    ]
}

/// Computes the one-time code. Pure: the result is a function of the secret
/// bytes and the time alone.
pub fn generate_auth_code(secret: &Secret, time: u64) -> (r: String)
    ensures
        r@ == spec_auth_code(secret.bytes@, time),
{
    let msg = be8_bytes(time / 30);
    let digest = hmac_sha1(secret.bytes.as_slice(), msg.as_slice());
    let last = digest[19];
    let off = (last & 0x0f) as usize;
    assert(last & 0x0f < 16) by (bit_vector);
    let w: u32 =((digest[off] as u32 & 0x7f) << 24u32) | ((digest[off + 1] as u32) << 16u32) | ((
    digest[off + 2] as u32) << 8u32) | (digest[off + 3] as u32);
    assert(w == spec_truncated_word(digest@));
    let mut code = String::new();
    string_push(&mut code, code_char(w % 26));
    string_push(&mut code, code_char((w / 26) % 26));
    string_push(&mut code, code_char((w / 676) % 26));
    string_push(&mut code, code_char((w / 17576) % 26));
    string_push(&mut code, code_char((w / 456976) % 26));
    proof {
        assert(code@ =~= spec_auth_code(secret.bytes@, time));
    }
    code
}

/// One-time codes are stable inside a 30-second window: two times with the
/// same step yield the same code, whatever the secret.
pub proof fn lemma_auth_code_stable(secret: Seq<u8>, t1: u64, t2: u64)
    requires
        t1 / 30 == t2 / 30,
    ensures
        spec_auth_code(secret, t1) == spec_auth_code(secret, t2),
{
}

} // verus!
