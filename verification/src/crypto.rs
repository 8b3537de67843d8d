//! Trusted boundary to the cryptographic and encoding crates: HMAC-SHA1,
//! base64, hex, and RSA/PKCS#1 v1.5 password encryption. Each wrapper's
//! contract states only what the called crate's source shows.

use vstd::prelude::*;
use base64::Engine;
use hmac::Mac;

verus! {

/// The HMAC-SHA1 digest of `msg` under `key`: a function of its arguments
/// alone, left without a definition here.
pub uninterp spec fn hmac_sha1_of(key: Seq<u8>, msg: Seq<u8>) -> Seq<u8>;

/// Relies on `hmac::Hmac<sha1::Sha1>` (`Mac::new_from_slice`, `update`,
/// `finalize`): the digest is a pure function of key and message, 20 bytes
/// long; `new_from_slice` accepts keys of any length for HMAC.
#[verifier::external_body]
pub fn hmac_sha1(key: &[u8], msg: &[u8]) -> (r: Vec<u8>)
    ensures
        r@ == hmac_sha1_of(key@, msg@),
        r@.len() == 20,
{
    let mut mac = <hmac::Hmac<sha1::Sha1>>::new_from_slice(key).expect("HMAC takes any key length");
    mac.update(msg);
    mac.finalize().into_bytes().to_vec()
}

/// Standard (padded) base64 rendering of a byte string.
pub uninterp spec fn base64_std_of(b: Seq<u8>) -> Seq<char>;

/// Relies on `base64::engine::general_purpose::STANDARD.encode`: the output
/// is a pure function of the input, four characters for every started group
/// of three bytes.
#[verifier::external_body]
pub fn base64_encode(b: &[u8]) -> (r: String)
    ensures
        r@ == base64_std_of(b@),
        r@.len() == 4 * ((b@.len() + 2) / 3),
{
    base64::engine::general_purpose::STANDARD.encode(b)
}

/// URL-safe (padded) base64 rendering of a byte string.
pub uninterp spec fn base64_url_of(b: Seq<u8>) -> Seq<char>;

/// Relies on `base64::engine::general_purpose::URL_SAFE.encode`: the output
/// is a pure function of the input, four characters for every started group
/// of three bytes.
#[verifier::external_body]
pub fn base64_url_encode(b: &[u8]) -> (r: String)
    ensures
        r@ == base64_url_of(b@),
        r@.len() == 4 * ((b@.len() + 2) / 3),
{
    base64::engine::general_purpose::URL_SAFE.encode(b)
}

/// What standard base64 decoding yields: `None` where the input is not valid
/// padded base64.
pub uninterp spec fn base64_std_decode_of(s: Seq<char>) -> Option<Seq<u8>>;

/// Relies on `base64::engine::general_purpose::STANDARD.decode`: decoding is
/// a pure function of the input and fails exactly on malformed base64.
#[verifier::external_body]
pub fn base64_decode(s: &str) -> (r: Option<Vec<u8>>)
    ensures
        match r {
            Some(v) => base64_std_decode_of(s@) == Some(v@),
            None => base64_std_decode_of(s@) is None,
        },
{
    base64::engine::general_purpose::STANDARD.decode(s).ok()
}

pub open spec fn spec_hex_digit_val(c: char) -> int {
    let v = c as u32;
    if 48 <= v <= 57 {
        v - 48
    } else if 97 <= v <= 102 {
        v - 87
    } else if 65 <= v <= 70 {
        v - 55
    } else {
        -1
    }
}

pub open spec fn spec_is_hex_digit(c: char) -> bool {
    spec_hex_digit_val(c) >= 0
}

/// The bytes of an even-length hex digit string, two digits to a byte.
pub open spec fn spec_hex_bytes(s: Seq<char>) -> Seq<u8>
    decreases s.len(),
{
    if s.len() < 2 {
        seq![]
    } else {
        seq![(spec_hex_digit_val(s[0]) * 16 + spec_hex_digit_val(s[1])) as u8]
            + spec_hex_bytes(s.skip(2))
    }
}

/// Hex decoding succeeds exactly on even-length strings of hex digits.
pub open spec fn spec_hex_decode(s: Seq<char>) -> Option<Seq<u8>> {
    if s.len() % 2 == 0 && (forall|i: int| 0 <= i < s.len() ==> spec_is_hex_digit(#[trigger] s[i])) {
        Some(spec_hex_bytes(s))
    } else {
        None
    }
}

/// Relies on `hex::decode`: fails exactly on an odd-length input or a
/// non-hex character, and otherwise turns each digit pair into one byte.
#[verifier::external_body]
pub fn hex_decode(s: &str) -> (r: Option<Vec<u8>>)
    ensures
        match r {
            Some(v) => spec_hex_decode(s@) == Some(v@),
            None => spec_hex_decode(s@) is None,
        },
{
    hex::decode(s).ok()
}

/// The count of significant bytes of a big-endian byte string: leading
/// zeros dropped. For an RSA modulus this is the key size in bytes.
pub open spec fn spec_be_sig_len(s: Seq<u8>) -> nat
    decreases s.len(),
{
    if s.len() == 0 {
        0
    } else if s[0] != 0 {
        s.len()
    } else {
        spec_be_sig_len(s.drop_first())
    }
}

/// The integer a big-endian byte string denotes.
pub open spec fn spec_be_val(s: Seq<u8>) -> int
    decreases s.len(),
{
    if s.len() == 0 {
        0
    } else {
        spec_be_val(s.drop_last()) * 256 + s.last()
    }
}

/// The key passes rsa's validation: a modulus of at most 4096 bits and a
/// public exponent between 2 and 2^33 - 1.
pub open spec fn spec_rsa_key_accepted(modulus_be: Seq<u8>, exponent_be: Seq<u8>) -> bool {
    &&& spec_be_sig_len(modulus_be) <= 512
    &&& 2 <= spec_be_val(exponent_be) <= 0x1_FFFF_FFFF
}

pub fn be_sig_len(bytes: &[u8]) -> (r: usize)
    ensures
        r == spec_be_sig_len(bytes@),
{
    let n = bytes.len();
    let mut i: usize = 0;
    proof {
        assert(bytes@.skip(0) =~= bytes@);
    }
    while i < n
        invariant
            0 <= i <= n,
            n == bytes@.len(),
            spec_be_sig_len(bytes@) == spec_be_sig_len(bytes@.skip(i as int)),
        decreases n - i,
    {
        proof {
            assert(bytes@.skip(i as int)[0] == bytes@[i as int]);
            assert(bytes@.skip(i as int).drop_first() =~= bytes@.skip(i + 1));
        }
        if bytes[i] != 0 {
            return n - i;
        }
        i += 1;
    }
    proof {
        assert(bytes@.skip(n as int) =~= Seq::<u8>::empty());
    }
    0
}

/// Whether a big-endian value lies in rsa's accepted exponent range,
/// computed with the running value capped just above the range.
pub fn be_val_in_exponent_range(bytes: &[u8]) -> (r: bool)
    ensures
        r == (2 <= spec_be_val(bytes@) <= 0x1_FFFF_FFFF),
{
    let n = bytes.len();
    let cap: u64 = 0x2_0000_0000;
    let mut v: u64 = 0;
    let mut i: usize = 0;
    while i < n
        invariant
            0 <= i <= n,
            n == bytes@.len(),
            cap == 0x2_0000_0000u64,
            v == (if spec_be_val(bytes@.subrange(0, i as int)) >= cap {
                cap as int
            } else {
                spec_be_val(bytes@.subrange(0, i as int))
            }),
        decreases n - i,
    {
        proof {
            assert(bytes@.subrange(0, i + 1).drop_last() =~= bytes@.subrange(0, i as int));
            assert(bytes@.subrange(0, i + 1).last() == bytes@[i as int]);
            let p = spec_be_val(bytes@.subrange(0, i as int));
            if p >= cap {
                assert(p * 256 + bytes@[i as int] >= cap) by (nonlinear_arith)
                    requires
                        p >= cap > 0,
                        bytes@[i as int] >= 0,
                {
                }
            }
        }
        let b = bytes[i] as u64;
        if v >= cap {
            v = cap;
        } else {
            let next = v * 256 + b;
            v = if next >= cap {
                cap
            } else {
                next
            };
        }
        i += 1;
    }
    proof {
        assert(bytes@.subrange(0, n as int) =~= bytes@);
    }
    2 <= v && v <= 0x1_FFFF_FFFF
}

/// Relies on `rsa::RsaPublicKey::new` and `rsa::PublicKey::encrypt` with
/// `rsa::Pkcs1v15Encrypt` and `rand::thread_rng`. The key is accepted
/// exactly when the modulus has at most 4096 bits and the exponent lies in
/// [2, 2^33 - 1]; encryption then succeeds exactly when the message fits
/// the PKCS#1 v1.5 bound of key size minus 11 bytes, and the ciphertext is
/// left-padded to exactly the key size. The padding is drawn from the
/// generator, so nothing more is said of the ciphertext bytes. A modulus
/// under 11 bytes is excluded: on one, rsa's length arithmetic panics.
#[verifier::external_body]
pub fn rsa_encrypt_pkcs1v15(modulus_be: &[u8], exponent_be: &[u8], msg: &[u8]) -> (r: Option<
    Vec<u8>,
>)
    requires
        spec_be_sig_len(modulus_be@) >= 11,
    ensures
        r is Some <==> (spec_rsa_key_accepted(modulus_be@, exponent_be@) && msg@.len() + 11
            <= spec_be_sig_len(modulus_be@)),
        (match r {
            Some(c) => c@.len() == spec_be_sig_len(modulus_be@),
            None => true,
        }),
{
    let n = rsa::BigUint::from_bytes_be(modulus_be);
    let e = rsa::BigUint::from_bytes_be(exponent_be);
    let key = match rsa::RsaPublicKey::new(n, e) {
        Ok(k) => k,
        Err(_) => return None,
    };
    let mut rng = rand::thread_rng();
    rsa::PublicKey::encrypt(&key, &mut rng, rsa::Pkcs1v15Encrypt, msg).ok()
}

} // verus!
