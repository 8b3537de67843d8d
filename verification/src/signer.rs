//! Confirmation signing: the keyed hash over the big-endian time bytes
//! followed by the tag bytes, rendered in base64. The same signature scheme
//! authorizes listing, inspecting, and acting on confirmations.

use vstd::prelude::*;
use crate::crypto::{base64_encode, base64_std_of, hmac_sha1, hmac_sha1_of};
use crate::totp::{be8_bytes, spec_be8, Secret};

verus! {

/// The message that is signed: eight big-endian time bytes, then the
/// tag's UTF-8 bytes.
pub open spec fn spec_confirmation_message(time: u64, tag: Seq<char>) -> Seq<u8> {
    spec_be8(time) + vstd::utf8::encode_utf8(tag)
}

/// The base64 signature for a signing secret, a tag, and a synchronized
/// time: a pure function of the three.
pub open spec fn spec_confirmation_hash(secret: Seq<u8>, tag: Seq<char>, time: u64) -> Seq<char> {
    base64_std_of(hmac_sha1_of(secret, spec_confirmation_message(time, tag)))
}

/// Computes the confirmation signature. Deterministic: the result is a
/// function of the secret bytes, the tag, and the time alone.
pub fn generate_confirmation_hash(secret: &Secret, tag: &str, time: u64) -> (r: String)
    ensures
        r@ == spec_confirmation_hash(secret.bytes@, tag@, time),
{
    let mut msg = be8_bytes(time);
    let tag_bytes = tag.as_bytes_vec();
    let mut i: usize = 0;
    let n = tag_bytes.len();
    while i < n
        invariant
            0 <= i <= n,
            n == tag_bytes@.len(),
            msg@ == spec_be8(time) + tag_bytes@.subrange(0, i as int),
        decreases n - i,
    {
        msg.push(tag_bytes[i]);
        proof {
            assert(tag_bytes@.subrange(0, i + 1) =~= tag_bytes@.subrange(0, i as int)
                + seq![tag_bytes@[i as int]]);
            assert(msg@ =~= spec_be8(time) + tag_bytes@.subrange(0, i + 1));
        }
        i += 1;
    }
    proof {
        assert(tag_bytes@.subrange(0, n as int) =~= tag_bytes@);
        assert(msg@ =~= spec_confirmation_message(time, tag@));
    }
    let digest = hmac_sha1(secret.bytes.as_slice(), msg.as_slice());
    base64_encode(digest.as_slice())
}

/// Distinct ASCII tags sign distinct messages for the same time: the eight
/// time bytes are a fixed-length prefix, so the tag bytes, and with them the
/// tags, would otherwise coincide. (That the keyed hashes of the two
/// messages also differ is a property of the hash, not stated here.)
pub proof fn lemma_distinct_tags_distinct_messages(time: u64, tag1: Seq<char>, tag2: Seq<char>)
    requires
        tag1 != tag2,
        vstd::utf8::is_ascii_chars(tag1),
        vstd::utf8::is_ascii_chars(tag2),
    ensures
        spec_confirmation_message(time, tag1) != spec_confirmation_message(time, tag2),
{
    let m1 = spec_confirmation_message(time, tag1);
    let m2 = spec_confirmation_message(time, tag2);
    vstd::utf8::is_ascii_chars_encode_utf8(tag1);
    vstd::utf8::is_ascii_chars_encode_utf8(tag2);
    if m1 == m2 {
        assert(spec_be8(time).len() == 8);
        assert(m1.len() == 8 + tag1.len());
        assert(m2.len() == 8 + tag2.len());
        assert(tag1.len() == tag2.len());
        assert forall|i: int| 0 <= i < tag1.len() implies tag1[i] == tag2[i] by {
            assert(m1[8 + i] == vstd::utf8::encode_utf8(tag1)[i]);
            assert(m2[8 + i] == vstd::utf8::encode_utf8(tag2)[i]);
            assert(tag1[i] as u8 == tag2[i] as u8);
            assert('\0' <= tag1[i] <= '\u{7f}' && '\0' <= tag2[i] <= '\u{7f}');
            lemma_ascii_char_from_byte(tag1[i], tag2[i]);
        }
        assert(tag1 =~= tag2);
    }
}

/// Two characters below 128 with the same low byte are the same character.
proof fn lemma_ascii_char_from_byte(c1: char, c2: char)
    requires
        (c1 as u32) < 128,
        (c2 as u32) < 128,
        c1 as u8 == c2 as u8,
    ensures
        c1 == c2,
{
    let v1 = c1 as u32;
    let v2 = c2 as u32;
    assert(v1 < 128 && v2 < 128 && v1 as u8 == v2 as u8 ==> v1 == v2) by (bit_vector);
    vstd::utf8::char_u32_cast(c1, v1);
    vstd::utf8::char_u32_cast(c2, v2);
}

} // verus!
