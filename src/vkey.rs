//! The program's verification-key hash, as `vk.bytes32()` prints it.

use vstd::prelude::*;
use vstd::utf8::is_ascii_chars_encode_utf8;

use crate::error::ContractError;

verus! {

/// Characters in a well-formed key hash: `0x` and 64 hex digits.
pub const VKEY_HASH_CHARS: usize = 66;

/// Bytes that a well-formed key hash decodes to.
pub const VKEY_HASH_BYTES: usize = 32;

/// A digit of base 16, in either case.
pub open spec fn is_hex_digit(c: char) -> bool {
    ('0' <= c && c <= '9') || ('a' <= c && c <= 'f') || ('A' <= c && c <= 'F')
}

/// The value of a hex digit.
pub open spec fn hex_value(c: char) -> int {
    if '0' <= c && c <= '9' {
        c as int - '0' as int
    } else if 'a' <= c && c <= 'f' {
        c as int - 'a' as int + 10
    } else {
        c as int - 'A' as int + 10
    }
}

/// Every character from `start` on is a hex digit.
pub open spec fn hex_digits_from(s: Seq<char>, start: int) -> bool {
    forall|i: int| start <= i < s.len() ==> is_hex_digit(#[trigger] s[i])
}

/// `s` is `0x` followed by exactly 64 hex digits, of either case.
pub open spec fn is_vkey_hash(s: Seq<char>) -> bool {
    &&& s.len() == VKEY_HASH_CHARS
    &&& s[0] == '0'
    &&& s[1] == 'x'
    &&& hex_digits_from(s, 2)
}

/// The 32 bytes spelled by the hex digits after the two-character prefix,
/// high digit first.
pub open spec fn vkey_hash_bytes(s: Seq<char>) -> Seq<u8> {
    Seq::new(
        VKEY_HASH_BYTES as nat,
        |k: int| (16 * hex_value(s[2 + 2 * k]) + hex_value(s[3 + 2 * k])) as u8,
    )
}

/// Relies on sp1_verifier::decode_sp1_vkey_hash, which skips the first two
/// bytes and hex-decodes the rest (either case), succeeding exactly when that
/// yields 32 bytes. It slices at byte 2, a char boundary when the first two
/// characters are ASCII.
#[verifier::external_body]
fn sp1_decode_vkey_hash(s: &str) -> (r: Option<Vec<u8>>)
    requires
        s@.len() >= 2,
        s@[0] <= '\u{7f}',
        s@[1] <= '\u{7f}',
    ensures
        r is Some <==> (s@.len() == VKEY_HASH_CHARS && hex_digits_from(s@, 2)),
        r matches Some(b) ==> b@ == vkey_hash_bytes(s@),
{
    match sp1_verifier::decode_sp1_vkey_hash(s) {
        Ok(b) => Some(b.to_vec()),
        Err(_) => None,
    }
}

/// Decodes a verification-key hash of the form `0x` and 64 hex digits into
/// its 32 bytes; anything else is [`ContractError::InvalidVkeyHash`].
pub fn decode_vk_hash(vk_hash: &str) -> (r: Result<Vec<u8>, ContractError>)
    ensures
        r is Ok <==> is_vkey_hash(vk_hash@),
        r matches Ok(b) ==> b@ == vkey_hash_bytes(vk_hash@),
        r matches Err(e) ==> e == ContractError::InvalidVkeyHash,
{
    if !vk_hash.is_ascii() {
        proof {
            if is_vkey_hash(vk_hash@) {
                assert forall|i: int| 0 <= i < vk_hash@.len() implies '\0' <= #[trigger] vk_hash@[i]
                    <= '\u{7f}' by {
                    if i >= 2 {
                        assert(is_hex_digit(vk_hash@[i]));
                    }
                }
            }
        }
        return Err(ContractError::InvalidVkeyHash);
    }
    let bytes = vk_hash.as_bytes();
    proof {
        is_ascii_chars_encode_utf8(vk_hash@);
    }
    if bytes.len() != VKEY_HASH_CHARS || bytes[0] != 0x30u8 || bytes[1] != 0x78u8 {
        return Err(ContractError::InvalidVkeyHash);
    }
    match sp1_decode_vkey_hash(vk_hash) {
        Some(b) => Ok(b),
        None => Err(ContractError::InvalidVkeyHash),
    }
}

} // verus!
