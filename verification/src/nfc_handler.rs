//! Key material and key-slot validation.
//!
//! Keys arrive as hexadecimal text and are rejected before any hardware
//! access when they do not decode to exactly 6 bytes; key slots arrive as
//! the letters `A` and `B`. The spec functions here say exactly which
//! rejection a request earns, in which order the checks run, and which
//! slot a well-formed key-type argument names; the session machine builds
//! on them.

use vstd::prelude::*;

use crate::errors::{CardError, KeySlot};
use crate::hex_codec::{hex_decode, is_hex_str, lemma_hex_decode_len};

verus! {

/// Key text that decodes to exactly 6 bytes: 12 hexadecimal characters.
pub open spec fn valid_key_hex(s: Seq<char>) -> bool {
    is_hex_str(s) && s.len() == 12
}

/// A key-type argument naming one of the two sector keys.
pub open spec fn valid_key_type(s: Seq<char>) -> bool {
    s == "A"@ || s == "B"@
}

/// The slot a well-formed key-type argument names.
pub open spec fn spec_slot_of(s: Seq<char>) -> KeySlot {
    if s == "B"@ {
        KeySlot::B
    } else {
        KeySlot::A
    }
}

/// The rejection a key text earns, if any: malformed hexadecimal first,
/// then a decoded length other than 6 bytes.
pub open spec fn spec_key_error(s: Seq<char>) -> Option<CardError> {
    if !is_hex_str(s) {
        Some(CardError::InvalidHex)
    } else if s.len() != 12 {
        Some(CardError::InvalidKeyLength)
    } else {
        None
    }
}

/// The rejection an authentication request earns before any hardware
/// access: the key text is held to 6 bytes first, then the key type to
/// the letters `A` and `B`.
pub open spec fn spec_auth_request_error(key_type: Seq<char>, key_hex: Seq<char>) -> Option<
    CardError,
> {
    if spec_key_error(key_hex) is Some {
        spec_key_error(key_hex)
    } else if !valid_key_type(key_type) {
        Some(CardError::InvalidKeyType)
    } else {
        None
    }
}

/// Parses the key-type argument: the letter `A` or `B`, nothing else.
pub fn parse_key_slot(key_type: &str) -> (r: Result<KeySlot, CardError>)
    ensures
        valid_key_type(key_type@) ==> r == Ok::<KeySlot, CardError>(spec_slot_of(key_type@)),
        !valid_key_type(key_type@) ==> r == Err::<KeySlot, CardError>(CardError::InvalidKeyType),
{
    proof {
        reveal_strlit("A");
        reveal_strlit("B");
    }
    if key_type.unicode_len() == 1 {
        let c = key_type.get_char(0);
        if c == 'A' {
            proof {
                assert(key_type@ =~= "A"@);
            }
            return Ok(KeySlot::A);
        }
        if c == 'B' {
            proof {
                assert(key_type@ =~= "B"@);
            }
            return Ok(KeySlot::B);
        }
    }
    proof {
        assert(key_type@ != "A"@ && key_type@ != "B"@);
    }
    Err(CardError::InvalidKeyType)
}

/// Decodes the key text and holds it to exactly 6 bytes, before any
/// hardware access.
pub fn parse_key_hex(key_hex: &str) -> (r: Result<Vec<u8>, CardError>)
    ensures
        match r {
            Ok(k) => valid_key_hex(key_hex@) && k@ == hex_decode(key_hex@) && k@.len() == 6,
            Err(e) => Some(e) == spec_key_error(key_hex@),
        },
{
    match crate::hex_codec::decode_hex(key_hex) {
        Some(k) => {
            proof {
                lemma_hex_decode_len(key_hex@);
            }
            if k.len() == 6 {
                Ok(k)
            } else {
                Err(CardError::InvalidKeyLength)
            }
        },
        None => Err(CardError::InvalidHex),
    }
}

} // verus!
