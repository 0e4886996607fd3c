//! Error taxonomy of the card layer.
//!
//! Invalid input is rejected before any hardware access; a non-success
//! status word is a protocol failure carried with the raw response bytes;
//! a missing card, a vanished reader and a sharing conflict are transient
//! hardware conditions; everything else is a hardware error with the
//! transport's own text.

use vstd::prelude::*;

use crate::hex_codec::{hex_digit_char, hex_encode};
use crate::hex_codec::encode_hex;

verus! {

/// Which of the two sector keys an authentication references.
#[derive(Clone, Copy, Debug, PartialEq, Eq, Structural)]
pub enum KeySlot {
    A,
    B,
}

impl KeySlot {
    /// Key-structure byte of the authenticate command: `0x60` selects
    /// key A, `0x61` key B.
    pub open spec fn spec_code(self) -> u8 {
        match self {
            KeySlot::A => 0x60,
            KeySlot::B => 0x61,
        }
    }

    /// Letter naming the slot in messages.
    pub open spec fn spec_letter(self) -> char {
        match self {
            KeySlot::A => 'A',
            KeySlot::B => 'B',
        }
    }

    #[verifier::when_used_as_spec(spec_code)]
    pub fn code(self) -> (b: u8)
        ensures
            b == self.spec_code(),
    {
        match self {
            KeySlot::A => 0x60,
            KeySlot::B => 0x61,
        }
    }
}

/// Everything a card operation can fail with.
#[derive(Debug, Clone)]
pub enum CardError {
    /// The key text does not decode to exactly 6 bytes.
    InvalidKeyLength,
    /// The key type is neither `"A"` nor `"B"`.
    InvalidKeyType,
    /// The block data text does not decode to exactly 16 bytes.
    InvalidDataLength,
    /// A hexadecimal argument is malformed.
    InvalidHex,
    /// The sector number is outside the addressable range.
    InvalidSector,
    /// No card is seated in the reader.
    NoCardPresent,
    /// The card was removed mid-operation.
    CardRemoved,
    /// The named reader vanished or is not usable.
    ReaderUnavailable,
    /// Another process holds the reader; benign, retried on the next tick.
    SharingViolation,
    /// Any other transport condition, with the transport's own text.
    HardwareError(String),
    /// The load-key command answered with a non-success status word.
    KeyLoadFailed(Vec<u8>),
    /// The authenticate command answered with a non-success status word.
    AuthenticationFailed { block: u8, slot: KeySlot },
    /// The read command answered badly or with a truncated response.
    BlockReadFailed(Vec<u8>),
    /// The write command answered with a non-success status word.
    BlockWriteFailed(Vec<u8>),
    /// The UID query answered badly or with a truncated response.
    UidReadFailed(Vec<u8>),
}

/// Input rejected before any hardware access.
pub open spec fn is_invalid_input(e: CardError) -> bool {
    ||| e is InvalidKeyLength
    ||| e is InvalidKeyType
    ||| e is InvalidDataLength
    ||| e is InvalidHex
    ||| e is InvalidSector
}

/// A benign, expected hardware condition: steady state for the presence
/// monitor, an ordinary failure for an on-demand command.
pub open spec fn is_transient(e: CardError) -> bool {
    ||| e is NoCardPresent
    ||| e is CardRemoved
    ||| e is ReaderUnavailable
    ||| e is SharingViolation
}

/// A non-success status word from an exchange with the card.
pub open spec fn is_protocol_failure(e: CardError) -> bool {
    ||| e is KeyLoadFailed
    ||| e is AuthenticationFailed
    ||| e is BlockReadFailed
    ||| e is BlockWriteFailed
    ||| e is UidReadFailed
}

/// The taxonomy is a partition: every failure is exactly one of invalid
/// input (rejected before hardware access), a transient hardware
/// condition, a hardware error with the transport's text, or a protocol
/// failure carrying the raw response.
pub proof fn lemma_taxonomy_partition(e: CardError)
    ensures
        is_invalid_input(e) || is_transient(e) || e is HardwareError || is_protocol_failure(e),
        !(is_invalid_input(e) && is_transient(e)),
        !(is_invalid_input(e) && e is HardwareError),
        !(is_invalid_input(e) && is_protocol_failure(e)),
        !(is_transient(e) && e is HardwareError),
        !(is_transient(e) && is_protocol_failure(e)),
        !(e is HardwareError && is_protocol_failure(e)),
{
}

/// Decimal digits of a non-negative number, most significant first.
pub open spec fn decimal_digits(n: int) -> Seq<char>
    recommends
        n >= 0,
    decreases n,
{
    if n < 10 {
        seq![hex_digit_char(if n < 0 { 0 } else { n })]
    } else {
        decimal_digits(n / 10).push(hex_digit_char(n % 10))
    }
}

/// Decimal text of a byte value.
pub fn decimal_str_u8(n: u8) -> (r: String)
    ensures
        r@ == decimal_digits(n as int),
{
    let mut out = String::new();
    if n >= 100 {
        out.append(crate::hex_codec::hex_digit_str(n / 100));
    }
    if n >= 10 {
        out.append(crate::hex_codec::hex_digit_str((n / 10) % 10));
    }
    out.append(crate::hex_codec::hex_digit_str(n % 10));
    proof {
        if n >= 100 {
            assert(decimal_digits(n as int) == decimal_digits(n as int / 10).push(
                hex_digit_char(n as int % 10),
            ));
            assert(decimal_digits(n as int / 10) == decimal_digits(n as int / 100).push(
                hex_digit_char((n as int / 10) % 10),
            ));
            assert(out@ =~= decimal_digits(n as int));
        } else if n >= 10 {
            assert(decimal_digits(n as int) == decimal_digits(n as int / 10).push(
                hex_digit_char(n as int % 10),
            ));
            assert(out@ =~= decimal_digits(n as int));
        } else {
            assert(out@ =~= decimal_digits(n as int));
        }
    }
    out
}

/// The uniform text of each error, as the command boundary reports it.
pub open spec fn spec_message(e: CardError) -> Seq<char> {
    match e {
        CardError::InvalidKeyLength => "key must be 6 bytes (12 hex characters)"@,
        CardError::InvalidKeyType => "key type must be A or B"@,
        CardError::InvalidDataLength => "block data must be 16 bytes (32 hex characters)"@,
        CardError::InvalidHex => "malformed hexadecimal text"@,
        CardError::InvalidSector => "sector must be between 0 and 39"@,
        CardError::NoCardPresent => "no card present; place a card on the reader"@,
        CardError::CardRemoved => "card removed"@,
        CardError::ReaderUnavailable => "reader unavailable"@,
        CardError::SharingViolation => "reader is busy in another process"@,
        CardError::HardwareError(s) => "hardware error: "@ + s@,
        CardError::KeyLoadFailed(raw) => "failed to load key into reader: "@ + hex_encode(raw@),
        CardError::AuthenticationFailed { block, slot } => "authentication failed for block "@
            + decimal_digits(block as int) + " with key "@ + seq![slot.spec_letter()]
            + "; check the key and the block number"@,
        CardError::BlockReadFailed(raw) => "failed to read block: "@ + hex_encode(raw@),
        CardError::BlockWriteFailed(raw) => "failed to write block: "@ + hex_encode(raw@),
        CardError::UidReadFailed(raw) => "failed to read card uid: "@ + hex_encode(raw@),
    }
}

impl CardError {
    /// The uniform text of the error.
    pub fn message(&self) -> (r: String)
        ensures
            r@ == spec_message(*self),
    {
        match self {
            CardError::InvalidKeyLength => String::from_str(
                "key must be 6 bytes (12 hex characters)",
            ),
            CardError::InvalidKeyType => String::from_str("key type must be A or B"),
            CardError::InvalidDataLength => String::from_str(
                "block data must be 16 bytes (32 hex characters)",
            ),
            CardError::InvalidHex => String::from_str("malformed hexadecimal text"),
            CardError::InvalidSector => String::from_str("sector must be between 0 and 39"),
            CardError::NoCardPresent => String::from_str(
                "no card present; place a card on the reader",
            ),
            CardError::CardRemoved => String::from_str("card removed"),
            CardError::ReaderUnavailable => String::from_str("reader unavailable"),
            CardError::SharingViolation => String::from_str("reader is busy in another process"),
            CardError::HardwareError(s) => {
                let mut out = String::from_str("hardware error: ");
                out.append(s.as_str());
                out
            },
            CardError::KeyLoadFailed(raw) => {
                let mut out = String::from_str("failed to load key into reader: ");
                let h = encode_hex(raw.as_slice());
                out.append(h.as_str());
                out
            },
            CardError::AuthenticationFailed { block, slot } => {
                let mut out = String::from_str("authentication failed for block ");
                let d = decimal_str_u8(*block);
                out.append(d.as_str());
                out.append(" with key ");
                match slot {
                    KeySlot::A => {
                        proof { reveal_strlit("A"); }
                        out.append("A");
                    },
                    KeySlot::B => {
                        proof { reveal_strlit("B"); }
                        out.append("B");
                    },
                }
                out.append("; check the key and the block number");
                proof {
                    assert(out@ =~= spec_message(*self));
                }
                out
            },
            CardError::BlockReadFailed(raw) => {
                let mut out = String::from_str("failed to read block: ");
                let h = encode_hex(raw.as_slice());
                out.append(h.as_str());
                out
            },
            CardError::BlockWriteFailed(raw) => {
                let mut out = String::from_str("failed to write block: ");
                let h = encode_hex(raw.as_slice());
                out.append(h.as_str());
                out
            },
            CardError::UidReadFailed(raw) => {
                let mut out = String::from_str("failed to read card uid: ");
                let h = encode_hex(raw.as_slice());
                out.append(h.as_str());
                out
            },
        }
    }
}

/// The single error shape that crosses the command boundary: every variant
/// of the taxonomy folds into one message text.
#[derive(Debug, Clone)]
pub struct AppError {
    pub message: String,
}

impl View for AppError {
    type V = Seq<char>;

    open spec fn view(&self) -> Seq<char> {
        self.message@
    }
}

impl AppError {
    /// The message text.
    pub fn message(&self) -> (r: &str)
        ensures
            r@ == self@,
    {
        self.message.as_str()
    }

    /// Folds a card error into the uniform message shape.
    pub fn from_card_error(e: &CardError) -> (r: AppError)
        ensures
            r@ == spec_message(*e),
    {
        AppError { message: e.message() }
    }

    /// An error with the given message text.
    pub fn from_text(s: &str) -> (r: AppError)
        ensures
            r@ == s@,
    {
        AppError { message: String::from_str(s) }
    }
}

impl From<String> for AppError {
    fn from(s: String) -> (r: AppError) {
        AppError { message: s }
    }
}

impl vstd::std_specs::convert::FromSpecImpl<String> for AppError {
    open spec fn obeys_from_spec() -> bool {
        true
    }

    open spec fn from_spec(s: String) -> AppError {
        AppError { message: s }
    }
}

impl From<&str> for AppError {
    fn from(s: &str) -> (r: AppError) {
        AppError { message: String::from_str(s) }
    }
}

impl vstd::std_specs::convert::FromSpecImpl<&str> for AppError {
    open spec fn obeys_from_spec() -> bool {
        // A `String` with a given view cannot be written down in
        // specification code, so this conversion promises nothing;
        // `AppError::from_text` is the one with a contract.
        false
    }

    open spec fn from_spec(s: &str) -> AppError {
        arbitrary()
    }
}

} // verus!
