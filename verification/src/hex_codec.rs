//! Hexadecimal text encoding at the command boundary.
//!
//! Keys and block data cross the command surface as hexadecimal text; the
//! card itself works on raw bytes. Decoding accepts both letter cases,
//! encoding produces lower case, two digits per byte.

use vstd::prelude::*;

verus! {

/// A character that is a hexadecimal digit, in either case.
pub open spec fn is_hex_digit(c: char) -> bool {
    (48 <= c as int && c as int <= 57)  // '0' ..= '9'
    || (97 <= c as int && c as int <= 102)  // 'a' ..= 'f'
    || (65 <= c as int && c as int <= 70)  // 'A' ..= 'F'
}

/// Numeric value of a hexadecimal digit.
pub open spec fn hex_digit_value(c: char) -> int
    recommends
        is_hex_digit(c),
{
    if 48 <= c as int && c as int <= 57 {
        c as int - 48
    } else if 97 <= c as int && c as int <= 102 {
        c as int - 87
    } else {
        c as int - 55
    }
}

/// The lower-case digit character of a value below sixteen.
pub open spec fn hex_digit_char(v: int) -> char
    recommends
        0 <= v < 16,
{
    if v < 10 {
        ((v + 48) as u8) as char
    } else {
        ((v + 87) as u8) as char
    }
}

/// A well-formed hexadecimal string: even length, digits throughout.
pub open spec fn is_hex_str(s: Seq<char>) -> bool {
    s.len() % 2 == 0 && (forall|i: int| 0 <= i < s.len() ==> is_hex_digit(#[trigger] s[i]))
}

/// The bytes denoted by a hexadecimal string, one byte per digit pair.
pub open spec fn hex_decode(s: Seq<char>) -> Seq<u8>
    recommends
        is_hex_str(s),
    decreases s.len(),
{
    if s.len() < 2 {
        Seq::empty()
    } else {
        seq![(hex_digit_value(s[0]) * 16 + hex_digit_value(s[1])) as u8] + hex_decode(s.skip(2))
    }
}

/// The lower-case hexadecimal text of a byte sequence.
pub open spec fn hex_encode(bytes: Seq<u8>) -> Seq<char>
    decreases bytes.len(),
{
    if bytes.len() == 0 {
        Seq::empty()
    } else {
        seq![hex_digit_char(bytes[0] as int / 16), hex_digit_char(bytes[0] as int % 16)]
            + hex_encode(bytes.skip(1))
    }
}

pub proof fn lemma_hex_decode_len(s: Seq<char>)
    requires
        s.len() % 2 == 0,
    ensures
        hex_decode(s).len() == s.len() / 2,
    decreases s.len(),
{
    if s.len() >= 2 {
        lemma_hex_decode_len(s.skip(2));
    }
}

pub proof fn lemma_hex_encode_len(bytes: Seq<u8>)
    ensures
        hex_encode(bytes).len() == 2 * bytes.len(),
    decreases bytes.len(),
{
    if bytes.len() > 0 {
        lemma_hex_encode_len(bytes.skip(1));
    }
}

proof fn lemma_hex_encode_push(bytes: Seq<u8>, b: u8)
    ensures
        hex_encode(bytes.push(b)) == hex_encode(bytes) + seq![
            hex_digit_char(b as int / 16),
            hex_digit_char(b as int % 16),
        ],
    decreases bytes.len(),
{
    if bytes.len() == 0 {
        let p = bytes.push(b);
        assert(p.len() == 1 && p[0] == b);
        assert(p.skip(1) =~= Seq::<u8>::empty());
        assert(hex_encode(p) == seq![
            hex_digit_char(p[0] as int / 16),
            hex_digit_char(p[0] as int % 16),
        ] + hex_encode(p.skip(1)));
        assert(hex_encode(bytes.push(b)) =~= hex_encode(bytes) + seq![
            hex_digit_char(b as int / 16),
            hex_digit_char(b as int % 16),
        ]);
    } else {
        assert(bytes.push(b).skip(1) =~= bytes.skip(1).push(b));
        lemma_hex_encode_push(bytes.skip(1), b);
        assert(hex_encode(bytes.push(b)) =~= hex_encode(bytes) + seq![
            hex_digit_char(b as int / 16),
            hex_digit_char(b as int % 16),
        ]);
    }
}

proof fn lemma_hex_decode_push2(s: Seq<char>, c1: char, c2: char)
    requires
        s.len() % 2 == 0,
    ensures
        hex_decode(s.push(c1).push(c2)) == hex_decode(s).push(
            (hex_digit_value(c1) * 16 + hex_digit_value(c2)) as u8,
        ),
    decreases s.len(),
{
    let b = (hex_digit_value(c1) * 16 + hex_digit_value(c2)) as u8;
    if s.len() == 0 {
        let p = s.push(c1).push(c2);
        assert(p.len() == 2 && p[0] == c1 && p[1] == c2);
        assert(p.skip(2) =~= Seq::<char>::empty());
        assert(hex_decode(p) == seq![(hex_digit_value(p[0]) * 16 + hex_digit_value(p[1])) as u8]
            + hex_decode(p.skip(2)));
        assert(hex_decode(s.push(c1).push(c2)) =~= hex_decode(s).push(b));
    } else {
        assert(s.push(c1).push(c2).skip(2) =~= s.skip(2).push(c1).push(c2));
        lemma_hex_decode_push2(s.skip(2), c1, c2);
        assert(hex_decode(s.push(c1).push(c2)) =~= hex_decode(s).push(b));
    }
}

/// Decoding undoes encoding: the hexadecimal text of any byte sequence is
/// well formed and denotes the bytes it was made from.
pub proof fn lemma_hex_round_trip(bytes: Seq<u8>)
    ensures
        is_hex_str(hex_encode(bytes)),
        hex_decode(hex_encode(bytes)) == bytes,
    decreases bytes.len(),
{
    lemma_hex_encode_len(bytes);
    if bytes.len() == 0 {
        assert(hex_decode(hex_encode(bytes)) =~= bytes);
    } else {
        lemma_hex_round_trip(bytes.skip(1));
        lemma_hex_encode_len(bytes.skip(1));
        let e = hex_encode(bytes);
        assert(e.skip(2) =~= hex_encode(bytes.skip(1)));
        assert(forall|i: int| 0 <= i < e.len() ==> is_hex_digit(#[trigger] e[i])) by {
            assert(forall|i: int| 2 <= i < e.len() ==> e[i] == #[trigger] e.skip(2)[i - 2]);
        }
        assert(hex_decode(e)[0] == bytes[0]);
        assert(hex_decode(hex_encode(bytes)) =~= bytes);
    }
}

/// The digit character of a value below sixteen, as a one-character string.
pub(crate) fn hex_digit_str(v: u8) -> (r: &'static str)
    requires
        v < 16,
    ensures
        r@ == seq![hex_digit_char(v as int)],
{
    match v {
        0 => {
            proof { reveal_strlit("0"); }
            "0"
        },
        1 => {
            proof { reveal_strlit("1"); }
            "1"
        },
        2 => {
            proof { reveal_strlit("2"); }
            "2"
        },
        3 => {
            proof { reveal_strlit("3"); }
            "3"
        },
        4 => {
            proof { reveal_strlit("4"); }
            "4"
        },
        5 => {
            proof { reveal_strlit("5"); }
            "5"
        },
        6 => {
            proof { reveal_strlit("6"); }
            "6"
        },
        7 => {
            proof { reveal_strlit("7"); }
            "7"
        },
        8 => {
            proof { reveal_strlit("8"); }
            "8"
        },
        9 => {
            proof { reveal_strlit("9"); }
            "9"
        },
        10 => {
            proof { reveal_strlit("a"); }
            "a"
        },
        11 => {
            proof { reveal_strlit("b"); }
            "b"
        },
        12 => {
            proof { reveal_strlit("c"); }
            "c"
        },
        13 => {
            proof { reveal_strlit("d"); }
            "d"
        },
        14 => {
            proof { reveal_strlit("e"); }
            "e"
        },
        _ => {
            proof { reveal_strlit("f"); }
            "f"
        },
    }
}

/// Lower-case hexadecimal text of a byte sequence.
pub fn encode_hex(bytes: &[u8]) -> (r: String)
    ensures
        r@ == hex_encode(bytes@),
{
    let mut out = String::new();
    let mut i: usize = 0;
    while i < bytes.len()
        invariant
            i <= bytes@.len(),
            out@ == hex_encode(bytes@.take(i as int)),
        decreases bytes@.len() - i,
    {
        let b = bytes[i];
        out.append(hex_digit_str(b / 16));
        out.append(hex_digit_str(b % 16));
        proof {
            lemma_hex_encode_push(bytes@.take(i as int), b);
            assert(bytes@.take(i + 1) =~= bytes@.take(i as int).push(b));
        }
        i = i + 1;
    }
    proof {
        assert(bytes@.take(bytes@.len() as int) =~= bytes@);
    }
    out
}

/// Numeric value of a hexadecimal digit character, if it is one.
fn hex_val(c: char) -> (r: Option<u8>)
    ensures
        match r {
            Some(v) => is_hex_digit(c) && v == hex_digit_value(c),
            None => !is_hex_digit(c),
        },
{
    let u = c as u32;
    if 48 <= u && u <= 57 {
        Some((u - 48) as u8)
    } else if 97 <= u && u <= 102 {
        Some((u - 87) as u8)
    } else if 65 <= u && u <= 70 {
        Some((u - 55) as u8)
    } else {
        None
    }
}

/// The bytes denoted by a hexadecimal string, or nothing where the text is
/// not well-formed hexadecimal (odd length or a character that is no digit).
pub fn decode_hex(s: &str) -> (r: Option<Vec<u8>>)
    ensures
        match r {
            Some(v) => is_hex_str(s@) && v@ == hex_decode(s@),
            None => !is_hex_str(s@),
        },
{
    let n = s.unicode_len();
    if n % 2 != 0 {
        return None;
    }
    let mut out: Vec<u8> = Vec::new();
    let mut i: usize = 0;
    while i < n
        invariant
            n == s@.len(),
            n % 2 == 0,
            i % 2 == 0,
            i <= n,
            forall|j: int| 0 <= j < i ==> is_hex_digit(#[trigger] s@[j]),
            out@ == hex_decode(s@.take(i as int)),
        decreases n - i,
    {
        let c1 = s.get_char(i);
        let c2 = s.get_char(i + 1);
        let v1 = match hex_val(c1) {
            Some(v) => v,
            None => {
                return None;
            },
        };
        let v2 = match hex_val(c2) {
            Some(v) => v,
            None => {
                return None;
            },
        };
        out.push(v1 * 16 + v2);
        proof {
            lemma_hex_decode_push2(s@.take(i as int), c1, c2);
            assert(s@.take(i + 2) =~= s@.take(i as int).push(c1).push(c2));
        }
        i = i + 2;
    }
    proof {
        assert(s@.take(s@.len() as int) =~= s@);
    }
    Some(out)
}

} // verus!
