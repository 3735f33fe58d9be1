//! Text encodings of byte strings: hexadecimal, Base58 (Bitcoin alphabet) and
//! standard Base64. Hexadecimal is written out here. The Base58 and Base64
//! encoders and decoders are those of the `bs58` and `base64` crates; this
//! module states what the rest of the crate relies on.

use vstd::prelude::*;
use vstd::string::*;

verus! {

// ---------------------------------------------------------------------------
// Hexadecimal
// ---------------------------------------------------------------------------

/// The lower-case hexadecimal digit for a value below sixteen.
pub open spec fn hex_digit(n: int) -> char {
    if n == 0 { '0' }
    else if n == 1 { '1' }
    else if n == 2 { '2' }
    else if n == 3 { '3' }
    else if n == 4 { '4' }
    else if n == 5 { '5' }
    else if n == 6 { '6' }
    else if n == 7 { '7' }
    else if n == 8 { '8' }
    else if n == 9 { '9' }
    else if n == 10 { 'a' }
    else if n == 11 { 'b' }
    else if n == 12 { 'c' }
    else if n == 13 { 'd' }
    else if n == 14 { 'e' }
    else { 'f' }
}

/// The value of a hexadecimal digit of either case, or `None` for any other
/// character.
pub open spec fn hex_value(c: char) -> Option<int> {
    if c == '0' { Some(0) }
    else if c == '1' { Some(1) }
    else if c == '2' { Some(2) }
    else if c == '3' { Some(3) }
    else if c == '4' { Some(4) }
    else if c == '5' { Some(5) }
    else if c == '6' { Some(6) }
    else if c == '7' { Some(7) }
    else if c == '8' { Some(8) }
    else if c == '9' { Some(9) }
    else if c == 'a' || c == 'A' { Some(10) }
    else if c == 'b' || c == 'B' { Some(11) }
    else if c == 'c' || c == 'C' { Some(12) }
    else if c == 'd' || c == 'D' { Some(13) }
    else if c == 'e' || c == 'E' { Some(14) }
    else if c == 'f' || c == 'F' { Some(15) }
    else { None }
}

/// Lower-case hexadecimal text of a byte string: two digits per byte, the
/// high nibble first.
pub open spec fn spec_hex_encode(data: Seq<u8>) -> Seq<char> {
    Seq::new(
        2 * data.len(),
        |i: int| if i % 2 == 0 { hex_digit(data[i / 2] as int / 16) } else { hex_digit(data[i / 2] as int % 16) },
    )
}

/// Whether `text` is an even number of hexadecimal digits.
pub open spec fn is_hex_text(text: Seq<char>) -> bool {
    &&& text.len() % 2 == 0
    &&& forall|i: int| 0 <= i < text.len() ==> (#[trigger] hex_value(text[i])) is Some
}

/// The byte string that hexadecimal text stands for, or `None` where the
/// text has odd length or holds a character that is no hexadecimal digit.
pub open spec fn spec_hex_decode(text: Seq<char>) -> Option<Seq<u8>> {
    if is_hex_text(text) {
        Some(
            Seq::new(
                text.len() / 2,
                |i: int| (hex_value(text[2 * i]).unwrap() * 16 + hex_value(text[2 * i + 1]).unwrap()) as u8,
            ),
        )
    } else {
        None
    }
}

/// Decoding the hexadecimal text of a byte string gives the byte string back.
pub proof fn lemma_hex_round_trip(data: Seq<u8>)
    ensures
        spec_hex_decode(spec_hex_encode(data)) == Some(data),
{
    let text = spec_hex_encode(data);
    assert forall|i: int| 0 <= i < text.len() implies (#[trigger] hex_value(text[i])) is Some by {
        let b = data[i / 2] as int;
        assert(0 <= b / 16 < 16 && 0 <= b % 16 < 16);
    }
    assert(is_hex_text(text));
    let back = spec_hex_decode(text).unwrap();
    assert(back.len() == data.len());
    assert forall|i: int| 0 <= i < data.len() implies back[i] == data[i] by {
        let b = data[i] as int;
        assert(0 <= b / 16 < 16 && 0 <= b % 16 < 16);
        assert((2 * i) % 2 == 0 && (2 * i) / 2 == i);
        assert((2 * i + 1) % 2 == 1 && (2 * i + 1) / 2 == i);
        assert(hex_value(hex_digit(b / 16)) == Some(b / 16));
        assert(hex_value(hex_digit(b % 16)) == Some(b % 16));
        assert((b / 16) * 16 + b % 16 == b);
    }
    assert(back =~= data);
}

/// Two byte strings with the same hexadecimal text are equal.
pub proof fn lemma_hex_encode_injective(a: Seq<u8>, b: Seq<u8>)
    requires
        spec_hex_encode(a) == spec_hex_encode(b),
    ensures
        a == b,
{
    lemma_hex_round_trip(a);
    lemma_hex_round_trip(b);
}

fn hex_digit_str(n: u8) -> (res: &'static str)
    requires
        n < 16,
    ensures
        res@ == seq![hex_digit(n as int)],
{
    proof {
        reveal_strlit("0");
        reveal_strlit("1");
        reveal_strlit("2");
        reveal_strlit("3");
        reveal_strlit("4");
        reveal_strlit("5");
        reveal_strlit("6");
        reveal_strlit("7");
        reveal_strlit("8");
        reveal_strlit("9");
        reveal_strlit("a");
        reveal_strlit("b");
        reveal_strlit("c");
        reveal_strlit("d");
        reveal_strlit("e");
        reveal_strlit("f");
    }
    let res = if n == 0 { "0" }
    else if n == 1 { "1" }
    else if n == 2 { "2" }
    else if n == 3 { "3" }
    else if n == 4 { "4" }
    else if n == 5 { "5" }
    else if n == 6 { "6" }
    else if n == 7 { "7" }
    else if n == 8 { "8" }
    else if n == 9 { "9" }
    else if n == 10 { "a" }
    else if n == 11 { "b" }
    else if n == 12 { "c" }
    else if n == 13 { "d" }
    else if n == 14 { "e" }
    else { "f" };
    assert(res@ =~= seq![hex_digit(n as int)]);
    res
}

fn hex_value_of(c: char) -> (res: Option<u8>)
    ensures
        match res {
            Some(v) => hex_value(c) == Some(v as int) && v < 16,
            None => hex_value(c) is None,
        },
{
    if c == '0' {
        Some(0)
    } else if c == '1' {
        Some(1)
    } else if c == '2' {
        Some(2)
    } else if c == '3' {
        Some(3)
    } else if c == '4' {
        Some(4)
    } else if c == '5' {
        Some(5)
    } else if c == '6' {
        Some(6)
    } else if c == '7' {
        Some(7)
    } else if c == '8' {
        Some(8)
    } else if c == '9' {
        Some(9)
    } else if c == 'a' || c == 'A' {
        Some(10)
    } else if c == 'b' || c == 'B' {
        Some(11)
    } else if c == 'c' || c == 'C' {
        Some(12)
    } else if c == 'd' || c == 'D' {
        Some(13)
    } else if c == 'e' || c == 'E' {
        Some(14)
    } else if c == 'f' || c == 'F' {
        Some(15)
    } else {
        None
    }
}

/// The lower-case hexadecimal text of a byte string, two digits per byte.
pub fn hex_encode(data: &[u8]) -> (res: String)
    ensures
        res@ == spec_hex_encode(data@),
{
    let mut out = String::new();
    let mut i: usize = 0;
    assert(out@ =~= spec_hex_encode(data@.take(0)));
    while i < data.len()
        invariant
            i <= data@.len(),
            out@ == spec_hex_encode(data@.take(i as int)),
        decreases data@.len() - i,
    {
        let byte = data[i];
        let ghost before = out@;
        out.append(hex_digit_str(byte / 16));
        out.append(hex_digit_str(byte % 16));
        proof {
            let front = data@.take(i + 1);
            let text = spec_hex_encode(front);
            assert(text.len() == before.len() + 2);
            assert forall|k: int| 0 <= k < text.len() implies text[k] == out@[k] by {
                if k < 2 * i {
                    assert(front[k / 2] == data@.take(i as int)[k / 2]);
                    assert(before[k] == out@[k]);
                } else {
                    assert(k / 2 == i);
                    assert(front[i as int] == byte);
                }
            }
            assert(out@ =~= text);
        }
        i += 1;
    }
    assert(data@.take(data@.len() as int) =~= data@);
    out
}

/// The byte string that hexadecimal text stands for. Digits of either case
/// are read; text of odd length and text with any other character gives
/// `None`.
pub fn hex_decode(text: &str) -> (res: Option<Vec<u8>>)
    ensures
        match res {
            Some(bytes) => spec_hex_decode(text@) == Some(bytes@),
            None => spec_hex_decode(text@) is None,
        },
{
    let n = text.unicode_len();
    if n % 2 != 0 {
        return None;
    }
    let mut bytes: Vec<u8> = Vec::new();
    let mut i: usize = 0;
    while i < n / 2
        invariant
            n == text@.len(),
            n % 2 == 0,
            i <= n / 2,
            bytes@.len() == i,
            forall|k: int| 0 <= k < 2 * i ==> (#[trigger] hex_value(text@[k])) is Some,
            forall|j: int|
                0 <= j < i ==> #[trigger] bytes@[j] == (hex_value(text@[2 * j]).unwrap() * 16 + hex_value(
                    text@[2 * j + 1],
                ).unwrap()) as u8,
        decreases n / 2 - i,
    {
        let high = match hex_value_of(text.get_char(2 * i)) {
            Some(v) => v,
            None => {
                assert(hex_value(text@[2 * i as int]) is None);
                return None;
            },
        };
        let low = match hex_value_of(text.get_char(2 * i + 1)) {
            Some(v) => v,
            None => {
                assert(hex_value(text@[2 * i + 1]) is None);
                return None;
            },
        };
        bytes.push(high * 16 + low);
        i += 1;
    }
    assert(is_hex_text(text@));
    assert(bytes@ =~= spec_hex_decode(text@).unwrap());
    Some(bytes)
}

// ---------------------------------------------------------------------------
// Base58
// ---------------------------------------------------------------------------

/// The Base58 text (Bitcoin alphabet) of a byte string.
pub uninterp spec fn spec_base58_encode(data: Seq<u8>) -> Seq<char>;

/// The byte string that Base58 text stands for, or `None` where the text is
/// not Base58.
pub uninterp spec fn spec_base58_decode(text: Seq<char>) -> Option<Seq<u8>>;

#[verifier::external_type_specification]
#[verifier::external_body]
pub struct ExBase58DecodeError(bs58::decode::Error);

/// `bs58::encode(..).into_string()` with the default alphabet. The text it
/// gives decodes to the bytes it was given.
#[verifier::external_body]
pub(crate) fn base58_encode(data: &[u8]) -> (res: String)
    ensures
        res@ == spec_base58_encode(data@),
        spec_base58_decode(res@) == Some(data@),
{
    bs58::encode(data).into_string()
}

/// `bs58::decode(..).into_vec()` with the default alphabet.
#[verifier::external_body]
pub(crate) fn base58_decode(text: &str) -> (res: Result<Vec<u8>, bs58::decode::Error>)
    ensures
        res matches Ok(bytes) ==> spec_base58_decode(text@) == Some(bytes@),
        res is Err ==> spec_base58_decode(text@) is None,
{
    bs58::decode(text).into_vec()
}

// ---------------------------------------------------------------------------
// Base64
// ---------------------------------------------------------------------------

/// The standard padded Base64 text of a byte string.
pub uninterp spec fn spec_base64_encode(data: Seq<u8>) -> Seq<char>;

/// The byte string that standard padded Base64 text stands for, or `None`
/// where the text is not canonical Base64.
pub uninterp spec fn spec_base64_decode(text: Seq<char>) -> Option<Seq<u8>>;

#[verifier::external_type_specification]
#[verifier::external_body]
pub struct ExBase64DecodeError(base64::DecodeError);

/// Whether the Base64 text of `len` bytes still has a length that fits in
/// `usize`.
pub open spec fn base64_fits(len: nat) -> bool {
    (len / 3) * 4 + 4 <= usize::MAX
}

/// `STANDARD.encode`. The text it gives has four characters for every three
/// bytes, the last three filled up, and decodes to the bytes it was given.
/// The encoder panics where the length of the text overflows `usize`.
#[verifier::external_body]
pub(crate) fn base64_encode(data: &[u8]) -> (res: String)
    requires
        base64_fits(data@.len()),
    ensures
        res@ == spec_base64_encode(data@),
        res@.len() == 4 * ((data@.len() + 2) / 3),
        spec_base64_decode(res@) == Some(data@),
{
    base64::Engine::encode(&base64::engine::general_purpose::STANDARD, data)
}

/// `STANDARD.decode`.
#[verifier::external_body]
pub(crate) fn base64_decode(text: &str) -> (res: Result<Vec<u8>, base64::DecodeError>)
    ensures
        res matches Ok(bytes) ==> spec_base64_decode(text@) == Some(bytes@),
        res is Err ==> spec_base64_decode(text@) is None,
{
    base64::Engine::decode(&base64::engine::general_purpose::STANDARD, text)
}

} // verus!
