//! Small verified helpers on strings and byte slices that the rest of the
//! crate builds on. Strings are viewed as sequences of characters; where a
//! helper works on the UTF-8 bytes, its contract is still stated on the view.

use vstd::prelude::*;
use vstd::string::*;
use vstd::utf8::*;

verus! {

/// The view of an optional string: `None`, or the characters it holds.
pub open spec fn opt_view(s: Option<String>) -> Option<Seq<char>> {
    match s {
        Some(t) => Some(t@),
        None => None,
    }
}

/// Two strings with the same UTF-8 encoding hold the same characters.
pub proof fn lemma_utf8_injective(a: Seq<char>, b: Seq<char>)
    requires
        encode_utf8(a) == encode_utf8(b),
    ensures
        a == b,
{
    encode_utf8_decode_utf8(a);
    encode_utf8_decode_utf8(b);
}

/// Byte-wise equality of two slices.
pub fn bytes_eq(a: &[u8], b: &[u8]) -> (res: bool)
    ensures
        res == (a@ == b@),
{
    if a.len() != b.len() {
        return false;
    }
    let mut i: usize = 0;
    while i < a.len()
        invariant
            a.len() == b.len(),
            i <= a.len(),
            forall|j: int| 0 <= j < i ==> a@[j] == b@[j],
        decreases a.len() - i,
    {
        if a[i] != b[i] {
            return false;
        }
        i += 1;
    }
    assert(a@ =~= b@);
    true
}

/// Equality of two strings, character for character.
pub fn str_eq(a: &str, b: &str) -> (res: bool)
    ensures
        res == (a@ == b@),
{
    let res = bytes_eq(a.as_bytes(), b.as_bytes());
    proof {
        if res {
            lemma_utf8_injective(a@, b@);
        }
    }
    res
}

/// Equality of two optional strings: both absent, or both present and equal.
pub fn opt_str_eq(a: &Option<String>, b: &Option<String>) -> (res: bool)
    ensures
        res == (opt_view(*a) == opt_view(*b)),
{
    match (a, b) {
        (Some(x), Some(y)) => str_eq(x.as_str(), y.as_str()),
        (None, None) => true,
        _ => false,
    }
}

/// A copy of an optional string.
pub fn opt_clone(s: &Option<String>) -> (res: Option<String>)
    ensures
        res == *s,
{
    match s {
        Some(t) => Some(t.clone()),
        None => None,
    }
}

/// A copy of an optional string slice as an owned string.
pub fn opt_to_owned(s: Option<&str>) -> (res: Option<String>)
    ensures
        opt_view(res) == (match s {
            Some(t) => Some(t@),
            None => None,
        }),
{
    match s {
        Some(t) => Some(String::from_str(t)),
        None => None,
    }
}

// ---------------------------------------------------------------------------
// Joining
// ---------------------------------------------------------------------------

/// The parts one after another, with `separator` between neighbours.
pub open spec fn spec_join(parts: Seq<Seq<char>>, separator: Seq<char>) -> Seq<char>
    decreases parts.len(),
{
    if parts.len() == 0 {
        Seq::empty()
    } else if parts.len() == 1 {
        parts[0]
    } else {
        spec_join(parts.drop_last(), separator) + separator + parts.last()
    }
}

/// The views of a list of strings.
pub open spec fn string_views(parts: Seq<String>) -> Seq<Seq<char>> {
    Seq::new(parts.len(), |i: int| parts[i]@)
}

/// The views of a list with one more string are the views of the list with
/// one more view.
pub proof fn lemma_string_views_push(parts: Seq<String>, last: String)
    ensures
        string_views(parts.push(last)) == string_views(parts).push(last@),
{
    assert(string_views(parts.push(last)) =~= string_views(parts).push(last@));
}

/// Joins strings with a separator between neighbours.
pub fn join(parts: &Vec<String>, separator: &str) -> (res: String)
    ensures
        res@ == spec_join(string_views(parts@), separator@),
{
    let mut out = String::new();
    let ghost views = string_views(parts@);
    let mut i: usize = 0;
    while i < parts.len()
        invariant
            i <= parts@.len(),
            views == string_views(parts@),
            out@ == spec_join(views.take(i as int), separator@),
        decreases parts@.len() - i,
    {
        let ghost before = out@;
        if i > 0 {
            out.append(separator);
        }
        out.append(parts[i].as_str());
        proof {
            let front = views.take(i + 1);
            assert(front.drop_last() =~= views.take(i as int));
            assert(front.last() == parts@[i as int]@);
            if i == 0 {
                assert(front[0] == parts@[0]@);
                assert(out@ =~= parts@[0]@);
            }
        }
        i += 1;
    }
    assert(views.take(views.len() as int) =~= views);
    out
}

// ---------------------------------------------------------------------------
// Prefixes, suffixes and white space
// ---------------------------------------------------------------------------

/// Whether `text` begins with `prefix`.
pub open spec fn spec_starts_with(text: Seq<char>, prefix: Seq<char>) -> bool {
    prefix.len() <= text.len() && text.take(prefix.len() as int) == prefix
}

/// Whether `text` ends with `suffix`.
pub open spec fn spec_ends_with(text: Seq<char>, suffix: Seq<char>) -> bool {
    suffix.len() <= text.len() && text.skip(text.len() - suffix.len()) == suffix
}

/// `text` without every repeat of `pattern` at its start. An empty pattern
/// takes nothing away.
pub open spec fn spec_trim_start_matches(text: Seq<char>, pattern: Seq<char>) -> Seq<char>
    decreases text.len(),
{
    if pattern.len() > 0 && spec_starts_with(text, pattern) {
        spec_trim_start_matches(text.skip(pattern.len() as int), pattern)
    } else {
        text
    }
}

/// `text` without every repeat of `pattern` at its end. An empty pattern
/// takes nothing away.
pub open spec fn spec_trim_end_matches(text: Seq<char>, pattern: Seq<char>) -> Seq<char>
    decreases text.len(),
{
    if pattern.len() > 0 && spec_ends_with(text, pattern) {
        spec_trim_end_matches(text.take(text.len() - pattern.len()), pattern)
    } else {
        text
    }
}

/// `text` without the white space at its start and its end, white space
/// being what Unicode calls so.
pub uninterp spec fn spec_trim(text: Seq<char>) -> Seq<char>;

/// `str::trim`: the slice without leading and trailing white space.
#[verifier::external_body]
pub(crate) fn str_trim(text: &str) -> (res: &str)
    ensures
        res@ == spec_trim(text@),
        res@.len() <= text@.len(),
{
    text.trim()
}

/// `text` without every repeat of `pattern` at its start.
pub fn trim_start_matches<'a>(text: &'a str, pattern: &str) -> (res: &'a str)
    ensures
        res@ == spec_trim_start_matches(text@, pattern@),
{
    let width = pattern.unicode_len();
    if width == 0 {
        return text;
    }
    let mut rest = text;
    let mut length = rest.unicode_len();
    while length >= width && str_eq(rest.substring_char(0, width), pattern)
        invariant
            width == pattern@.len(),
            width > 0,
            length == rest@.len(),
            spec_trim_start_matches(rest@, pattern@) == spec_trim_start_matches(text@, pattern@),
        decreases length,
    {
        assert(rest@.subrange(0, width as int) =~= rest@.take(width as int));
        assert(rest@.subrange(width as int, length as int) =~= rest@.skip(width as int));
        rest = rest.substring_char(width, length);
        length = length - width;
    }
    assert(rest@.subrange(0, width as int) =~= rest@.take(width as int));
    rest
}

/// `text` without every repeat of `pattern` at its end.
pub fn trim_end_matches<'a>(text: &'a str, pattern: &str) -> (res: &'a str)
    ensures
        res@ == spec_trim_end_matches(text@, pattern@),
{
    let width = pattern.unicode_len();
    if width == 0 {
        return text;
    }
    let mut rest = text;
    let mut length = rest.unicode_len();
    while length >= width && str_eq(rest.substring_char(length - width, length), pattern)
        invariant
            width == pattern@.len(),
            width > 0,
            length == rest@.len(),
            spec_trim_end_matches(rest@, pattern@) == spec_trim_end_matches(text@, pattern@),
        decreases length,
    {
        assert(rest@.subrange(length - width, length as int) =~= rest@.skip(length - width));
        assert(rest@.subrange(0, length - width) =~= rest@.take(length - width));
        rest = rest.substring_char(0, length - width);
        length = length - width;
    }
    assert(rest@.subrange(length - width, length as int) =~= rest@.skip(length - width));
    rest
}

// ---------------------------------------------------------------------------
// Order
// ---------------------------------------------------------------------------

/// Lexicographic order on byte strings: the order in which Rust compares
/// strings, and the one that orders RFC 3339 time stamps of one format by
/// time.
pub open spec fn bytes_lt(a: Seq<u8>, b: Seq<u8>) -> bool
    decreases a.len(),
{
    if b.len() == 0 {
        false
    } else if a.len() == 0 {
        true
    } else if a[0] != b[0] {
        a[0] < b[0]
    } else {
        bytes_lt(a.drop_first(), b.drop_first())
    }
}

/// Lexicographic order on strings, by their UTF-8 bytes.
pub open spec fn str_lt(a: Seq<char>, b: Seq<char>) -> bool {
    bytes_lt(encode_utf8(a), encode_utf8(b))
}

/// No byte string is below itself.
pub proof fn lemma_bytes_lt_irreflexive(a: Seq<u8>)
    ensures
        !bytes_lt(a, a),
    decreases a.len(),
{
    if a.len() > 0 {
        lemma_bytes_lt_irreflexive(a.drop_first());
    }
}

/// Of two different byte strings one is below the other, and never both.
pub proof fn lemma_bytes_lt_total(a: Seq<u8>, b: Seq<u8>)
    ensures
        a != b ==> (bytes_lt(a, b) <==> !bytes_lt(b, a)),
        a == b ==> !bytes_lt(a, b) && !bytes_lt(b, a),
    decreases a.len(),
{
    if a == b {
        lemma_bytes_lt_irreflexive(a);
    } else if a.len() == 0 || b.len() == 0 {
        if a.len() == 0 && b.len() == 0 {
            assert(a =~= b);
        }
    } else if a[0] != b[0] {
    } else {
        lemma_bytes_lt_total(a.drop_first(), b.drop_first());
        if a.drop_first() == b.drop_first() {
            assert(a =~= seq![a[0]] + a.drop_first());
            assert(b =~= seq![b[0]] + b.drop_first());
        }
    }
}

/// The order is transitive.
pub proof fn lemma_bytes_lt_transitive(a: Seq<u8>, b: Seq<u8>, c: Seq<u8>)
    requires
        bytes_lt(a, b),
        bytes_lt(b, c),
    ensures
        bytes_lt(a, c),
    decreases a.len(),
{
    if a.len() == 0 {
    } else if a[0] != b[0] || b[0] != c[0] {
    } else {
        lemma_bytes_lt_transitive(a.drop_first(), b.drop_first(), c.drop_first());
    }
}

/// Of two different strings one is below the other, and never both.
pub proof fn lemma_str_lt_total(a: Seq<char>, b: Seq<char>)
    ensures
        a != b ==> (str_lt(a, b) <==> !str_lt(b, a)),
        a == b ==> !str_lt(a, b) && !str_lt(b, a),
{
    lemma_bytes_lt_total(encode_utf8(a), encode_utf8(b));
    if encode_utf8(a) == encode_utf8(b) {
        lemma_utf8_injective(a, b);
    }
}

/// The order on strings is transitive.
pub proof fn lemma_str_lt_transitive(a: Seq<char>, b: Seq<char>, c: Seq<char>)
    requires
        str_lt(a, b),
        str_lt(b, c),
    ensures
        str_lt(a, c),
{
    lemma_bytes_lt_transitive(encode_utf8(a), encode_utf8(b), encode_utf8(c));
}

proof fn lemma_bytes_lt_skip(a: Seq<u8>, b: Seq<u8>, i: int)
    requires
        0 <= i <= a.len(),
        i <= b.len(),
        a.subrange(0, i) == b.subrange(0, i),
    ensures
        bytes_lt(a, b) == bytes_lt(a.skip(i), b.skip(i)),
    decreases i,
{
    if i > 0 {
        assert(a.subrange(0, i)[0] == a[0]);
        assert(b.subrange(0, i)[0] == b[0]);
        assert(a[0] == b[0]);
        assert(bytes_lt(a, b) == bytes_lt(a.drop_first(), b.drop_first()));
        assert(a.drop_first().subrange(0, i - 1) =~= a.subrange(0, i).drop_first());
        assert(b.drop_first().subrange(0, i - 1) =~= b.subrange(0, i).drop_first());
        lemma_bytes_lt_skip(a.drop_first(), b.drop_first(), i - 1);
        assert(a.drop_first().skip(i - 1) =~= a.skip(i));
        assert(b.drop_first().skip(i - 1) =~= b.skip(i));
    } else {
        assert(a.skip(0) =~= a);
        assert(b.skip(0) =~= b);
    }
}

/// Whether `a` comes before `b` in lexicographic order.
pub fn str_less(a: &str, b: &str) -> (res: bool)
    ensures
        res == str_lt(a@, b@),
{
    let x = a.as_bytes();
    let y = b.as_bytes();
    let mut i: usize = 0;
    while i < x.len() && i < y.len()
        invariant
            i <= x@.len(),
            i <= y@.len(),
            x@ == encode_utf8(a@),
            y@ == encode_utf8(b@),
            x@.subrange(0, i as int) == y@.subrange(0, i as int),
        decreases x@.len() - i,
    {
        if x[i] != y[i] {
            proof {
                lemma_bytes_lt_skip(x@, y@, i as int);
                let xs = x@.skip(i as int);
                let ys = y@.skip(i as int);
                assert(xs.len() > 0 && ys.len() > 0);
                assert(xs[0] == x@[i as int]);
                assert(ys[0] == y@[i as int]);
                assert(bytes_lt(xs, ys) == (xs[0] < ys[0]));
            }
            return x[i] < y[i];
        }
        assert(x@.subrange(0, i + 1) =~= x@.subrange(0, i as int).push(x@[i as int]));
        assert(y@.subrange(0, i + 1) =~= y@.subrange(0, i as int).push(y@[i as int]));
        i += 1;
    }
    proof {
        lemma_bytes_lt_skip(x@, y@, i as int);
        assert(x@.skip(i as int).len() == x@.len() - i);
        assert(y@.skip(i as int).len() == y@.len() - i);
    }
    i < y.len()
}

// ---------------------------------------------------------------------------
// Decimal numbers
// ---------------------------------------------------------------------------

/// The character of a decimal digit.
pub open spec fn digit_char(d: int) -> char {
    if d == 0 { '0' }
    else if d == 1 { '1' }
    else if d == 2 { '2' }
    else if d == 3 { '3' }
    else if d == 4 { '4' }
    else if d == 5 { '5' }
    else if d == 6 { '6' }
    else if d == 7 { '7' }
    else if d == 8 { '8' }
    else { '9' }
}

/// The decimal digits of a natural number, without leading zeros.
pub open spec fn spec_decimal(n: nat) -> Seq<char>
    decreases n,
{
    if n < 10 {
        seq![digit_char(n as int)]
    } else {
        spec_decimal(n / 10).push(digit_char((n % 10) as int))
    }
}

/// The decimal form of an integer, with `-` before a negative one.
pub open spec fn spec_decimal_int(n: int) -> Seq<char> {
    if n < 0 {
        seq!['-'] + spec_decimal((-n) as nat)
    } else {
        spec_decimal(n as nat)
    }
}

fn digit_str(d: u64) -> (res: &'static str)
    requires
        d < 10,
    ensures
        res@ == seq![digit_char(d as int)],
{
    proof {
        reveal_strlit("0");
        reveal_strlit("1");
        reveal_strlit("2");
        reveal_strlit("3");
        reveal_strlit("4");
        reveal_strlit("5");
        reveal_strlit("6");
        reveal_strlit("7");
        reveal_strlit("8");
        reveal_strlit("9");
    }
    let res = if d == 0 { "0" }
    else if d == 1 { "1" }
    else if d == 2 { "2" }
    else if d == 3 { "3" }
    else if d == 4 { "4" }
    else if d == 5 { "5" }
    else if d == 6 { "6" }
    else if d == 7 { "7" }
    else if d == 8 { "8" }
    else { "9" };
    assert(res@ =~= seq![digit_char(d as int)]);
    res
}

/// Appends the decimal digits of `n` to `out`.
pub fn push_decimal(out: &mut String, n: u64)
    ensures
        final(out)@ == old(out)@ + spec_decimal(n as nat),
    decreases n,
{
    if n >= 10 {
        push_decimal(out, n / 10);
    }
    out.append(digit_str(n % 10));
    assert(old(out)@ + spec_decimal(n as nat) =~= out@);
}

/// Appends the decimal form of `n` to `out`.
pub fn push_decimal_int(out: &mut String, n: i64)
    ensures
        final(out)@ == old(out)@ + spec_decimal_int(n as int),
{
    if n < 0 {
        out.append("-");
        proof {
            reveal_strlit("-");
        }
        let magnitude: u64 = if n == i64::MIN { 9223372036854775808u64 } else { (-n) as u64 };
        push_decimal(out, magnitude);
        assert(old(out)@ + spec_decimal_int(n as int) =~= out@);
    } else {
        push_decimal(out, n as u64);
    }
}

/// The digits of a fraction of `scale`, a power of ten, without the zeros
/// at its end: nothing for zero.
pub open spec fn spec_fraction(fraction: nat, scale: nat) -> Seq<char>
    decreases scale,
{
    if fraction == 0 || scale < 10 {
        Seq::empty()
    } else {
        seq![digit_char((fraction / (scale / 10)) as int % 10)] + spec_fraction(fraction % (scale / 10), scale / 10)
    }
}

/// The decimal form of a number of millionths: the whole part, then, where
/// the number is not whole, a point and the digits of the fraction without
/// zeros at the end; `-` before a negative number.
pub open spec fn spec_millionths(value: int) -> Seq<char> {
    let magnitude = if value < 0 {
        -value
    } else {
        value
    };
    let sign = if value < 0 {
        seq!['-']
    } else {
        Seq::<char>::empty()
    };
    let whole = spec_decimal((magnitude / 1_000_000) as nat);
    let fraction = (magnitude % 1_000_000) as nat;
    if fraction == 0 {
        sign + whole
    } else {
        sign + whole + seq!['.'] + spec_fraction(fraction, 1_000_000)
    }
}

/// Appends the decimal form of a number of millionths to `out`.
pub fn push_millionths(out: &mut String, value: i64)
    ensures
        final(out)@ == old(out)@ + spec_millionths(value as int),
{
    let magnitude: u64 = if value >= 0 {
        value as u64
    } else if value == i64::MIN {
        9223372036854775808u64
    } else {
        (-value) as u64
    };
    if value < 0 {
        out.append("-");
    }
    proof {
        reveal_strlit("-");
        reveal_strlit(".");
    }
    push_decimal(out, magnitude / 1_000_000);
    let mut fraction: u64 = magnitude % 1_000_000;
    if fraction != 0 {
        out.append(".");
        let mut scale: u64 = 1_000_000;
        let ghost start = out@;
        let ghost whole_fraction = fraction;
        while fraction != 0 && scale >= 10
            invariant
                fraction < scale,
                scale <= 1_000_000,
                out@ + spec_fraction(fraction as nat, scale as nat) == start + spec_fraction(
                    whole_fraction as nat,
                    1_000_000,
                ),
            decreases scale,
        {
            let ghost before = out@;
            let step = scale / 10;
            let digit = (fraction / step) % 10;
            out.append(digit_str(digit));
            assert(before + (seq![digit_char(digit as int)] + spec_fraction((fraction % step) as nat, step as nat))
                =~= out@ + spec_fraction((fraction % step) as nat, step as nat));
            fraction = fraction % step;
            scale = step;
        }
        assert(out@ + Seq::<char>::empty() =~= out@);
        assert(out@ =~= old(out)@ + spec_millionths(value as int));
    } else {
        assert(out@ =~= old(out)@ + spec_millionths(value as int));
    }
}

/// The value of a decimal digit, or `None` for any other character.
pub open spec fn digit_value(c: char) -> Option<int> {
    if c == '0' { Some(0) }
    else if c == '1' { Some(1) }
    else if c == '2' { Some(2) }
    else if c == '3' { Some(3) }
    else if c == '4' { Some(4) }
    else if c == '5' { Some(5) }
    else if c == '6' { Some(6) }
    else if c == '7' { Some(7) }
    else if c == '8' { Some(8) }
    else if c == '9' { Some(9) }
    else { None }
}

/// The number that one or more decimal digits write, or `None` where the
/// text is empty or holds another character.
pub open spec fn spec_digits_value(text: Seq<char>) -> Option<int>
    decreases text.len(),
{
    if text.len() == 0 {
        None
    } else if text.len() == 1 {
        digit_value(text[0])
    } else {
        match (spec_digits_value(text.drop_last()), digit_value(text.last())) {
            (Some(v), Some(d)) => Some(v * 10 + d),
            _ => None,
        }
    }
}

/// The 64-bit integer that a text writes: an optional sign, then one or
/// more decimal digits, and nothing else; `None` for any other text and for
/// a number out of range.
pub open spec fn spec_parse_i64(text: Seq<char>) -> Option<i64> {
    let signed = text.len() > 0 && (text[0] == '-' || text[0] == '+');
    let digits = if signed {
        text.drop_first()
    } else {
        text
    };
    match spec_digits_value(digits) {
        None => None,
        Some(v) => {
            let n = if signed && text[0] == '-' {
                -v
            } else {
                v
            };
            if i64::MIN <= n <= i64::MAX {
                Some(n as i64)
            } else {
                None
            }
        },
    }
}

/// The decimal digits of a number write that number, and begin with a
/// digit.
pub proof fn lemma_digits_of_decimal(n: nat)
    ensures
        spec_digits_value(spec_decimal(n)) == Some(n as int),
        spec_decimal(n).len() > 0,
        digit_value(spec_decimal(n)[0]) is Some,
    decreases n,
{
    if n >= 10 {
        lemma_digits_of_decimal(n / 10);
        let front = spec_decimal(n / 10);
        let text = spec_decimal(n);
        assert(text.drop_last() =~= front);
        assert(text.last() == digit_char((n % 10) as int));
        assert(text[0] == front[0]);
        assert(digit_value(digit_char((n % 10) as int)) == Some((n % 10) as int));
    } else {
        assert(digit_value(digit_char(n as int)) == Some(n as int));
    }
}

/// Reading the decimal form of a 64-bit integer gives the integer back.
pub proof fn lemma_parse_decimal_int(n: i64)
    ensures
        spec_parse_i64(spec_decimal_int(n as int)) == Some(n),
{
    let text = spec_decimal_int(n as int);
    if n < 0 {
        let digits = spec_decimal((-n) as nat);
        lemma_digits_of_decimal((-n) as nat);
        assert(text.drop_first() =~= digits);
        assert(text[0] == '-');
    } else {
        lemma_digits_of_decimal(n as nat);
    }
}

/// A text that writes a number writes one in each of its beginnings, and
/// none of them writes a greater number than the whole text.
pub proof fn lemma_digits_value_prefix(text: Seq<char>, k: int)
    requires
        0 < k <= text.len(),
        spec_digits_value(text) is Some,
    ensures
        spec_digits_value(text.take(k)) is Some,
        0 <= spec_digits_value(text.take(k)).unwrap() <= spec_digits_value(text).unwrap(),
    decreases text.len(),
{
    if k == text.len() {
        assert(text.take(k) =~= text);
        lemma_digits_value_nonnegative(text);
    } else {
        let front = text.drop_last();
        assert(front.take(k) =~= text.take(k));
        lemma_digits_value_prefix(front, k);
        lemma_digits_value_nonnegative(front);
    }
}

/// The number that digits write is not negative.
pub proof fn lemma_digits_value_nonnegative(text: Seq<char>)
    requires
        spec_digits_value(text) is Some,
    ensures
        spec_digits_value(text).unwrap() >= 0,
    decreases text.len(),
{
    if text.len() > 1 {
        lemma_digits_value_nonnegative(text.drop_last());
    }
}

fn digit_of(c: char) -> (res: Option<i64>)
    ensures
        match res {
            Some(d) => digit_value(c) == Some(d as int) && 0 <= d <= 9,
            None => digit_value(c) is None,
        },
{
    if c == '0' {
        Some(0)
    } else if c == '1' {
        Some(1)
    } else if c == '2' {
        Some(2)
    } else if c == '3' {
        Some(3)
    } else if c == '4' {
        Some(4)
    } else if c == '5' {
        Some(5)
    } else if c == '6' {
        Some(6)
    } else if c == '7' {
        Some(7)
    } else if c == '8' {
        Some(8)
    } else if c == '9' {
        Some(9)
    } else {
        None
    }
}

/// Reads a 64-bit integer: an optional sign and decimal digits. Anything
/// else, white space included, and any number out of range gives `None`.
pub fn parse_i64(text: &str) -> (res: Option<i64>)
    ensures
        res == spec_parse_i64(text@),
{
    let n = text.unicode_len();
    if n == 0 {
        return None;
    }
    let first = text.get_char(0);
    let signed = first == '-' || first == '+';
    let negative = first == '-';
    let start: usize = if signed {
        1
    } else {
        0
    };
    let ghost digits = if signed {
        text@.drop_first()
    } else {
        text@
    };
    if start == n {
        return None;
    }
    // The magnitude of the least 64-bit integer is the greatest that a
    // number in range can have.
    let limit: u64 = 9223372036854775808u64;
    let mut acc: u64 = 0;
    let mut i: usize = start;
    while i < n
        invariant
            start <= i <= n,
            n == text@.len(),
            n > 0,
            signed == (text@[0] == '-' || text@[0] == '+'),
            negative == (text@[0] == '-'),
            start == (if signed { 1int } else { 0int }),
            digits == (if signed { text@.drop_first() } else { text@ }),
            limit == 9223372036854775808u64,
            i > start ==> spec_digits_value(digits.take(i - start)) == Some(acc as int),
            i == start ==> acc == 0,
            acc <= limit,
        decreases n - i,
    {
        let c = text.get_char(i);
        let ghost front = digits.take(i - start + 1);
        proof {
            assert(digits.len() == n - start);
            assert(front.drop_last() =~= digits.take(i - start));
            assert(front.last() == c);
            assert(front.len() == 1 ==> front[0] == c);
        }
        let d = match digit_of(c) {
            Some(d) => d as u64,
            None => {
                proof {
                    assert(spec_digits_value(front) is None);
                    if spec_digits_value(digits) is Some {
                        lemma_digits_value_prefix(digits, i - start + 1);
                    }
                }
                return None;
            },
        };
        if acc > (limit - d) / 10 {
            // One more digit takes the number out of range, whatever
            // follows.
            proof {
                assert(acc * 10 + d > limit);
                assert(spec_digits_value(front) is Some ==> spec_digits_value(front) == Some(acc * 10 + d));
                if spec_digits_value(digits) is Some {
                    lemma_digits_value_prefix(digits, i - start + 1);
                }
            }
            return None;
        }
        proof {
            assert(spec_digits_value(front) == Some(acc * 10 + d));
        }
        acc = acc * 10 + d;
        i += 1;
    }
    assert(digits.take(n - start) =~= digits);
    if negative {
        if acc == limit {
            Some(i64::MIN)
        } else {
            Some(-(acc as i64))
        }
    } else if acc == limit {
        None
    } else {
        Some(acc as i64)
    }
}

#[verifier::external_type_specification]
#[verifier::external_body]
pub struct ExFromUtf8Error(std::string::FromUtf8Error);

/// `String::from_utf8`: the string that the bytes encode, or an error where
/// they are not UTF-8.
#[verifier::external_body]
pub(crate) fn string_from_utf8(bytes: Vec<u8>) -> (res: Result<String, std::string::FromUtf8Error>)
    ensures
        res matches Ok(s) ==> valid_utf8(bytes@) && s@ == decode_utf8(bytes@),
        res is Err ==> !valid_utf8(bytes@),
{
    String::from_utf8(bytes)
}

/// Copies 32 bytes of a slice, from `start` on, into an array.
pub fn array32_from_slice(src: &[u8], start: usize) -> (res: [u8; 32])
    requires
        start + 32 <= src@.len(),
    ensures
        res@ == src@.subrange(start as int, start + 32),
{
    let mut out = [0u8; 32];
    let n = src.len();
    let mut i: usize = 0;
    while i < 32
        invariant
            i <= 32,
            start + 32 <= n,
            n == src@.len(),
            out@.len() == 32,
            forall|j: int| 0 <= j < i ==> out@[j] == src@[start + j],
        decreases 32 - i,
    {
        out[i] = src[start + i];
        i += 1;
    }
    assert(out@ =~= src@.subrange(start as int, start + 32));
    out
}

/// Copies 64 bytes of a slice, from its start, into an array.
pub fn array64_from_slice(src: &[u8]) -> (res: [u8; 64])
    requires
        src@.len() == 64,
    ensures
        res@ == src@,
{
    let mut out = [0u8; 64];
    let mut i: usize = 0;
    while i < 64
        invariant
            i <= 64,
            src@.len() == 64,
            out@.len() == 64,
            forall|j: int| 0 <= j < i ==> out@[j] == src@[j],
        decreases 64 - i,
    {
        out[i] = src[i];
        i += 1;
    }
    assert(out@ =~= src@);
    out
}

} // verus!
