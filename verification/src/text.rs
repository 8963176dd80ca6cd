//! Text primitives shared by the validation and formatting code.
use vstd::prelude::*;

verus! {

/// The characters with the Unicode `White_Space` property, which is what
/// `char::is_whitespace` answers: the controls U+0009 to U+000D, the space,
/// U+0085, U+00A0, U+1680, U+2000 to U+200A, U+2028, U+2029, U+202F, U+205F
/// and U+3000.
pub open spec fn is_unicode_whitespace(c: char) -> bool {
    ||| '\u{9}' <= c <= '\u{d}'
    ||| c == ' '
    ||| c == '\u{85}'
    ||| c == '\u{a0}'
    ||| c == '\u{1680}'
    ||| '\u{2000}' <= c <= '\u{200a}'
    ||| c == '\u{2028}'
    ||| c == '\u{2029}'
    ||| c == '\u{202f}'
    ||| c == '\u{205f}'
    ||| c == '\u{3000}'
}

/// Whether the character is Unicode whitespace.
pub fn is_whitespace_char(c: char) -> (r: bool)
    ensures
        r == is_unicode_whitespace(c),
{
    ('\u{9}' <= c && c <= '\u{d}') || c == ' ' || c == '\u{85}' || c == '\u{a0}' || c
        == '\u{1680}' || ('\u{2000}' <= c && c <= '\u{200a}') || c == '\u{2028}' || c
        == '\u{2029}' || c == '\u{202f}' || c == '\u{205f}' || c == '\u{3000}'
}

/// A text is blank when every character in it is whitespace; this is what
/// `str::trim(..).is_empty()` decides.
pub open spec fn is_blank_spec(s: Seq<char>) -> bool {
    forall|i: int| 0 <= i < s.len() ==> is_unicode_whitespace(#[trigger] s[i])
}

/// Whether nothing but whitespace is left once the text is trimmed.
pub fn is_blank(s: &str) -> (r: bool)
    ensures
        r == is_blank_spec(s@),
{
    broadcast use vstd::string::group_string_axioms;
    let mut all = true;
    for c in it: s.chars()
        invariant
            it.seq() == s@,
            all == (forall|j: int| 0 <= j < it.index() ==> is_unicode_whitespace(#[trigger] s@[j])),
    {
        if !is_whitespace_char(c) {
            all = false;
        }
    }
    all
}


/// `String::push`: the character is appended at the end.
#[verifier::external_body]
pub(crate) fn push_char(s: &mut String, c: char)
    ensures
        final(s)@ == old(s)@.push(c),
{
    s.push(c)
}

/// Two texts are equal exactly when their UTF-8 encodings are.
pub proof fn lemma_encode_utf8_injective(a: Seq<char>, b: Seq<char>)
    requires
        vstd::utf8::encode_utf8(a) == vstd::utf8::encode_utf8(b),
    ensures
        a == b,
{
    vstd::utf8::encode_utf8_decode_utf8(a);
    vstd::utf8::encode_utf8_decode_utf8(b);
}

/// Compares two texts for equality, byte by byte.
pub fn str_eq(a: &str, b: &str) -> (r: bool)
    ensures
        r == (a@ == b@),
{
    let x = a.as_bytes();
    let y = b.as_bytes();
    if x.len() != y.len() {
        return false;
    }
    let n = x.len();
    for i in 0..n
        invariant
            n == x@.len(),
            n == y@.len(),
            x@ == vstd::utf8::encode_utf8(a@),
            y@ == vstd::utf8::encode_utf8(b@),
            forall|j: int| 0 <= j < i ==> x@[j] == y@[j],
    {
        if x[i] != y[i] {
            return false;
        }
    }
    assert(x@ =~= y@);
    proof {
        lemma_encode_utf8_injective(a@, b@);
    }
    true
}

/// Lexicographic order on byte strings: the order `str` comparisons follow.
pub open spec fn lex_less(a: Seq<u8>, b: Seq<u8>) -> bool
    decreases a.len(),
{
    if b.len() == 0 {
        false
    } else if a.len() == 0 {
        true
    } else if a[0] < b[0] {
        true
    } else if a[0] > b[0] {
        false
    } else {
        lex_less(a.drop_first(), b.drop_first())
    }
}

/// Whether `a` sorts strictly before `b` (the `<` of `str`).
pub fn str_less(a: &str, b: &str) -> (r: bool)
    ensures
        r == lex_less(vstd::utf8::encode_utf8(a@), vstd::utf8::encode_utf8(b@)),
{
    let x = a.as_bytes();
    let y = b.as_bytes();
    let mut i: usize = 0;
    assert(x@.skip(0) =~= x@);
    assert(y@.skip(0) =~= y@);
    while i < x.len() && i < y.len()
        invariant
            i <= x@.len(),
            i <= y@.len(),
            x@ == vstd::utf8::encode_utf8(a@),
            y@ == vstd::utf8::encode_utf8(b@),
            lex_less(x@, y@) == lex_less(x@.skip(i as int), y@.skip(i as int)),
        decreases x@.len() - i,
    {
        assert(x@.skip(i as int).drop_first() =~= x@.skip(i + 1));
        assert(y@.skip(i as int).drop_first() =~= y@.skip(i + 1));
        if x[i] < y[i] {
            return true;
        }
        if x[i] > y[i] {
            return false;
        }
        i = i + 1;
    }
    i < y.len()
}

/// The decimal digit character for a value below ten.
pub open spec fn digit_char(d: int) -> char {
    if d == 0 {
        '0'
    } else if d == 1 {
        '1'
    } else if d == 2 {
        '2'
    } else if d == 3 {
        '3'
    } else if d == 4 {
        '4'
    } else if d == 5 {
        '5'
    } else if d == 6 {
        '6'
    } else if d == 7 {
        '7'
    } else if d == 8 {
        '8'
    } else {
        '9'
    }
}

/// Decimal digits of a natural number, most significant first, without
/// leading zeros (zero is written `0`).
pub open spec fn nat_decimal(n: nat) -> Seq<char>
    decreases n,
{
    if n < 10 {
        seq![digit_char(n as int)]
    } else {
        nat_decimal(n / 10).push(digit_char((n % 10) as int))
    }
}

/// The text `Display` gives an integer: a `-` for negatives, then the
/// decimal digits of the magnitude.
pub open spec fn decimal(n: int) -> Seq<char> {
    if n < 0 {
        seq!['-'] + nat_decimal((-n) as nat)
    } else {
        nat_decimal(n as nat)
    }
}

fn digit(d: u64) -> (c: char)
    requires
        d < 10,
    ensures
        c == digit_char(d as int),
{
    match d {
        0 => '0',
        1 => '1',
        2 => '2',
        3 => '3',
        4 => '4',
        5 => '5',
        6 => '6',
        7 => '7',
        8 => '8',
        _ => '9',
    }
}

fn push_nat_decimal(s: &mut String, n: u64)
    ensures
        final(s)@ == old(s)@ + nat_decimal(n as nat),
    decreases n,
{
    if n >= 10 {
        push_nat_decimal(s, n / 10);
    }
    let c = digit(n % 10);
    push_char(s, c);
    assert(final(s)@ =~= old(s)@ + nat_decimal(n as nat));
}

/// Appends the decimal text of `n` to `s`.
pub fn push_decimal(s: &mut String, n: i64)
    ensures
        final(s)@ == old(s)@ + decimal(n as int),
{
    if n < 0 {
        push_char(s, '-');
        let magnitude: u64 = if n == i64::MIN {
            9223372036854775808u64
        } else {
            (-n) as u64
        };
        push_nat_decimal(s, magnitude);
        assert(final(s)@ =~= old(s)@ + decimal(n as int));
    } else {
        push_nat_decimal(s, n as u64);
    }
}

/// The decimal text of `n`, as `n.to_string()` writes it.
pub fn decimal_string(n: i64) -> (r: String)
    ensures
        r@ == decimal(n as int),
{
    let mut s = String::new();
    push_decimal(&mut s, n);
    assert(s@ =~= decimal(n as int));
    s
}


/// An ASCII decimal digit, `0` to `9`, as a byte.
pub open spec fn is_ascii_digit(b: u8) -> bool {
    48 <= b <= 57
}

/// The value of a run of ASCII digits, read in base ten.
pub open spec fn digits_value(s: Seq<u8>) -> int
    decreases s.len(),
{
    if s.len() == 0 {
        0
    } else {
        digits_value(s.drop_last()) * 10 + (s.last() - 48)
    }
}

/// Every byte is an ASCII digit.
pub open spec fn all_digits(s: Seq<u8>) -> bool {
    forall|i: int| 0 <= i < s.len() ==> is_ascii_digit(#[trigger] s[i])
}

/// The text starts with a `+` or `-` sign.
pub open spec fn has_sign(b: Seq<u8>) -> bool {
    b.len() > 0 && (b[0] == 43u8 || b[0] == 45u8)
}

/// The bytes after the sign, if there is one.
pub open spec fn unsigned_part(b: Seq<u8>) -> Seq<u8> {
    if has_sign(b) {
        b.drop_first()
    } else {
        b
    }
}

/// The signed value the digits stand for.
pub open spec fn signed_value(b: Seq<u8>) -> int {
    if b.len() > 0 && b[0] == 45u8 {
        -digits_value(unsigned_part(b))
    } else {
        digits_value(unsigned_part(b))
    }
}

/// What `str::parse::<i32>` gives for the bytes of a text: an optional `+`
/// or `-` sign, then one or more ASCII digits, read in base ten; `None` when
/// the text has another shape or its value does not fit in an `i32`.
pub open spec fn parse_i32_spec(b: Seq<u8>) -> Option<i32> {
    if unsigned_part(b).len() > 0 && all_digits(unsigned_part(b)) && i32::MIN <= signed_value(b)
        <= i32::MAX {
        Some(signed_value(b) as i32)
    } else {
        None
    }
}

proof fn lemma_digits_value_nonneg(s: Seq<u8>)
    requires
        forall|i: int| 0 <= i < s.len() ==> is_ascii_digit(#[trigger] s[i]),
    ensures
        digits_value(s) >= 0,
    decreases s.len(),
{
    if s.len() > 0 {
        lemma_digits_value_nonneg(s.drop_last());
    }
}

/// Reading more digits never makes the value smaller.
proof fn lemma_digits_value_prefix(s: Seq<u8>, k: int)
    requires
        0 <= k <= s.len(),
        forall|i: int| 0 <= i < s.len() ==> is_ascii_digit(#[trigger] s[i]),
    ensures
        digits_value(s.subrange(0, k)) <= digits_value(s),
    decreases s.len(),
{
    if k == s.len() {
        assert(s.subrange(0, k) =~= s);
    } else {
        let t = s.drop_last();
        lemma_digits_value_prefix(t, k);
        assert(t.subrange(0, k) =~= s.subrange(0, k));
        lemma_digits_value_nonneg(t);
    }
}

/// Parses a decimal `i32` the way `str::parse::<i32>` does.
pub fn parse_i32(s: &str) -> (r: Option<i32>)
    ensures
        r == parse_i32_spec(vstd::utf8::encode_utf8(s@)),
{
    let b = s.as_bytes();
    let n = b.len();
    if n == 0 {
        return None;
    }
    let mut start: usize = 0;
    let mut negative = false;
    if b[0] == 43u8 {
        start = 1;
    } else if b[0] == 45u8 {
        start = 1;
        negative = true;
    }
    let ghost body = b@.subrange(start as int, n as int);
    assert(start == 1 ==> body =~= b@.drop_first());
    assert(start == 0 ==> body =~= b@);
    if start == n {
        return None;
    }
    let mut acc: i64 = 0;
    let mut i: usize = start;
    assert(b@.subrange(start as int, start as int) =~= Seq::<u8>::empty());
    while i < n
        invariant
            start <= i <= n,
            n == b@.len(),
            start < n,
            body == b@.subrange(start as int, n as int),
            b@ == vstd::utf8::encode_utf8(s@),
            negative == (b@[0] == 45u8),
            body == unsigned_part(b@),
            forall|j: int| start <= j < i ==> is_ascii_digit(#[trigger] b@[j]),
            acc == digits_value(b@.subrange(start as int, i as int)),
            0 <= acc <= 2147483648,
        decreases n - i,
    {
        let c = b[i];
        if c < 48u8 || c > 57u8 {
            assert(!is_ascii_digit(body[i - start]));
            return None;
        }
        assert(b@.subrange(start as int, i + 1).drop_last() =~= b@.subrange(start as int, i as int));
        acc = acc * 10 + (c - 48u8) as i64;
        i = i + 1;
        if acc > 2147483648 {
            proof {
                if all_digits(body) {
                    assert(b@.subrange(start as int, i as int) =~= body.subrange(0, i - start));
                    lemma_digits_value_prefix(body, i - start);
                }
            }
            return None;
        }
    }
    assert(b@.subrange(start as int, n as int) =~= body);
    if negative {
        Some((-acc) as i32)
    } else if acc <= 2147483647 {
        Some(acc as i32)
    } else {
        None
    }
}


/// The views of a list of owned texts.
pub open spec fn views(v: Seq<String>) -> Seq<Seq<char>> {
    v.map_values(|s: String| s@)
}

/// The parts, in order, with `sep` between each two of them.
pub open spec fn join(parts: Seq<Seq<char>>, sep: Seq<char>) -> Seq<char>
    decreases parts.len(),
{
    if parts.len() == 0 {
        Seq::empty()
    } else if parts.len() == 1 {
        parts[0]
    } else {
        join(parts.drop_last(), sep) + sep + parts.last()
    }
}

/// A URL query: nothing when there are no parameters, else `?` and the
/// parameters joined by `&`.
pub open spec fn query_string(params: Seq<Seq<char>>) -> Seq<char> {
    if params.len() == 0 {
        Seq::empty()
    } else {
        seq!['?'] + join(params, seq!['&'])
    }
}

/// Appends the parts to `out`, with `sep` between each two of them.
pub fn push_joined(out: &mut String, parts: &Vec<String>, sep: &str)
    ensures
        final(out)@ == old(out)@ + join(views(parts@), sep@),
{
    let ghost start = out@;
    let n = parts.len();
    let ghost all = views(parts@);
    assert(all.take(0) =~= Seq::<Seq<char>>::empty());
    for i in 0..n
        invariant
            n == parts@.len(),
            all == views(parts@),
            out@ == start + join(all.take(i as int), sep@),
    {
        if i != 0 {
            out.append(sep);
        }
        out.append(parts[i].as_str());
        assert(all.take(i + 1).drop_last() =~= all.take(i as int));
        assert(all.take(i + 1).last() == parts@[i as int]@);
        proof {
            if i == 0 {
                assert(join(all.take(1), sep@) == all.take(1)[0]);
                assert(out@ =~= start + join(all.take(i + 1), sep@));
            } else {
                assert(out@ =~= start + join(all.take(i + 1), sep@));
            }
        }
    }
    assert(all.take(n as int) =~= all);
}

/// Builds `?a&b&…` from the parameters, or nothing when there are none.
pub fn query_from_params(params: &Vec<String>) -> (r: String)
    ensures
        r@ == query_string(views(params@)),
{
    let mut out = String::new();
    if params.len() == 0 {
        return out;
    }
    push_char(&mut out, '?');
    push_joined(&mut out, params, "&");
    proof {
        reveal_strlit("&");
        assert("&"@ =~= seq!['&']);
    }
    assert(out@ =~= query_string(views(params@)));
    out
}

/// The length of a text in bytes, as `str::len` counts it.
pub fn byte_len(s: &str) -> (r: usize)
    ensures
        r == vstd::utf8::encode_utf8(s@).len(),
{
    s.as_bytes().len()
}

/// An owned copy of a text.
pub fn owned(s: &str) -> (r: String)
    ensures
        r@ == s@,
{
    s.to_owned()
}


/// The bytes of a text made of ASCII characters only.
pub open spec fn ascii_bytes(s: Seq<char>) -> Seq<u8> {
    s.map_values(|c: char| c as u8)
}

proof fn lemma_ascii_encode(s: Seq<char>)
    requires
        vstd::utf8::is_ascii_chars(s),
    ensures
        vstd::utf8::encode_utf8(s) == ascii_bytes(s),
{
    vstd::utf8::is_ascii_chars_encode_utf8(s);
    assert(vstd::utf8::encode_utf8(s) =~= ascii_bytes(s));
}

proof fn lemma_digit_char(d: int)
    requires
        0 <= d < 10,
    ensures
        digit_char(d) as u8 == 48 + d,
        '\0' <= digit_char(d) <= '\u{7f}',
{
}

proof fn lemma_nat_decimal_digits(n: nat)
    ensures
        nat_decimal(n).len() > 0,
        vstd::utf8::is_ascii_chars(nat_decimal(n)),
        all_digits(ascii_bytes(nat_decimal(n))),
        digits_value(ascii_bytes(nat_decimal(n))) == n,
    decreases n,
{
    if n < 10 {
        lemma_digit_char(n as int);
        assert(ascii_bytes(nat_decimal(n)) =~= seq![(48 + n) as u8]);
        let bs = ascii_bytes(nat_decimal(n));
        assert(bs.drop_last() =~= Seq::<u8>::empty());
        assert(digits_value(Seq::<u8>::empty()) == 0);
        assert(digits_value(bs) == digits_value(bs.drop_last()) * 10 + (bs.last() - 48));
    } else {
        lemma_nat_decimal_digits(n / 10);
        lemma_digit_char((n % 10) as int);
        let prefix = nat_decimal(n / 10);
        assert(ascii_bytes(nat_decimal(n)) =~= ascii_bytes(prefix).push((48 + n % 10) as u8));
        let bs = ascii_bytes(nat_decimal(n));
        assert(bs.drop_last() =~= ascii_bytes(prefix));
        assert(bs.last() == (48 + n % 10) as u8);
        assert(digits_value(bs) == digits_value(bs.drop_last()) * 10 + (bs.last() - 48));
        assert(n == (n / 10) * 10 + n % 10);
    }
}

/// Reading back an `i32` written in decimal gives the same number.
pub proof fn lemma_parse_decimal_round_trip(n: i32)
    ensures
        parse_i32_spec(vstd::utf8::encode_utf8(decimal(n as int))) == Some(n),
{
    if n < 0 {
        let m = (-n) as nat;
        lemma_nat_decimal_digits(m);
        let s = decimal(n as int);
        assert(s == seq!['-'] + nat_decimal(m));
        assert(vstd::utf8::is_ascii_chars(s));
        lemma_ascii_encode(s);
        let b = ascii_bytes(s);
        assert(b[0] == 45u8);
        assert(b.drop_first() =~= ascii_bytes(nat_decimal(m)));
    } else {
        lemma_nat_decimal_digits(n as nat);
        let s = decimal(n as int);
        lemma_ascii_encode(s);
        let b = ascii_bytes(s);
        assert(is_ascii_digit(b[0]));
    }
}

} // verus!
