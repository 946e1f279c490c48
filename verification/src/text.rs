//! Text: trimming, decimal and hexadecimal digits, and the reading of bytes as
//! text.

use vstd::prelude::*;
use vstd::utf8::*;

verus! {

/// The characters of Unicode's `White_Space` property.
pub open spec fn is_white_space(c: char) -> bool {
    let u = c as u32;
    ||| 0x9 <= u <= 0xd
    ||| u == 0x20
    ||| u == 0x85
    ||| u == 0xa0
    ||| u == 0x1680
    ||| 0x2000 <= u <= 0x200a
    ||| u == 0x2028
    ||| u == 0x2029
    ||| u == 0x202f
    ||| u == 0x205f
    ||| u == 0x3000
}

/// `s` without the white space at its two ends.
pub open spec fn trimmed(s: Seq<char>) -> Seq<char>
    decreases s.len(),
{
    if s.len() == 0 {
        s
    } else if is_white_space(s.first()) {
        trimmed(s.drop_first())
    } else if is_white_space(s.last()) {
        trimmed(s.drop_last())
    } else {
        s
    }
}

/// `str::trim`: the text without leading and trailing white space, where white
/// space is what Unicode's `White_Space` property holds of.
pub assume_specification[ str::trim ](s: &str) -> (t: &str)
    ensures
        t@ == trimmed(s@),
;

/// `String::push`: appends one character at the end.
pub assume_specification[ String::push ](s: &mut String, c: char)
    ensures
        final(s)@ == old(s)@.push(c),
;

/// The character that stands for the decimal digit `d`.
pub open spec fn decimal_digit(d: int) -> char {
    (0x30 + d) as char
}

/// The decimal notation of `n`, without leading zeros.
pub open spec fn decimal(n: nat) -> Seq<char>
    decreases n,
{
    if n < 10 {
        seq![decimal_digit(n as int)]
    } else {
        decimal(n / 10).push(decimal_digit((n % 10) as int))
    }
}

/// The decimal notation of an integer, with a minus sign before a negative one.
pub open spec fn signed_decimal(n: int) -> Seq<char> {
    if n < 0 {
        seq!['-'] + decimal((-n) as nat)
    } else {
        decimal(n as nat)
    }
}

/// Appends the decimal notation of `n`.
pub fn push_decimal(out: &mut String, n: u128)
    ensures
        final(out)@ == old(out)@ + decimal(n as nat),
    decreases n,
{
    if n >= 10 {
        push_decimal(out, n / 10);
    }
    let d: u8 = (n % 10) as u8;
    out.push((0x30 + d) as char);
    proof {
        assert(n < 10 ==> decimal(n as nat) == seq![decimal_digit(n as int)]);
        assert(out@ =~= old(out)@ + decimal(n as nat));
    }
}

/// Appends the decimal notation of `n`.
pub fn push_signed_decimal(out: &mut String, n: i32)
    ensures
        final(out)@ == old(out)@ + signed_decimal(n as int),
{
    if n < 0 {
        out.push('-');
        push_decimal(out, (-(n as i64)) as u128);
        proof {
            assert(out@ =~= old(out)@ + signed_decimal(n as int));
        }
    } else {
        push_decimal(out, n as u128);
    }
}

/// `n` in two decimal digits, with a leading zero below ten.
pub open spec fn two_digits(n: int) -> Seq<char> {
    seq![decimal_digit(n / 10), decimal_digit(n % 10)]
}

/// Appends `n` in two decimal digits.
pub fn push_two_digits(out: &mut String, n: u8)
    requires
        n < 100,
    ensures
        final(out)@ == old(out)@ + two_digits(n as int),
{
    out.push((0x30 + n / 10) as char);
    out.push((0x30 + n % 10) as char);
    proof {
        assert(out@ =~= old(out)@ + two_digits(n as int));
    }
}

/// The lower-case character that stands for the hexadecimal digit `d`.
pub open spec fn hex_digit(d: int) -> char {
    if d < 10 {
        (0x30 + d) as char
    } else {
        (0x61 + d - 10) as char
    }
}

/// Two lower-case hexadecimal digits for each byte, the high half first.
pub open spec fn hex(bytes: Seq<u8>) -> Seq<char> {
    Seq::new(
        2 * bytes.len(),
        |i: int|
            if i % 2 == 0 {
                hex_digit(bytes[i / 2] as int / 16)
            } else {
                hex_digit(bytes[i / 2] as int % 16)
            },
    )
}

fn push_hex_digit(out: &mut String, d: u8)
    requires
        d < 16,
    ensures
        final(out)@ == old(out)@.push(hex_digit(d as int)),
{
    if d < 10 {
        out.push((0x30 + d) as char);
    } else {
        out.push((0x61 + (d - 10)) as char);
    }
}

/// The hexadecimal notation of `bytes`.
pub fn hex_text(bytes: &[u8]) -> (out: String)
    ensures
        out@ == hex(bytes@),
{
    let mut out = String::new();
    let mut i: usize = 0;
    while i < bytes.len()
        invariant
            i <= bytes@.len(),
            out@ == hex(bytes@.take(i as int)),
        decreases bytes@.len() - i,
    {
        let b: u8 = bytes[i];
        push_hex_digit(&mut out, b / 16);
        push_hex_digit(&mut out, b % 16);
        i = i + 1;
        proof {
            assert(out@ =~= hex(bytes@.take(i as int)));
        }
    }
    proof {
        assert(bytes@.take(i as int) =~= bytes@);
    }
    out
}

/// The text of an optional string.
pub open spec fn option_text(s: Option<String>) -> Option<Seq<char>> {
    match s {
        Some(s) => Some(s@),
        None => None,
    }
}

/// A text, or nothing where it is empty.
pub open spec fn unless_empty(s: Seq<char>) -> Option<Seq<char>> {
    if s.len() == 0 {
        None
    } else {
        Some(s)
    }
}

/// The text that `String::from_utf8_lossy` reads from `bytes`.
pub uninterp spec fn utf8_lossy(bytes: Seq<u8>) -> Seq<char>;

/// `String::from_utf8_lossy`: the bytes read as UTF-8, with a replacement
/// character in the place of what is not UTF-8. Of well-formed UTF-8 it is the
/// text that was encoded; what comes of other bytes has only a name here.
#[verifier::external_body]
fn lossy_text(bytes: &[u8]) -> (text: String)
    ensures
        text@ == utf8_lossy(bytes@),
        valid_utf8(bytes@) ==> text@ == decode_utf8(bytes@),
{
    String::from_utf8_lossy(bytes).into_owned()
}

/// The text that `bytes` are shown as: the one that they encode, or where they
/// are not UTF-8 the one that `String::from_utf8_lossy` makes of them.
pub open spec fn shown(bytes: Seq<u8>) -> Seq<char> {
    if valid_utf8(bytes) {
        decode_utf8(bytes)
    } else {
        utf8_lossy(bytes)
    }
}

/// The text that `bytes` are shown as.
pub fn shown_text(bytes: &[u8]) -> (text: String)
    ensures
        text@ == shown(bytes@),
{
    lossy_text(bytes)
}

/// `std::str::from_utf8`: the text that `bytes` encode, or nothing where they
/// are not UTF-8.
#[verifier::external_body]
pub(crate) fn utf8_text(bytes: &[u8]) -> (text: Option<String>)
    ensures
        text is Some <==> valid_utf8(bytes@),
        text matches Some(t) ==> t@ == decode_utf8(bytes@),
{
    std::str::from_utf8(bytes).ok().map(String::from)
}

/// The texts that a list of strings holds.
pub open spec fn texts(items: Seq<String>) -> Seq<Seq<char>> {
    items.map_values(|s: String| s@)
}

/// What `{:?}` writes for a list of strings.
pub uninterp spec fn debug_list(items: Seq<Seq<char>>) -> Seq<char>;

/// `format!` with `{:?}` on a list of strings: the list in square brackets,
/// each item quoted and escaped. The escapes are not spelled out here; the
/// result has a name, which depends on the texts alone.
#[verifier::external_body]
pub(crate) fn debug_text(items: &Vec<String>) -> (text: String)
    ensures
        text@ == debug_list(texts(items@)),
{
    format!("{:?}", items)
}

/// What is left of a text has no white space at its ends, and trimming it again
/// changes nothing.
pub proof fn law_trimmed_has_no_outer_space(s: Seq<char>)
    ensures
        trimmed(s).len() > 0 ==> !is_white_space(trimmed(s).first()) && !is_white_space(
            trimmed(s).last(),
        ),
        trimmed(trimmed(s)) == trimmed(s),
    decreases s.len(),
{
    if s.len() > 0 {
        if is_white_space(s.first()) {
            law_trimmed_has_no_outer_space(s.drop_first());
        } else if is_white_space(s.last()) {
            law_trimmed_has_no_outer_space(s.drop_last());
        }
    }
}

/// The number that decimal digits denote.
pub open spec fn decimal_value(s: Seq<char>) -> int
    decreases s.len(),
{
    if s.len() == 0 {
        0
    } else {
        10 * decimal_value(s.drop_last()) + (s.last() as int - 0x30)
    }
}

proof fn lemma_decimal_value(n: nat)
    ensures
        decimal_value(decimal(n)) == n,
    decreases n,
{
    if n < 10 {
        let s = decimal(n);
        assert(s.drop_last() =~= Seq::empty());
        assert(decimal_value(s.drop_last()) == 0);
    } else {
        lemma_decimal_value(n / 10);
        assert(decimal(n).drop_last() =~= decimal(n / 10));
    }
}

/// Different numbers have different decimal notations.
pub proof fn law_decimal_is_injective(a: nat, b: nat)
    requires
        decimal(a) == decimal(b),
    ensures
        a == b,
{
    lemma_decimal_value(a);
    lemma_decimal_value(b);
}

/// Different bytes have different hexadecimal notations, which have two
/// lower-case digits for each byte.
pub proof fn law_hex_is_injective(a: Seq<u8>, b: Seq<u8>)
    ensures
        hex(a).len() == 2 * a.len(),
        forall|i: int|
            0 <= i < hex(a).len() ==> ('0' <= #[trigger] hex(a)[i] <= '9') || ('a' <= hex(a)[i]
                <= 'f'),
        hex(a) == hex(b) ==> a == b,
{
    if hex(a) == hex(b) {
        assert(hex(a).len() == hex(b).len());
        assert forall|i: int| 0 <= i < a.len() implies a[i] == b[i] by {
            assert(hex(a)[2 * i] == hex_digit(a[i] as int / 16));
            assert(hex(b)[2 * i] == hex_digit(b[i] as int / 16));
            assert(hex(a)[2 * i + 1] == hex_digit(a[i] as int % 16));
            assert(hex(b)[2 * i + 1] == hex_digit(b[i] as int % 16));
        }
        assert(a =~= b);
    }
}

/// Trimming takes away the white space at the two ends and nothing else: what is
/// between stays, and of white space alone nothing stays.
pub proof fn law_trimmed_removes_outer_space(left: Seq<char>, inner: Seq<char>, right: Seq<char>)
    requires
        forall|i: int| 0 <= i < left.len() ==> is_white_space(#[trigger] left[i]),
        forall|i: int| 0 <= i < right.len() ==> is_white_space(#[trigger] right[i]),
        inner.len() > 0 ==> !is_white_space(inner.first()) && !is_white_space(inner.last()),
    ensures
        trimmed(left + inner + right) == inner,
    decreases left.len() + right.len(),
{
    let s = left + inner + right;
    if left.len() > 0 {
        assert(s.first() == left[0]);
        assert(s.drop_first() =~= left.drop_first() + inner + right);
        law_trimmed_removes_outer_space(left.drop_first(), inner, right);
    } else if right.len() > 0 {
        let front = right.drop_last();
        assert(s.last() == right[right.len() - 1]);
        assert(s.drop_last() =~= left + inner + front);
        if is_white_space(s.first()) {
            if inner.len() > 0 {
                assert(s.first() == inner.first());
            }
            assert(s.drop_first() =~= left + inner + right.drop_first());
            law_trimmed_removes_outer_space(left, inner, right.drop_first());
        } else {
            law_trimmed_removes_outer_space(left, inner, front);
        }
    } else {
        assert(s =~= inner);
    }
}

/// Every text is white space, what trimming leaves of it, and white space again.
pub proof fn law_trimmed_is_inside(s: Seq<char>) -> (ends: (int, int))
    ensures
        0 <= ends.0 <= ends.1 <= s.len(),
        trimmed(s) == s.subrange(ends.0, ends.1),
        forall|i: int| 0 <= i < ends.0 ==> is_white_space(#[trigger] s[i]),
        forall|i: int| ends.1 <= i < s.len() ==> is_white_space(#[trigger] s[i]),
    decreases s.len(),
{
    if s.len() == 0 {
        assert(s =~= s.subrange(0, 0));
        (0, 0)
    } else if is_white_space(s.first()) {
        let tail = s.drop_first();
        let (a, b) = law_trimmed_is_inside(tail);
        assert(trimmed(s) =~= s.subrange(a + 1, b + 1));
        assert forall|i: int| 0 <= i < a + 1 implies is_white_space(#[trigger] s[i]) by {
            if i > 0 {
                assert(tail[i - 1] == s[i]);
            }
        }
        assert forall|i: int| b + 1 <= i < s.len() implies is_white_space(#[trigger] s[i]) by {
            assert(tail[i - 1] == s[i]);
        }
        (a + 1, b + 1)
    } else if is_white_space(s.last()) {
        let front = s.drop_last();
        let (a, b) = law_trimmed_is_inside(front);
        assert(trimmed(s) =~= s.subrange(a, b));
        assert forall|i: int| 0 <= i < a implies is_white_space(#[trigger] s[i]) by {
            assert(front[i] == s[i]);
        }
        assert forall|i: int| b <= i < s.len() implies is_white_space(#[trigger] s[i]) by {
            if i < front.len() {
                assert(front[i] == s[i]);
            }
        }
        (a, b)
    } else {
        assert(s =~= s.subrange(0, s.len() as int));
        (0, s.len() as int)
    }
}

/// The texts of a list of strings are those of its strings, one for one and in
/// order; the text of an optional string is its own, and so is one that is not
/// empty.
pub proof fn law_texts_are_those_of_the_strings(items: Seq<String>)
    ensures
        texts(items).len() == items.len(),
        forall|i: int|
            #![trigger items[i]]
            #![trigger texts(items)[i]]
            0 <= i < items.len() ==> texts(items)[i] == items[i]@,
        forall|s: String| #[trigger] option_text(Some(s)) == Some(s@),
        option_text(None) is None,
        forall|t: Seq<char>| t.len() > 0 ==> #[trigger] unless_empty(t) == Some(t),
        forall|t: Seq<char>| t.len() == 0 ==> #[trigger] unless_empty(t) is None,
{
}

/// The decimal notation of a number denotes it, in digits and without a zero in
/// front, but for zero itself; a negative number has a minus sign in front.
pub proof fn law_decimal_denotes_its_number(n: nat)
    ensures
        decimal(n).len() > 0,
        forall|i: int| 0 <= i < decimal(n).len() ==> '0' <= #[trigger] decimal(n)[i] <= '9',
        decimal(n).len() > 1 ==> decimal(n)[0] != '0',
        decimal_value(decimal(n)) == n,
        signed_decimal(n as int) == decimal(n),
        n > 0 ==> signed_decimal(-n) == seq!['-'] + decimal(n),
    decreases n,
{
    lemma_decimal_value(n);
    if n >= 10 {
        let front = decimal(n / 10);
        law_decimal_denotes_its_number(n / 10);
        assert(decimal(n)[0] == front[0]);
        if front.len() == 1 {
            assert(front.drop_last() =~= Seq::empty());
            assert(decimal_value(front.drop_last()) == 0);
        }
        assert forall|i: int| 0 <= i < decimal(n).len() implies '0' <= #[trigger] decimal(n)[i]
            <= '9' by {
            if i < front.len() {
                assert(decimal(n)[i] == front[i]);
            }
        }
    }
}

/// Two digits denote any number below a hundred, with a zero in front below ten.
pub proof fn law_two_digits_denote_their_number(n: int)
    requires
        0 <= n < 100,
    ensures
        two_digits(n).len() == 2,
        '0' <= two_digits(n)[0] <= '9',
        '0' <= two_digits(n)[1] <= '9',
        10 * (two_digits(n)[0] as int - '0' as int) + (two_digits(n)[1] as int - '0' as int) == n,
{
}

/// Hexadecimal notation can be read back: each two digits, the lower-case ones,
/// denote the byte in their place.
pub proof fn law_hex_denotes_its_bytes(bytes: Seq<u8>, i: int)
    requires
        0 <= i < bytes.len(),
    ensures
        hex(bytes).len() == 2 * bytes.len(),
        16 * crate::window_id::hex_value(hex(bytes)[2 * i]) + crate::window_id::hex_value(
            hex(bytes)[2 * i + 1],
        ) == bytes[i],
        !('A' <= hex(bytes)[2 * i] <= 'F') && !('A' <= hex(bytes)[2 * i + 1] <= 'F'),
        crate::window_id::is_hex_digit(hex(bytes)[2 * i]) && crate::window_id::is_hex_digit(
            hex(bytes)[2 * i + 1],
        ),
{
    assert(hex(bytes)[2 * i] == hex_digit(bytes[i] as int / 16));
    assert(hex(bytes)[2 * i + 1] == hex_digit(bytes[i] as int % 16));
}

/// What was encoded is shown as it was.
pub proof fn law_encoded_text_is_shown(text: Seq<char>)
    ensures
        shown(encode_utf8(text)) == text,
        forall|bytes: Seq<u8>| !valid_utf8(bytes) ==> #[trigger] shown(bytes) == utf8_lossy(bytes),
{
    encode_utf8_valid_utf8(text);
    encode_utf8_decode_utf8(text);
}

} // verus!
