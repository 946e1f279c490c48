//! A stable number for a window, from the UUID that KWin gives it.

use vstd::prelude::*;
use vstd::utf8::*;

verus! {

/// The ASCII hexadecimal digits, in either case.
pub open spec fn is_hex_digit(c: char) -> bool {
    ||| '0' <= c <= '9'
    ||| 'a' <= c <= 'f'
    ||| 'A' <= c <= 'F'
}

/// The number that a hexadecimal digit stands for.
pub open spec fn hex_value(c: char) -> int {
    if '0' <= c <= '9' {
        c as int - '0' as int
    } else if 'a' <= c <= 'f' {
        c as int - 'a' as int + 10
    } else {
        c as int - 'A' as int + 10
    }
}

/// The number that the digits `s` denote in base sixteen, the first digit being
/// the most significant.
pub open spec fn hex_number(s: Seq<char>) -> int
    decreases s.len(),
{
    if s.len() == 0 {
        0
    } else {
        16 * hex_number(s.drop_last()) + hex_value(s.last())
    }
}

/// The hexadecimal digits of `s`, in order.
pub open spec fn hex_digits(s: Seq<char>) -> Seq<char> {
    s.filter(|c: char| is_hex_digit(c))
}

/// The first sixteen hexadecimal digits of `s`, or all of them where there are
/// fewer.
pub open spec fn leading_hex_digits(s: Seq<char>) -> Seq<char> {
    let digits = hex_digits(s);
    if digits.len() > 16 {
        digits.take(16)
    } else {
        digits
    }
}

/// The 64-bit FNV-1a hash of `bytes`.
pub open spec fn fnv1a(bytes: Seq<u8>) -> u64
    decreases bytes.len(),
{
    if bytes.len() == 0 {
        0xcbf29ce484222325
    } else {
        (((fnv1a(bytes.drop_last()) ^ (bytes.last() as u64)) as int * 0x100000001b3)
            % 0x1_0000_0000_0000_0000) as u64
    }
}

/// The number of the window that KWin identifies by `id`: its leading
/// hexadecimal digits as a number, or a hash of the whole text where it has no
/// such digit.
pub open spec fn window_number(id: Seq<char>) -> u64 {
    if leading_hex_digits(id).len() > 0 {
        hex_number(leading_hex_digits(id)) as u64
    } else {
        fnv1a(encode_utf8(id))
    }
}

/// Sixteen to the power of `n`.
pub open spec fn pow16(n: nat) -> int
    decreases n,
{
    if n == 0 {
        1
    } else {
        16 * pow16((n - 1) as nat)
    }
}

proof fn lemma_hex_number_bound(s: Seq<char>)
    requires
        forall|i: int| 0 <= i < s.len() ==> is_hex_digit(#[trigger] s[i]),
    ensures
        0 <= hex_number(s) < pow16(s.len()),
    decreases s.len(),
{
    if s.len() > 0 {
        assert forall|i: int| 0 <= i < s.drop_last().len() implies is_hex_digit(
            #[trigger] s.drop_last()[i],
        ) by {
            assert(s.drop_last()[i] == s[i]);
        }
        lemma_hex_number_bound(s.drop_last());
        assert(is_hex_digit(s[s.len() - 1]));
    }
}

proof fn lemma_hex_digits_are_digits(s: Seq<char>)
    ensures
        forall|i: int| 0 <= i < hex_digits(s).len() ==> is_hex_digit(#[trigger] hex_digits(s)[i]),
{
    let pred = |c: char| is_hex_digit(c);
    assert forall|i: int| 0 <= i < hex_digits(s).len() implies is_hex_digit(
        #[trigger] hex_digits(s)[i],
    ) by {
        s.lemma_filter_pred(pred, i);
    }
}

proof fn lemma_hex_digits_push(s: Seq<char>, i: int)
    requires
        0 <= i < s.len(),
    ensures
        hex_digits(s.take(i + 1)) == (if is_hex_digit(s[i]) {
            hex_digits(s.take(i)).push(s[i])
        } else {
            hex_digits(s.take(i))
        }),
{
    reveal(Seq::filter);
    assert(s.take(i + 1).drop_last() =~= s.take(i));
    assert(s.take(i + 1).last() == s[i]);
}

fn hex_digit_value(c: char) -> (v: Option<u64>)
    ensures
        v is Some <==> is_hex_digit(c),
        v matches Some(d) ==> d == hex_value(c) && d < 16,
{
    if '0' <= c && c <= '9' {
        Some((c as u32 - '0' as u32) as u64)
    } else if 'a' <= c && c <= 'f' {
        Some((c as u32 - 'a' as u32 + 10) as u64)
    } else if 'A' <= c && c <= 'F' {
        Some((c as u32 - 'A' as u32 + 10) as u64)
    } else {
        None
    }
}

/// The hash of `bytes` that stands in for an identifier without digits.
fn hash_bytes(bytes: &[u8]) -> (hash: u64)
    ensures
        hash == fnv1a(bytes@),
{
    let mut hash: u64 = 0xcbf29ce484222325;
    let mut i: usize = 0;
    while i < bytes.len()
        invariant
            i <= bytes@.len(),
            hash == fnv1a(bytes@.take(i as int)),
        decreases bytes@.len() - i,
    {
        hash = hash ^ (bytes[i] as u64);
        hash = hash.wrapping_mul(0x100000001b3);
        i = i + 1;
        proof {
            assert(bytes@.take(i as int).drop_last() =~= bytes@.take(i - 1));
        }
    }
    proof {
        assert(bytes@.take(i as int) =~= bytes@);
    }
    hash
}

/// Converts the UUID that KWin gives a window, which looks like
/// `{xxxxxxxx-xxxx-xxxx-xxxx-xxxxxxxxxxxx}`, to a stable number: its first
/// sixteen hexadecimal digits, eight bytes in big-endian order.
pub fn uuid_to_u64(uuid: &str) -> (id: u64)
    ensures
        id == window_number(uuid@),
{
    let mut value: u64 = 0;
    let mut count: usize = 0;
    proof {
        reveal(Seq::filter);
        assert(uuid@.take(0) =~= Seq::<char>::empty());
    }
    for c in it: uuid.chars()
        invariant
            it.seq() == uuid@,
            count <= 16,
            count == leading_hex_digits(uuid@.take(it.index())).len(),
            value == hex_number(leading_hex_digits(uuid@.take(it.index()))),
    {
        let ghost i = it.index();
        let ghost before = hex_digits(uuid@.take(i));
        proof {
            lemma_hex_digits_push(uuid@, i);
            lemma_hex_digits_are_digits(uuid@.take(i));
            assert(before.take(before.len() as int) =~= before);
            lemma_hex_number_bound(leading_hex_digits(uuid@.take(i)));
            reveal_with_fuel(pow16, 17);
        }
        if count < 16 {
            match hex_digit_value(c) {
                Some(d) => {
                    value = value * 16 + d;
                    count = count + 1;
                    proof {
                        assert(before.push(c).drop_last() =~= before);
                    }
                },
                None => {},
            }
        } else {
            proof {
                assert(before.push(c).take(16) =~= before.take(16));
            }
        }
    }
    proof {
        assert(uuid@.take(uuid@.len() as int) =~= uuid@);
    }
    if count > 0 {
        value
    } else {
        hash_bytes(uuid.as_bytes())
    }
}

proof fn lemma_hex_number_digit(s: Seq<char>, k: int)
    requires
        forall|i: int| 0 <= i < s.len() ==> is_hex_digit(#[trigger] s[i]),
        0 <= k < s.len(),
    ensures
        (hex_number(s) / pow16((s.len() - 1 - k) as nat)) % 16 == hex_value(s[k]),
    decreases s.len(),
{
    let front = s.drop_last();
    let n = hex_number(front);
    let v = hex_value(s.last());
    assert(is_hex_digit(s[s.len() - 1]));
    assert forall|i: int| 0 <= i < front.len() implies is_hex_digit(#[trigger] front[i]) by {
        assert(front[i] == s[i]);
    }
    lemma_hex_number_bound(front);
    if k == s.len() - 1 {
        assert(pow16(0) == 1);
        assert((16 * n + v) % 16 == v);
    } else {
        lemma_hex_number_digit(front, k);
        let m = (s.len() - 1 - k) as nat;
        let p = pow16((m - 1) as nat);
        lemma_pow16_positive((m - 1) as nat);
        vstd::arithmetic::div_mod::lemma_div_denominator(16 * n + v, 16, p);
        assert((16 * n + v) / 16 == n);
    }
}

proof fn lemma_pow16_positive(n: nat)
    ensures
        pow16(n) > 0,
    decreases n,
{
    if n > 0 {
        lemma_pow16_positive((n - 1) as nat);
    }
}

/// The number of a window whose identifier has at least sixteen hexadecimal
/// digits holds exactly the first sixteen of them, the first in the most
/// significant place: it is the first eight bytes of the UUID in big-endian
/// order.
pub proof fn law_number_holds_leading_digits(id: Seq<char>, k: int)
    requires
        hex_digits(id).len() >= 16,
        0 <= k < 16,
    ensures
        (window_number(id) as int / pow16((15 - k) as nat)) % 16 == hex_value(hex_digits(id)[k]),
{
    let digits = leading_hex_digits(id);
    lemma_hex_digits_are_digits(id);
    assert(digits =~= hex_digits(id).take(16));
    assert forall|i: int| 0 <= i < digits.len() implies is_hex_digit(#[trigger] digits[i]) by {
        assert(digits[i] == hex_digits(id)[i]);
    }
    lemma_hex_number_bound(digits);
    reveal_with_fuel(pow16, 17);
    lemma_hex_number_digit(digits, k);
}

/// The number of a window is stable: it depends on the leading hexadecimal
/// digits alone, so braces, hyphens and the rest of the identifier do not
/// change it.
pub proof fn law_number_depends_on_leading_digits(a: Seq<char>, b: Seq<char>)
    requires
        leading_hex_digits(a) == leading_hex_digits(b),
        leading_hex_digits(a).len() > 0,
    ensures
        window_number(a) == window_number(b),
{
}

/// The hexadecimal digits are the sixteen usual ones, with the last six in either
/// case, and each stands for its place among them.
pub proof fn law_sixteen_digits_in_either_case(c: char, d: int)
    requires
        0 <= d < 16,
    ensures
        is_hex_digit(c) <==> "0123456789abcdef"@.contains(c) || "0123456789ABCDEF"@.contains(c),
        hex_value("0123456789abcdef"@[d]) == d,
        hex_value("0123456789ABCDEF"@[d]) == d,
{
    reveal_strlit("0123456789abcdef");
    reveal_strlit("0123456789ABCDEF");
    let lower = "0123456789abcdef"@;
    let upper = "0123456789ABCDEF"@;
    if '0' <= c <= '9' {
        assert(lower[c as int - 0x30] == c);
    } else if 'a' <= c <= 'f' {
        assert(lower[c as int - 0x61 + 10] == c);
    } else if 'A' <= c <= 'F' {
        assert(upper[c as int - 0x41 + 10] == c);
    }
}

/// The digits of a text are those of its parts, in order; a single character is a
/// digit or adds none.
pub proof fn law_digits_are_found_in_order(a: Seq<char>, c: char, b: Seq<char>)
    ensures
        hex_digits(a + b) == hex_digits(a) + hex_digits(b),
        is_hex_digit(c) ==> hex_digits(seq![c]) == seq![c],
        !is_hex_digit(c) ==> hex_digits(seq![c]) == Seq::<char>::empty(),
        hex_digits(Seq::empty()) == Seq::<char>::empty(),
{
    let pred = |x: char| is_hex_digit(x);
    Seq::filter_distributes_over_add(a, b, pred);
    reveal(Seq::filter);
    let one = seq![c];
    assert(one.drop_last() =~= Seq::empty());
    assert(one.last() == c);
    assert(hex_digits(Seq::empty()) =~= Seq::<char>::empty());
    assert(hex_digits(one) =~= if is_hex_digit(c) {
        one
    } else {
        Seq::empty()
    });
}

proof fn lemma_pow16_is_power(n: nat)
    ensures
        pow16(n) == vstd::arithmetic::power::pow(16, n),
    decreases n,
{
    reveal(vstd::arithmetic::power::pow);
    if n > 0 {
        lemma_pow16_is_power((n - 1) as nat);
    }
}

/// An identifier with hexadecimal digits is numbered by its first sixteen, or by
/// all of them where there are fewer, read in base sixteen: each stands in the
/// place that its distance from the last one gives it, and nothing stands above
/// the first.
pub proof fn law_number_is_read_in_base_sixteen(id: Seq<char>, k: int)
    requires
        0 <= k < hex_digits(id).len(),
        k < 16,
    ensures
        ({
            let read: int = if hex_digits(id).len() < 16 {
                hex_digits(id).len() as int
            } else {
                16
            };
            let place = vstd::arithmetic::power::pow(16, (read - 1 - k) as nat);
            &&& (window_number(id) as int / place) % 16 == hex_value(hex_digits(id)[k])
            &&& window_number(id) < vstd::arithmetic::power::pow(16, read as nat)
        }),
{
    let digits = leading_hex_digits(id);
    lemma_hex_digits_are_digits(id);
    assert forall|i: int| 0 <= i < digits.len() implies is_hex_digit(#[trigger] digits[i]) by {
        assert(digits[i] == hex_digits(id)[i]);
    }
    lemma_hex_number_bound(digits);
    lemma_hex_number_digit(digits, k);
    lemma_pow16_is_power(digits.len());
    lemma_pow16_is_power((digits.len() - 1 - k) as nat);
    assert(pow16(digits.len()) <= pow16(16)) by {
        lemma_pow16_grows(digits.len(), 16);
    }
    reveal_with_fuel(pow16, 17);
}

proof fn lemma_pow16_grows(m: nat, n: nat)
    requires
        m <= n,
    ensures
        pow16(m) <= pow16(n),
    decreases n,
{
    if m < n {
        lemma_pow16_grows(m, (n - 1) as nat);
        lemma_pow16_positive((n - 1) as nat);
    }
}

/// What is not a hexadecimal digit does not change the number of an identifier
/// that has one, wherever it stands, and neither does anything behind the first
/// sixteen digits.
pub proof fn law_punctuation_does_not_change_the_number(a: Seq<char>, c: char, b: Seq<char>)
    ensures
        !is_hex_digit(c) && hex_digits(a + b).len() > 0 ==> window_number(a + seq![c] + b)
            == window_number(a + b),
        hex_digits(a).len() >= 16 ==> window_number(a + b) == window_number(a),
{
    law_digits_are_found_in_order(a, c, b);
    law_digits_are_found_in_order(a, c, seq![c]);
    law_digits_are_found_in_order(a + seq![c], c, b);
    if !is_hex_digit(c) {
        assert(hex_digits(a + seq![c] + b) =~= hex_digits(a + b));
    }
    if hex_digits(a).len() >= 16 {
        assert(leading_hex_digits(a + b) =~= hex_digits(a).take(16));
        assert(leading_hex_digits(a) =~= hex_digits(a).take(16));
    }
}

/// An identifier without a hexadecimal digit is numbered by a hash of its bytes,
/// which begins with the offset basis and takes in one byte after another: it is
/// combined with the byte and multiplied with the prime, modulo the word.
pub proof fn law_identifier_without_digits_is_hashed(id: Seq<char>, bytes: Seq<u8>, b: u8)
    ensures
        hex_digits(id).len() == 0 ==> window_number(id) == fnv1a(encode_utf8(id)),
        fnv1a(Seq::empty()) == 0xcbf29ce484222325,
        fnv1a(bytes.push(b)) as int == ((fnv1a(bytes) ^ (b as u64)) as int * 0x100000001b3)
            % 0x1_0000_0000_0000_0000,
{
    assert(bytes.push(b).drop_last() =~= bytes);
}

} // verus!
