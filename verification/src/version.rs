//! The version of a package that is rebuilt from a disk image: the time of the
//! rebuild and the digest of the image.

use vstd::prelude::*;
use chrono::{Datelike, Timelike};
use sha2::Digest;

use crate::text::{hex_text, push_two_digits};

verus! {

/// The SHA-256 digest of `bytes`.
pub uninterp spec fn sha256_digest(bytes: Seq<u8>) -> Seq<u8>;

/// `sha2::Sha256`, fed with all of `bytes` and finalized: the digest, which has
/// 32 bytes and depends on nothing but `bytes`.
#[verifier::external_body]
fn sha256(bytes: &[u8]) -> (digest: Vec<u8>)
    ensures
        digest@ == sha256_digest(bytes@),
        digest@.len() == 32,
{
    let mut hasher = sha2::Sha256::new();
    hasher.update(bytes);
    hasher.finalize().to_vec()
}

/// A point in time, in UTC, to the second.
#[derive(Debug, Clone, Copy, PartialEq, Eq, Structural)]
pub struct UtcTime {
    pub year: i32,
    pub month: u8,
    pub day: u8,
    pub hour: u8,
    pub minute: u8,
    pub second: u8,
}

impl UtcTime {
    /// The fields of a calendar date and a time of day.
    pub open spec fn is_valid(self) -> bool {
        &&& 1 <= self.month <= 12
        &&& 1 <= self.day <= 31
        &&& self.hour < 24
        &&& self.minute < 60
        &&& self.second < 60
    }

    /// `self` is an earlier second than `other`.
    pub open spec fn is_before(self, other: UtcTime) -> bool {
        ||| self.year < other.year
        ||| self.year == other.year && {
            ||| self.month < other.month
            ||| self.month == other.month && {
                ||| self.day < other.day
                ||| self.day == other.day && {
                    ||| self.hour < other.hour
                    ||| self.hour == other.hour && {
                        ||| self.minute < other.minute
                        ||| self.minute == other.minute && self.second < other.second
                    }
                }
            }
        }
    }
}

/// `chrono::Utc::now`, taken apart by `Datelike` and `Timelike`: the current
/// date and time, which is never before 1970 (a clock that says otherwise makes
/// the call panic). What the clock shows is not stated.
#[verifier::external_body]
fn utc_now() -> (now: UtcTime)
    ensures
        now.is_valid(),
        now.year >= 1970,
{
    let now = chrono::Utc::now();
    UtcTime {
        year: now.year(),
        month: now.month() as u8,
        day: now.day() as u8,
        hour: now.hour() as u8,
        minute: now.minute() as u8,
        second: now.second() as u8,
    }
}

/// `now` is what the clock may show: a time that [`utc_now`] can return.
pub closed spec fn is_clock_reading(now: UtcTime) -> bool {
    call_ensures(utc_now, (), now)
}

/// Reads `clock`.
fn read_clock<F: Fn() -> UtcTime>(clock: F) -> (now: UtcTime)
    requires
        call_requires(clock, ()),
    ensures
        call_ensures(clock, (), now),
{
    clock()
}

/// Why there is no version.
#[derive(Debug, Clone, Copy, PartialEq, Eq, Structural)]
pub enum VersionError {
    /// The digest has fewer than eight digits.
    DigestTooShort,
    /// The year does not have four digits.
    YearOutOfRange,
}

/// `YYYY.MM.DD`.
pub open spec fn date_text(t: UtcTime) -> Seq<char> {
    let year = crate::text::two_digits(t.year as int / 100) + crate::text::two_digits(
        t.year as int % 100,
    );
    year + seq!['.'] + crate::text::two_digits(t.month as int) + seq!['.']
        + crate::text::two_digits(t.day as int)
}

/// `HHMMSS`.
pub open spec fn time_text(t: UtcTime) -> Seq<char> {
    crate::text::two_digits(t.hour as int) + crate::text::two_digits(t.minute as int)
        + crate::text::two_digits(t.second as int)
}

/// `YYYY.MM.DD.HHMMSS`.
pub open spec fn timestamp_text(t: UtcTime) -> Seq<char> {
    date_text(t) + seq!['.'] + time_text(t)
}

/// `YYYY.MM.DD.HHMMSS+<sha8>`, the last part being the first eight digits of
/// `sha`.
pub open spec fn version_text(sha: Seq<char>, t: UtcTime) -> Seq<char> {
    timestamp_text(t) + seq!['+'] + sha.take(8)
}

/// The version of what has the digest `sha` and is built at `t`, or why there
/// is none.
pub open spec fn candidate_version(sha: Seq<char>, t: UtcTime) -> Result<Seq<char>, VersionError> {
    if sha.len() < 8 {
        Err(VersionError::DigestTooShort)
    } else if !(0 <= t.year <= 9999) {
        Err(VersionError::YearOutOfRange)
    } else {
        Ok(version_text(sha, t))
    }
}

/// A result whose text is taken as a sequence of characters.
pub open spec fn version_view(r: Result<String, VersionError>) -> Result<Seq<char>, VersionError> {
    match r {
        Ok(v) => Ok(v@),
        Err(e) => Err(e),
    }
}

/// The version of what has the digest `sha` and is built at `now`.
pub fn derive_candidate_version(sha: &str, now: &UtcTime) -> (version: Result<String, VersionError>)
    requires
        now.is_valid(),
    ensures
        version_view(version) == candidate_version(sha@, *now),
{
    if sha.unicode_len() < 8 {
        return Err(VersionError::DigestTooShort);
    }
    if now.year < 0 || now.year > 9999 {
        return Err(VersionError::YearOutOfRange);
    }
    let mut out = String::new();
    push_two_digits(&mut out, (now.year / 100) as u8);
    push_two_digits(&mut out, (now.year % 100) as u8);
    out.push('.');
    push_two_digits(&mut out, now.month);
    out.push('.');
    push_two_digits(&mut out, now.day);
    proof {
        assert(out@ =~= date_text(*now));
    }
    out.push('.');
    push_two_digits(&mut out, now.hour);
    push_two_digits(&mut out, now.minute);
    push_two_digits(&mut out, now.second);
    proof {
        assert(out@ =~= timestamp_text(*now));
    }
    out.push('+');
    out.append(sha.substring_char(0, 8));
    proof {
        assert(sha@.subrange(0, 8) =~= sha@.take(8));
        assert(out@ =~= version_text(sha@, *now));
    }
    Ok(out)
}

/// The SHA-256 digest of `bytes` in hexadecimal notation.
pub fn sha256_hex(bytes: &[u8]) -> (sha: String)
    ensures
        sha@ == crate::text::hex(sha256_digest(bytes@)),
        sha@.len() == 64,
{
    let digest = sha256(bytes);
    hex_text(digest.as_slice())
}

/// The version of the package that is rebuilt at `now` from the disk image whose
/// content is `image`.
pub fn package_version_at(image: &[u8], now: &UtcTime) -> (version: Result<String, VersionError>)
    requires
        now.is_valid(),
    ensures
        version_view(version) == candidate_version(
            crate::text::hex(sha256_digest(image@)),
            *now,
        ),
        version is Ok <==> 0 <= now.year <= 9999,
        version matches Err(e) ==> e == VersionError::YearOutOfRange,
{
    let sha = sha256_hex(image);
    derive_candidate_version(sha.as_str(), now)
}

/// The version of the package that is rebuilt now from the disk image whose
/// content is `image`.
pub fn derive_package_version(image: &[u8]) -> (version: Result<String, VersionError>)
    ensures
        exists|now: UtcTime|
            now.is_valid() && now.year >= 1970 && version_view(version)
                == #[trigger] candidate_version(
                crate::text::hex(sha256_digest(image@)),
                now,
            ),
        version matches Err(e) ==> e == VersionError::YearOutOfRange,
        exists|now: UtcTime|
            is_clock_reading(now) && version_view(version) == #[trigger] candidate_version(
                crate::text::hex(sha256_digest(image@)),
                now,
            ),
{
    let now = read_clock(utc_now);
    package_version_at(image, &now)
}

/// `a` stands before `b` in the order of their characters.
pub open spec fn text_less(a: Seq<char>, b: Seq<char>) -> bool {
    exists|k: int|
        {
            &&& 0 <= k <= a.len()
            &&& k < b.len()
            &&& #[trigger] a.take(k) == b.take(k)
            &&& k < a.len() ==> a[k] < b[k]
        }
}

/// The digits of a time and the points between them, place by place.
spec fn timestamp_char(t: UtcTime, i: int) -> char {
    let year = t.year as int;
    if i == 0 {
        crate::text::decimal_digit(year / 1000)
    } else if i == 1 {
        crate::text::decimal_digit((year / 100) % 10)
    } else if i == 2 {
        crate::text::decimal_digit((year / 10) % 10)
    } else if i == 3 {
        crate::text::decimal_digit(year % 10)
    } else if i == 5 {
        crate::text::decimal_digit(t.month as int / 10)
    } else if i == 6 {
        crate::text::decimal_digit(t.month as int % 10)
    } else if i == 8 {
        crate::text::decimal_digit(t.day as int / 10)
    } else if i == 9 {
        crate::text::decimal_digit(t.day as int % 10)
    } else if i == 11 {
        crate::text::decimal_digit(t.hour as int / 10)
    } else if i == 12 {
        crate::text::decimal_digit(t.hour as int % 10)
    } else if i == 13 {
        crate::text::decimal_digit(t.minute as int / 10)
    } else if i == 14 {
        crate::text::decimal_digit(t.minute as int % 10)
    } else if i == 15 {
        crate::text::decimal_digit(t.second as int / 10)
    } else if i == 16 {
        crate::text::decimal_digit(t.second as int % 10)
    } else {
        '.'
    }
}

proof fn lemma_date_layout(t: UtcTime)
    requires
        0 <= t.year <= 9999,
    ensures
        date_text(t).len() == 10,
        forall|i: int| 0 <= i < 10 ==> #[trigger] date_text(t)[i] == timestamp_char(t, i),
{
    let year = t.year as int;
    assert((year / 100) / 10 == year / 1000);
    assert((year % 100) / 10 == (year / 10) % 10);
    assert((year % 100) % 10 == year % 10);
}

proof fn lemma_time_layout(t: UtcTime)
    ensures
        time_text(t).len() == 6,
        forall|i: int| 0 <= i < 6 ==> #[trigger] time_text(t)[i] == timestamp_char(t, i + 11),
{
}

proof fn lemma_version_layout(sha: Seq<char>, t: UtcTime)
    requires
        t.is_valid(),
        0 <= t.year <= 9999,
        sha.len() >= 8,
    ensures
        version_text(sha, t).len() == 26,
        forall|i: int| 0 <= i < 17 ==> #[trigger] version_text(sha, t)[i] == timestamp_char(t, i),
{
    let date = date_text(t);
    let time = time_text(t);
    lemma_date_layout(t);
    lemma_time_layout(t);
    assert forall|i: int| 0 <= i < 17 implies #[trigger] version_text(sha, t)[i]
        == timestamp_char(t, i) by {
        if i < 10 {
            assert(version_text(sha, t)[i] == date[i]);
        } else if i > 10 {
            assert(version_text(sha, t)[i] == time[i - 11]);
        }
    }
}

/// The place of the first character in which the times `a` and `b` differ when
/// they are written out.
spec fn first_difference(a: UtcTime, b: UtcTime) -> int {
    if a.year as int / 1000 != b.year as int / 1000 {
        0
    } else if a.year as int / 100 != b.year as int / 100 {
        1
    } else if a.year as int / 10 != b.year as int / 10 {
        2
    } else if a.year != b.year {
        3
    } else if a.month as int / 10 != b.month as int / 10 {
        5
    } else if a.month != b.month {
        6
    } else if a.day as int / 10 != b.day as int / 10 {
        8
    } else if a.day != b.day {
        9
    } else if a.hour as int / 10 != b.hour as int / 10 {
        11
    } else if a.hour != b.hour {
        12
    } else if a.minute as int / 10 != b.minute as int / 10 {
        13
    } else if a.minute != b.minute {
        14
    } else if a.second as int / 10 != b.second as int / 10 {
        15
    } else {
        16
    }
}

proof fn lemma_two_digits_order(m: int, n: int)
    requires
        0 <= m < n < 100,
    ensures
        m / 10 <= n / 10,
        m / 10 < 10,
        n / 10 < 10,
        m / 10 == n / 10 ==> m % 10 < n % 10,
{
}

proof fn lemma_year_order(m: int, n: int)
    requires
        0 <= m < n <= 9999,
    ensures
        0 <= m / 1000 <= n / 1000 < 10,
        m / 1000 == n / 1000 ==> (m / 100) % 10 <= (n / 100) % 10,
        m / 1000 == n / 1000 && m / 100 != n / 100 ==> (m / 100) % 10 < (n / 100) % 10,
        m / 100 == n / 100 && m / 10 != n / 10 ==> (m / 10) % 10 < (n / 10) % 10,
        m / 10 == n / 10 ==> m % 10 < n % 10,
        m / 100 == n / 100 ==> m / 1000 == n / 1000,
        m / 10 == n / 10 ==> m / 100 == n / 100,
{
}

#[verifier::spinoff_prover]
proof fn lemma_first_difference_grows(a: UtcTime, b: UtcTime)
    requires
        a.is_valid(),
        b.is_valid(),
        0 <= a.year,
        b.year <= 9999,
        a.is_before(b),
    ensures
        0 <= first_difference(a, b) < 17,
        timestamp_char(a, first_difference(a, b)) < timestamp_char(b, first_difference(a, b)),
{
    if a.year < b.year {
        lemma_year_order(a.year as int, b.year as int);
    } else if a.month < b.month {
        lemma_two_digits_order(a.month as int, b.month as int);
    } else if a.day < b.day {
        lemma_two_digits_order(a.day as int, b.day as int);
    } else if a.hour < b.hour {
        lemma_two_digits_order(a.hour as int, b.hour as int);
    } else if a.minute < b.minute {
        lemma_two_digits_order(a.minute as int, b.minute as int);
    } else {
        lemma_two_digits_order(a.second as int, b.second as int);
    }
}

#[verifier::spinoff_prover]
proof fn lemma_same_before_first_difference(a: UtcTime, b: UtcTime, i: int)
    requires
        0 <= a.year <= b.year <= 9999,
        0 <= i < first_difference(a, b),
    ensures
        timestamp_char(a, i) == timestamp_char(b, i),
{
    if i < 4 && a.year < b.year {
        lemma_year_order(a.year as int, b.year as int);
    }
}

/// Versions are monotonic: of two packages that are built in different seconds,
/// the later one has the greater version, whatever the images hold.
pub proof fn law_version_is_monotonic(
    sha_a: Seq<char>,
    sha_b: Seq<char>,
    a: UtcTime,
    b: UtcTime,
)
    requires
        a.is_valid(),
        b.is_valid(),
        0 <= a.year,
        b.year <= 9999,
        a.is_before(b),
        sha_a.len() >= 8,
        sha_b.len() >= 8,
    ensures
        text_less(version_text(sha_a, a), version_text(sha_b, b)),
{
    let k = first_difference(a, b);
    let va = version_text(sha_a, a);
    let vb = version_text(sha_b, b);
    lemma_version_layout(sha_a, a);
    lemma_version_layout(sha_b, b);
    lemma_first_difference_grows(a, b);
    assert(va[k] == timestamp_char(a, k));
    assert(vb[k] == timestamp_char(b, k));
    assert forall|i: int| 0 <= i < k implies va[i] == vb[i] by {
        lemma_same_before_first_difference(a, b, i);
    }
    assert(va.take(k) =~= vb.take(k));
}

#[verifier::spinoff_prover]
proof fn lemma_year_digits(year: int)
    requires
        0 <= year <= 9999,
    ensures
        0 <= year / 1000 < 10,
        0 <= (year / 100) % 10 < 10,
        0 <= (year / 10) % 10 < 10,
        1000 * (year / 1000) + 100 * ((year / 100) % 10) + 10 * ((year / 10) % 10) + year % 10
            == year,
{
    let tens = year / 10;
    let hundreds = year / 100;
    let thousands = year / 1000;
    vstd::arithmetic::div_mod::lemma_div_denominator(year, 10, 10);
    vstd::arithmetic::div_mod::lemma_div_denominator(year, 100, 10);
    vstd::arithmetic::div_mod::lemma_fundamental_div_mod(year, 10);
    vstd::arithmetic::div_mod::lemma_fundamental_div_mod(tens, 10);
    vstd::arithmetic::div_mod::lemma_fundamental_div_mod(hundreds, 10);
    vstd::arithmetic::div_mod::lemma_fundamental_div_mod(year, 1000);
    vstd::arithmetic::div_mod::lemma_mod_bound(year, 1000);
    assert(tens / 10 == hundreds);
    assert(hundreds / 10 == thousands);
}

proof fn lemma_digit_stands_for_itself(d: int)
    requires
        0 <= d < 10,
    ensures
        crate::text::decimal_digit(d) as int - 0x30 == d,
        '0' <= crate::text::decimal_digit(d) <= '9',
{
}

#[verifier::spinoff_prover]
proof fn lemma_timestamp_chars(t: UtcTime)
    requires
        t.is_valid(),
        0 <= t.year <= 9999,
    ensures
        1000 * (timestamp_char(t, 0) as int - 0x30) + 100 * (timestamp_char(t, 1) as int - 0x30)
            + 10 * (timestamp_char(t, 2) as int - 0x30) + (timestamp_char(t, 3) as int - 0x30)
            == t.year,
        10 * (timestamp_char(t, 5) as int - 0x30) + (timestamp_char(t, 6) as int - 0x30) == t.month,
        10 * (timestamp_char(t, 8) as int - 0x30) + (timestamp_char(t, 9) as int - 0x30) == t.day,
        10 * (timestamp_char(t, 11) as int - 0x30) + (timestamp_char(t, 12) as int - 0x30) == t.hour,
        10 * (timestamp_char(t, 13) as int - 0x30) + (timestamp_char(t, 14) as int - 0x30)
            == t.minute,
        10 * (timestamp_char(t, 15) as int - 0x30) + (timestamp_char(t, 16) as int - 0x30)
            == t.second,
        forall|i: int|
            0 <= i < 17 ==> if i == 4 || i == 7 || i == 10 {
                #[trigger] timestamp_char(t, i) == '.'
            } else {
                '0' <= timestamp_char(t, i) <= '9'
            },
{
    let year = t.year as int;
    lemma_year_digits(year);
    lemma_digit_stands_for_itself(year / 1000);
    lemma_digit_stands_for_itself((year / 100) % 10);
    lemma_digit_stands_for_itself((year / 10) % 10);
    lemma_digit_stands_for_itself(year % 10);
    lemma_digit_stands_for_itself(t.month as int / 10);
    lemma_digit_stands_for_itself(t.month as int % 10);
    lemma_digit_stands_for_itself(t.day as int / 10);
    lemma_digit_stands_for_itself(t.day as int % 10);
    lemma_digit_stands_for_itself(t.hour as int / 10);
    lemma_digit_stands_for_itself(t.hour as int % 10);
    lemma_digit_stands_for_itself(t.minute as int / 10);
    lemma_digit_stands_for_itself(t.minute as int % 10);
    lemma_digit_stands_for_itself(t.second as int / 10);
    lemma_digit_stands_for_itself(t.second as int % 10);
}

#[verifier::spinoff_prover]
proof fn lemma_version_ends_with_digest(sha: Seq<char>, t: UtcTime)
    requires
        0 <= t.year <= 9999,
        sha.len() >= 8,
    ensures
        version_text(sha, t)[17] == '+',
        forall|i: int| 0 <= i < 8 ==> version_text(sha, t)[18 + i] == #[trigger] sha[i],
{
    let time = timestamp_text(t);
    lemma_date_layout(t);
    lemma_time_layout(t);
    assert(time.len() == 17);
    assert forall|i: int| 0 <= i < 8 implies version_text(sha, t)[18 + i] == #[trigger] sha[i] by {
        assert(sha.take(8)[i] == sha[i]);
    }
}

/// A version tells the time and the image, and can be read back: the year, the
/// month, the day, and the hour, the minute and the second, each in its digits,
/// with points between the first four and a plus sign before the first eight
/// digits of the digest.
#[verifier::spinoff_prover]
pub proof fn law_version_tells_time_and_image(sha: Seq<char>, t: UtcTime)
    requires
        t.is_valid(),
        0 <= t.year <= 9999,
        sha.len() >= 8,
    ensures
        ({
            let v = version_text(sha, t);
            &&& v.len() == 26
            &&& 1000 * (v[0] as int - 0x30) + 100 * (v[1] as int - 0x30) + 10 * (v[2] as int - 0x30)
                + (v[3] as int - 0x30) == t.year
            &&& 10 * (v[5] as int - 0x30) + (v[6] as int - 0x30) == t.month
            &&& 10 * (v[8] as int - 0x30) + (v[9] as int - 0x30) == t.day
            &&& 10 * (v[11] as int - 0x30) + (v[12] as int - 0x30) == t.hour
            &&& 10 * (v[13] as int - 0x30) + (v[14] as int - 0x30) == t.minute
            &&& 10 * (v[15] as int - 0x30) + (v[16] as int - 0x30) == t.second
            &&& forall|i: int|
                0 <= i < 17 ==> if i == 4 || i == 7 || i == 10 {
                    #[trigger] v[i] == '.'
                } else {
                    '0' <= v[i] <= '9'
                }
            &&& v[17] == '+'
            &&& forall|i: int| 0 <= i < 8 ==> v[18 + i] == #[trigger] sha[i]
        }),
{
    let v = version_text(sha, t);
    lemma_version_layout(sha, t);
    lemma_version_ends_with_digest(sha, t);
    lemma_timestamp_chars(t);
    assert forall|i: int| 0 <= i < 17 implies if i == 4 || i == 7 || i == 10 {
        #[trigger] v[i] == '.'
    } else {
        '0' <= v[i] <= '9'
    } by {
        assert(v[i] == timestamp_char(t, i));
    }
    assert(v[0] == timestamp_char(t, 0) && v[1] == timestamp_char(t, 1) && v[2] == timestamp_char(
        t,
        2,
    ) && v[3] == timestamp_char(t, 3));
}

/// There is a version exactly for a digest of eight digits or more and a year of
/// four; a digest that is too short is told first.
pub proof fn law_version_needs_digest_and_year(sha: Seq<char>, t: UtcTime)
    ensures
        candidate_version(sha, t) is Ok <==> sha.len() >= 8 && 0 <= t.year <= 9999,
        candidate_version(sha, t) matches Ok(v) ==> v == version_text(sha, t),
        candidate_version(sha, t) == Err::<Seq<char>, VersionError>(VersionError::DigestTooShort)
            <==> sha.len() < 8,
        candidate_version(sha, t) == Err::<Seq<char>, VersionError>(VersionError::YearOutOfRange)
            <==> sha.len() >= 8 && !(0 <= t.year <= 9999),
{
}

/// Of two different seconds one is the earlier, and not both are. Every second of
/// the calendar is valid.
pub proof fn law_seconds_are_in_order(a: UtcTime, b: UtcTime)
    ensures
        a.is_before(b) || b.is_before(a) || a == b,
        !(a.is_before(b) && b.is_before(a)),
        !a.is_before(a),
        1 <= a.month <= 12 && 1 <= a.day <= 31 && a.hour <= 23 && a.minute <= 59 && a.second <= 59
            ==> a.is_valid(),
{
}

/// What counts as a reading of the clock was returned by the clock, and is a time
/// from 1970 on.
proof fn law_reading_comes_from_the_clock(now: UtcTime)
    ensures
        is_clock_reading(now) ==> call_ensures(utc_now, (), now),
        is_clock_reading(now) ==> now.is_valid() && now.year >= 1970,
{
}

} // verus!
