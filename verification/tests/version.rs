use codex_desktop::text::{hex_text, push_decimal, push_signed_decimal, push_two_digits};
use codex_desktop::version::{
    derive_candidate_version, derive_package_version, package_version_at, sha256_hex, UtcTime,
    VersionError,
};

const EMPTY_SHA: &str = "e3b0c44298fc1c149afbf4c8996fb92427ae41e4649b934ca495991b7852b855";
const ABC_SHA: &str = "ba7816bf8f01cfea414140de5dae2223b00361a396177a9cb410ff61f20015ad";

fn time(year: i32, month: u8, day: u8, hour: u8, minute: u8, second: u8) -> UtcTime {
    UtcTime { year, month, day, hour, minute, second }
}

#[test]
fn digests_are_those_of_sha256() {
    assert_eq!(sha256_hex(b""), EMPTY_SHA);
    assert_eq!(sha256_hex(b"abc"), ABC_SHA);
}

#[test]
fn hexadecimal_notation_has_two_digits_for_each_byte() {
    assert_eq!(hex_text(&[0x00, 0x0a, 0x9f, 0xff]), "000a9fff");
    assert_eq!(hex_text(&[]), "");
    let all: Vec<u8> = (0..=255).collect();
    let expected: String = all.iter().map(|b| format!("{b:02x}")).collect();
    assert_eq!(hex_text(&all), expected);
}

#[test]
fn decimal_notation_agrees_with_the_standard_library() {
    for n in [0u128, 7, 10, 99, 100, 12345, u64::MAX as u128, u128::MAX] {
        let mut text = "n=".to_string();
        push_decimal(&mut text, n);
        assert_eq!(text, format!("n={n}"));
    }
    for n in [0i32, -1, 42, i32::MIN, i32::MAX] {
        let mut text = String::new();
        push_signed_decimal(&mut text, n);
        assert_eq!(text, n.to_string());
    }
    let mut text = String::new();
    push_two_digits(&mut text, 7);
    push_two_digits(&mut text, 99);
    assert_eq!(text, "0799");
}

#[test]
fn version_holds_the_time_and_eight_digits() {
    assert_eq!(
        derive_candidate_version(ABC_SHA, &time(2025, 3, 9, 4, 5, 6)),
        Ok("2025.03.09.040506+ba7816bf".to_string())
    );
    assert_eq!(
        derive_candidate_version("01234567", &time(7, 12, 31, 23, 59, 59)),
        Ok("0007.12.31.235959+01234567".to_string())
    );
}

#[test]
fn version_needs_eight_digits() {
    assert_eq!(
        derive_candidate_version("0123456", &time(2025, 1, 1, 0, 0, 0)),
        Err(VersionError::DigestTooShort)
    );
}

#[test]
fn version_needs_a_year_of_four_digits() {
    assert_eq!(
        derive_candidate_version(ABC_SHA, &time(10000, 1, 1, 0, 0, 0)),
        Err(VersionError::YearOutOfRange)
    );
    assert_eq!(
        derive_candidate_version(ABC_SHA, &time(-1, 1, 1, 0, 0, 0)),
        Err(VersionError::YearOutOfRange)
    );
}

#[test]
fn later_versions_are_greater() {
    let times = [
        time(2024, 12, 31, 23, 59, 59),
        time(2025, 1, 1, 0, 0, 0),
        time(2025, 1, 1, 0, 0, 9),
        time(2025, 1, 1, 0, 0, 10),
        time(2025, 1, 1, 0, 1, 0),
        time(2025, 1, 1, 9, 0, 0),
        time(2025, 1, 1, 10, 0, 0),
        time(2025, 1, 10, 0, 0, 0),
        time(2025, 10, 2, 0, 0, 0),
        time(2030, 1, 1, 0, 0, 0),
    ];
    for pair in times.windows(2) {
        let earlier = derive_candidate_version("ffffffff", &pair[0]).unwrap();
        let later = derive_candidate_version("00000000", &pair[1]).unwrap();
        assert!(earlier < later, "{} {}", earlier, later);
    }
}

#[test]
fn package_version_ends_with_the_digest_of_the_image() {
    let version = derive_package_version(b"abc").unwrap();
    assert_eq!(version.len(), 26);
    assert!(version.ends_with("+ba7816bf"));
    assert_eq!(&version[4..5], ".");
    assert_eq!(&version[7..8], ".");
    assert_eq!(&version[10..11], ".");
    let year: i32 = version[..4].parse().unwrap();
    assert!(year >= 1970);
    assert!(derive_package_version(b"").unwrap().ends_with("+e3b0c442"));
}

#[test]
fn different_bytes_have_different_notations() {
    assert_ne!(hex_text(&[0x01, 0x10]), hex_text(&[0x10, 0x01]));
    assert_eq!(hex_text(&[0x01, 0x10]), "0110");
}

#[test]
fn package_version_is_fixed_by_image_and_time() {
    assert_eq!(
        package_version_at(b"abc", &time(2025, 3, 9, 4, 5, 6)),
        Ok("2025.03.09.040506+ba7816bf".to_string())
    );
    assert_eq!(
        package_version_at(b"", &time(2025, 3, 9, 4, 5, 6)),
        Ok("2025.03.09.040506+e3b0c442".to_string())
    );
    assert_eq!(
        package_version_at(b"abc", &time(10000, 1, 1, 0, 0, 0)),
        Err(VersionError::YearOutOfRange)
    );
}
