use sha2::{Digest, Sha256};
use zpm::checksum::{digest_matches, to_hex};
use zpm::extract::ToolInvocation;
use zpm::{extract_tarball, extract_zip, get_platform_string, verify_checksum, ErrorKind};

#[test]
fn known_hosts_have_a_platform_key() {
    assert_eq!(get_platform_string("x86_64", "linux"), Ok("x86_64-linux".to_string()));
    assert_eq!(get_platform_string("aarch64", "macos"), Ok("aarch64-macos".to_string()));
    assert_eq!(get_platform_string("arm", "windows"), Ok("arm-windows".to_string()));
}

#[test]
fn unknown_hosts_are_unsupported() {
    assert_eq!(get_platform_string("riscv64", "linux"), Err(ErrorKind::PlatformUnsupported));
    assert_eq!(get_platform_string("x86_64", "freebsd"), Err(ErrorKind::PlatformUnsupported));
    assert_eq!(get_platform_string("", ""), Err(ErrorKind::PlatformUnsupported));
    assert_eq!(get_platform_string("X86_64", "linux"), Err(ErrorKind::PlatformUnsupported));
    assert_eq!(get_platform_string("x86_64-linux", ""), Err(ErrorKind::PlatformUnsupported));
}

const EMPTY_SHA256: &str = "e3b0c44298fc1c149afbf4c8996fb92427ae41e4649b934ca495991b7852b855";
const ABC_SHA256: &str = "ba7816bf8f01cfea414140de5dae2223b00361a396177a9cb410ff61f20015ad";

#[test]
fn checksum_of_known_data_is_accepted() {
    assert_eq!(verify_checksum(b"", EMPTY_SHA256), Ok(()));
    assert_eq!(verify_checksum(b"abc", ABC_SHA256), Ok(()));
}

#[test]
fn checksum_is_read_without_regard_to_case() {
    assert_eq!(verify_checksum(b"abc", &ABC_SHA256.to_uppercase()), Ok(()));
    let mixed = "Ba7816bf8f01cfea414140DE5dae2223b00361a396177a9cb410ff61f20015AD";
    assert_eq!(verify_checksum(b"abc", mixed), Ok(()));
}

#[test]
fn other_checksums_are_rejected() {
    assert_eq!(verify_checksum(b"abc", EMPTY_SHA256), Err(ErrorKind::ChecksumMismatch));
    assert_eq!(verify_checksum(b"abc", ""), Err(ErrorKind::ChecksumMismatch));
    assert_eq!(verify_checksum(b"abc", &ABC_SHA256[..63]), Err(ErrorKind::ChecksumMismatch));
    assert_eq!(verify_checksum(b"abc", &format!("{}0", ABC_SHA256)), Err(ErrorKind::ChecksumMismatch));
    assert_eq!(verify_checksum(b"abc", &format!(" {}", ABC_SHA256)), Err(ErrorKind::ChecksumMismatch));
}

#[test]
fn one_corrupted_byte_is_noticed() {
    let mut data: Vec<u8> = (0..=255u8).cycle().take(5000).collect();
    let expected = format!("{:x}", Sha256::digest(&data));
    assert_eq!(verify_checksum(&data, &expected), Ok(()));
    for position in [0usize, 1, 2499, 4999] {
        data[position] ^= 1;
        assert_eq!(verify_checksum(&data, &expected), Err(ErrorKind::ChecksumMismatch));
        data[position] ^= 1;
    }
    assert_eq!(verify_checksum(&data, &expected), Ok(()));
}

#[test]
fn hex_is_lower_case_two_digits_a_byte() {
    assert_eq!(to_hex(&[]), "");
    assert_eq!(to_hex(&[0x00, 0x0f, 0xf0, 0xff, 0x1a, 0xa1, 0x9b]), "000ff0ff1aa19b");
    let all: Vec<u8> = (0..=255u8).collect();
    let expected: String = all.iter().map(|b| format!("{:02x}", b)).collect();
    assert_eq!(to_hex(&all), expected);
}

#[test]
fn digest_is_matched_against_its_hex_form() {
    assert!(digest_matches(&[0xab, 0xcd], "abcd"));
    assert!(digest_matches(&[0xab, 0xcd], "ABCD"));
    assert!(digest_matches(&[0xab, 0xcd], "aBcD"));
    assert!(!digest_matches(&[0xab, 0xcd], "abce"));
    assert!(!digest_matches(&[0xab, 0xcd], "abc"));
    assert!(!digest_matches(&[0xab, 0xcd], "abcd "));
    assert!(digest_matches(&[], ""));
    // only letters differ by case: '0' and 'P' do not
    assert!(!digest_matches(&[0x00], "0P"));
    assert!(!digest_matches(&[0x10], "1\u{10}"));
}

fn command(tool: &ToolInvocation) -> Vec<String> {
    let mut words = vec![tool.program.clone()];
    words.extend(tool.args.iter().cloned());
    words
}

#[test]
fn tar_archive_is_unpacked_without_its_top_directory() {
    let tool = extract_tarball("/c/zig.tar.xz", "/v/0.13.0");
    assert_eq!(
        command(&tool),
        vec!["tar", "-xJf", "/c/zig.tar.xz", "-C", "/v/0.13.0", "--strip-components=1"]
    );
}

#[test]
fn zip_archive_is_unpacked_over_what_is_there() {
    let tool = extract_zip("/c/zls.zip", "/v/0.13.0/zls");
    assert_eq!(command(&tool), vec!["unzip", "-o", "/c/zls.zip", "-d", "/v/0.13.0/zls"]);
}
