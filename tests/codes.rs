use metamask::address::format_address;
use metamask::totp::{check, code_for, new_secret, provisioning_url};

const RFC_SECRET: &[u8] = b"12345678901234567890";

#[test]
fn code_matches_reference_values() {
    assert_eq!(code_for(RFC_SECRET, 59), "287082");
    assert_eq!(code_for(RFC_SECRET, 1111111109), "081804");
    assert_eq!(code_for(RFC_SECRET, 1234567890), "005924");
}

#[test]
fn code_is_accepted_only_in_its_own_step() {
    let t = 1111111109u64;
    let code = code_for(RFC_SECRET, t);
    assert!(check(RFC_SECRET, &code, t));
    // Same step, other second.
    assert!(check(RFC_SECRET, &code, t - (t % 30)));
    assert_ne!(code_for(RFC_SECRET, t + 30), code);
    assert!(!check(RFC_SECRET, &code, t + 30));
    assert!(!check(RFC_SECRET, &code, t - 30));
}

#[test]
fn malformed_codes_are_refused() {
    let t = 59u64;
    assert!(!check(RFC_SECRET, "28708", t));
    assert!(!check(RFC_SECRET, "2870820", t));
    assert!(!check(RFC_SECRET, "+87082", t));
    assert!(!check(RFC_SECRET, "", t));
}

#[test]
fn new_secret_is_256_bits_of_hex() {
    let a = new_secret();
    let b = new_secret();
    assert_eq!(a.len(), 64);
    assert!(a.chars().all(|c| c.is_ascii_hexdigit() && !c.is_ascii_uppercase()));
    assert_ne!(a, b);
}

#[test]
fn provisioning_url_names_account_and_issuer() {
    let url = provisioning_url(RFC_SECRET, "metamask", "metamask.io").unwrap();
    assert!(url.starts_with("otpauth://totp/metamask.io:metamask?"));
    assert!(url.contains("secret=GEZDGNBVGY3TQOJQGEZDGNBVGY3TQOJQ"));
    assert!(url.contains("issuer=metamask.io"));
    assert_eq!(provisioning_url(RFC_SECRET, "", "metamask.io"), None);
    assert_eq!(provisioning_url(RFC_SECRET, "a:b", "metamask.io"), None);
}

#[test]
fn address_is_lowercase_hex_with_prefix() {
    assert_eq!(format_address(&[0u8; 20]), format!("0x{}", "0".repeat(40)));
    assert_eq!(format_address(&[0xab, 0x01, 0xff]), "0xab01ff");
    assert_eq!(format_address(&[]), "0x");
}
