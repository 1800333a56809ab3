use hosting_company::pem::base64_to_pem;
use hosting_company::pem::is_wellformed_pem;
use hosting_company::pem::pem_to_base64;

#[test]
fn strip_removes_framing_and_line_breaks() {
    let doc = "-----BEGIN PUBLIC KEY-----\nabcd\nefgh\n-----END PUBLIC KEY-----\n";
    assert_eq!(pem_to_base64(doc.to_string()), "abcdefgh");
}

#[test]
fn strip_keeps_non_framing_lines_only() {
    let doc = "-----BEGIN PUBLIC KEY-----\nAAAA\n-----END PUBLIC KEY-----\n";
    let stripped = pem_to_base64(doc.to_string());
    assert_eq!(stripped, "AAAA");
    assert!(!stripped.contains('\n'));
    assert!(!stripped.contains("-----"));
}

#[test]
fn strip_handles_carriage_returns() {
    let doc = "-----BEGIN PUBLIC KEY-----\r\nabcd\r\nefgh\r\n-----END PUBLIC KEY-----\r\n";
    assert_eq!(pem_to_base64(doc.to_string()), "abcdefgh");
}

#[test]
fn strip_of_unterminated_final_line() {
    assert_eq!(pem_to_base64("abcd".to_string()), "abcd");
    assert_eq!(pem_to_base64("abcd\nef".to_string()), "abcdef");
}

#[test]
fn strip_drops_every_framing_line() {
    let doc = "-----BEGIN PUBLIC KEY-----\nAA\n-----ODD MARKER-----\nBB\n-----END PUBLIC KEY-----\n";
    assert_eq!(pem_to_base64(doc.to_string()), "AABB");
}

#[test]
fn wrap_short_body() {
    assert_eq!(
        base64_to_pem("abc"),
        "-----BEGIN PUBLIC KEY-----\nabc\n-----END PUBLIC KEY-----\n"
    );
}

#[test]
fn wrap_breaks_lines_at_64() {
    let body: String = std::iter::repeat('A').take(70).collect();
    let doc = base64_to_pem(&body);
    let expected = format!(
        "-----BEGIN PUBLIC KEY-----\n{}\n{}\n-----END PUBLIC KEY-----\n",
        "A".repeat(64),
        "A".repeat(6)
    );
    assert_eq!(doc, expected);
}

#[test]
fn wrap_exact_64_is_one_line() {
    let body = "B".repeat(64);
    let doc = base64_to_pem(&body);
    let expected = format!("-----BEGIN PUBLIC KEY-----\n{}\n-----END PUBLIC KEY-----\n", body);
    assert_eq!(doc, expected);
}

#[test]
fn round_trip_strip_then_wrap() {
    let body = "MIIBIjANBgkqhkiG9w0BAQEFAAOCAQ8AMIIBCgKCAQEA".repeat(3);
    let doc = base64_to_pem(&body);
    assert_eq!(pem_to_base64(doc.clone()), body);
    assert!(is_wellformed_pem(&doc));
}

#[test]
fn wellformed_rejects_other_text() {
    assert!(!is_wellformed_pem("not a pem document"));
    assert!(!is_wellformed_pem(""));
    assert!(!is_wellformed_pem("-----BEGIN PUBLIC KEY-----\nab-cd\n-----END PUBLIC KEY-----\n"));
}
