use tc_client::client::ThreatConnectClient;
use tc_client::signing::{authorization_value, canonical_message, decimal_string, signature};

#[test]
fn canonical_message_without_query() {
    let m = canonical_message("/api/v3/indicators", "GET", 1700000000);
    assert_eq!(m, "/api/v3/indicators:GET:1700000000");
}

#[test]
fn canonical_message_with_query() {
    let m = canonical_message("/api/v3/indicators?resultLimit=10", "GET", 1700000000);
    assert_eq!(m, "/api/v3/indicators?resultLimit=10:GET:1700000000");
}

#[test]
fn decimal_string_values() {
    assert_eq!(decimal_string(0), "0");
    assert_eq!(decimal_string(9), "9");
    assert_eq!(decimal_string(10), "10");
    assert_eq!(decimal_string(1700000000), "1700000000");
    assert_eq!(decimal_string(u64::MAX), "18446744073709551615");
}

#[test]
fn authorization_value_format() {
    assert_eq!(authorization_value("my-id", "abc="), "TC my-id:abc=");
}

#[test]
fn golden_signature_vector() {
    let s = signature("s3cr3t", "my-id", "GET", "/api/v3/indicators", 1700000000).unwrap();
    assert_eq!(s, "TC my-id:SIfhnb9IsimJU7ExxbJlU00497Z2yNitwXpFnEm6Gog=");
}

#[test]
fn golden_signature_vector_through_client() {
    let c = ThreatConnectClient::new("my-id".to_string(), "s3cr3t".to_string(), "acme".to_string());
    let s = c.sign("GET", "/api/v3/indicators", 1700000000).unwrap();
    assert_eq!(s, "TC my-id:SIfhnb9IsimJU7ExxbJlU00497Z2yNitwXpFnEm6Gog=");
}

#[test]
fn signing_is_deterministic() {
    let a = signature("key", "id", "GET", "/api/v3/groups?x=1", 42).unwrap();
    let b = signature("key", "id", "GET", "/api/v3/groups?x=1", 42).unwrap();
    assert_eq!(a, b);
}

#[test]
fn one_changed_byte_changes_signature() {
    let base = signature("s3cr3t", "id", "GET", "/api/v3/indicators", 1700000000).unwrap();
    let path = signature("s3cr3t", "id", "GET", "/api/v3/indicatorz", 1700000000).unwrap();
    let method = signature("s3cr3t", "id", "GET", "/api/v3/indicators", 1700000000).unwrap();
    let method_changed = signature("s3cr3t", "id", "GEU", "/api/v3/indicators", 1700000000).unwrap();
    let time = signature("s3cr3t", "id", "GET", "/api/v3/indicators", 1700000001).unwrap();
    assert_ne!(base, path);
    assert_eq!(base, method);
    assert_ne!(base, method_changed);
    assert_ne!(base, time);
    assert_eq!(path, "TC id:HRfXPyYJdZd1610SKe79hEgCHF136Tjvue8j1bctm9w=");
    assert_eq!(time, "TC id:RcUlP24iG2Qnefk1aEinfDYrkm1EJctCJVMU/PNOy3Y=");
}

#[test]
fn empty_secret_key_still_signs() {
    assert!(signature("", "id", "GET", "/api/v3/indicators", 0).is_ok());
}

#[test]
fn digest_has_base64_shape() {
    let s = signature("another secret", "id", "GET", "/api/v3/indicators?x=y", 1).unwrap();
    let d = s.strip_prefix("TC id:").unwrap();
    assert_eq!(d.len(), 44);
    assert!(d.ends_with('=') && !d[..43].contains('='));
    assert!(d[..43].chars().all(|c| c.is_ascii_alphanumeric() || c == '+' || c == '/'));
}
