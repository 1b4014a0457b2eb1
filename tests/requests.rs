use tc_client::client::{decode_response, is_success, classify_status, ThreatConnectClient};
use tc_client::error::ApiError;

fn client() -> ThreatConnectClient {
    ThreatConnectClient::new("my-id".to_string(), "s3cr3t".to_string(), "acme".to_string())
}

fn header<'a>(headers: &'a [(String, String)], name: &str) -> &'a str {
    headers.iter().find(|h| h.0 == name).map(|h| h.1.as_str()).unwrap()
}

#[test]
fn base_url_from_instance() {
    assert_eq!(client().base_url(), "https://acme.threatconnect.com/api/v3");
}

#[test]
fn prepare_get_without_params() {
    let req = client().prepare_get("/indicators", None, 1700000000).unwrap();
    assert_eq!(req.url, "https://acme.threatconnect.com/api/v3/indicators");
    let names: Vec<&str> = req.headers.iter().map(|h| h.0.as_str()).collect();
    assert_eq!(names, vec!["Authorization", "Timestamp", "Accept", "Content-Type"]);
    assert_eq!(header(&req.headers, "Authorization"), "TC my-id:SIfhnb9IsimJU7ExxbJlU00497Z2yNitwXpFnEm6Gog=");
    assert_eq!(header(&req.headers, "Timestamp"), "1700000000");
    assert_eq!(header(&req.headers, "Accept"), "application/json");
    assert_eq!(header(&req.headers, "Content-Type"), "application/json");
}

#[test]
fn prepare_get_with_empty_params_has_no_query() {
    let params: Vec<(&str, &str)> = vec![];
    let req = client().prepare_get("/indicators", Some(&params), 1700000000).unwrap();
    assert_eq!(req.url, "https://acme.threatconnect.com/api/v3/indicators");
    assert_eq!(header(&req.headers, "Authorization"), "TC my-id:SIfhnb9IsimJU7ExxbJlU00497Z2yNitwXpFnEm6Gog=");
}

#[test]
fn prepare_get_with_params_signs_the_same_query() {
    let params: Vec<(&str, &str)> = vec![("resultLimit", "10"), ("tql", "typeName in (\"Host\")")];
    let req = client().prepare_get("/indicators", Some(&params), 1700000000).unwrap();
    assert_eq!(
        req.url,
        "https://acme.threatconnect.com/api/v3/indicators?resultLimit=10&tql=typeName+in+%28%22Host%22%29"
    );
    assert_eq!(header(&req.headers, "Authorization"), "TC my-id:wvWsaJmgXdof+mSeDOC4uniGQ6XKEb0Xxb5WjFmobnE=");
}

#[test]
fn prepare_signed_with_given_query() {
    let req = client()
        .prepare_signed("/indicators", Some("resultLimit=10&tql=typeName+in+%28%22Host%22%29"), 1700000000)
        .unwrap();
    assert_eq!(
        req.url,
        "https://acme.threatconnect.com/api/v3/indicators?resultLimit=10&tql=typeName+in+%28%22Host%22%29"
    );
    assert_eq!(header(&req.headers, "Authorization"), "TC my-id:wvWsaJmgXdof+mSeDOC4uniGQ6XKEb0Xxb5WjFmobnE=");
}

#[test]
fn requests_at_two_timestamps_are_independent() {
    let c = client();
    let a = c.prepare_get("/indicators", None, 1700000000).unwrap();
    let b = c.prepare_get("/indicators", None, 1700000001).unwrap();
    let a2 = c.prepare_get("/indicators", None, 1700000000).unwrap();
    assert_eq!(header(&a.headers, "Timestamp"), "1700000000");
    assert_eq!(header(&b.headers, "Timestamp"), "1700000001");
    assert_ne!(header(&a.headers, "Authorization"), header(&b.headers, "Authorization"));
    assert_eq!(header(&a.headers, "Authorization"), header(&a2.headers, "Authorization"));
    assert_eq!(header(&b.headers, "Authorization"), "TC my-id:RcUlP24iG2Qnefk1aEinfDYrkm1EJctCJVMU/PNOy3Y=");
}

#[test]
fn success_status_boundaries() {
    assert!(!is_success(199));
    assert!(is_success(200));
    assert!(is_success(204));
    assert!(is_success(299));
    assert!(!is_success(300));
    assert!(!is_success(401));
}

#[test]
fn unauthorized_is_api_error_without_decoding() {
    let r = decode_response(401, "Unauthorized".to_string());
    match r {
        Err(ApiError::Api { status, body }) => {
            assert_eq!(status, 401);
            assert_eq!(body, "Unauthorized");
        }
        _ => panic!("expected an Api error"),
    }
}

#[test]
fn server_error_keeps_html_body() {
    let r = decode_response(503, "<html>down</html>".to_string());
    assert!(matches!(r, Err(ApiError::Api { status: 503, ref body }) if body == "<html>down</html>"));
    assert_eq!(r.unwrap_err().status(), Some(503));
}

#[test]
fn valid_json_decodes_with_all_fields() {
    let v = decode_response(200, "{\"id\":7,\"summary\":\"1.2.3.4\",\"tags\":[\"a\",\"b\"]}".to_string()).unwrap();
    assert_eq!(v["id"].as_i64(), Some(7));
    assert_eq!(v["summary"].as_str(), Some("1.2.3.4"));
    assert_eq!(v["tags"].as_array().map(|a| a.len()), Some(2));
}

#[test]
fn malformed_json_is_decode_error_with_raw_body() {
    let r = decode_response(200, "{\"id\": 7,".to_string());
    match r {
        Err(ApiError::Decode { body, message }) => {
            assert_eq!(body, "{\"id\": 7,");
            assert!(!message.is_empty());
        }
        _ => panic!("expected a Decode error"),
    }
}

#[test]
fn classify_status_hands_on_success_body() {
    assert_eq!(classify_status(200, "x".to_string()).unwrap(), "x");
    assert!(matches!(classify_status(404, "nf".to_string()), Err(ApiError::Api { status: 404, .. })));
}

#[test]
fn non_api_errors_have_no_status() {
    assert_eq!(ApiError::Signing.status(), None);
    assert_eq!(ApiError::Transport { message: "reset".to_string() }.status(), None);
}

#[test]
fn query_encoding_keeps_order_and_escapes_bytes() {
    let params: Vec<(&str, &str)> = vec![("b key", "*-._~é/"), ("a", ""), ("b key", "2")];
    let req = client().prepare_get("/groups", Some(&params), 5).unwrap();
    assert_eq!(
        req.url,
        "https://acme.threatconnect.com/api/v3/groups?b+key=*-._%7E%C3%A9%2F&a=&b+key=2"
    );
    let signed = client().prepare_signed("/groups", Some("b+key=*-._%7E%C3%A9%2F&a=&b+key=2"), 5).unwrap();
    assert_eq!(header(&req.headers, "Authorization"), header(&signed.headers, "Authorization"));
}

#[test]
fn decoded_value_equals_parse_of_body() {
    let body = "{\"data\":[{\"id\":1,\"ip\":\"10.0.0.1\"}],\"status\":\"Success\"}";
    let v = decode_response(201, body.to_string()).unwrap();
    let expected: serde_json::Value = serde_json::from_str(body).unwrap();
    assert_eq!(v, expected);
}
