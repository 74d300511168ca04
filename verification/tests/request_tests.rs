//! Tests of request construction: endpoint URLs, form bodies, the scope
//! rule, and the two unsigned PRT payload shapes.

use msal::parse_device_authorization_response;
use msal::refresh_token_prt_payload;
use msal::username_password_prt_payload;
use msal::PublicClientApplication;

fn app() -> PublicClientApplication {
    PublicClientApplication::new("cid123", "tenant1", "login.microsoftonline.com")
}

#[test]
fn username_password_request_is_exact() {
    let r = app().username_password_token_request(
        "user@contoso.com",
        "p@ss",
        &vec!["sc1".to_string(), "sc2".to_string()],
    );
    assert_eq!(
        r.url,
        "https://login.microsoftonline.com/tenant1/oauth2/v2.0/token"
    );
    assert_eq!(
        String::from_utf8(r.body).unwrap(),
        "client_id=cid123&scope=openid%20profile%20offline_access%20sc1%20sc2\
         &username=user%40contoso.com&password=p%40ss&grant_type=password&client_info=1"
    );
}

#[test]
fn scope_order_and_duplicates_are_kept() {
    // The baseline comes first; caller scopes follow in order, duplicates
    // and re-orderings preserved exactly.
    let r = app().device_flow_init_request(&vec![
        "b".to_string(),
        "a".to_string(),
        "openid".to_string(),
    ]);
    assert_eq!(
        r.url,
        "https://login.microsoftonline.com/tenant1/oauth2/v2.0/devicecode"
    );
    assert_eq!(
        String::from_utf8(r.body).unwrap(),
        "client_id=cid123&scope=openid%20profile%20offline_access%20b%20a%20openid"
    );
}

#[test]
fn empty_scopes_transmit_the_baseline() {
    let r = app().device_flow_init_request(&Vec::new());
    assert_eq!(
        String::from_utf8(r.body).unwrap(),
        "client_id=cid123&scope=openid%20profile%20offline_access"
    );
}

#[test]
fn device_enrollment_request_uses_drs_scope() {
    let r = app().device_enrollment_token_request("user@contoso.com", "p@ss");
    assert_eq!(
        String::from_utf8(r.body).unwrap(),
        "client_id=cid123&scope=openid%20profile%20offline_access%2001cb2876-7ebd-4aa4-9cc9-d28bd4d359a9%2F.default\
         &username=user%40contoso.com&password=p%40ss&grant_type=password&client_info=1"
    );
}

#[test]
fn refresh_token_request_is_exact() {
    let r = app().refresh_token_request(&vec!["sc1".to_string()], "RT-1");
    assert_eq!(
        r.url,
        "https://login.microsoftonline.com/tenant1/oauth2/v2.0/token"
    );
    assert_eq!(
        String::from_utf8(r.body).unwrap(),
        "client_id=cid123&scope=openid%20profile%20offline_access%20sc1\
         &grant_type=refresh_token&refresh_token=RT-1&client_info=1"
    );
}

fn sample_flow_body() -> Vec<u8> {
    b"{\"device_code\":\"dc-123\",\"user_code\":\"ABCD\",\
      \"verification_uri\":\"https://microsoft.com/devicelogin\",\"expires_in\":900}"
        .to_vec()
}

#[test]
fn device_flow_poll_request_is_exact() {
    let flow = parse_device_authorization_response(200, &sample_flow_body()).unwrap();
    let r = app().device_flow_poll_request(&flow);
    assert_eq!(
        r.url,
        "https://login.microsoftonline.com/tenant1/oauth2/v2.0/token"
    );
    assert_eq!(
        String::from_utf8(r.body).unwrap(),
        "client_id=cid123&grant_type=urn%3Aietf%3Aparams%3Aoauth%3Agrant-type%3Adevice_code\
         &device_code=dc-123"
    );
}

#[test]
fn device_flow_poll_does_not_consume_the_flow() {
    // Polling reads the stored device code; the same authorization
    // response seeds any number of subsequent polls unchanged.
    let flow = parse_device_authorization_response(200, &sample_flow_body()).unwrap();
    let a = app();
    let first = a.device_flow_poll_request(&flow);
    let second = a.device_flow_poll_request(&flow);
    assert_eq!(first.body, second.body);
    assert_eq!(first.url, second.url);
    assert_eq!(flow.user_code, "ABCD");
    assert_eq!(flow.expires_in, 900);
}

#[test]
fn nonce_request_is_untenanted() {
    let r = app().nonce_request();
    assert_eq!(r.url, "https://login.microsoftonline.com/common/oauth2/token");
    assert_eq!(String::from_utf8(r.body).unwrap(), "grant_type=srv_challenge");
}

#[test]
fn prt_exchange_request_is_exact() {
    let r = app().prt_exchange_request("HEADER.PAYLOAD.SIG");
    assert_eq!(r.url, "https://login.microsoftonline.com/tenant1/oauth2/token");
    assert_eq!(
        String::from_utf8(r.body).unwrap(),
        "windows_api_version=2.0&grant_type=urn:ietf:params:oauth:grant-type:jwt-bearer\
         &request=HEADER.PAYLOAD.SIG&client_info=1&tgt=true"
    );
}

#[test]
fn username_password_prt_payload_without_os_string() {
    let p = username_password_prt_payload("user@contoso.com", "p@ss", "abc123", &None);
    assert_eq!(
        String::from_utf8(p).unwrap(),
        "{\"client_id\":\"38aa3b87-a06d-4817-b275-7a316988d93b\",\
         \"request_nonce\":\"abc123\",\"scope\":\"openid aza ugs\",\
         \"grant_type\":\"password\",\"username\":\"user@contoso.com\",\"password\":\"p@ss\"}"
    );
}

#[test]
fn username_password_prt_payload_with_os_string() {
    let p = username_password_prt_payload(
        "user@contoso.com",
        "p@ss",
        "abc123",
        &Some("Test Linux 1.0".to_string()),
    );
    assert_eq!(
        String::from_utf8(p).unwrap(),
        "{\"client_id\":\"38aa3b87-a06d-4817-b275-7a316988d93b\",\
         \"request_nonce\":\"abc123\",\"scope\":\"openid aza ugs\",\
         \"win_ver\":\"Test Linux 1.0\",\
         \"grant_type\":\"password\",\"username\":\"user@contoso.com\",\"password\":\"p@ss\"}"
    );
}

#[test]
fn refresh_token_prt_payload_is_exact() {
    let p = refresh_token_prt_payload("RT-1", "abc123", &None);
    assert_eq!(
        String::from_utf8(p).unwrap(),
        "{\"client_id\":\"38aa3b87-a06d-4817-b275-7a316988d93b\",\
         \"request_nonce\":\"abc123\",\"scope\":\"openid aza ugs\",\
         \"grant_type\":\"refresh_token\",\"refresh_token\":\"RT-1\"}"
    );
}

#[test]
fn prt_payload_escapes_json_text() {
    let p = username_password_prt_payload("u", "p\"q\\r", "n", &None);
    assert_eq!(
        String::from_utf8(p).unwrap(),
        "{\"client_id\":\"38aa3b87-a06d-4817-b275-7a316988d93b\",\
         \"request_nonce\":\"n\",\"scope\":\"openid aza ugs\",\
         \"grant_type\":\"password\",\"username\":\"u\",\"password\":\"p\\\"q\\\\r\"}"
    );
    let p = username_password_prt_payload("u", "a\nb", "n", &None);
    assert_eq!(
        String::from_utf8(p).unwrap(),
        "{\"client_id\":\"38aa3b87-a06d-4817-b275-7a316988d93b\",\
         \"request_nonce\":\"n\",\"scope\":\"openid aza ugs\",\
         \"grant_type\":\"password\",\"username\":\"u\",\"password\":\"a\\u000ab\"}"
    );
}

#[test]
fn distinct_nonces_yield_distinct_payloads() {
    // Each PRT attempt fetches its own nonce; payloads embedding different
    // nonces can never coincide, whatever the other inputs.
    let p1 = username_password_prt_payload("u", "p", "nonce-one", &None);
    let p2 = username_password_prt_payload("u", "p", "nonce-two", &None);
    assert_ne!(p1, p2);
    let r1 = refresh_token_prt_payload("rt", "nonce-one", &None);
    let r2 = refresh_token_prt_payload("rt", "nonce-two", &None);
    assert_ne!(r1, r2);
}

#[test]
fn os_version_string_joins_fields() {
    assert_eq!(msal::os_version_string("Test Linux", "1.0"), "Test Linux 1.0");
}
