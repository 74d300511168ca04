//! Tests of the response codec: identity tokens, client-info blobs, and
//! the classification of whole token-endpoint responses.

use base64::engine::general_purpose::URL_SAFE_NO_PAD;
use base64::Engine;
use msal::decode_client_info;
use msal::decode_id_token;
use msal::parse_device_authorization_response;
use msal::parse_nonce_response;
use msal::parse_prt_response;
use msal::parse_user_token_response;
use msal::reencode_id_token;
use msal::MsalError;

fn sample_id_token_payload() -> &'static str {
    "{\"name\":\"Test User\",\"oid\":\"oid-1\",\"preferred_username\":\"user@contoso.com\",\"puid\":\"12345\",\"tid\":\"tid-1\"}"
}

fn sample_id_token() -> String {
    let payload = URL_SAFE_NO_PAD.encode(sample_id_token_payload().as_bytes());
    format!("eyJhbGciOiJSUzI1NiJ9.{}.c2ln", payload)
}

#[test]
fn id_token_decodes_all_claims() {
    let t = decode_id_token(&sample_id_token()).expect("valid token must decode");
    assert_eq!(t.name, "Test User");
    assert_eq!(t.oid, "oid-1");
    assert_eq!(t.preferred_username, "user@contoso.com");
    assert_eq!(t.puid.as_deref(), Some("12345"));
    assert_eq!(t.tenant_region_scope, None);
    assert_eq!(t.tid, "tid-1");
}

#[test]
fn id_token_round_trip_preserves_claims() {
    let raw = sample_id_token();
    let first = decode_id_token(&raw).expect("valid token must decode");
    let rebuilt = reencode_id_token(&raw).expect("valid token must re-encode");
    let rebuilt = String::from_utf8(rebuilt).expect("rebuilt token is text");
    let second = decode_id_token(&rebuilt).expect("rebuilt token must decode");
    assert_eq!(first.name, second.name);
    assert_eq!(first.oid, second.oid);
    assert_eq!(first.preferred_username, second.preferred_username);
    assert_eq!(first.puid, second.puid);
    assert_eq!(first.tenant_region_scope, second.tenant_region_scope);
    assert_eq!(first.tid, second.tid);
}

#[test]
fn id_token_without_dots_fails() {
    let r = decode_id_token("nodotsatall");
    assert!(matches!(r, Err(MsalError::InvalidJson(_))));
    assert!(reencode_id_token("nodotsatall").is_none());
}

#[test]
fn id_token_with_bad_payload_fails() {
    // The payload segment is present but not base64url.
    let r = decode_id_token("header.!!!not-base64!!!.sig");
    assert!(matches!(r, Err(MsalError::InvalidJson(_))));
    // The payload decodes but misses required claims.
    let payload = URL_SAFE_NO_PAD.encode(b"{\"name\":\"only a name\"}");
    let r = decode_id_token(&format!("h.{}.s", payload));
    assert!(matches!(r, Err(MsalError::InvalidJson(_))));
}

const UID: &str = "3fa85f64-5717-4562-b3fc-2c963f66afa6";
const UTID: &str = "c0a80101-0000-0000-0000-000000000001";

fn client_info_blob(json: &str) -> String {
    URL_SAFE_NO_PAD.encode(json.as_bytes())
}

#[test]
fn client_info_well_formed_succeeds_exactly() {
    let blob = client_info_blob(&format!("{{\"uid\":\"{}\",\"utid\":\"{}\"}}", UID, UTID));
    let c = decode_client_info(&blob).expect("well-formed blob must decode");
    assert_eq!(c.uid, Some(uuid::Uuid::parse_str(UID).unwrap().as_u128()));
    assert_eq!(c.utid, Some(uuid::Uuid::parse_str(UTID).unwrap().as_u128()));
}

#[test]
fn client_info_missing_uid_fails() {
    let blob = client_info_blob(&format!("{{\"utid\":\"{}\"}}", UTID));
    assert!(matches!(
        decode_client_info(&blob),
        Err(MsalError::InvalidJson(_))
    ));
}

#[test]
fn client_info_missing_utid_fails() {
    let blob = client_info_blob(&format!("{{\"uid\":\"{}\"}}", UID));
    assert!(matches!(
        decode_client_info(&blob),
        Err(MsalError::InvalidJson(_))
    ));
}

#[test]
fn client_info_malformed_identifier_fails() {
    let blob = client_info_blob("{\"uid\":\"not-a-uuid\",\"utid\":\"also-not\"}");
    assert!(matches!(
        decode_client_info(&blob),
        Err(MsalError::InvalidJson(_))
    ));
}

fn sample_user_token_body() -> Vec<u8> {
    let blob = client_info_blob(&format!("{{\"uid\":\"{}\",\"utid\":\"{}\"}}", UID, UTID));
    format!(
        "{{\"token_type\":\"Bearer\",\"scope\":\"openid\",\"expires_in\":3600,\
         \"ext_expires_in\":7200,\"access_token\":\"AT\",\"refresh_token\":\"RT\",\
         \"id_token\":\"{}\",\"client_info\":\"{}\"}}",
        sample_id_token(),
        blob
    )
    .into_bytes()
}

#[test]
fn user_token_rederives_nested_payloads() {
    let t = parse_user_token_response(200, &sample_user_token_body()).expect("2xx must parse");
    assert_eq!(t.token_type, "Bearer");
    assert_eq!(t.scope, "openid");
    assert_eq!(t.expires_in, 3600);
    assert_eq!(t.ext_expires_in, 7200);
    assert_eq!(t.access_token, "AT");
    assert_eq!(t.refresh_token, "RT");
    assert_eq!(t.id_token.name, "Test User");
    assert_eq!(t.id_token.tid, "tid-1");
    assert_eq!(t.client_info.uid, Some(uuid::Uuid::parse_str(UID).unwrap().as_u128()));
    assert_eq!(t.client_info.utid, Some(uuid::Uuid::parse_str(UTID).unwrap().as_u128()));
}

#[test]
fn user_token_without_client_info_defaults() {
    let body = format!(
        "{{\"token_type\":\"Bearer\",\"scope\":\"openid\",\"expires_in\":3600,\
         \"ext_expires_in\":7200,\"access_token\":\"AT\",\"refresh_token\":\"RT\",\
         \"id_token\":\"{}\"}}",
        sample_id_token()
    )
    .into_bytes();
    let t = parse_user_token_response(200, &body).expect("client_info may be absent");
    assert_eq!(t.client_info.uid, None);
    assert_eq!(t.client_info.utid, None);
}

#[test]
fn user_token_with_bad_id_token_fails() {
    let body = b"{\"token_type\":\"Bearer\",\"scope\":\"openid\",\"expires_in\":3600,\
                  \"ext_expires_in\":7200,\"access_token\":\"AT\",\"refresh_token\":\"RT\",\
                  \"id_token\":\"nodots\"}"
        .to_vec();
    assert!(matches!(
        parse_user_token_response(200, &body),
        Err(MsalError::InvalidJson(_))
    ));
}

#[test]
fn non_2xx_with_error_body_is_acquisition_failure() {
    let body = b"{\"error\":\"invalid_grant\",\"error_description\":\"bad credentials\"}".to_vec();
    match parse_user_token_response(400, &body) {
        Err(MsalError::AcquireTokenFailed(e)) => {
            assert_eq!(e.error, "invalid_grant");
            assert_eq!(e.error_description, "bad credentials");
        }
        other => panic!("expected an acquisition failure, got {:?}", other),
    }
}

#[test]
fn non_2xx_with_unparseable_body_is_invalid_response() {
    let body = b"<html>Service Unavailable</html>".to_vec();
    assert!(matches!(
        parse_user_token_response(503, &body),
        Err(MsalError::InvalidJson(_))
    ));
    // Valid JSON that is not the structured error shape is invalid too,
    // never an acquisition failure with made-up fields.
    let body = b"{\"error\":\"lonely\"}".to_vec();
    assert!(matches!(
        parse_user_token_response(400, &body),
        Err(MsalError::InvalidJson(_))
    ));
}

#[test]
fn success_status_with_unparseable_body_is_invalid_response() {
    let body = b"not json at all".to_vec();
    assert!(matches!(
        parse_user_token_response(200, &body),
        Err(MsalError::InvalidJson(_))
    ));
}

#[test]
fn device_authorization_parses_all_fields() {
    let body = b"{\"device_code\":\"dc-123\",\"user_code\":\"ABCD-EFGH\",\
                  \"verification_uri\":\"https://microsoft.com/devicelogin\",\
                  \"expires_in\":900,\"interval\":5,\"message\":\"go log in\"}"
        .to_vec();
    let d = parse_device_authorization_response(200, &body).expect("2xx must parse");
    assert_eq!(d.user_code, "ABCD-EFGH");
    assert_eq!(d.verification_uri, "https://microsoft.com/devicelogin");
    assert_eq!(d.verification_uri_complete, None);
    assert_eq!(d.expires_in, 900);
    assert_eq!(d.interval, Some(5));
    assert_eq!(d.message.as_deref(), Some("go log in"));
}

#[test]
fn device_authorization_missing_required_field_fails() {
    let body = b"{\"user_code\":\"ABCD-EFGH\",\"verification_uri\":\"u\",\"expires_in\":900}"
        .to_vec();
    assert!(matches!(
        parse_device_authorization_response(200, &body),
        Err(MsalError::InvalidJson(_))
    ));
}

#[test]
fn nonce_response_parses() {
    let body = b"{\"Nonce\":\"abc123\"}".to_vec();
    assert_eq!(parse_nonce_response(200, &body).expect("2xx must parse"), "abc123");
    let body = b"{\"nonce\":\"wrong case\"}".to_vec();
    assert!(matches!(
        parse_nonce_response(200, &body),
        Err(MsalError::InvalidJson(_))
    ));
}

#[test]
fn prt_response_parses() {
    let body = b"{\"refresh_token\":\"PRT\",\"refresh_token_expires_in\":1209600,\
                  \"session_key_jwe\":\"JWE\",\"id_token\":\"IDT\"}"
        .to_vec();
    let t = parse_prt_response(200, &body).expect("2xx must parse");
    assert_eq!(t.refresh_token, "PRT");
    assert_eq!(t.refresh_token_expires_in, 1209600);
    assert_eq!(t.session_key_jwe, "JWE");
    assert_eq!(t.id_token, "IDT");
}

#[test]
fn prt_response_error_is_classified() {
    let body = b"{\"error\":\"interaction_required\",\"error_description\":\"mfa\"}".to_vec();
    match parse_prt_response(401, &body) {
        Err(MsalError::AcquireTokenFailed(e)) => assert_eq!(e.error, "interaction_required"),
        other => panic!("expected an acquisition failure, got {:?}", other),
    }
}

#[test]
fn id_token_with_two_segments_still_decodes() {
    // A second dot is not required: the payload runs to the end.
    let payload = URL_SAFE_NO_PAD.encode(sample_id_token_payload().as_bytes());
    let t = decode_id_token(&format!("eyJhbGciOiJSUzI1NiJ9.{}", payload))
        .expect("two-segment token must decode");
    assert_eq!(t.name, "Test User");
}

#[test]
fn id_token_optional_claims_are_kept() {
    let payload = URL_SAFE_NO_PAD.encode(
        b"{\"name\":\"N\",\"oid\":\"O\",\"preferred_username\":\"U\",\
          \"tid\":\"T\",\"tenant_region_scope\":\"NA\"}",
    );
    let t = decode_id_token(&format!("h.{}.s", payload)).expect("must decode");
    assert_eq!(t.tenant_region_scope.as_deref(), Some("NA"));
    assert_eq!(t.puid, None);
}

#[test]
fn user_token_with_undecodable_client_info_fails() {
    let body = format!(
        "{{\"token_type\":\"Bearer\",\"scope\":\"openid\",\"expires_in\":3600,\
         \"ext_expires_in\":7200,\"access_token\":\"AT\",\"refresh_token\":\"RT\",\
         \"id_token\":\"{}\",\"client_info\":\"!!!\"}}",
        sample_id_token()
    )
    .into_bytes();
    assert!(matches!(
        parse_user_token_response(200, &body),
        Err(MsalError::InvalidJson(_))
    ));
}

#[test]
fn device_authorization_interval_out_of_range_is_absent() {
    let body = b"{\"device_code\":\"dc\",\"user_code\":\"UC\",\"verification_uri\":\"u\",\
                  \"expires_in\":900,\"interval\":5000000000}"
        .to_vec();
    let d = parse_device_authorization_response(200, &body).expect("must parse");
    assert_eq!(d.interval, None);
}
