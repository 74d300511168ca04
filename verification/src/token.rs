//! Typed token-endpoint responses and their classification: a 2xx body is
//! parsed as the payload the caller expects; any other status is parsed as
//! the authority's structured error, and a body that fits neither shape is
//! reported as an invalid response, never coerced into either.

use vstd::prelude::*;
use crate::codec::ClientInfo;
use crate::codec::IdToken;
use crate::codec::IdTokenView;
use crate::codec::decode_client_info;
use crate::codec::decode_id_token;
use crate::codec::spec_decode_client_info;
use crate::codec::spec_decode_id_token;
use crate::codec::spec_json_str_field;
use crate::codec::spec_json_u64_field;
use crate::codec::parse_json_str_field;
use crate::codec::parse_json_u64_field;
use crate::error::ErrorResponse;
use crate::error::ErrorResponseView;
use crate::error::MsalError;
use crate::wire::str_bytes;

verus! {

/// An HTTP status reports success exactly when it lies in the 2xx range.
pub open spec fn spec_http_success(status: u16) -> bool {
    200 <= status < 300
}

// ---------------------------------------------------------------------------
// Structured error payloads.
// ---------------------------------------------------------------------------

/// The structured error shape the authority returns on a rejected request:
/// a JSON object carrying `error` and `error_description` strings. A body
/// missing either is not a structured error.
pub open spec fn spec_error_response(b: Seq<u8>) -> Option<ErrorResponseView> {
    if spec_json_str_field(b, "error"@) is Some && spec_json_str_field(
        b,
        "error_description"@,
    ) is Some {
        Some(
            ErrorResponseView {
                error: spec_json_str_field(b, "error"@)->Some_0,
                error_description: spec_json_str_field(b, "error_description"@)->Some_0,
            },
        )
    } else {
        None
    }
}

/// Classifies a non-2xx body: a well-formed structured error is surfaced as
/// an acquisition failure carrying it; anything else is an invalid
/// response, never an acquisition failure with made-up fields.
pub fn classify_error_body(body: &Vec<u8>) -> (e: MsalError)
    ensures
        match spec_error_response(body@) {
            Some(er) => e matches MsalError::AcquireTokenFailed(x) && x@ == er,
            None => e is InvalidJson,
        },
{
    let error = match parse_json_str_field(body, "error") {
        Some(s) => s,
        None => {
            return MsalError::InvalidJson("Failed parsing error response".to_owned());
        },
    };
    let error_description = match parse_json_str_field(body, "error_description") {
        Some(s) => s,
        None => {
            return MsalError::InvalidJson("Failed parsing error response".to_owned());
        },
    };
    let r = ErrorResponse { error, error_description };
    proof {
        assert(spec_error_response(body@)->Some_0 =~= r@);
    }
    MsalError::AcquireTokenFailed(r)
}

// ---------------------------------------------------------------------------
// Device authorization responses.
// ---------------------------------------------------------------------------

/// Result of initiating a device flow. The device code is retained only
/// inside this struct for the follow-up poll and is never exposed.
#[derive(Clone, Debug)]
pub struct DeviceAuthorizationResponse {
    device_code: String,
    pub user_code: String,
    pub verification_uri: String,
    pub verification_uri_complete: Option<String>,
    pub expires_in: u32,
    pub interval: Option<u32>,
    pub message: Option<String>,
}

/// Mathematical image of [`DeviceAuthorizationResponse`].
#[verifier::ext_equal]
pub struct DeviceAuthorizationResponseView {
    pub device_code: Seq<char>,
    pub user_code: Seq<char>,
    pub verification_uri: Seq<char>,
    pub verification_uri_complete: Option<Seq<char>>,
    pub expires_in: u32,
    pub interval: Option<u32>,
    pub message: Option<Seq<char>>,
}

impl View for DeviceAuthorizationResponse {
    type V = DeviceAuthorizationResponseView;

    closed spec fn view(&self) -> DeviceAuthorizationResponseView {
        DeviceAuthorizationResponseView {
            device_code: self.device_code@,
            user_code: self.user_code@,
            verification_uri: self.verification_uri@,
            verification_uri_complete: match self.verification_uri_complete {
                Some(s) => Some(s@),
                None => None,
            },
            expires_in: self.expires_in,
            interval: self.interval,
            message: match self.message {
                Some(s) => Some(s@),
                None => None,
            },
        }
    }
}

/// An optional unsigned field, kept when present as an integer in `u32`
/// range and treated as absent otherwise.
pub open spec fn spec_opt_u32_field(b: Seq<u8>, k: Seq<char>) -> Option<u32> {
    match spec_json_u64_field(b, k) {
        Some(v) => if v <= u32::MAX {
            Some(v as u32)
        } else {
            None
        },
        None => None,
    }
}

/// The device-authorization shape: device code, user code and verification
/// URI as required strings, expiry as a required integer in `u32` range;
/// the fully-qualified URI, poll interval and instruction text optional.
pub open spec fn spec_device_authorization(b: Seq<u8>) -> Option<DeviceAuthorizationResponseView> {
    if spec_json_str_field(b, "device_code"@) is Some && spec_json_str_field(
        b,
        "user_code"@,
    ) is Some && spec_json_str_field(b, "verification_uri"@) is Some && spec_opt_u32_field(
        b,
        "expires_in"@,
    ) is Some {
        Some(
            DeviceAuthorizationResponseView {
                device_code: spec_json_str_field(b, "device_code"@)->Some_0,
                user_code: spec_json_str_field(b, "user_code"@)->Some_0,
                verification_uri: spec_json_str_field(b, "verification_uri"@)->Some_0,
                verification_uri_complete: spec_json_str_field(b, "verification_uri_complete"@),
                expires_in: spec_opt_u32_field(b, "expires_in"@)->Some_0,
                interval: spec_opt_u32_field(b, "interval"@),
                message: spec_json_str_field(b, "message"@),
            },
        )
    } else {
        None
    }
}

/// Reads an optional unsigned field in `u32` range.
fn parse_opt_u32_field(body: &Vec<u8>, key: &str) -> (r: Option<u32>)
    ensures
        r == spec_opt_u32_field(body@, key@),
{
    match parse_json_u64_field(body, key) {
        Some(v) => if v <= u32::MAX as u64 {
            Some(v as u32)
        } else {
            None
        },
        None => None,
    }
}

/// Interprets a device-code endpoint response: a 2xx body must carry the
/// device-authorization shape; any other status carries the structured
/// error or is invalid.
pub fn parse_device_authorization_response(status: u16, body: &Vec<u8>) -> (r: Result<
    DeviceAuthorizationResponse,
    MsalError,
>)
    ensures
        spec_http_success(status) ==> match r {
            Ok(d) => spec_device_authorization(body@) == Some(d@),
            Err(e) => spec_device_authorization(body@) is None && e is InvalidJson,
        },
        !spec_http_success(status) ==> match r {
            Ok(_) => false,
            Err(e) => match spec_error_response(body@) {
                Some(er) => e matches MsalError::AcquireTokenFailed(x) && x@ == er,
                None => e is InvalidJson,
            },
        },
{
    if !(200 <= status && status < 300) {
        return Err(classify_error_body(body));
    }
    let device_code = match parse_json_str_field(body, "device_code") {
        Some(s) => s,
        None => {
            return Err(MsalError::InvalidJson("Failed parsing device authorization".to_owned()));
        },
    };
    let user_code = match parse_json_str_field(body, "user_code") {
        Some(s) => s,
        None => {
            return Err(MsalError::InvalidJson("Failed parsing device authorization".to_owned()));
        },
    };
    let verification_uri = match parse_json_str_field(body, "verification_uri") {
        Some(s) => s,
        None => {
            return Err(MsalError::InvalidJson("Failed parsing device authorization".to_owned()));
        },
    };
    let expires_in = match parse_opt_u32_field(body, "expires_in") {
        Some(v) => v,
        None => {
            return Err(MsalError::InvalidJson("Failed parsing device authorization".to_owned()));
        },
    };
    let d = DeviceAuthorizationResponse {
        device_code,
        user_code,
        verification_uri,
        verification_uri_complete: parse_json_str_field(body, "verification_uri_complete"),
        expires_in,
        interval: parse_opt_u32_field(body, "interval"),
        message: parse_json_str_field(body, "message"),
    };
    proof {
        assert(spec_device_authorization(body@)->Some_0 =~= d@);
    }
    Ok(d)
}

impl DeviceAuthorizationResponse {
    /// The stored device code, visible to contracts through the view.
    pub open spec fn spec_device_code(&self) -> Seq<char> {
        self@.device_code
    }

    /// The stored device code, handed out only inside the crate for the
    /// follow-up poll request.
    pub(crate) fn device_code(&self) -> (r: &String)
        ensures
            r@ == self.spec_device_code(),
    {
        &self.device_code
    }
}

// ---------------------------------------------------------------------------
// User tokens.
// ---------------------------------------------------------------------------

/// The canonical successful result of the standard grants. The identity
/// claims and the client info are always re-derived by decoding the nested
/// payloads the wire carries as opaque encoded strings.
#[derive(Clone, Debug)]
pub struct UserToken {
    pub token_type: String,
    pub scope: String,
    pub expires_in: u32,
    pub ext_expires_in: u32,
    pub access_token: String,
    pub refresh_token: String,
    pub id_token: IdToken,
    pub client_info: ClientInfo,
}

/// Mathematical image of [`UserToken`].
#[verifier::ext_equal]
pub struct UserTokenView {
    pub token_type: Seq<char>,
    pub scope: Seq<char>,
    pub expires_in: u32,
    pub ext_expires_in: u32,
    pub access_token: Seq<char>,
    pub refresh_token: Seq<char>,
    pub id_token: IdTokenView,
    pub client_info: ClientInfo,
}

impl View for UserToken {
    type V = UserTokenView;

    open spec fn view(&self) -> UserTokenView {
        UserTokenView {
            token_type: self.token_type@,
            scope: self.scope@,
            expires_in: self.expires_in,
            ext_expires_in: self.ext_expires_in,
            access_token: self.access_token@,
            refresh_token: self.refresh_token@,
            id_token: self.id_token@,
            client_info: self.client_info,
        }
    }
}

/// The embedded client info: decoded from the `client_info` field when the
/// response carries one as a string, the empty default when it is absent,
/// and a failure when one is carried but does not decode.
pub open spec fn spec_embedded_client_info(b: Seq<u8>) -> Option<ClientInfo> {
    match spec_json_str_field(b, "client_info"@) {
        None => Some(ClientInfo { uid: None, utid: None }),
        Some(raw) => spec_decode_client_info(str_bytes(raw)),
    }
}

/// The user-token shape: the four text fields and two expiries required,
/// the identity token required and decoded from its compact encoding, the
/// client info decoded when present.
pub open spec fn spec_user_token(b: Seq<u8>) -> Option<UserTokenView> {
    if spec_json_str_field(b, "token_type"@) is Some && spec_json_str_field(b, "scope"@) is Some
        && spec_opt_u32_field(b, "expires_in"@) is Some && spec_opt_u32_field(
        b,
        "ext_expires_in"@,
    ) is Some && spec_json_str_field(b, "access_token"@) is Some && spec_json_str_field(
        b,
        "refresh_token"@,
    ) is Some && spec_json_str_field(b, "id_token"@) is Some && spec_decode_id_token(
        str_bytes(spec_json_str_field(b, "id_token"@)->Some_0),
    ) is Some && spec_embedded_client_info(b) is Some {
        Some(
            UserTokenView {
                token_type: spec_json_str_field(b, "token_type"@)->Some_0,
                scope: spec_json_str_field(b, "scope"@)->Some_0,
                expires_in: spec_opt_u32_field(b, "expires_in"@)->Some_0,
                ext_expires_in: spec_opt_u32_field(b, "ext_expires_in"@)->Some_0,
                access_token: spec_json_str_field(b, "access_token"@)->Some_0,
                refresh_token: spec_json_str_field(b, "refresh_token"@)->Some_0,
                id_token: spec_decode_id_token(
                    str_bytes(spec_json_str_field(b, "id_token"@)->Some_0),
                )->Some_0,
                client_info: spec_embedded_client_info(b)->Some_0,
            },
        )
    } else {
        None
    }
}

/// Interprets a token endpoint response: a 2xx body must carry the
/// user-token shape, with both nested payloads decoded eagerly; any other
/// status carries the structured error or is invalid.
pub fn parse_user_token_response(status: u16, body: &Vec<u8>) -> (r: Result<UserToken, MsalError>)
    ensures
        spec_http_success(status) ==> match r {
            Ok(t) => spec_user_token(body@) == Some(t@),
            Err(e) => spec_user_token(body@) is None && e is InvalidJson,
        },
        !spec_http_success(status) ==> match r {
            Ok(_) => false,
            Err(e) => match spec_error_response(body@) {
                Some(er) => e matches MsalError::AcquireTokenFailed(x) && x@ == er,
                None => e is InvalidJson,
            },
        },
{
    if !(200 <= status && status < 300) {
        return Err(classify_error_body(body));
    }
    let token_type = match parse_json_str_field(body, "token_type") {
        Some(s) => s,
        None => {
            return Err(MsalError::InvalidJson("Failed parsing token response".to_owned()));
        },
    };
    let scope = match parse_json_str_field(body, "scope") {
        Some(s) => s,
        None => {
            return Err(MsalError::InvalidJson("Failed parsing token response".to_owned()));
        },
    };
    let expires_in = match parse_opt_u32_field(body, "expires_in") {
        Some(v) => v,
        None => {
            return Err(MsalError::InvalidJson("Failed parsing token response".to_owned()));
        },
    };
    let ext_expires_in = match parse_opt_u32_field(body, "ext_expires_in") {
        Some(v) => v,
        None => {
            return Err(MsalError::InvalidJson("Failed parsing token response".to_owned()));
        },
    };
    let access_token = match parse_json_str_field(body, "access_token") {
        Some(s) => s,
        None => {
            return Err(MsalError::InvalidJson("Failed parsing token response".to_owned()));
        },
    };
    let refresh_token = match parse_json_str_field(body, "refresh_token") {
        Some(s) => s,
        None => {
            return Err(MsalError::InvalidJson("Failed parsing token response".to_owned()));
        },
    };
    let id_token_raw = match parse_json_str_field(body, "id_token") {
        Some(s) => s,
        None => {
            return Err(MsalError::InvalidJson("Failed parsing token response".to_owned()));
        },
    };
    let id_token = match decode_id_token(id_token_raw.as_str()) {
        Ok(t) => t,
        Err(e) => {
            return Err(e);
        },
    };
    let client_info = match parse_json_str_field(body, "client_info") {
        None => ClientInfo { uid: None, utid: None },
        Some(raw) => match decode_client_info(raw.as_str()) {
            Ok(c) => c,
            Err(e) => {
                return Err(e);
            },
        },
    };
    let t = UserToken {
        token_type,
        scope,
        expires_in,
        ext_expires_in,
        access_token,
        refresh_token,
        id_token,
        client_info,
    };
    proof {
        assert(spec_user_token(body@)->Some_0 =~= t@);
    }
    Ok(t)
}

// ---------------------------------------------------------------------------
// Nonces.
// ---------------------------------------------------------------------------

/// The nonce-challenge shape: a JSON object carrying the challenge under
/// the `Nonce` key.
pub open spec fn spec_nonce(b: Seq<u8>) -> Option<Seq<char>> {
    spec_json_str_field(b, "Nonce"@)
}

/// Interprets a nonce-challenge response: a 2xx body must carry the nonce;
/// any other status carries the structured error or is invalid.
pub fn parse_nonce_response(status: u16, body: &Vec<u8>) -> (r: Result<String, MsalError>)
    ensures
        spec_http_success(status) ==> match r {
            Ok(n) => spec_nonce(body@) == Some(n@),
            Err(e) => spec_nonce(body@) is None && e is InvalidJson,
        },
        !spec_http_success(status) ==> match r {
            Ok(_) => false,
            Err(e) => match spec_error_response(body@) {
                Some(er) => e matches MsalError::AcquireTokenFailed(x) && x@ == er,
                None => e is InvalidJson,
            },
        },
{
    if !(200 <= status && status < 300) {
        return Err(classify_error_body(body));
    }
    match parse_json_str_field(body, "Nonce") {
        Some(n) => Ok(n),
        None => Err(MsalError::InvalidJson("Failed parsing nonce response".to_owned())),
    }
}

// ---------------------------------------------------------------------------
// Primary refresh tokens.
// ---------------------------------------------------------------------------

/// Result of the PRT exchange: the refresh token and its expiry, the
/// session key material still in its encrypted form (opaque at this layer),
/// and the identity token string, not decoded further here. These are
/// long-lived device-bound secrets.
#[derive(Clone, Debug)]
pub struct PrimaryRefreshToken {
    pub refresh_token: String,
    pub refresh_token_expires_in: u64,
    pub session_key_jwe: String,
    pub id_token: String,
}

/// Mathematical image of [`PrimaryRefreshToken`].
#[verifier::ext_equal]
pub struct PrimaryRefreshTokenView {
    pub refresh_token: Seq<char>,
    pub refresh_token_expires_in: u64,
    pub session_key_jwe: Seq<char>,
    pub id_token: Seq<char>,
}

impl View for PrimaryRefreshToken {
    type V = PrimaryRefreshTokenView;

    open spec fn view(&self) -> PrimaryRefreshTokenView {
        PrimaryRefreshTokenView {
            refresh_token: self.refresh_token@,
            refresh_token_expires_in: self.refresh_token_expires_in,
            session_key_jwe: self.session_key_jwe@,
            id_token: self.id_token@,
        }
    }
}

/// The PRT shape: refresh token, its expiry, the session key blob and the
/// identity token string, all required.
pub open spec fn spec_primary_refresh_token(b: Seq<u8>) -> Option<PrimaryRefreshTokenView> {
    if spec_json_str_field(b, "refresh_token"@) is Some && spec_json_u64_field(
        b,
        "refresh_token_expires_in"@,
    ) is Some && spec_json_str_field(b, "session_key_jwe"@) is Some && spec_json_str_field(
        b,
        "id_token"@,
    ) is Some {
        Some(
            PrimaryRefreshTokenView {
                refresh_token: spec_json_str_field(b, "refresh_token"@)->Some_0,
                refresh_token_expires_in: spec_json_u64_field(b, "refresh_token_expires_in"@)->Some_0,
                session_key_jwe: spec_json_str_field(b, "session_key_jwe"@)->Some_0,
                id_token: spec_json_str_field(b, "id_token"@)->Some_0,
            },
        )
    } else {
        None
    }
}

/// Interprets a PRT exchange response: a 2xx body must carry the PRT
/// shape; any other status carries the structured error or is invalid.
pub fn parse_prt_response(status: u16, body: &Vec<u8>) -> (r: Result<PrimaryRefreshToken, MsalError>)
    ensures
        spec_http_success(status) ==> match r {
            Ok(t) => spec_primary_refresh_token(body@) == Some(t@),
            Err(e) => spec_primary_refresh_token(body@) is None && e is InvalidJson,
        },
        !spec_http_success(status) ==> match r {
            Ok(_) => false,
            Err(e) => match spec_error_response(body@) {
                Some(er) => e matches MsalError::AcquireTokenFailed(x) && x@ == er,
                None => e is InvalidJson,
            },
        },
{
    if !(200 <= status && status < 300) {
        return Err(classify_error_body(body));
    }
    let refresh_token = match parse_json_str_field(body, "refresh_token") {
        Some(s) => s,
        None => {
            return Err(MsalError::InvalidJson("Failed parsing PRT response".to_owned()));
        },
    };
    let refresh_token_expires_in = match parse_json_u64_field(body, "refresh_token_expires_in") {
        Some(v) => v,
        None => {
            return Err(MsalError::InvalidJson("Failed parsing PRT response".to_owned()));
        },
    };
    let session_key_jwe = match parse_json_str_field(body, "session_key_jwe") {
        Some(s) => s,
        None => {
            return Err(MsalError::InvalidJson("Failed parsing PRT response".to_owned()));
        },
    };
    let id_token = match parse_json_str_field(body, "id_token") {
        Some(s) => s,
        None => {
            return Err(MsalError::InvalidJson("Failed parsing PRT response".to_owned()));
        },
    };
    let t = PrimaryRefreshToken { refresh_token, refresh_token_expires_in, session_key_jwe, id_token };
    proof {
        assert(spec_primary_refresh_token(body@)->Some_0 =~= t@);
    }
    Ok(t)
}

} // verus!
