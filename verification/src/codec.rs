//! Response codec: the two nested encodings found inside token responses.
//! An identity token is a compact three-segment string whose middle segment
//! is base64url JSON; a client-info blob is a whole base64url JSON object
//! carrying a user and a tenant identifier.

use vstd::prelude::*;
use base64::Engine;
use base64::engine::general_purpose::URL_SAFE_NO_PAD;
use crate::error::MsalError;
use crate::wire::str_bytes;
use crate::wire::spec_find_byte;
use crate::wire::lemma_find_byte;
use crate::wire::lemma_find_byte_concat;
use crate::wire::find_byte;
use crate::wire::push_bytes;
use vstd::string::StrSliceExecFns;

verus! {

// ---------------------------------------------------------------------------
// Trusted boundary: base64url, JSON field access, identifier parsing.
// ---------------------------------------------------------------------------

pub uninterp spec fn spec_b64url_decode(s: Seq<u8>) -> Option<Seq<u8>>;

pub uninterp spec fn spec_b64url_encode(b: Seq<u8>) -> Seq<u8>;

/// Relies on base64's `URL_SAFE_NO_PAD` engine: decoding is a function of
/// the input bytes alone, succeeding exactly on well-formed unpadded
/// URL-safe input.
#[verifier::external_body]
fn b64url_decode(s: &Vec<u8>) -> (r: Option<Vec<u8>>)
    ensures
        match r {
            Some(b) => spec_b64url_decode(s@) == Some(b@),
            None => spec_b64url_decode(s@) is None,
        },
{
    URL_SAFE_NO_PAD.decode(s.as_slice()).ok()
}

/// Relies on base64's `URL_SAFE_NO_PAD` engine: encoding is a function of
/// the input alone, its output draws only on the URL-safe alphabet (which
/// holds neither `.` nor a pad), and decoding the output returns the input.
#[verifier::external_body]
fn b64url_encode(b: &Vec<u8>) -> (r: Vec<u8>)
    ensures
        r@ == spec_b64url_encode(b@),
        spec_b64url_decode(r@) == Some(b@),
        forall|i: int| 0 <= i < r@.len() ==> r@[i] != 46u8,
{
    URL_SAFE_NO_PAD.encode(b.as_slice()).into_bytes()
}

pub uninterp spec fn spec_json_str_field(b: Seq<u8>, k: Seq<char>) -> Option<Seq<char>>;

/// Relies on serde_json (`from_slice`, `Value::get`, `Value::as_str`):
/// reading a top-level string field out of a JSON body is a function of the
/// body and the key alone. Returns the value exactly when the body is a
/// JSON object holding a string under that key.
#[verifier::external_body]
pub(crate) fn parse_json_str_field(body: &Vec<u8>, key: &str) -> (r: Option<String>)
    ensures
        match r {
            Some(s) => spec_json_str_field(body@, key@) == Some(s@),
            None => spec_json_str_field(body@, key@) is None,
        },
{
    let v: serde_json::Value = serde_json::from_slice(body.as_slice()).ok()?;
    Some(v.get(key)?.as_str()?.to_string())
}

pub uninterp spec fn spec_json_u64_field(b: Seq<u8>, k: Seq<char>) -> Option<u64>;

/// Relies on serde_json (`from_slice`, `Value::get`, `Value::as_u64`):
/// reading a top-level unsigned integer field out of a JSON body is a
/// function of the body and the key alone.
#[verifier::external_body]
pub(crate) fn parse_json_u64_field(body: &Vec<u8>, key: &str) -> (r: Option<u64>)
    ensures
        match r {
            Some(v) => spec_json_u64_field(body@, key@) == Some(v),
            None => spec_json_u64_field(body@, key@) is None,
        },
{
    let v: serde_json::Value = serde_json::from_slice(body.as_slice()).ok()?;
    v.get(key)?.as_u64()
}

pub uninterp spec fn spec_uuid_parse(s: Seq<char>) -> Option<u128>;

/// Relies on uuid's `Uuid::parse_str` and `Uuid::as_u128`: accepting a
/// canonical identifier string is a function of the characters alone, and
/// the 128-bit value stands for the accepted identifier exactly.
#[verifier::external_body]
fn uuid_parse(s: &str) -> (r: Option<u128>)
    ensures
        match r {
            Some(v) => spec_uuid_parse(s@) == Some(v),
            None => spec_uuid_parse(s@) is None,
        },
{
    uuid::Uuid::parse_str(s).ok().map(|u| u.as_u128())
}

// ---------------------------------------------------------------------------
// Identity-token claims.
// ---------------------------------------------------------------------------

/// Decoded claims of the identity token's payload segment.
#[derive(Clone, Debug)]
pub struct IdToken {
    pub name: String,
    pub oid: String,
    pub preferred_username: String,
    pub puid: Option<String>,
    pub tenant_region_scope: Option<String>,
    pub tid: String,
}

/// Mathematical image of [`IdToken`]: each text field as its characters.
#[verifier::ext_equal]
pub struct IdTokenView {
    pub name: Seq<char>,
    pub oid: Seq<char>,
    pub preferred_username: Seq<char>,
    pub puid: Option<Seq<char>>,
    pub tenant_region_scope: Option<Seq<char>>,
    pub tid: Seq<char>,
}

impl View for IdToken {
    type V = IdTokenView;

    open spec fn view(&self) -> IdTokenView {
        IdTokenView {
            name: self.name@,
            oid: self.oid@,
            preferred_username: self.preferred_username@,
            puid: match self.puid {
                Some(s) => Some(s@),
                None => None,
            },
            tenant_region_scope: match self.tenant_region_scope {
                Some(s) => Some(s@),
                None => None,
            },
            tid: self.tid@,
        }
    }
}

/// The claim set carried by a JSON payload: the four required text claims
/// must be present as strings; the two optional claims are kept when they
/// are present as strings and absent otherwise.
pub open spec fn spec_id_token_claims(b: Seq<u8>) -> Option<IdTokenView> {
    if spec_json_str_field(b, "name"@) is Some && spec_json_str_field(b, "oid"@) is Some
        && spec_json_str_field(b, "preferred_username"@) is Some && spec_json_str_field(
        b,
        "tid"@,
    ) is Some {
        Some(
            IdTokenView {
                name: spec_json_str_field(b, "name"@)->Some_0,
                oid: spec_json_str_field(b, "oid"@)->Some_0,
                preferred_username: spec_json_str_field(b, "preferred_username"@)->Some_0,
                puid: spec_json_str_field(b, "puid"@),
                tenant_region_scope: spec_json_str_field(b, "tenant_region_scope"@),
                tid: spec_json_str_field(b, "tid"@)->Some_0,
            },
        )
    } else {
        None
    }
}

/// Reads the claim set out of decoded payload bytes.
pub fn parse_id_token_claims(b: &Vec<u8>) -> (r: Option<IdToken>)
    ensures
        match r {
            Some(t) => spec_id_token_claims(b@) == Some(t@),
            None => spec_id_token_claims(b@) is None,
        },
{
    let name = match parse_json_str_field(b, "name") {
        Some(s) => s,
        None => {
            return None;
        },
    };
    let oid = match parse_json_str_field(b, "oid") {
        Some(s) => s,
        None => {
            return None;
        },
    };
    let preferred_username = match parse_json_str_field(b, "preferred_username") {
        Some(s) => s,
        None => {
            return None;
        },
    };
    let tid = match parse_json_str_field(b, "tid") {
        Some(s) => s,
        None => {
            return None;
        },
    };
    let puid = parse_json_str_field(b, "puid");
    let tenant_region_scope = parse_json_str_field(b, "tenant_region_scope");
    let t = IdToken { name, oid, preferred_username, puid, tenant_region_scope, tid };
    proof {
        assert(spec_id_token_claims(b@)->Some_0 =~= t@);
    }
    Some(t)
}

// ---------------------------------------------------------------------------
// Token segmentation.
// ---------------------------------------------------------------------------

/// The payload segment of a compact token: the text between the first `.`
/// and the second `.` (or the end when there is no second one). A token
/// without any `.` has no payload segment.
pub open spec fn spec_payload_segment(raw: Seq<u8>) -> Option<Seq<u8>> {
    match spec_find_byte(raw, 46u8) {
        None => None,
        Some(i) => {
            let rest = raw.subrange(i + 1, raw.len() as int);
            match spec_find_byte(rest, 46u8) {
                None => Some(rest),
                Some(j) => Some(rest.subrange(0, j)),
            }
        },
    }
}

/// What decoding an identity token yields: the claim set of the base64url
/// JSON carried in the payload segment, or nothing when any stage rejects.
pub open spec fn spec_decode_id_token(raw: Seq<u8>) -> Option<IdTokenView> {
    match spec_payload_segment(raw) {
        None => None,
        Some(seg) => match spec_b64url_decode(seg) {
            None => None,
            Some(json) => spec_id_token_claims(json),
        },
    }
}

/// Copies `v[from..to]` into a fresh vector.
fn sub_vec(v: &Vec<u8>, from: usize, to: usize) -> (r: Vec<u8>)
    requires
        from <= to <= v@.len(),
    ensures
        r@ == v@.subrange(from as int, to as int),
{
    let mut r: Vec<u8> = Vec::new();
    let mut i: usize = from;
    while i < to
        invariant
            from <= i <= to <= v@.len(),
            r@ =~= v@.subrange(from as int, i as int),
        decreases to - i,
    {
        r.push(v[i]);
        i += 1;
        proof {
            assert(r@ =~= v@.subrange(from as int, i as int));
        }
    }
    r
}

/// Extracts the payload segment, as [`spec_payload_segment`] describes it.
pub fn payload_segment(bytes: &Vec<u8>) -> (r: Option<Vec<u8>>)
    ensures
        match r {
            Some(s) => spec_payload_segment(bytes@) == Some(s@),
            None => spec_payload_segment(bytes@) is None,
        },
{
    let i = match find_byte(bytes, 46u8) {
        Some(i) => i,
        None => {
            return None;
        },
    };
    proof {
        lemma_find_byte(bytes@, 46u8);
    }
    let n = bytes.len();
    let rest = sub_vec(bytes, i + 1, n);
    match find_byte(&rest, 46u8) {
        None => Some(rest),
        Some(j) => {
            proof {
                lemma_find_byte(rest@, 46u8);
            }
            Some(sub_vec(&rest, 0, j))
        },
    }
}

// ---------------------------------------------------------------------------
// Public decoders.
// ---------------------------------------------------------------------------

/// Decodes the claims of a compact identity token: splits on `.`, base64url-
/// decodes the payload segment without padding, and reads the claim set out
/// of the decoded JSON. No signature verification happens at this layer.
pub fn decode_id_token(raw: &str) -> (r: Result<IdToken, MsalError>)
    ensures
        match r {
            Ok(t) => spec_decode_id_token(str_bytes(raw@)) == Some(t@),
            Err(e) => spec_decode_id_token(str_bytes(raw@)) is None && e is InvalidJson,
        },
{
    let bytes = raw.as_bytes_vec();
    let seg = match payload_segment(&bytes) {
        Some(s) => s,
        None => {
            return Err(MsalError::InvalidJson("Failed parsing id_token payload".to_owned()));
        },
    };
    let json = match b64url_decode(&seg) {
        Some(b) => b,
        None => {
            return Err(MsalError::InvalidJson("Failed parsing id_token".to_owned()));
        },
    };
    match parse_id_token_claims(&json) {
        Some(t) => Ok(t),
        None => Err(MsalError::InvalidJson("Failed parsing id_token from json".to_owned())),
    }
}

/// A token without any `.` has fewer than two segments: decoding it always
/// fails, and never yields partial claims.
pub proof fn lemma_undotted_token_fails(raw: Seq<u8>)
    requires
        forall|j: int| 0 <= j < raw.len() ==> raw[j] != 46u8,
    ensures
        spec_decode_id_token(raw) is None,
{
    lemma_find_byte(raw, 46u8);
}

/// Directory-level `{uid, utid}` pair identifying the user and the tenant,
/// each as the 128-bit value of its canonical identifier. Absent when the
/// response omits the blob.
#[derive(Clone, Debug)]
pub struct ClientInfo {
    pub uid: Option<u128>,
    pub utid: Option<u128>,
}

impl Default for ClientInfo {
    /// The default pair carries no identifiers.
    fn default() -> (r: Self)
        ensures
            r.uid is None && r.utid is None,
    {
        ClientInfo { uid: None, utid: None }
    }
}

/// What decoding a client-info blob yields: base64url JSON whose `uid` and
/// `utid` fields must both be present and parse as identifiers; there is no
/// partial-success state.
pub open spec fn spec_decode_client_info(raw: Seq<u8>) -> Option<ClientInfo> {
    match spec_b64url_decode(raw) {
        None => None,
        Some(json) => {
            if spec_json_str_field(json, "uid"@) is Some && spec_json_str_field(
                json,
                "utid"@,
            ) is Some && spec_uuid_parse(spec_json_str_field(json, "uid"@)->Some_0) is Some
                && spec_uuid_parse(spec_json_str_field(json, "utid"@)->Some_0) is Some {
                Some(
                    ClientInfo {
                        uid: spec_uuid_parse(spec_json_str_field(json, "uid"@)->Some_0),
                        utid: spec_uuid_parse(spec_json_str_field(json, "utid"@)->Some_0),
                    },
                )
            } else {
                None
            }
        },
    }
}

/// Decodes a client-info blob: base64url-decodes the whole string without
/// padding, parses it as JSON, and parses the `uid` and `utid` fields as
/// canonical identifiers. Fails when either field is missing or malformed.
pub fn decode_client_info(raw: &str) -> (r: Result<ClientInfo, MsalError>)
    ensures
        match r {
            Ok(c) => spec_decode_client_info(str_bytes(raw@)) == Some(c),
            Err(e) => spec_decode_client_info(str_bytes(raw@)) is None && e is InvalidJson,
        },
{
    let bytes = raw.as_bytes_vec();
    let json = match b64url_decode(&bytes) {
        Some(b) => b,
        None => {
            return Err(MsalError::InvalidJson("Failed parsing client_info".to_owned()));
        },
    };
    let uid_str = match parse_json_str_field(&json, "uid") {
        Some(s) => s,
        None => {
            return Err(MsalError::InvalidJson("Failed parsing client_info".to_owned()));
        },
    };
    let utid_str = match parse_json_str_field(&json, "utid") {
        Some(s) => s,
        None => {
            return Err(MsalError::InvalidJson("Failed parsing client_info".to_owned()));
        },
    };
    let uid = match uuid_parse(uid_str.as_str()) {
        Some(v) => v,
        None => {
            return Err(MsalError::InvalidJson("Failed parsing client_info".to_owned()));
        },
    };
    let utid = match uuid_parse(utid_str.as_str()) {
        Some(v) => v,
        None => {
            return Err(MsalError::InvalidJson("Failed parsing client_info".to_owned()));
        },
    };
    Ok(ClientInfo { uid: Some(uid), utid: Some(utid) })
}

// ---------------------------------------------------------------------------
// Round-trip stability of the payload segment.
// ---------------------------------------------------------------------------

/// Re-encodes the payload segment of a token: decodes the segment, encodes
/// those bytes afresh, and rebuilds a token around the new segment. The
/// rebuilt token decodes to the identical claim set as the input — the
/// embedded JSON survives a decode/encode/decode round trip unchanged.
pub fn reencode_id_token(raw: &str) -> (r: Option<Vec<u8>>)
    ensures
        match r {
            Some(t) => spec_decode_id_token(t@) == spec_decode_id_token(str_bytes(raw@)),
            None => spec_decode_id_token(str_bytes(raw@)) is None,
        },
{
    let bytes = raw.as_bytes_vec();
    let i = match find_byte(&bytes, 46u8) {
        Some(i) => i,
        None => {
            return None;
        },
    };
    proof {
        lemma_find_byte(bytes@, 46u8);
    }
    let seg = match payload_segment(&bytes) {
        Some(s) => s,
        None => {
            return None;
        },
    };
    let payload = match b64url_decode(&seg) {
        Some(b) => b,
        None => {
            return None;
        },
    };
    let enc = b64url_encode(&payload);
    let header = sub_vec(&bytes, 0, i);
    let mut t = header;
    t.push(46u8);
    push_bytes(&mut t, &enc);
    proof {
        let hs = bytes@.subrange(0, i as int);
        assert(t@ =~= hs + (seq![46u8] + enc@));
        lemma_find_byte(hs, 46u8);
        lemma_find_byte_concat(hs, seq![46u8] + enc@, 46u8);
        assert((seq![46u8] + enc@)[0] == 46u8);
        assert(spec_find_byte(seq![46u8] + enc@, 46u8) == Some(0int));
        assert(spec_find_byte(t@, 46u8) == Some(i as int));
        assert(t@.subrange(i + 1, t@.len() as int) =~= enc@);
        lemma_find_byte(enc@, 46u8);
        assert(spec_find_byte(enc@, 46u8) is None);
        assert(spec_payload_segment(t@) == Some(enc@));
    }
    Some(t)
}

} // verus!
