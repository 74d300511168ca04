//! Primary Refresh Token protocol material: the two unsigned JWT payload
//! shapes, built byte-exactly with verified JSON string escaping. The
//! signing of a payload is a hardware capability outside this crate; the
//! nonce request and the final exchange request are built in the client
//! module, and the exchange response is parsed in the token module.

use vstd::prelude::*;
use crate::wire::str_bytes;
use crate::wire::push_str_bytes;
use vstd::string::StrSliceExecFns;
use vstd::string::StringExecFns;

verus! {

/// The fixed, well-known broker application identifier every PRT payload
/// carries as its `client_id`: a protocol constant of the remote authority,
/// not configuration.
pub open spec fn spec_broker_client_id() -> Seq<char> {
    "38aa3b87-a06d-4817-b275-7a316988d93b"@
}

/// The broker application identifier, as text.
pub fn broker_client_id() -> (r: &'static str)
    ensures
        r@ == spec_broker_client_id(),
{
    "38aa3b87-a06d-4817-b275-7a316988d93b"
}

/// The fixed device-registration-service application identifier, used to
/// shape the device-enrollment scope.
pub open spec fn spec_drs_app_id() -> Seq<char> {
    "01cb2876-7ebd-4aa4-9cc9-d28bd4d359a9"@
}

/// The device-registration-service application identifier, as text.
pub fn drs_app_id() -> (r: &'static str)
    ensures
        r@ == spec_drs_app_id(),
{
    "01cb2876-7ebd-4aa4-9cc9-d28bd4d359a9"
}

// ---------------------------------------------------------------------------
// JSON string escaping.
// ---------------------------------------------------------------------------

/// The lower-case hex digit for a value below sixteen.
pub open spec fn spec_hex_digit(d: u8) -> u8 {
    if d < 10 {
        (48 + d) as u8
    } else {
        (87 + d) as u8
    }
}

/// How one byte appears inside a JSON string: quote and backslash get a
/// backslash escape, control bytes a `\u00..` escape, anything else stands
/// as itself.
pub open spec fn spec_json_escape_byte(b: u8) -> Seq<u8> {
    if b == 34 {
        seq![92u8, 34u8]
    } else if b == 92 {
        seq![92u8, 92u8]
    } else if b < 32 {
        seq![92u8, 117u8, 48u8, 48u8, spec_hex_digit(b / 16), spec_hex_digit(b % 16)]
    } else {
        seq![b]
    }
}

/// A byte sequence escaped for use inside a JSON string literal.
pub open spec fn spec_json_escape(s: Seq<u8>) -> Seq<u8>
    decreases s.len(),
{
    if s.len() == 0 {
        Seq::empty()
    } else {
        spec_json_escape_byte(s[0]) + spec_json_escape(s.drop_first())
    }
}

proof fn lemma_json_escape_push(s: Seq<u8>, x: u8)
    ensures
        spec_json_escape(s.push(x)) == spec_json_escape(s) + spec_json_escape_byte(x),
    decreases s.len(),
{
    if s.len() == 0 {
        assert(s.push(x).drop_first() =~= s);
        assert(spec_json_escape(s.push(x)) =~= spec_json_escape(s) + spec_json_escape_byte(x));
    } else {
        assert(s.push(x).drop_first() =~= s.drop_first().push(x));
        lemma_json_escape_push(s.drop_first(), x);
        assert(spec_json_escape(s.push(x)) =~= spec_json_escape(s) + spec_json_escape_byte(x));
    }
}

/// Appends `s` to `out`, escaped for use inside a JSON string literal.
pub fn push_json_escaped(out: &mut Vec<u8>, s: &Vec<u8>)
    ensures
        final(out)@ == old(out)@ + spec_json_escape(s@),
{
    let n = s.len();
    let mut i: usize = 0;
    while i < n
        invariant
            0 <= i <= n == s@.len(),
            out@ == old(out)@ + spec_json_escape(s@.take(i as int)),
        decreases n - i,
    {
        let b = s[i];
        if b == 34 {
            out.push(92);
            out.push(34);
        } else if b == 92 {
            out.push(92);
            out.push(92);
        } else if b < 32 {
            out.push(92);
            out.push(117);
            out.push(48);
            out.push(48);
            let hi = b / 16;
            let lo = b % 16;
            out.push(if hi < 10 { 48 + hi } else { 87 + hi });
            out.push(if lo < 10 { 48 + lo } else { 87 + lo });
        } else {
            out.push(b);
        }
        i += 1;
        proof {
            lemma_json_escape_push(s@.take(i - 1), s@[i - 1]);
            assert(s@.take(i - 1).push(s@[i - 1]) =~= s@.take(i as int));
            assert(out@ =~= old(out)@ + spec_json_escape(s@.take(i as int)));
        }
    }
    proof {
        assert(s@.take(n as int) =~= s@);
    }
}

// ---------------------------------------------------------------------------
// Unescaping, and why escaping loses nothing.
// ---------------------------------------------------------------------------

/// The value of a lower-case hex digit byte.
pub open spec fn spec_unhex(b: u8) -> u8 {
    if b < 58 {
        (b - 48) as u8
    } else {
        (b - 87) as u8
    }
}

/// Reads an escaped JSON string body back into the bytes it stands for.
pub open spec fn spec_json_unescape(s: Seq<u8>) -> Option<Seq<u8>>
    decreases s.len(),
{
    if s.len() == 0 {
        Some(Seq::empty())
    } else if s[0] == 92 {
        if s.len() >= 2 && s[1] == 34 {
            match spec_json_unescape(s.skip(2)) {
                Some(r) => Some(seq![34u8] + r),
                None => None,
            }
        } else if s.len() >= 2 && s[1] == 92 {
            match spec_json_unescape(s.skip(2)) {
                Some(r) => Some(seq![92u8] + r),
                None => None,
            }
        } else if s.len() >= 6 && s[1] == 117 {
            match spec_json_unescape(s.skip(6)) {
                Some(r) => Some(seq![(16 * spec_unhex(s[4]) + spec_unhex(s[5])) as u8] + r),
                None => None,
            }
        } else {
            None
        }
    } else {
        match spec_json_unescape(s.drop_first()) {
            Some(r) => Some(seq![s[0]] + r),
            None => None,
        }
    }
}

/// Escaping loses nothing: unescaping an escaped sequence returns it.
/// In particular, two distinct sequences never escape to the same bytes.
pub proof fn lemma_json_escape_lossless(s: Seq<u8>)
    ensures
        spec_json_unescape(spec_json_escape(s)) == Some(s),
    decreases s.len(),
{
    if s.len() == 0 {
        return ;
    }
    let b = s[0];
    let e = spec_json_escape(s);
    lemma_json_escape_lossless(s.drop_first());
    if b == 34 {
        assert(e.skip(2) =~= spec_json_escape(s.drop_first()));
        assert(spec_json_unescape(e)->Some_0 =~= s);
    } else if b == 92 {
        assert(e.skip(2) =~= spec_json_escape(s.drop_first()));
        assert(spec_json_unescape(e)->Some_0 =~= s);
    } else if b < 32 {
        assert(e.skip(6) =~= spec_json_escape(s.drop_first()));
        assert(e[4] == spec_hex_digit(b / 16) && e[5] == spec_hex_digit(b % 16));
        assert(spec_unhex(spec_hex_digit(b / 16)) == b / 16);
        assert(spec_unhex(spec_hex_digit(b % 16)) == b % 16);
        assert(16 * (b / 16) + b % 16 == b);
        assert(spec_json_unescape(e)->Some_0 =~= s);
    } else {
        assert(e.drop_first() =~= spec_json_escape(s.drop_first()));
        assert(spec_json_unescape(e)->Some_0 =~= s);
    }
}

// ---------------------------------------------------------------------------
// The two payload shapes.
// ---------------------------------------------------------------------------

/// The view of an optional string.
pub open spec fn spec_opt_str_view(w: Option<String>) -> Option<Seq<char>> {
    match w {
        Some(s) => Some(s@),
        None => None,
    }
}

/// The part both payloads open with: the fixed broker client id, the fresh
/// nonce, and the fixed PRT scope.
pub open spec fn spec_prt_payload_head(nonce: Seq<char>) -> Seq<u8> {
    str_bytes("{\"client_id\":\""@) + str_bytes(spec_broker_client_id()) + str_bytes(
        "\",\"request_nonce\":\""@,
    ) + spec_json_escape(str_bytes(nonce)) + str_bytes("\",\"scope\":\"openid aza ugs\""@)
}

/// The optional OS description: present as a `win_ver` field when the
/// collaborator supplied one, and simply omitted otherwise.
pub open spec fn spec_win_ver_part(win_ver: Option<Seq<char>>) -> Seq<u8> {
    match win_ver {
        None => Seq::empty(),
        Some(w) => str_bytes(",\"win_ver\":\""@) + spec_json_escape(str_bytes(w)) + str_bytes(
            "\""@,
        ),
    }
}

/// The unsigned payload of a username/password PRT assertion. Every field
/// other than `win_ver` is present for every input; the nonce and the
/// credentials appear escaped, exactly once, in this order.
pub open spec fn spec_username_password_prt_payload(
    username: Seq<char>,
    password: Seq<char>,
    nonce: Seq<char>,
    win_ver: Option<Seq<char>>,
) -> Seq<u8> {
    spec_prt_payload_head(nonce) + spec_win_ver_part(win_ver) + str_bytes(
        ",\"grant_type\":\"password\",\"username\":\""@,
    ) + spec_json_escape(str_bytes(username)) + str_bytes("\",\"password\":\""@) + spec_json_escape(
        str_bytes(password),
    ) + str_bytes("\"}"@)
}

/// The unsigned payload of a refresh-token PRT assertion.
pub open spec fn spec_refresh_token_prt_payload(
    refresh_token: Seq<char>,
    nonce: Seq<char>,
    win_ver: Option<Seq<char>>,
) -> Seq<u8> {
    spec_prt_payload_head(nonce) + spec_win_ver_part(win_ver) + str_bytes(
        ",\"grant_type\":\"refresh_token\",\"refresh_token\":\""@,
    ) + spec_json_escape(str_bytes(refresh_token)) + str_bytes("\"}"@)
}

/// Appends the opening both payloads share.
fn push_payload_head(out: &mut Vec<u8>, nonce: &str)
    ensures
        final(out)@ == old(out)@ + spec_prt_payload_head(nonce@),
{
    push_str_bytes(out, "{\"client_id\":\"");
    push_str_bytes(out, broker_client_id());
    push_str_bytes(out, "\",\"request_nonce\":\"");
    let nb = nonce.as_bytes_vec();
    push_json_escaped(out, &nb);
    push_str_bytes(out, "\",\"scope\":\"openid aza ugs\"");
    proof {
        assert(out@ =~= old(out)@ + spec_prt_payload_head(nonce@));
    }
}

/// Appends the `win_ver` field when an OS description is available.
fn push_win_ver(out: &mut Vec<u8>, win_ver: &Option<String>)
    ensures
        final(out)@ == old(out)@ + spec_win_ver_part(spec_opt_str_view(*win_ver)),
{
    match win_ver {
        None => {
            proof {
                assert(out@ =~= old(out)@ + spec_win_ver_part(None));
            }
        },
        Some(w) => {
            push_str_bytes(out, ",\"win_ver\":\"");
            let wb = w.as_str().as_bytes_vec();
            push_json_escaped(out, &wb);
            push_str_bytes(out, "\"");
            proof {
                assert(out@ =~= old(out)@ + spec_win_ver_part(Some(w@)));
            }
        },
    }
}

/// Builds the unsigned username/password PRT payload, byte-exactly: fixed
/// broker client id, the supplied nonce, the fixed scope, the OS
/// description when available (omitted otherwise), grant type `password`,
/// and the credentials.
pub fn username_password_prt_payload(
    username: &str,
    password: &str,
    nonce: &str,
    win_ver: &Option<String>,
) -> (r: Vec<u8>)
    ensures
        r@ == spec_username_password_prt_payload(
            username@,
            password@,
            nonce@,
            spec_opt_str_view(*win_ver),
        ),
{
    let mut out: Vec<u8> = Vec::new();
    push_payload_head(&mut out, nonce);
    push_win_ver(&mut out, win_ver);
    push_str_bytes(&mut out, ",\"grant_type\":\"password\",\"username\":\"");
    let ub = username.as_bytes_vec();
    push_json_escaped(&mut out, &ub);
    push_str_bytes(&mut out, "\",\"password\":\"");
    let pb = password.as_bytes_vec();
    push_json_escaped(&mut out, &pb);
    push_str_bytes(&mut out, "\"}");
    proof {
        assert(out@ =~= spec_username_password_prt_payload(
            username@,
            password@,
            nonce@,
            spec_opt_str_view(*win_ver),
        ));
    }
    out
}

/// Builds the unsigned refresh-token PRT payload, byte-exactly.
pub fn refresh_token_prt_payload(refresh_token: &str, nonce: &str, win_ver: &Option<String>) -> (r:
    Vec<u8>)
    ensures
        r@ == spec_refresh_token_prt_payload(refresh_token@, nonce@, spec_opt_str_view(*win_ver)),
{
    let mut out: Vec<u8> = Vec::new();
    push_payload_head(&mut out, nonce);
    push_win_ver(&mut out, win_ver);
    push_str_bytes(&mut out, ",\"grant_type\":\"refresh_token\",\"refresh_token\":\"");
    let rb = refresh_token.as_bytes_vec();
    push_json_escaped(&mut out, &rb);
    push_str_bytes(&mut out, "\"}");
    proof {
        assert(out@ =~= spec_refresh_token_prt_payload(
            refresh_token@,
            nonce@,
            spec_opt_str_view(*win_ver),
        ));
    }
    out
}

/// A payload embeds the nonce of its own attempt faithfully: with every
/// other input equal, distinct nonces yield distinct username/password
/// payloads. Two attempts in sequence each fetch a fresh nonce, so their
/// assertions are never byte-identical, and a signed assertion cannot be
/// replayed under the other attempt's nonce.
pub proof fn lemma_username_password_payload_nonce_injective(
    username: Seq<char>,
    password: Seq<char>,
    n1: Seq<char>,
    n2: Seq<char>,
    win_ver: Option<Seq<char>>,
)
    requires
        n1 != n2,
    ensures
        spec_username_password_prt_payload(username, password, n1, win_ver)
            != spec_username_password_prt_payload(username, password, n2, win_ver),
{
    let p = str_bytes("{\"client_id\":\""@) + str_bytes(spec_broker_client_id()) + str_bytes(
        "\",\"request_nonce\":\""@,
    );
    let s = str_bytes("\",\"scope\":\"openid aza ugs\""@) + spec_win_ver_part(win_ver) + str_bytes(
        ",\"grant_type\":\"password\",\"username\":\""@,
    ) + spec_json_escape(str_bytes(username)) + str_bytes("\",\"password\":\""@)
        + spec_json_escape(str_bytes(password)) + str_bytes("\"}"@);
    let e1 = spec_json_escape(str_bytes(n1));
    let e2 = spec_json_escape(str_bytes(n2));
    let x1 = spec_username_password_prt_payload(username, password, n1, win_ver);
    let x2 = spec_username_password_prt_payload(username, password, n2, win_ver);
    assert(x1 =~= p + e1 + s);
    assert(x2 =~= p + e2 + s);
    lemma_embedded_part_determined(p, e1, e2, s);
    if x1 == x2 {
        lemma_json_escape_lossless(str_bytes(n1));
        lemma_json_escape_lossless(str_bytes(n2));
        vstd::utf8::encode_utf8_decode_utf8(n1);
        vstd::utf8::encode_utf8_decode_utf8(n2);
        assert(false);
    }
}

/// The same, for refresh-token payloads.
pub proof fn lemma_refresh_token_payload_nonce_injective(
    refresh_token: Seq<char>,
    n1: Seq<char>,
    n2: Seq<char>,
    win_ver: Option<Seq<char>>,
)
    requires
        n1 != n2,
    ensures
        spec_refresh_token_prt_payload(refresh_token, n1, win_ver)
            != spec_refresh_token_prt_payload(refresh_token, n2, win_ver),
{
    let p = str_bytes("{\"client_id\":\""@) + str_bytes(spec_broker_client_id()) + str_bytes(
        "\",\"request_nonce\":\""@,
    );
    let s = str_bytes("\",\"scope\":\"openid aza ugs\""@) + spec_win_ver_part(win_ver) + str_bytes(
        ",\"grant_type\":\"refresh_token\",\"refresh_token\":\""@,
    ) + spec_json_escape(str_bytes(refresh_token)) + str_bytes("\"}"@);
    let e1 = spec_json_escape(str_bytes(n1));
    let e2 = spec_json_escape(str_bytes(n2));
    let x1 = spec_refresh_token_prt_payload(refresh_token, n1, win_ver);
    let x2 = spec_refresh_token_prt_payload(refresh_token, n2, win_ver);
    assert(x1 =~= p + e1 + s);
    assert(x2 =~= p + e2 + s);
    lemma_embedded_part_determined(p, e1, e2, s);
    if x1 == x2 {
        lemma_json_escape_lossless(str_bytes(n1));
        lemma_json_escape_lossless(str_bytes(n2));
        vstd::utf8::encode_utf8_decode_utf8(n1);
        vstd::utf8::encode_utf8_decode_utf8(n2);
        assert(false);
    }
}

/// A part framed by a common prefix and suffix is determined by the whole.
proof fn lemma_embedded_part_determined(p: Seq<u8>, e1: Seq<u8>, e2: Seq<u8>, s: Seq<u8>)
    ensures
        p + e1 + s == p + e2 + s ==> e1 == e2,
{
    if p + e1 + s == p + e2 + s {
        assert((p + e1 + s).len() == p.len() + e1.len() + s.len());
        assert((p + e2 + s).len() == p.len() + e2.len() + s.len());
        assert(e1.len() == e2.len());
        assert(forall|k: int|
            0 <= k < e1.len() ==> e1[k] == (p + e1 + s)[p.len() + k] && e2[k] == (p + e2 + s)[p.len()
                + k]);
        assert(e1 =~= e2);
    }
}

/// The OS description handed to the payload builders: the release's pretty
/// name and version, space-separated.
pub fn os_version_string(pretty_name: &str, version_id: &str) -> (r: String)
    ensures
        r@ == pretty_name@ + " "@ + version_id@,
{
    let mut s = String::new();
    s.append(pretty_name);
    s.append(" ");
    s.append(version_id);
    proof {
        assert(s@ =~= pretty_name@ + " "@ + version_id@);
    }
    s
}

} // verus!
