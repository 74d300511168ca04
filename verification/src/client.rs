//! The token endpoint client: the read-only configuration shared across
//! calls, and the exact request each grant flow issues. Every builder pins
//! the URL and the form-encoded body down to the byte; the transport that
//! carries a built request lives outside this crate.

use vstd::prelude::*;
use crate::form::build_scopes;
use crate::form::push_encoded_field;
use crate::form::spec_scopes_joined;
use crate::form::spec_url_encode;
use crate::form::views_of;
use crate::prt::drs_app_id;
use crate::prt::spec_drs_app_id;
use crate::token::DeviceAuthorizationResponse;
use crate::wire::push_str_bytes;
use crate::wire::str_bytes;
use vstd::string::StrSliceExecFns;
use vstd::string::StringExecFns;

verus! {

/// One prepared HTTP POST against the authority: where to send it, and the
/// body to send as `application/x-www-form-urlencoded` content.
pub struct TokenRequest {
    pub url: String,
    pub body: Vec<u8>,
}

/// The token endpoint client. Its configuration is read-only after
/// construction, so one value may serve any number of concurrent calls;
/// all per-call state is local to each builder.
pub struct PublicClientApplication {
    pub client_id: String,
    pub tenant_id: String,
    pub authority_host: String,
}

/// The tenant-scoped token endpoint of the current protocol version.
pub open spec fn spec_token_endpoint(host: Seq<char>, tenant: Seq<char>) -> Seq<char> {
    "https://"@ + host + "/"@ + tenant + "/oauth2/v2.0/token"@
}

/// The tenant-scoped device-code issuance endpoint.
pub open spec fn spec_devicecode_endpoint(host: Seq<char>, tenant: Seq<char>) -> Seq<char> {
    "https://"@ + host + "/"@ + tenant + "/oauth2/v2.0/devicecode"@
}

/// The untenanted endpoint answering nonce challenges.
pub open spec fn spec_nonce_endpoint(host: Seq<char>) -> Seq<char> {
    "https://"@ + host + "/common/oauth2/token"@
}

/// The tenant-scoped legacy endpoint serving the PRT exchange.
pub open spec fn spec_legacy_token_endpoint(host: Seq<char>, tenant: Seq<char>) -> Seq<char> {
    "https://"@ + host + "/"@ + tenant + "/oauth2/token"@
}

/// The body of a password-grant request: the configured client id, the
/// joined scopes, the credentials, the `password` grant type, and the
/// request for a client-info blob, in this order, values percent-encoded.
pub open spec fn spec_username_password_body(
    client_id: Seq<char>,
    scopes: Seq<Seq<char>>,
    username: Seq<char>,
    password: Seq<char>,
) -> Seq<u8> {
    str_bytes("client_id="@) + spec_url_encode(str_bytes(client_id)) + str_bytes("&scope="@)
        + spec_url_encode(spec_scopes_joined(scopes)) + str_bytes("&username="@) + spec_url_encode(
        str_bytes(username),
    ) + str_bytes("&password="@) + spec_url_encode(str_bytes(password)) + str_bytes("&grant_type="@)
        + spec_url_encode(str_bytes("password"@)) + str_bytes("&client_info="@) + spec_url_encode(
        str_bytes("1"@),
    )
}

/// The body of a device-flow initiation request.
pub open spec fn spec_device_flow_init_body(client_id: Seq<char>, scopes: Seq<Seq<char>>) -> Seq<
    u8,
> {
    str_bytes("client_id="@) + spec_url_encode(str_bytes(client_id)) + str_bytes("&scope="@)
        + spec_url_encode(spec_scopes_joined(scopes))
}

/// The body of one device-code polling exchange.
pub open spec fn spec_device_flow_poll_body(client_id: Seq<char>, device_code: Seq<char>) -> Seq<
    u8,
> {
    str_bytes("client_id="@) + spec_url_encode(str_bytes(client_id)) + str_bytes("&grant_type="@)
        + spec_url_encode(str_bytes("urn:ietf:params:oauth:grant-type:device_code"@)) + str_bytes(
        "&device_code="@,
    ) + spec_url_encode(str_bytes(device_code))
}

/// The body of a silent (refresh-token) grant request.
pub open spec fn spec_refresh_token_body(
    client_id: Seq<char>,
    scopes: Seq<Seq<char>>,
    refresh_token: Seq<char>,
) -> Seq<u8> {
    str_bytes("client_id="@) + spec_url_encode(str_bytes(client_id)) + str_bytes("&scope="@)
        + spec_url_encode(spec_scopes_joined(scopes)) + str_bytes("&grant_type="@)
        + spec_url_encode(str_bytes("refresh_token"@)) + str_bytes("&refresh_token="@)
        + spec_url_encode(str_bytes(refresh_token)) + str_bytes("&client_info="@)
        + spec_url_encode(str_bytes("1"@))
}

/// The body of a nonce challenge: a bare `srv_challenge` grant.
pub open spec fn spec_nonce_body() -> Seq<u8> {
    str_bytes("grant_type=srv_challenge"@)
}

/// The body of the final PRT exchange: the protocol version, the
/// jwt-bearer grant type, the signed assertion, the request for a
/// client-info blob and for a ticket, in this order, sent as-is.
pub open spec fn spec_prt_exchange_body(signed_jwt: Seq<char>) -> Seq<u8> {
    str_bytes(
        "windows_api_version=2.0&grant_type=urn:ietf:params:oauth:grant-type:jwt-bearer&request="@,
    ) + str_bytes(signed_jwt) + str_bytes("&client_info=1&tgt=true"@)
}

impl PublicClientApplication {
    /// A client configured for one application, tenant and authority host.
    pub fn new(client_id: &str, tenant_id: &str, authority_host: &str) -> (r: Self)
        ensures
            r.client_id@ == client_id@,
            r.tenant_id@ == tenant_id@,
            r.authority_host@ == authority_host@,
    {
        PublicClientApplication {
            client_id: client_id.to_owned(),
            tenant_id: tenant_id.to_owned(),
            authority_host: authority_host.to_owned(),
        }
    }

    /// `https://` + host + `/` + tenant + suffix.
    fn tenant_url(&self, suffix: &str) -> (r: String)
        ensures
            r@ == "https://"@ + self.authority_host@ + "/"@ + self.tenant_id@ + suffix@,
    {
        let mut url = String::new();
        url.append("https://");
        url.append(self.authority_host.as_str());
        url.append("/");
        url.append(self.tenant_id.as_str());
        url.append(suffix);
        proof {
            assert(url@ =~= "https://"@ + self.authority_host@ + "/"@ + self.tenant_id@ + suffix@);
        }
        url
    }

    /// The request a password grant issues: the v2 token endpoint, with
    /// credentials, scopes and grant type form-encoded as
    /// [`spec_username_password_body`] states.
    pub fn username_password_token_request(
        &self,
        username: &str,
        password: &str,
        scopes: &Vec<String>,
    ) -> (r: TokenRequest)
        ensures
            r.url@ == spec_token_endpoint(self.authority_host@, self.tenant_id@),
            r.body@ == spec_username_password_body(
                self.client_id@,
                views_of(scopes@),
                username@,
                password@,
            ),
    {
        let url = self.tenant_url("/oauth2/v2.0/token");
        let mut body: Vec<u8> = Vec::new();
        push_encoded_field(&mut body, "client_id=", &self.client_id.as_str().as_bytes_vec());
        push_encoded_field(&mut body, "&scope=", &build_scopes(scopes));
        push_encoded_field(&mut body, "&username=", &username.as_bytes_vec());
        push_encoded_field(&mut body, "&password=", &password.as_bytes_vec());
        push_encoded_field(&mut body, "&grant_type=", &"password".as_bytes_vec());
        push_encoded_field(&mut body, "&client_info=", &"1".as_bytes_vec());
        proof {
            assert(body@ =~= spec_username_password_body(
                self.client_id@,
                views_of(scopes@),
                username@,
                password@,
            ));
        }
        TokenRequest { url, body }
    }

    /// The request used to enroll a device: a password grant whose one
    /// scope is the device-registration service's default scope.
    pub fn device_enrollment_token_request(&self, username: &str, password: &str) -> (r:
        TokenRequest)
        ensures
            r.url@ == spec_token_endpoint(self.authority_host@, self.tenant_id@),
            r.body@ == spec_username_password_body(
                self.client_id@,
                seq![spec_drs_app_id() + "/.default"@],
                username@,
                password@,
            ),
    {
        let mut drs_scope = String::new();
        drs_scope.append(drs_app_id());
        drs_scope.append("/.default");
        let scopes: Vec<String> = vec![drs_scope];
        let r = self.username_password_token_request(username, password, &scopes);
        proof {
            assert(views_of(scopes@) =~= seq![spec_drs_app_id() + "/.default"@]);
        }
        r
    }

    /// The request that initiates a device flow, against the device-code
    /// issuance endpoint.
    pub fn device_flow_init_request(&self, scopes: &Vec<String>) -> (r: TokenRequest)
        ensures
            r.url@ == spec_devicecode_endpoint(self.authority_host@, self.tenant_id@),
            r.body@ == spec_device_flow_init_body(self.client_id@, views_of(scopes@)),
    {
        let url = self.tenant_url("/oauth2/v2.0/devicecode");
        let mut body: Vec<u8> = Vec::new();
        push_encoded_field(&mut body, "client_id=", &self.client_id.as_str().as_bytes_vec());
        push_encoded_field(&mut body, "&scope=", &build_scopes(scopes));
        proof {
            assert(body@ =~= spec_device_flow_init_body(self.client_id@, views_of(scopes@)));
        }
        TokenRequest { url, body }
    }

    /// The request of one device-code polling exchange: the stored device
    /// code is read, never consumed, so the same authorization response
    /// can seed any number of subsequent polls. Pacing against the
    /// advertised interval and expiry is the caller's concern.
    pub fn device_flow_poll_request(&self, flow: &DeviceAuthorizationResponse) -> (r: TokenRequest)
        ensures
            r.url@ == spec_token_endpoint(self.authority_host@, self.tenant_id@),
            r.body@ == spec_device_flow_poll_body(self.client_id@, flow.spec_device_code()),
    {
        let url = self.tenant_url("/oauth2/v2.0/token");
        let mut body: Vec<u8> = Vec::new();
        push_encoded_field(&mut body, "client_id=", &self.client_id.as_str().as_bytes_vec());
        push_encoded_field(
            &mut body,
            "&grant_type=",
            &"urn:ietf:params:oauth:grant-type:device_code".as_bytes_vec(),
        );
        push_encoded_field(&mut body, "&device_code=", &flow.device_code().as_str().as_bytes_vec());
        proof {
            assert(body@ =~= spec_device_flow_poll_body(self.client_id@, flow.spec_device_code()));
        }
        TokenRequest { url, body }
    }

    /// The request a silent grant issues: the v2 token endpoint, with the
    /// supplied refresh token and the joined scopes.
    pub fn refresh_token_request(&self, scopes: &Vec<String>, refresh_token: &str) -> (r:
        TokenRequest)
        ensures
            r.url@ == spec_token_endpoint(self.authority_host@, self.tenant_id@),
            r.body@ == spec_refresh_token_body(self.client_id@, views_of(scopes@), refresh_token@),
    {
        let url = self.tenant_url("/oauth2/v2.0/token");
        let mut body: Vec<u8> = Vec::new();
        push_encoded_field(&mut body, "client_id=", &self.client_id.as_str().as_bytes_vec());
        push_encoded_field(&mut body, "&scope=", &build_scopes(scopes));
        push_encoded_field(&mut body, "&grant_type=", &"refresh_token".as_bytes_vec());
        push_encoded_field(&mut body, "&refresh_token=", &refresh_token.as_bytes_vec());
        push_encoded_field(&mut body, "&client_info=", &"1".as_bytes_vec());
        proof {
            assert(body@ =~= spec_refresh_token_body(
                self.client_id@,
                views_of(scopes@),
                refresh_token@,
            ));
        }
        TokenRequest { url, body }
    }

    /// The nonce challenge request: every PRT attempt issues one of these
    /// first, against the untenanted endpoint, and uses the nonce it
    /// returns for exactly the one assertion that follows.
    pub fn nonce_request(&self) -> (r: TokenRequest)
        ensures
            r.url@ == spec_nonce_endpoint(self.authority_host@),
            r.body@ == spec_nonce_body(),
    {
        let mut url = String::new();
        url.append("https://");
        url.append(self.authority_host.as_str());
        url.append("/common/oauth2/token");
        let mut body: Vec<u8> = Vec::new();
        push_str_bytes(&mut body, "grant_type=srv_challenge");
        proof {
            assert(url@ =~= spec_nonce_endpoint(self.authority_host@));
            assert(body@ =~= spec_nonce_body());
        }
        TokenRequest { url, body }
    }

    /// The final PRT exchange request: the signed assertion is carried in
    /// the `request` parameter against the legacy token endpoint.
    pub fn prt_exchange_request(&self, signed_jwt: &str) -> (r: TokenRequest)
        ensures
            r.url@ == spec_legacy_token_endpoint(self.authority_host@, self.tenant_id@),
            r.body@ == spec_prt_exchange_body(signed_jwt@),
    {
        let url = self.tenant_url("/oauth2/token");
        let mut body: Vec<u8> = Vec::new();
        push_str_bytes(
            &mut body,
            "windows_api_version=2.0&grant_type=urn:ietf:params:oauth:grant-type:jwt-bearer&request=",
        );
        push_str_bytes(&mut body, signed_jwt);
        push_str_bytes(&mut body, "&client_info=1&tgt=true");
        proof {
            assert(body@ =~= spec_prt_exchange_body(signed_jwt@));
        }
        TokenRequest { url, body }
    }
}

} // verus!
