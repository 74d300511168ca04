//! Client-side logic of the Microsoft Entra ID OAuth2 token acquisition
//! protocols: the standard grants (password, refresh, device code) and the
//! Primary Refresh Token exchange. This crate holds the verified core:
//! request construction, response classification, and the nested response
//! codecs. HTTP transport and hardware signing live outside it.

pub mod client;
pub mod codec;
pub mod error;
pub mod form;
pub mod prt;
pub mod token;
pub mod wire;

pub use client::PublicClientApplication;
pub use client::TokenRequest;
pub use codec::ClientInfo;
pub use codec::IdToken;
pub use codec::IdTokenView;
pub use codec::decode_client_info;
pub use codec::decode_id_token;
pub use codec::reencode_id_token;
pub use error::ErrorResponse;
pub use error::ErrorResponseView;
pub use error::MsalError;
pub use prt::broker_client_id;
pub use prt::drs_app_id;
pub use prt::os_version_string;
pub use prt::refresh_token_prt_payload;
pub use prt::username_password_prt_payload;
pub use token::DeviceAuthorizationResponse;
pub use token::DeviceAuthorizationResponseView;
pub use token::PrimaryRefreshToken;
pub use token::PrimaryRefreshTokenView;
pub use token::UserToken;
pub use token::UserTokenView;
pub use token::parse_device_authorization_response;
pub use token::parse_nonce_response;
pub use token::parse_prt_response;
pub use token::parse_user_token_response;
