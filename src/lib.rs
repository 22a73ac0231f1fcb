//! Client side of a WebAuthn ceremony: request building for registration and
//! authentication, and decoding of the authenticator's binary responses.
pub mod auth_data;
pub mod ceremony;
pub mod credential;
pub mod error;
pub mod reader;
pub mod response;

pub use auth_data::{
    decode_auth_data_prefix, decode_authenticator_data, AttestedCredentialData,
    AuthenticatorData, ATTESTED_CREDENTIAL_DATA, PREFIX_LEN,
};
pub use ceremony::{
    AssertionRequest, CreationRequest, GetAssertionArgs, MakeCredentialArgs, PubKeyCredParams,
    UserVerification, ES256,
};
pub use credential::{Credential, CredentialID};
pub use error::{platform_error, Error, Result, UnexpectedEnd};
pub use reader::{read_fixed, read_vec, Reader};
pub use response::{
    assertion_response, attested_credential, decode_assertion, decode_registration,
    GetAssertionResponse, MakeCredentialResponse,
};
