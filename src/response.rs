use vstd::prelude::*;

use coset::CborSerializable;

use crate::auth_data::{
    auth_data_decodes, auth_data_of, decode_auth_data_prefix, decode_authenticator_data,
    has_attested_data, prefix_decodes, prefix_of, AttestedCredentialData,
};
use crate::credential::Credential;
use crate::error::{Error, Result};

verus! {

/// Whether coset accepts `b` as exactly one COSE key.
pub uninterp spec fn cose_key_accepts(b: Seq<u8>) -> bool;

/// Relies on coset's `CborSerializable::from_slice` for `CoseKey`: whether it
/// succeeds is decided by the bytes alone. The error becomes its message.
#[verifier::external_body]
fn cose_key_from_slice(b: &[u8]) -> (r: core::result::Result<coset::CoseKey, String>)
    ensures
        r is Ok <==> cose_key_accepts(b@),
{
    match coset::CoseKey::from_slice(b) {
        Ok(key) => Ok(key),
        Err(e) => Err(e.to_string()),
    }
}

/// The text that a byte sequence decodes to as UTF-8, or `None` where it is not
/// valid UTF-8.
pub uninterp spec fn utf8_decode(b: Seq<u8>) -> Option<Seq<char>>;

/// Relies on `String::from_utf8`: it accepts exactly the valid UTF-8 sequences,
/// and on failure the error gives the bytes back (`FromUtf8Error::into_bytes`).
#[verifier::external_body]
fn string_from_utf8(b: Vec<u8>) -> (r: core::result::Result<String, Vec<u8>>)
    ensures
        r is Ok <==> utf8_decode(b@) is Some,
        r is Ok ==> r->Ok_0@ == utf8_decode(b@)->Some_0,
        r is Err ==> r->Err_0@ == b@,
{
    match String::from_utf8(b) {
        Ok(s) => Ok(s),
        Err(e) => Err(e.into_bytes()),
    }
}

/// The outcome of a registration: a new credential, with its public key.
pub struct MakeCredentialResponse {
    pub credential: Credential,
}

/// The outcome of an authentication.
#[derive(Debug, Clone, PartialEq, Eq)]
pub struct GetAssertionResponse {
    pub signature: Vec<u8>,
    pub client_data_json: String,
    pub flags: u8,
    pub counter: u32,
}

/// Whether registration authenticator data `b` has a complete credential block.
pub open spec fn attested_decodes(b: Seq<u8>) -> bool {
    auth_data_decodes(b) && has_attested_data(b[32])
}

/// The credential block of registration authenticator data. Fails with an
/// end-of-input error on a short buffer, and when the flags announce no
/// credential block.
pub fn attested_credential(auth_data: &[u8]) -> (r: Result<AttestedCredentialData>)
    ensures
        r is Ok <==> attested_decodes(auth_data@),
        r is Ok ==> Some(r->Ok_0@) == auth_data_of(auth_data@).attested,
        !auth_data_decodes(auth_data@) ==> r is Err && r->Err_0 is Io,
        auth_data_decodes(auth_data@) && !has_attested_data(auth_data@[32]) ==> r is Err
            && r->Err_0 is NoAttestedCredential,
{
    let data = decode_authenticator_data(auth_data)?;
    match data.attested {
        Some(a) => Ok(a),
        None => Err(Error::NoAttestedCredential),
    }
}

/// Decodes the authenticator data of a registration into the new credential:
/// its identifier, and the public key that the bytes after it encode.
pub fn decode_registration(auth_data: &[u8]) -> (r: Result<MakeCredentialResponse>)
    ensures
        r is Ok <==> attested_decodes(auth_data@) && cose_key_accepts(
            auth_data_of(auth_data@).attested->Some_0.public_key,
        ),
        r is Ok ==> r->Ok_0.credential.id@ == auth_data_of(auth_data@).attested->Some_0.credential_id
            && r->Ok_0.credential.public_key is Some,
        !auth_data_decodes(auth_data@) ==> r is Err && r->Err_0 is Io,
        auth_data_decodes(auth_data@) && !has_attested_data(auth_data@[32]) ==> r is Err
            && r->Err_0 is NoAttestedCredential,
        attested_decodes(auth_data@) && !cose_key_accepts(
            auth_data_of(auth_data@).attested->Some_0.public_key,
        ) ==> r is Err && r->Err_0 is Cose,
{
    let attested = attested_credential(auth_data)?;
    match cose_key_from_slice(attested.public_key.as_slice()) {
        Ok(key) => Ok(
            MakeCredentialResponse {
                credential: Credential { id: attested.credential_id, public_key: Some(key) },
            },
        ),
        Err(message) => Err(Error::Cose(message)),
    }
}

/// Builds the outcome of an authentication from client data already decoded
/// as text: the flags and counter come from the prefix of `authenticator_data`.
pub fn assertion_response(
    authenticator_data: &[u8],
    signature: Vec<u8>,
    client_data_json: String,
) -> (r: Result<GetAssertionResponse>)
    ensures
        r is Ok <==> prefix_decodes(authenticator_data@),
        r is Ok ==> r->Ok_0.signature == signature && r->Ok_0.client_data_json == client_data_json
            && r->Ok_0.flags == prefix_of(authenticator_data@).flags && r->Ok_0.counter
            == prefix_of(authenticator_data@).counter,
        r is Err ==> r->Err_0 is Io,
{
    let prefix = decode_auth_data_prefix(authenticator_data)?;
    Ok(GetAssertionResponse { signature, client_data_json, flags: prefix.flags, counter: prefix.counter })
}

/// Decodes the parts of an authenticator's assertion: first the 37-byte
/// prefix of `authenticator_data`, then the client data, which must be UTF-8
/// and is never repaired.
pub fn decode_assertion(
    authenticator_data: &[u8],
    signature: Vec<u8>,
    client_data: Vec<u8>,
) -> (r: Result<GetAssertionResponse>)
    ensures
        !prefix_decodes(authenticator_data@) ==> r is Err && r->Err_0 is Io,
        prefix_decodes(authenticator_data@) && utf8_decode(client_data@) is None ==> r is Err
            && r->Err_0 is Utf8 && r->Err_0->Utf8_0@ == client_data@,
        prefix_decodes(authenticator_data@) && utf8_decode(client_data@) is Some ==> {
            &&& r is Ok
            &&& r->Ok_0.signature == signature
            &&& r->Ok_0.client_data_json@ == utf8_decode(client_data@)->Some_0
            &&& r->Ok_0.flags == prefix_of(authenticator_data@).flags
            &&& r->Ok_0.counter == prefix_of(authenticator_data@).counter
        },
{
    decode_auth_data_prefix(authenticator_data)?;
    match string_from_utf8(client_data) {
        Ok(text) => assertion_response(authenticator_data, signature, text),
        Err(bytes) => Err(Error::Utf8(bytes)),
    }
}

} // verus!
