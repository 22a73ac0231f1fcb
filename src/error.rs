use vstd::prelude::*;

verus! {

/// The end of the input was reached before a read could be completed.
#[derive(Debug, Clone, Copy, PartialEq, Eq, Structural)]
pub struct UnexpectedEnd {
    /// How many bytes the read asked for.
    pub requested: usize,
    /// How many bytes were left.
    pub remaining: usize,
}

/// Everything that can go wrong while running a ceremony.
#[derive(Debug, Clone)]
pub enum Error {
    /// A request could not be turned into a platform value.
    Serialize(String),
    /// The attestation object is not well-formed CBOR of the expected shape.
    Deserialize(String),
    /// No platform context (window, navigator) is available.
    ContextUnavailable,
    /// The platform rejected the call; the message, or "Unknown".
    WebSys(String),
    /// The credential public key is not a valid COSE key.
    Cose(String),
    /// The authenticator data ended early.
    Io(UnexpectedEnd),
    /// The client data is not valid UTF-8; the rejected bytes.
    Utf8(Vec<u8>),
    /// Registration returned authenticator data without attested credential data.
    NoAttestedCredential,
}

pub type Result<T> = core::result::Result<T, Error>;

/// The error for a rejected platform call: its message where the rejection
/// carried one as a string, else "Unknown".
pub fn platform_error(message: Option<String>) -> (r: Error)
    ensures
        r is WebSys,
        message is Some ==> r->WebSys_0@ == message->Some_0@,
        message is None ==> r->WebSys_0@ == "Unknown"@,
{
    match message {
        Some(m) => Error::WebSys(m),
        None => Error::WebSys("Unknown".to_owned()),
    }
}

} // verus!
