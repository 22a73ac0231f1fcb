use vstd::prelude::*;

verus! {

/// Identifies a credential within a relying party. Compared byte for byte.
#[derive(Debug, Clone, PartialEq, Eq)]
pub struct CredentialID(pub Vec<u8>);

impl View for CredentialID {
    type V = Seq<u8>;

    open spec fn view(&self) -> Seq<u8> {
        self.0@
    }
}

impl core::ops::Deref for CredentialID {
    type Target = Vec<u8>;

    fn deref(&self) -> (r: &Vec<u8>)
        ensures
            r@ == self@,
    {
        &self.0
    }
}

impl CredentialID {
    /// The identifier's bytes.
    pub fn as_bytes(&self) -> (r: &[u8])
        ensures
            r@ == self@,
    {
        self.0.as_slice()
    }
}

#[verifier::external_type_specification]
#[verifier::external_body]
pub struct ExCoseKey(coset::CoseKey);

/// A credential identifier, with its public key when it is known (after
/// registration; not when only the identifier was stored).
#[derive(Debug, Clone)]
pub struct Credential {
    pub id: CredentialID,
    pub public_key: Option<coset::CoseKey>,
}

impl From<CredentialID> for Credential {
    fn from(id: CredentialID) -> (r: Self) {
        Credential { id, public_key: None }
    }
}

impl vstd::std_specs::convert::FromSpecImpl<CredentialID> for Credential {
    open spec fn obeys_from_spec() -> bool {
        true
    }

    open spec fn from_spec(id: CredentialID) -> Self {
        Credential { id, public_key: None }
    }
}

} // verus!
