use vstd::prelude::*;

use crate::credential::CredentialID;
use crate::error::{Error, Result};
use crate::reader::{be_u16, be_u32, read_fixed, read_vec, Reader};

verus! {

/// The flag bit that announces attested credential data.
pub const ATTESTED_CREDENTIAL_DATA: u8 = 0x40;

/// Length of the relying-party hash, flags and counter that open every
/// authenticator-data buffer.
pub const PREFIX_LEN: usize = 37;

/// Whether a flags byte announces attested credential data.
pub open spec fn has_attested_data(flags: u8) -> bool {
    flags & ATTESTED_CREDENTIAL_DATA != 0
}

/// The credential block that follows the prefix when announced.
pub struct AttestedCredentialData {
    pub aaguid: [u8; 16],
    pub credential_id: CredentialID,
    /// The COSE-encoded public key, exactly as it stood in the buffer.
    pub public_key: Vec<u8>,
}

/// A decoded authenticator-data buffer.
pub struct AuthenticatorData {
    pub rp_id_hash: [u8; 32],
    pub flags: u8,
    pub counter: u32,
    pub attested: Option<AttestedCredentialData>,
}

/// What an attested-credential block holds, as byte sequences.
pub struct AttestedCredentialView {
    pub aaguid: Seq<u8>,
    pub credential_id: Seq<u8>,
    pub public_key: Seq<u8>,
}

/// What decoded authenticator data holds, as byte sequences and numbers.
pub struct AuthenticatorDataView {
    pub rp_id_hash: Seq<u8>,
    pub flags: u8,
    pub counter: u32,
    pub attested: Option<AttestedCredentialView>,
}

impl View for AttestedCredentialData {
    type V = AttestedCredentialView;

    open spec fn view(&self) -> AttestedCredentialView {
        AttestedCredentialView {
            aaguid: self.aaguid@,
            credential_id: self.credential_id@,
            public_key: self.public_key@,
        }
    }
}

impl View for AuthenticatorData {
    type V = AuthenticatorDataView;

    open spec fn view(&self) -> AuthenticatorDataView {
        AuthenticatorDataView {
            rp_id_hash: self.rp_id_hash@,
            flags: self.flags,
            counter: self.counter,
            attested: match self.attested {
                Some(a) => Some(a@),
                None => None,
            },
        }
    }
}

/// Length of the credential identifier announced in `b`.
pub open spec fn credential_id_len(b: Seq<u8>) -> int {
    be_u16(b.subrange(53, 55)) as int
}

/// Whether `b` holds the whole prefix.
pub open spec fn prefix_decodes(b: Seq<u8>) -> bool {
    b.len() >= PREFIX_LEN
}

/// The prefix of `b`, with no credential block.
pub open spec fn prefix_of(b: Seq<u8>) -> AuthenticatorDataView {
    AuthenticatorDataView {
        rp_id_hash: b.take(32),
        flags: b[32],
        counter: be_u32(b.subrange(33, 37)) as u32,
        attested: None,
    }
}

/// Whether `b` is a complete authenticator-data buffer: the prefix, and when
/// the flags announce it, the AAGUID, the length and that many identifier bytes.
pub open spec fn auth_data_decodes(b: Seq<u8>) -> bool {
    &&& b.len() >= PREFIX_LEN
    &&& has_attested_data(b[32]) ==> b.len() >= 55 && b.len() - 55 >= credential_id_len(b)
}

/// What a complete authenticator-data buffer holds.
pub open spec fn auth_data_of(b: Seq<u8>) -> AuthenticatorDataView {
    if has_attested_data(b[32]) {
        let n = credential_id_len(b);
        AuthenticatorDataView {
            rp_id_hash: b.take(32),
            flags: b[32],
            counter: be_u32(b.subrange(33, 37)) as u32,
            attested: Some(
                AttestedCredentialView {
                    aaguid: b.subrange(37, 53),
                    credential_id: b.subrange(55, 55 + n),
                    public_key: b.skip(55 + n),
                },
            ),
        }
    } else {
        prefix_of(b)
    }
}

/// Reads the relying-party hash, the flags and the counter.
fn read_prefix(reader: &mut Reader) -> (r: Result<AuthenticatorData>)
    ensures
        prefix_decodes(old(reader)@) ==> r is Ok && r->Ok_0@ == prefix_of(old(reader)@)
            && final(reader)@ == old(reader)@.skip(PREFIX_LEN as int),
        !prefix_decodes(old(reader)@) ==> r is Err && r->Err_0 is Io,
{
    let ghost b = reader@;
    let rp_id_hash: [u8; 32] = read_fixed(reader)?;
    let flags: [u8; 1] = read_fixed(reader)?;
    let counter: [u8; 4] = read_fixed(reader)?;
    let counter: u32 = ((counter[0] as u32 * 256 + counter[1] as u32) * 256 + counter[2] as u32)
        * 256 + counter[3] as u32;
    proof {
        assert(b.skip(32).skip(1).skip(4) =~= b.skip(PREFIX_LEN as int));
        assert(b.skip(32).skip(1).take(4) =~= b.subrange(33, 37));
    }
    Ok(AuthenticatorData { rp_id_hash, flags: flags[0], counter, attested: None })
}

/// Decodes only the prefix of `bytes`: relying-party hash, flags and counter.
/// Nothing after the first bytes is read.
pub fn decode_auth_data_prefix(bytes: &[u8]) -> (r: Result<AuthenticatorData>)
    ensures
        r is Ok <==> prefix_decodes(bytes@),
        r is Ok ==> r->Ok_0@ == prefix_of(bytes@),
        r is Err ==> r->Err_0 is Io,
{
    let mut reader = Reader::new(bytes);
    read_prefix(&mut reader)
}

/// Decodes a whole authenticator-data buffer. The credential block is read
/// exactly when the flags announce it; the public key is what follows the
/// identifier, to the end.
pub fn decode_authenticator_data(bytes: &[u8]) -> (r: Result<AuthenticatorData>)
    ensures
        r is Ok <==> auth_data_decodes(bytes@),
        r is Ok ==> r->Ok_0@ == auth_data_of(bytes@),
        r is Err ==> r->Err_0 is Io,
{
    let ghost b = bytes@;
    let mut reader = Reader::new(bytes);
    let mut data = read_prefix(&mut reader)?;
    if data.flags & ATTESTED_CREDENTIAL_DATA == 0 {
        return Ok(data);
    }
    let aaguid: [u8; 16] = read_fixed(&mut reader)?;
    let id = read_vec(&mut reader)?;
    let public_key = vstd::slice::slice_to_vec(reader.rest());
    proof {
        let n = credential_id_len(b);
        assert(b.skip(37).take(16) =~= b.subrange(37, 53));
        assert(b.skip(37).skip(16) =~= b.skip(53));
        assert(b.skip(53).subrange(0, 2) =~= b.subrange(53, 55));
        assert(b.skip(53).subrange(2, 2 + n) =~= b.subrange(55, 55 + n));
        assert(b.skip(53).skip(2 + n) =~= b.skip(55 + n));
    }
    data.attested = Some(
        AttestedCredentialData { aaguid, credential_id: CredentialID(id), public_key },
    );
    Ok(data)
}

/// Two bytes holding `n`, most significant first.
pub open spec fn be_bytes_u16(n: nat) -> Seq<u8> {
    seq![(n / 256) as u8, (n % 256) as u8]
}

/// Four bytes holding `c`, most significant first.
pub open spec fn be_bytes_u32(c: u32) -> Seq<u8> {
    seq![
        (c / 0x1000000) as u8,
        ((c / 0x10000) % 256) as u8,
        ((c / 256) % 256) as u8,
        (c % 256) as u8,
    ]
}

/// Whether a decoded value can be laid out as authenticator data: a 32-byte
/// hash, a credential block exactly when the flags announce one, a 16-byte
/// AAGUID and an identifier whose length fits the two-byte prefix.
pub open spec fn auth_data_well_formed(v: AuthenticatorDataView) -> bool {
    &&& v.rp_id_hash.len() == 32
    &&& (v.attested is Some <==> has_attested_data(v.flags))
    &&& v.attested is Some ==> v.attested->Some_0.aaguid.len() == 16
        && v.attested->Some_0.credential_id.len() <= 0xffff
}

/// The wire layout of authenticator data.
pub open spec fn encode_auth_data(v: AuthenticatorDataView) -> Seq<u8> {
    let head = v.rp_id_hash + seq![v.flags] + be_bytes_u32(v.counter);
    match v.attested {
        Some(a) => head + a.aaguid + be_bytes_u16(a.credential_id.len()) + a.credential_id
            + a.public_key,
        None => head,
    }
}

proof fn lemma_be_u32_of_bytes(c: u32)
    ensures
        be_u32(be_bytes_u32(c)) == c,
{
    let b = be_bytes_u32(c);
    let c = c as int;
    assert(c == (c / 0x1000000) * 0x1000000 + ((c / 0x10000) % 256) * 0x10000
        + ((c / 256) % 256) * 256 + c % 256) by (nonlinear_arith)
        requires
            0 <= c < 0x1_0000_0000,
    ;
    assert(b[0] as int == c / 0x1000000);
    assert(b[1] as int == (c / 0x10000) % 256);
    assert(b[2] as int == (c / 256) % 256);
    assert(b[3] as int == c % 256);
}

proof fn lemma_be_u16_of_bytes(n: nat)
    requires
        n <= 0xffff,
    ensures
        be_u16(be_bytes_u16(n)) == n,
{
}

/// Decoding authenticator data laid out from a well-formed value gives that
/// value back: the hash, flags and counter, and when present the AAGUID, the
/// credential identifier of any length up to 65535 bytes, and the public key
/// bytes exactly as they were encoded.
pub proof fn lemma_decode_encode(v: AuthenticatorDataView)
    requires
        auth_data_well_formed(v),
    ensures
        auth_data_decodes(encode_auth_data(v)),
        auth_data_of(encode_auth_data(v)) == v,
{
    let b = encode_auth_data(v);
    let head = v.rp_id_hash + seq![v.flags] + be_bytes_u32(v.counter);
    lemma_be_u32_of_bytes(v.counter);
    assert(b.take(32) =~= v.rp_id_hash);
    assert(b.subrange(33, 37) =~= be_bytes_u32(v.counter));
    assert(b[32] == v.flags);
    match v.attested {
        Some(a) => {
            let n = a.credential_id.len() as int;
            lemma_be_u16_of_bytes(n as nat);
            assert(b.subrange(53, 55) =~= be_bytes_u16(n as nat));
            assert(b.subrange(37, 53) =~= a.aaguid);
            assert(b.subrange(55, 55 + n) =~= a.credential_id);
            assert(b.skip(55 + n) =~= a.public_key);
        },
        None => {},
    }
}

/// Without the attested-credential flag, decoding looks at the first
/// 37 bytes only: any buffer of at least that length decodes, to what its
/// first 37 bytes decode to.
pub proof fn lemma_prefix_only(b: Seq<u8>)
    requires
        b.len() >= PREFIX_LEN,
        !has_attested_data(b[32]),
    ensures
        auth_data_decodes(b),
        auth_data_decodes(b.take(PREFIX_LEN as int)),
        auth_data_of(b) == auth_data_of(b.take(PREFIX_LEN as int)),
{
    let p = b.take(PREFIX_LEN as int);
    assert(p.take(32) =~= b.take(32));
    assert(p.subrange(33, 37) =~= b.subrange(33, 37));
}

} // verus!
