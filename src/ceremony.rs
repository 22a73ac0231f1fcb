use vstd::prelude::*;

use crate::credential::Credential;
use crate::error::{Error, Result};

verus! {

/// The COSE algorithm number of ES256 (ECDSA on P-256 with SHA-256).
pub const ES256: i32 = -7;

/// One algorithm that a new credential may use.
#[derive(Debug, Copy, Clone, PartialEq, Eq, Structural)]
pub struct PubKeyCredParams {
    alg: i32,
}

impl View for PubKeyCredParams {
    type V = i32;

    closed spec fn view(&self) -> i32 {
        self.alg
    }
}

/// The parameters that name ES256.
pub closed spec fn es256_params() -> PubKeyCredParams {
    PubKeyCredParams { alg: ES256 }
}

impl PubKeyCredParams {
    /// ES256, the algorithm asked for when the caller names none.
    pub fn nistp256() -> (r: Self)
        ensures
            r == es256_params(),
            r@ == ES256,
    {
        PubKeyCredParams { alg: ES256 }
    }

    /// The algorithm with COSE number `alg`.
    pub fn new(alg: i32) -> (r: Self)
        ensures
            r@ == alg,
    {
        PubKeyCredParams { alg }
    }

    /// The COSE algorithm number.
    pub fn alg(&self) -> (r: i32)
        ensures
            r == self@,
    {
        self.alg
    }
}

impl Default for PubKeyCredParams {
    fn default() -> (r: Self)
        ensures
            r@ == ES256,
    {
        Self::nistp256()
    }
}

/// How strongly the authenticator is asked to verify the user.
#[derive(Debug, Copy, Clone, PartialEq, Eq, Structural)]
pub enum UserVerification {
    Required,
    Preferred,
    Discouraged,
}

/// The relying-party identifier a request uses: the one given, else the
/// current origin's hostname.
pub open spec fn resolved_rp_id(rp_id: Option<String>, hostname: Option<String>) -> Option<Seq<char>> {
    match rp_id {
        Some(r) => Some(r@),
        None => match hostname {
            Some(h) => Some(h@),
            None => None,
        },
    }
}

fn resolve_rp_id(rp_id: &Option<String>, hostname: Option<String>) -> (r: Result<String>)
    ensures
        resolved_rp_id(*rp_id, hostname) is Some <==> r is Ok,
        r is Ok ==> r->Ok_0@ == resolved_rp_id(*rp_id, hostname)->Some_0,
        r is Err ==> r->Err_0 is ContextUnavailable,
{
    match rp_id {
        Some(r) => Ok(r.clone()),
        None => match hostname {
            Some(h) => Ok(h),
            None => Err(Error::ContextUnavailable),
        },
    }
}

/// The arguments of a registration.
#[derive(Debug, Clone)]
pub struct MakeCredentialArgs {
    /// Challenge to be included within `clientDataJson`.
    pub challenge: Vec<u8>,
    /// Accepted algorithms, most preferred first; none means ES256.
    pub algorithms: Vec<PubKeyCredParams>,
    /// The relying party's identifier (ex. "login.example.org"); none means
    /// the current origin's hostname.
    pub rp_id: Option<String>,
    pub uv: UserVerification,
    pub resident_key: bool,
    pub timeout: Option<u32>,
    pub user_id: Option<Vec<u8>>,
    pub user_name: Option<String>,
    pub user_display_name: Option<String>,
}

impl Default for MakeCredentialArgs {
    fn default() -> (r: Self)
        ensures
            r.challenge@.len() == 0,
            r.algorithms@.len() == 0,
            r.rp_id is None,
            r.uv == UserVerification::Discouraged,
            !r.resident_key,
            r.timeout is None,
            r.user_id is None,
            r.user_name is None,
            r.user_display_name is None,
    {
        MakeCredentialArgs {
            challenge: Vec::new(),
            algorithms: Vec::new(),
            rp_id: None,
            uv: UserVerification::Discouraged,
            resident_key: false,
            timeout: None,
            user_id: None,
            user_name: None,
            user_display_name: None,
        }
    }
}

/// Everything the platform's credential-creation call is given.
#[derive(Debug, Clone)]
pub struct CreationRequest {
    pub challenge: Vec<u8>,
    pub algorithms: Vec<PubKeyCredParams>,
    pub rp_id: String,
    pub user_id: Vec<u8>,
    pub user_name: String,
    pub user_display_name: String,
    pub resident_key: bool,
    pub uv: UserVerification,
    pub timeout: Option<u32>,
}

/// The algorithms a registration asks for: those given, or ES256 alone.
pub open spec fn requested_algorithms(algorithms: Seq<PubKeyCredParams>) -> Seq<PubKeyCredParams> {
    if algorithms.len() == 0 {
        seq![es256_params()]
    } else {
        algorithms
    }
}

/// The text of an optional string, empty when absent.
pub open spec fn text_or_empty(s: Option<String>) -> Seq<char> {
    match s {
        Some(t) => t@,
        None => Seq::empty(),
    }
}

fn clone_or_empty(s: &Option<String>) -> (r: String)
    ensures
        r@ == text_or_empty(*s),
{
    match s {
        Some(t) => t.clone(),
        None => String::new(),
    }
}

fn clone_bytes(b: &Vec<u8>) -> (r: Vec<u8>)
    ensures
        r@ == b@,
{
    let mut out: Vec<u8> = Vec::new();
    let mut i: usize = 0;
    while i < b.len()
        invariant
            i <= b@.len(),
            out@ == b@.take(i as int),
        decreases b@.len() - i,
    {
        out.push(b[i]);
        i = i + 1;
        assert(out@ =~= b@.take(i as int));
    }
    assert(b@.take(b@.len() as int) =~= b@);
    out
}

impl MakeCredentialArgs {
    /// The creation request for these arguments. `hostname` is the current
    /// origin's hostname, where one could be found; it is needed only when no
    /// relying-party identifier is given, and without either the request
    /// fails for want of a platform context.
    pub fn creation_request(&self, hostname: Option<String>) -> (r: Result<CreationRequest>)
        ensures
            r is Ok <==> resolved_rp_id(self.rp_id, hostname) is Some,
            r is Err ==> r->Err_0 is ContextUnavailable,
            r is Ok ==> {
                let q = r->Ok_0;
                &&& q.challenge@ == self.challenge@
                &&& q.algorithms@ == requested_algorithms(self.algorithms@)
                &&& self.algorithms@.len() == 0 ==> q.algorithms@.len() == 1 && q.algorithms@[0]@
                    == ES256
                &&& q.rp_id@ == resolved_rp_id(self.rp_id, hostname)->Some_0
                &&& q.user_id@ == match self.user_id {
                    Some(id) => id@,
                    None => seq![0u8],
                }
                &&& q.user_name@ == text_or_empty(self.user_name)
                &&& q.user_display_name@ == text_or_empty(self.user_display_name)
                &&& q.resident_key == self.resident_key
                &&& q.uv == self.uv
                &&& q.timeout == self.timeout
            },
    {
        let rp_id = resolve_rp_id(&self.rp_id, hostname)?;
        let mut algorithms: Vec<PubKeyCredParams> = Vec::new();
        if self.algorithms.len() == 0 {
            let es256 = PubKeyCredParams::nistp256();
            algorithms.push(es256);
            assert(algorithms@ =~= seq![es256_params()]);
        } else {
            let mut i: usize = 0;
            while i < self.algorithms.len()
                invariant
                    i <= self.algorithms@.len(),
                    algorithms@ == self.algorithms@.take(i as int),
                decreases self.algorithms@.len() - i,
            {
                algorithms.push(self.algorithms[i]);
                i = i + 1;
                assert(algorithms@ =~= self.algorithms@.take(i as int));
            }
            assert(self.algorithms@.take(self.algorithms@.len() as int) =~= self.algorithms@);
        }
        let user_id = match &self.user_id {
            Some(id) => clone_bytes(id),
            None => vec![0u8],
        };
        Ok(
            CreationRequest {
                challenge: clone_bytes(&self.challenge),
                algorithms,
                rp_id,
                user_id,
                user_name: clone_or_empty(&self.user_name),
                user_display_name: clone_or_empty(&self.user_display_name),
                resident_key: self.resident_key,
                uv: self.uv,
                timeout: self.timeout,
            },
        )
    }
}

/// The arguments of an authentication.
#[derive(Debug)]
pub struct GetAssertionArgs {
    /// Credentials that may answer; none means any resident credential.
    pub credentials: Option<Vec<Credential>>,
    /// The relying party's identifier; none means the current origin's hostname.
    pub rp_id: Option<String>,
    pub uv: UserVerification,
    pub timeout: Option<u32>,
    pub challenge: Vec<u8>,
}

impl Default for GetAssertionArgs {
    fn default() -> (r: Self)
        ensures
            r.credentials is None,
            r.rp_id is None,
            r.uv == UserVerification::Discouraged,
            r.timeout is None,
            r.challenge@.len() == 0,
    {
        GetAssertionArgs {
            credentials: None,
            rp_id: None,
            uv: UserVerification::Discouraged,
            timeout: None,
            challenge: Vec::new(),
        }
    }
}

/// Everything the platform's credential-request call is given.
#[derive(Debug, Clone)]
pub struct AssertionRequest {
    pub challenge: Vec<u8>,
    pub rp_id: String,
    /// The raw identifiers of the allowed credentials, in the order given;
    /// none when any resident credential may answer.
    pub allow_credentials: Option<Vec<Vec<u8>>>,
    pub uv: UserVerification,
    pub timeout: Option<u32>,
}

fn credential_ids(credentials: &Vec<Credential>) -> (r: Vec<Vec<u8>>)
    ensures
        r@.len() == credentials@.len(),
        forall|i: int| 0 <= i < r@.len() ==> r@[i]@ == credentials@[i].id@,
{
    let mut ids: Vec<Vec<u8>> = Vec::new();
    let mut i: usize = 0;
    while i < credentials.len()
        invariant
            i <= credentials@.len(),
            ids@.len() == i,
            forall|j: int| 0 <= j < i ==> ids@[j]@ == credentials@[j].id@,
        decreases credentials@.len() - i,
    {
        ids.push(clone_bytes(&credentials[i].id.0));
        i = i + 1;
    }
    ids
}

impl GetAssertionArgs {
    /// The request for these arguments. `hostname` is the current origin's
    /// hostname, where one could be found; it is needed only when no
    /// relying-party identifier is given, and without either the request
    /// fails for want of a platform context.
    pub fn assertion_request(&self, hostname: Option<String>) -> (r: Result<AssertionRequest>)
        ensures
            r is Ok <==> resolved_rp_id(self.rp_id, hostname) is Some,
            r is Err ==> r->Err_0 is ContextUnavailable,
            r is Ok ==> {
                let q = r->Ok_0;
                &&& q.challenge@ == self.challenge@
                &&& q.rp_id@ == resolved_rp_id(self.rp_id, hostname)->Some_0
                &&& (q.allow_credentials is Some <==> self.credentials is Some)
                &&& q.allow_credentials is Some ==> {
                    let ids = q.allow_credentials->Some_0@;
                    let creds = self.credentials->Some_0@;
                    &&& ids.len() == creds.len()
                    &&& forall|i: int| 0 <= i < ids.len() ==> ids[i]@ == creds[i].id@
                }
                &&& q.uv == self.uv
                &&& q.timeout == self.timeout
            },
    {
        let rp_id = resolve_rp_id(&self.rp_id, hostname)?;
        let allow_credentials = match &self.credentials {
            Some(credentials) => Some(credential_ids(credentials)),
            None => None,
        };
        Ok(
            AssertionRequest {
                challenge: clone_bytes(&self.challenge),
                rp_id,
                allow_credentials,
                uv: self.uv,
                timeout: self.timeout,
            },
        )
    }
}

} // verus!
