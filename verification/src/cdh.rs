//! The broker's client: its fixed parameters, and the unsealing of one
//! reference as a request to issue and a reply to take.
//!
//! The client decides; it never touches a socket or a file. Whoever drives
//! it issues the remote call that a request describes and hands back what
//! the service answered.

use crate::error::{outcome, CdhError, CdhErrorView, Failure, FailureView};
use crate::sealed::{ciphertext, is_sealed, SEALED_PREFIX};
use crate::text::strip_prefix;
use vstd::prelude::*;
use vstd::string::*;
use vstd::utf8::*;

verus! {

/// Where the unsealing service listens.
pub const CDH_ADDR: &'static str = "unix:///run/confidential-containers/cdh.sock";

/// The directory under which plaintext secrets are materialized.
pub const SECRETS_DIR: &'static str = "/run/secrets/";

/// The time, in nanoseconds, that one remote call may take: 50 seconds.
pub const SEALED_SECRET_TIMEOUT: i64 = 50 * 1000 * 1000 * 1000;

/// The broker's client.
#[derive(Debug, Clone, PartialEq, Eq)]
pub struct CDHClient {
    /// The address of the unsealing service.
    pub addr: String,
    /// The directory that receives the plaintext files.
    pub secrets_dir: String,
    /// The timeout of each remote call, in nanoseconds.
    pub timeout_nano: i64,
}

/// One remote call to issue: the ciphertext to unseal, and how long the
/// call may take.
#[derive(Debug, Clone, PartialEq, Eq)]
pub struct UnsealRequest {
    pub secret: Vec<u8>,
    pub timeout_nano: i64,
}

/// The model of an [`UnsealRequest`].
pub struct UnsealRequestView {
    pub secret: Seq<u8>,
    pub timeout_nano: i64,
}

impl View for UnsealRequest {
    type V = UnsealRequestView;

    open spec fn view(&self) -> UnsealRequestView {
        UnsealRequestView { secret: self.secret@, timeout_nano: self.timeout_nano }
    }
}

/// `ttrpc::context::Context`: what a remote call is made under, which is
/// its metadata and its timeout in nanoseconds. Both fields are public,
/// and are read as ttrpc declares them.
#[verifier::external_type_specification]
pub struct ExContext(ttrpc::context::Context);

/// `ttrpc::context::with_timeout`: a context with the timeout `i` and no
/// metadata.
pub assume_specification[ ttrpc::context::with_timeout ](i: i64) -> (ctx: ttrpc::context::Context)
    ensures
        ctx.timeout_nano == i,
        forall|key: String| !ctx.metadata@.contains_key(key),
;

impl UnsealRequest {
    /// The context under which the call is to be made: the timeout of the
    /// request, and no metadata.
    pub fn context(&self) -> (ctx: ttrpc::context::Context)
        ensures
            ctx.timeout_nano == self.timeout_nano,
            forall|key: String| !ctx.metadata@.contains_key(key),
    {
        ttrpc::context::with_timeout(self.timeout_nano)
    }
}

/// The call that unsealing `reference` takes: none where the marker is
/// missing, else one that carries what follows the marker.
pub open spec fn unseal_request(timeout_nano: i64, reference: Seq<char>) -> Result<
    UnsealRequestView,
    CdhErrorView,
> {
    if is_sealed(reference) {
        Ok(UnsealRequestView { secret: ciphertext(reference), timeout_nano })
    } else {
        Err(CdhErrorView::PrefixMismatch)
    }
}

/// What unsealing yields once the service has answered: its plaintext as
/// it came, or its failure.
pub open spec fn unseal_reply(reply: Result<Seq<u8>, FailureView>) -> Result<
    Seq<u8>,
    CdhErrorView,
> {
    match reply {
        Ok(plaintext) => Ok(plaintext),
        Err(failure) => Err(CdhErrorView::Remote(failure)),
    }
}

impl CDHClient {
    /// A client with the well-known service address, secrets directory and
    /// timeout.
    pub fn new() -> (client: CDHClient)
        ensures
            client.addr@ == CDH_ADDR@,
            client.secrets_dir@ == SECRETS_DIR@,
            client.timeout_nano == SEALED_SECRET_TIMEOUT,
    {
        CDHClient {
            addr: String::from_str(CDH_ADDR),
            secrets_dir: String::from_str(SECRETS_DIR),
            timeout_nano: SEALED_SECRET_TIMEOUT,
        }
    }

    /// The one remote call that unseals `sealed`: the driver issues it,
    /// asynchronously if it likes, and hands what the service answered to
    /// [`CDHClient::unseal_secret_reply`]. A reference without the marker
    /// is refused, and no call is to be made.
    pub fn unseal_secret_async(&self, sealed: &str) -> (r: Result<UnsealRequest, CdhError>)
        ensures
            r is Ok <==> is_sealed(sealed@),
            outcome(r) == unseal_request(self.timeout_nano, sealed@),
    {
        match strip_prefix(sealed, SEALED_PREFIX) {
            Some(secret) => Ok(
                UnsealRequest { secret: secret.as_bytes_vec(), timeout_nano: self.timeout_nano },
            ),
            None => Err(CdhError::PrefixMismatch),
        }
    }

    /// The result of unsealing, given what the service answered. There is
    /// no second attempt: a failure is the caller's at once.
    pub fn unseal_secret_reply(&self, reply: Result<Vec<u8>, Failure>) -> (r: Result<
        Vec<u8>,
        CdhError,
    >)
        ensures
            r == (match reply {
                Ok(plaintext) => Ok::<Vec<u8>, CdhError>(plaintext),
                Err(failure) => Err(CdhError::Remote(failure)),
            }),
            outcome(r) == unseal_reply(outcome(reply)),
    {
        match reply {
            Ok(plaintext) => Ok(plaintext),
            Err(failure) => Err(CdhError::Remote(failure)),
        }
    }
}

/// Unsealing `sealed.` followed by any text `x` takes one call whose
/// payload is `x`, byte for byte, under the client's timeout; and the
/// plaintext that the service answers with is the result, unchanged.
pub proof fn lemma_unseal_forwards(timeout_nano: i64, x: Seq<char>, plaintext: Seq<u8>)
    ensures
        unseal_request(timeout_nano, SEALED_PREFIX@ + x) == Ok::<UnsealRequestView, CdhErrorView>(
            UnsealRequestView { secret: encode_utf8(x), timeout_nano },
        ),
        unseal_reply(Ok(plaintext)) == Ok::<Seq<u8>, CdhErrorView>(plaintext),
{
    let reference = SEALED_PREFIX@ + x;
    assert(reference.take(SEALED_PREFIX@.len() as int) =~= SEALED_PREFIX@);
    assert(reference.skip(SEALED_PREFIX@.len() as int) =~= x);
}

} // verus!
