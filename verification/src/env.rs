//! Sealed references in environment assignments.
//!
//! An assignment is split at its first `=`. Where the value carries the
//! marker, resolving it takes one remote call, after which the assignment
//! is rebuilt around the plaintext; any other assignment stands as it is.

use crate::cdh::{unseal_request, CDHClient, UnsealRequest, UnsealRequestView};
use crate::error::{outcome, CdhError, CdhErrorView, Failure, FailureView};
use crate::sealed::{is_sealed, SEALED_PREFIX};
use crate::text::{decode, decoded, join, lemma_first_position, split_at_first, split_once};
use vstd::prelude::*;
use vstd::string::*;
use vstd::utf8::*;

verus! {

/// What resolving one assignment comes to.
#[derive(Debug, Clone, PartialEq, Eq)]
pub enum EnvResolution {
    /// Nothing is sealed: this is the assignment, as it was given.
    Plain { env: String },
    /// The value is sealed: `request` is the call to issue, and `key` is
    /// what the plaintext will be assigned to.
    Sealed { key: String, request: UnsealRequest },
}

/// The model of an [`EnvResolution`].
pub enum EnvResolutionView {
    Plain { env: Seq<char> },
    Sealed { key: Seq<char>, request: UnsealRequestView },
}

impl View for EnvResolution {
    type V = EnvResolutionView;

    open spec fn view(&self) -> EnvResolutionView {
        match *self {
            EnvResolution::Plain { env } => EnvResolutionView::Plain { env: env@ },
            EnvResolution::Sealed { key, request } => EnvResolutionView::Sealed {
                key: key@,
                request: request@,
            },
        }
    }
}

/// The key and the value of an assignment: what stands before and after
/// its first `=`. An assignment without `=` has an empty key and an empty
/// value.
pub open spec fn assignment(env: Seq<char>) -> (Seq<char>, Seq<char>) {
    match split_at_first(env, '=') {
        Some(pair) => pair,
        None => (Seq::empty(), Seq::empty()),
    }
}

/// How an assignment resolves, before any call is made.
pub open spec fn resolve_env(timeout_nano: i64, env: Seq<char>) -> EnvResolutionView {
    let (key, value) = assignment(env);
    match unseal_request(timeout_nano, value) {
        Ok(request) => EnvResolutionView::Sealed { key, request },
        Err(_) => EnvResolutionView::Plain { env },
    }
}

/// The assignment that a sealed value resolves to, once the service has
/// answered: `key=plaintext` where the plaintext is UTF-8 text.
pub open spec fn resolve_env_reply(key: Seq<char>, reply: Result<Seq<u8>, FailureView>) -> Result<
    Seq<char>,
    CdhErrorView,
> {
    match reply {
        Ok(plaintext) => match decoded(plaintext) {
            Some(text) => Ok(key + seq!['='] + text),
            None => Err(CdhErrorView::Decode),
        },
        Err(failure) => Err(CdhErrorView::Remote(failure)),
    }
}

impl CDHClient {
    /// Resolves the assignment `env` as far as that goes without the
    /// service: an assignment whose value is not sealed is returned
    /// unchanged, and for a sealed one the call to issue is returned. What
    /// the service answers to that call goes to
    /// [`CDHClient::unseal_env_reply`], with the key.
    pub fn unseal_env(&self, env: &str) -> (r: EnvResolution)
        ensures
            r is Sealed <==> is_sealed(assignment(env@).1),
            r@ == resolve_env(self.timeout_nano, env@),
    {
        proof {
            reveal_strlit("");
        }
        let (key, value) = match split_once(env, '=') {
            Some(pair) => pair,
            None => ("", ""),
        };
        assert(key@ == assignment(env@).0 && value@ == assignment(env@).1) by {
            if !env@.contains('=') {
                assert(key@ =~= Seq::<char>::empty());
                assert(value@ =~= Seq::<char>::empty());
            }
        }
        match self.unseal_secret_async(value) {
            Ok(request) => EnvResolution::Sealed { key: String::from_str(key), request },
            Err(_) => EnvResolution::Plain { env: String::from_str(env) },
        }
    }

    /// Completes a sealed assignment with what the service answered for
    /// its value.
    pub fn unseal_env_reply(&self, key: &str, reply: Result<Vec<u8>, Failure>) -> (r: Result<
        String,
        CdhError,
    >)
        ensures
            r is Ok <==> (reply matches Ok(plaintext) && valid_utf8(plaintext@)),
            outcome(r) == resolve_env_reply(key@, outcome(reply)),
    {
        proof {
            reveal_strlit("=");
        }
        match reply {
            Ok(plaintext) => match decode(plaintext.as_slice()) {
                Some(text) => {
                    let head = join(key, "=");
                    assert(head@ =~= key@ + seq!['=']);
                    Ok(join(head.as_str(), text))
                },
                None => Err(CdhError::Decode),
            },
            Err(failure) => Err(CdhError::Remote(failure)),
        }
    }
}

/// An assignment `key=sealed.x`, with a key free of `=`, takes one call
/// whose payload is `x`; and once the service has answered with the UTF-8
/// bytes of a text, the assignment is `key=` followed by that text.
pub proof fn lemma_sealed_assignment(
    timeout_nano: i64,
    key: Seq<char>,
    x: Seq<char>,
    text: Seq<char>,
)
    requires
        !key.contains('='),
    ensures
        resolve_env(timeout_nano, key + seq!['='] + (SEALED_PREFIX@ + x))
            == (EnvResolutionView::Sealed {
            key,
            request: UnsealRequestView { secret: encode_utf8(x), timeout_nano },
        }),
        resolve_env_reply(key, Ok(encode_utf8(text))) == Ok::<Seq<char>, CdhErrorView>(
            key + seq!['='] + text,
        ),
{
    let value = SEALED_PREFIX@ + x;
    let env = key + seq!['='] + value;
    lemma_assignment(key, value);
    assert(value.take(SEALED_PREFIX@.len() as int) =~= SEALED_PREFIX@);
    assert(value.skip(SEALED_PREFIX@.len() as int) =~= x);
    encode_utf8_valid_utf8(text);
    encode_utf8_decode_utf8(text);
}

/// An assignment whose value does not carry the marker resolves to
/// itself, and no call is made.
pub proof fn lemma_plain_assignment(timeout_nano: i64, key: Seq<char>, value: Seq<char>)
    requires
        !key.contains('='),
        !is_sealed(value),
    ensures
        resolve_env(timeout_nano, key + seq!['='] + value) == (EnvResolutionView::Plain {
            env: key + seq!['='] + value,
        }),
{
    lemma_assignment(key, value);
}

/// `key=value` has the key `key` and the value `value`, where `key` is
/// free of `=`.
pub proof fn lemma_assignment(key: Seq<char>, value: Seq<char>)
    requires
        !key.contains('='),
    ensures
        assignment(key + seq!['='] + value) == (key, value),
{
    let env = key + seq!['='] + value;
    let i = key.len() as int;
    assert(env[i] == '=');
    assert forall|j: int| 0 <= j < i implies env[j] != '=' by {
        assert(env[j] == key[j]);
        assert(key.contains(key[j]));
    }
    lemma_first_position(env, '=', i);
    assert(env.take(i) =~= key);
    assert(env.skip(i + 1) =~= value);
}

} // verus!
