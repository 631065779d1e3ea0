//! How the outcomes of the steps of each operation become its result:
//! which step is looked at first, and which error each failing step gives.
//!
//! A step that can only run once an earlier one succeeded is passed nested
//! inside the earlier step's outcome: the outer `Err` is the earlier step's
//! failure, and the inner result is the later step's outcome.
use vstd::prelude::*;
use crate::error::SignalError;
use crate::keys::key_pair_outcome;

verus! {

/// What becomes of two steps run in turn: the first failing as `first`,
/// the second, run only after the first succeeded, failing as `second`.
pub open spec fn two_step_outcome<T>(
    outcome: Result<Result<T, String>, String>,
    first: spec_fn(String) -> SignalError,
    second: spec_fn(String) -> SignalError,
) -> Result<T, SignalError> {
    match outcome {
        Err(e) => Err(first(e)),
        Ok(Err(e)) => Err(second(e)),
        Ok(Ok(v)) => Ok(v),
    }
}

/// The keys of a fingerprint: the local identity key is parsed before the
/// remote one, so its failure is the one reported when both fail; either
/// failure is `InvalidKey`.
pub fn fingerprint_keys<K>(local: Result<K, String>, remote: Result<K, String>) -> (r: Result<(K, K), SignalError>)
    ensures
        r == key_pair_outcome(local, remote),
{
    let local_key = match local {
        Ok(k) => k,
        Err(e) => return Err(SignalError::InvalidKey { reason: e }),
    };
    let remote_key = match remote {
        Ok(k) => k,
        Err(e) => return Err(SignalError::InvalidKey { reason: e }),
    };
    Ok((local_key, remote_key))
}

/// The displayable fingerprint: building the fingerprint, then rendering
/// it. A failure of either step is an `InternalError`.
pub fn fingerprint_display(outcome: Result<Result<String, String>, String>) -> (r: Result<String, SignalError>)
    ensures
        r == two_step_outcome(
            outcome,
            |e: String| SignalError::InternalError { reason: e },
            |e: String| SignalError::InternalError { reason: e },
        ),
{
    match outcome {
        Err(e) => Err(SignalError::InternalError { reason: e }),
        Ok(Err(e)) => Err(SignalError::InternalError { reason: e }),
        Ok(Ok(text)) => Ok(text),
    }
}

/// The comparison of scannable fingerprints: decoding the local one, then
/// comparing it with the remote bytes. A local fingerprint that does not
/// decode is an `InvalidArgument`; a comparison that fails (such as one
/// between different versions) is an `InternalError`.
pub fn scannable_comparison(outcome: Result<Result<bool, String>, String>) -> (r: Result<bool, SignalError>)
    ensures
        r == two_step_outcome(
            outcome,
            |e: String| SignalError::InvalidArgument { reason: e },
            |e: String| SignalError::InternalError { reason: e },
        ),
{
    match outcome {
        Err(e) => Err(SignalError::InvalidArgument { reason: e }),
        Ok(Err(e)) => Err(SignalError::InternalError { reason: e }),
        Ok(Ok(same)) => Ok(same),
    }
}

/// A signature made with a private key: parsing the key, then signing. A
/// key that does not parse is an `InvalidKey`; a signing failure is an
/// `InternalError`.
pub fn signature_outcome(outcome: Result<Result<Vec<u8>, String>, String>) -> (r: Result<Vec<u8>, SignalError>)
    ensures
        r == two_step_outcome(
            outcome,
            |e: String| SignalError::InvalidKey { reason: e },
            |e: String| SignalError::InternalError { reason: e },
        ),
{
    match outcome {
        Err(e) => Err(SignalError::InvalidKey { reason: e }),
        Ok(Err(e)) => Err(SignalError::InternalError { reason: e }),
        Ok(Ok(signature)) => Ok(signature),
    }
}

/// A key agreement: parsing the private key, then the public key, then
/// agreeing. The private key is looked at first; a key that does not parse
/// is an `InvalidKey`, and a failed agreement is an `InternalError`.
pub fn agreement_outcome(outcome: Result<Result<Result<Vec<u8>, String>, String>, String>) -> (r: Result<Vec<u8>, SignalError>)
    ensures
        r == match outcome {
            Err(e) => Err(SignalError::InvalidKey { reason: e }),
            Ok(rest) => two_step_outcome(
                rest,
                |e: String| SignalError::InvalidKey { reason: e },
                |e: String| SignalError::InternalError { reason: e },
            ),
        },
{
    match outcome {
        Err(e) => Err(SignalError::InvalidKey { reason: e }),
        Ok(Err(e)) => Err(SignalError::InvalidKey { reason: e }),
        Ok(Ok(Err(e))) => Err(SignalError::InternalError { reason: e }),
        Ok(Ok(Ok(secret))) => Ok(secret),
    }
}

/// The signature over a new signed pre-key's public key, made with the
/// identity key: a signing failure is an `InternalError`.
pub fn pre_key_signature<S>(signed: Result<S, String>) -> (r: Result<S, SignalError>)
    ensures
        r == match signed {
            Ok(s) => Ok::<S, SignalError>(s),
            Err(e) => Err::<S, SignalError>(SignalError::InternalError { reason: e }),
        },
{
    match signed {
        Ok(s) => Ok(s),
        Err(e) => Err(SignalError::InternalError { reason: e }),
    }
}

} // verus!
