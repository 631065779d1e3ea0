//! The errors that the bindings report across the boundary.
use vstd::prelude::*;
use vstd::string::*;

verus! {

/// Error type for the React Native bindings.
///
/// Each variant carries a human-readable reason; what the variant says is
/// which step failed: a key that did not parse, an argument out of range,
/// a cryptographic operation that failed, or a protocol record that did
/// not decode.
#[derive(Debug)]
pub enum SignalError {
    InvalidKey { reason: String },
    InvalidState { reason: String },
    InvalidArgument { reason: String },
    InternalError { reason: String },
    ProtocolError { reason: String },
}

/// The reason an error carries.
pub open spec fn error_reason(e: SignalError) -> Seq<char> {
    match e {
        SignalError::InvalidKey { reason } => reason@,
        SignalError::InvalidState { reason } => reason@,
        SignalError::InvalidArgument { reason } => reason@,
        SignalError::InternalError { reason } => reason@,
        SignalError::ProtocolError { reason } => reason@,
    }
}

/// The name of an error's variant, as its message starts.
pub open spec fn error_label(e: SignalError) -> Seq<char> {
    match e {
        SignalError::InvalidKey { .. } => "InvalidKey"@,
        SignalError::InvalidState { .. } => "InvalidState"@,
        SignalError::InvalidArgument { .. } => "InvalidArgument"@,
        SignalError::InternalError { .. } => "InternalError"@,
        SignalError::ProtocolError { .. } => "ProtocolError"@,
    }
}

/// The message of an error: its variant's name, a colon and a space, then its reason.
pub open spec fn error_message(e: SignalError) -> Seq<char> {
    error_label(e) + ": "@ + error_reason(e)
}

impl SignalError {
    /// The reason this error carries.
    pub fn reason(&self) -> (r: &String)
        ensures
            r@ == error_reason(*self),
    {
        match self {
            SignalError::InvalidKey { reason } => reason,
            SignalError::InvalidState { reason } => reason,
            SignalError::InvalidArgument { reason } => reason,
            SignalError::InternalError { reason } => reason,
            SignalError::ProtocolError { reason } => reason,
        }
    }

    /// The error's message, such as `InvalidKey: bad key length`.
    pub fn to_string(&self) -> (s: String)
        ensures
            s@ == error_message(*self),
    {
        let label = match self {
            SignalError::InvalidKey { .. } => "InvalidKey: ",
            SignalError::InvalidState { .. } => "InvalidState: ",
            SignalError::InvalidArgument { .. } => "InvalidArgument: ",
            SignalError::InternalError { .. } => "InternalError: ",
            SignalError::ProtocolError { .. } => "ProtocolError: ",
        };
        proof {
            reveal_strlit("InvalidKey: ");
            reveal_strlit("InvalidState: ");
            reveal_strlit("InvalidArgument: ");
            reveal_strlit("InternalError: ");
            reveal_strlit("ProtocolError: ");
            reveal_strlit("InvalidKey");
            reveal_strlit("InvalidState");
            reveal_strlit("InvalidArgument");
            reveal_strlit("InternalError");
            reveal_strlit("ProtocolError");
            reveal_strlit(": ");
        }
        let s = String::from_str(label);
        let s = s.concat(self.reason().as_str());
        s
    }
}

/// Maps a failed key parse, given by its error's text, to `InvalidKey`.
pub fn or_invalid_key<T>(outcome: Result<T, String>) -> (r: Result<T, SignalError>)
    ensures
        match outcome {
            Ok(v) => r == Ok::<T, SignalError>(v),
            Err(e) => r == Err::<T, SignalError>(SignalError::InvalidKey { reason: e }),
        },
{
    match outcome {
        Ok(v) => Ok(v),
        Err(e) => Err(SignalError::InvalidKey { reason: e }),
    }
}

/// Maps a failed cryptographic operation, given by its error's text, to `InternalError`.
pub fn or_internal_error<T>(outcome: Result<T, String>) -> (r: Result<T, SignalError>)
    ensures
        match outcome {
            Ok(v) => r == Ok::<T, SignalError>(v),
            Err(e) => r == Err::<T, SignalError>(SignalError::InternalError { reason: e }),
        },
{
    match outcome {
        Ok(v) => Ok(v),
        Err(e) => Err(SignalError::InternalError { reason: e }),
    }
}

/// Maps a protocol failure, given by its error's text, to `ProtocolError`.
pub fn or_protocol_error<T>(outcome: Result<T, String>) -> (r: Result<T, SignalError>)
    ensures
        match outcome {
            Ok(v) => r == Ok::<T, SignalError>(v),
            Err(e) => r == Err::<T, SignalError>(SignalError::ProtocolError { reason: e }),
        },
{
    match outcome {
        Ok(v) => Ok(v),
        Err(e) => Err(SignalError::ProtocolError { reason: e }),
    }
}

} // verus!
