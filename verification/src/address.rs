//! Protocol addresses: a user's name and one of the user's devices.
use vstd::prelude::*;
use vstd::string::*;
use crate::decimal::{decimal, push_decimal};
use crate::error::SignalError;

verus! {

/// Protocol address identifying a specific device of a user.
#[derive(Clone)]
pub struct SignalProtocolAddress {
    pub name: String,
    pub device_id: u32,
}

/// The reason given when a device id is refused: `Invalid device ID: ` and the id in decimal.
pub open spec fn invalid_device_id_reason(device_id: u32) -> Seq<char> {
    "Invalid device ID: "@ + decimal(device_id as nat)
}

impl SignalProtocolAddress {
    /// Turns the outcome of checking a device id (which the caller passes for
    /// `self.device_id`) into the
    /// parts of a protocol address (a copy of the name, and the checked id),
    /// or into `InvalidArgument` naming the refused id.
    pub fn to_protocol_address<D, E>(&self, device_id: Result<D, E>) -> (r: Result<(String, D), SignalError>)
        ensures
            match device_id {
                Ok(d) => r matches Ok((name, id)) && name@ == self.name@ && id == d,
                Err(_) => r matches Err(SignalError::InvalidArgument { reason })
                    && reason@ == invalid_device_id_reason(self.device_id),
            },
    {
        match device_id {
            Ok(d) => Ok((self.name.clone(), d)),
            Err(_) => {
                proof {
                    reveal_strlit("Invalid device ID: ");
                }
                let mut reason = String::from_str("Invalid device ID: ");
                push_decimal(&mut reason, self.device_id as u64);
                Err(SignalError::InvalidArgument { reason })
            },
        }
    }
}

} // verus!
