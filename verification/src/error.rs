//! What can go wrong in a display operation.

use vstd::prelude::*;
use display_interface::DisplayError;

verus! {

/// `display_interface::DisplayError`, the fault that a transport reports
/// when it cannot carry out a transaction. Nothing is claimed of it: the
/// library passes such a value on and never looks inside.
#[verifier::external_type_specification]
#[verifier::external_body]
pub struct TransportFault(DisplayError);

/// Why a display operation failed.
#[derive(Debug)]
pub enum Error {
    /// The transport could not carry out a transaction; the fault is the
    /// transport's own, passed on as it came.
    TransportError(DisplayError),
    /// The window is inverted or reaches beyond the panel, or the panel is
    /// flipped and a mirrored bound of the window does not fit 16 bits.
    InvalidGeometry,
    /// Pixels were to be written while no window is latched.
    NoActiveWindow,
}

/// What an operation reports once the transport has answered and nothing
/// else stands against it: success as success, a fault as the fault.
pub open spec fn relayed(sent: Result<(), DisplayError>) -> Result<(), Error> {
    match sent {
        Ok(()) => Ok(()),
        Err(fault) => Err(Error::TransportError(fault)),
    }
}

/// Passes the transport's answer on as the operation's result.
pub fn relay(sent: Result<(), DisplayError>) -> (result: Result<(), Error>)
    ensures
        result == relayed(sent),
{
    match sent {
        Ok(()) => Ok(()),
        Err(fault) => Err(Error::TransportError(fault)),
    }
}

} // verus!
