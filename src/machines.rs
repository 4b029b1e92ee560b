//! Self-activation of machines by running guests.
use crate::hex::hex_text;
use crate::ids::MachineId;
use vstd::prelude::*;
use vstd::string::*;

verus! {

/// The failure of a self-activation, as the calling guest sees it.
#[derive(Clone, Debug, PartialEq, Eq, Hash, PartialOrd, Ord)]
pub enum Error {
    Panic { reason: String, machine: MachineId },
}

impl Error {
    /// The failure as text.
    pub fn to_string(&self) -> (r: String)
        ensures
            r@ == match self {
                Error::Panic { reason, machine } => "call to machine "@ + hex_text(machine.view())
                    + " failed because it panicked: "@ + reason@,
            },
    {
        match self {
            Error::Panic { reason, machine } => {
                let mut s = String::from_str("call to machine ");
                s.append(machine.to_string().as_str());
                s.append(" failed because it panicked: ");
                s.append(reason.as_str());
                s
            },
        }
    }
}

/// Activating machines from inside a guest.
pub trait Machines {
    /// Activates the calling machine by activation name with raw input.
    fn self_activate(&self, method_name: &str, input: &[u8]) -> Result<Vec<u8>, Error>;
}

} // verus!
