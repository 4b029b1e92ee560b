//! Invocation environments and the capabilities each one grants a guest.
use crate::bls::{sign, signature_of, signature_valid, KeyPair, PublicKey, Signature};
use crate::ids::MachineId;
use crate::registry::{ExecutorState, MachineRecord, NotFound};
use crate::loader::CompiledBinary;
use crate::http::Error as HttpError;
use crate::machines::Error as MachinesError;
use vstd::prelude::*;
use vstd::string::*;

verus! {

/// A host function that a guest may call.
#[derive(Clone, Copy, Debug, PartialEq, Eq, Structural)]
pub enum Capability {
    /// Outbound HTTP requests.
    HttpEgress,
    /// The host's static public key.
    BlsPublicKey,
    /// Signing with the host's static key, separated by the caller's machine id.
    BlsSign,
    /// Activating the calling machine again, by name.
    SelfActivate,
    /// Informational log messages.
    Log,
    /// Reporting the text of a panic.
    SetPanicMessage,
}

/// What a single call of a guest may do: chosen per call, never shared.
#[derive(Clone, Copy, Debug)]
pub enum Environment {
    /// A typed activation of a machine: every capability.
    Activation { machine_id: MachineId },
    /// An HTTP request handled by a machine: logging and self-activation only.
    Http { machine_id: MachineId },
    /// Describing a binary's interface: no machine, logging only.
    BinaryApi,
}

/// A capability asked for in an environment that does not grant it.
#[derive(Clone, Copy, Debug, PartialEq, Eq, Structural)]
pub enum CapabilityError {
    /// The environment is bound to no machine.
    NoMachine,
    /// The environment does not grant this capability.
    Unavailable(Capability),
}

/// Whether environment `env` grants capability `cap`.
pub open spec fn grants(env: Environment, cap: Capability) -> bool {
    match env {
        Environment::Activation { .. } => true,
        Environment::Http { .. } => match cap {
            Capability::Log | Capability::SetPanicMessage | Capability::SelfActivate => true,
            _ => false,
        },
        Environment::BinaryApi => match cap {
            Capability::Log | Capability::SetPanicMessage => true,
            _ => false,
        },
    }
}

/// The machine an environment is bound to.
pub open spec fn bound_machine(env: Environment) -> Option<MachineId> {
    match env {
        Environment::Activation { machine_id } => Some(machine_id),
        Environment::Http { machine_id } => Some(machine_id),
        Environment::BinaryApi => None,
    }
}

impl Environment {
    /// The machine this environment is bound to.
    pub fn machine_id(&self) -> (r: Result<MachineId, CapabilityError>)
        ensures
            match bound_machine(*self) {
                Some(id) => r == Ok::<MachineId, CapabilityError>(id),
                None => r == Err::<MachineId, CapabilityError>(CapabilityError::NoMachine),
            },
    {
        match self {
            Environment::Activation { machine_id } => Ok(*machine_id),
            Environment::Http { machine_id } => Ok(*machine_id),
            Environment::BinaryApi => Err(CapabilityError::NoMachine),
        }
    }

    /// Whether this environment grants `cap`.
    pub fn grants(&self, cap: Capability) -> (r: bool)
        ensures
            r == grants(*self, cap),
    {
        match self {
            Environment::Activation { .. } => true,
            Environment::Http { .. } => match cap {
                Capability::Log | Capability::SetPanicMessage | Capability::SelfActivate => true,
                _ => false,
            },
            Environment::BinaryApi => match cap {
                Capability::Log | Capability::SetPanicMessage => true,
                _ => false,
            },
        }
    }

    /// Admits a call of `cap`, or refuses it with a typed error.
    pub fn check(&self, cap: Capability) -> (r: Result<(), CapabilityError>)
        ensures
            r is Ok <==> grants(*self, cap),
            r is Err ==> r == Err::<(), CapabilityError>(CapabilityError::Unavailable(cap)),
    {
        if self.grants(cap) {
            Ok(())
        } else {
            Err(CapabilityError::Unavailable(cap))
        }
    }

    /// The machine id that separates signatures made in this environment: only
    /// an activation signs, and it signs as the machine it activates.
    pub fn signing_domain(&self) -> (r: Result<MachineId, CapabilityError>)
        ensures
            match *self {
                Environment::Activation { machine_id } => r == Ok::<MachineId, CapabilityError>(machine_id),
                _ => r == Err::<MachineId, CapabilityError>(CapabilityError::Unavailable(Capability::BlsSign)),
            },
    {
        match self {
            Environment::Activation { machine_id } => Ok(*machine_id),
            _ => Err(CapabilityError::Unavailable(Capability::BlsSign)),
        }
    }

    /// Signs `message` with the host's key as the machine being activated; no
    /// other environment may sign.
    pub fn static_sign(&self, keypair: KeyPair, message: &[u8]) -> (r: Result<Signature, CapabilityError>)
        requires
            keypair.wf(),
        ensures
            match *self {
                Environment::Activation { machine_id } => r is Ok && r->Ok_0.0@ == signature_of(
                    keypair.spec_secret(),
                    machine_id.view(),
                    message@,
                ) && signature_valid(keypair.spec_public(), machine_id.view(), r->Ok_0.0@, message@),
                _ => r == Err::<Signature, CapabilityError>(CapabilityError::Unavailable(Capability::BlsSign)),
            },
    {
        match self.signing_domain() {
            Ok(machine_id) => Ok(sign(keypair, machine_id, message)),
            Err(e) => Err(e),
        }
    }

    /// The host's public key, for an activation.
    pub fn static_public_key(&self, keypair: KeyPair) -> (r: Result<PublicKey, CapabilityError>)
        ensures
            grants(*self, Capability::BlsPublicKey) ==> r is Ok && r->Ok_0.0@ == keypair.spec_public(),
            !grants(*self, Capability::BlsPublicKey) ==> r == Err::<PublicKey, CapabilityError>(
                CapabilityError::Unavailable(Capability::BlsPublicKey)),
    {
        match self.check(Capability::BlsPublicKey) {
            Ok(()) => Ok(keypair.public_key()),
            Err(e) => Err(e),
        }
    }

    /// Admits an outbound HTTP request, or refuses it with an error the guest can
    /// tell apart from a transport failure.
    pub fn http_client(&self) -> (r: Result<(), HttpError>)
        ensures
            r is Ok <==> grants(*self, Capability::HttpEgress),
            r is Err ==> r->Err_0 is Unexpected
                && r->Err_0->Unexpected_0@ == "cannot use http client outside of an activation"@,
    {
        match self.check(Capability::HttpEgress) {
            Ok(()) => Ok(()),
            Err(_) => Err(HttpError::Unexpected(String::from_str(
                "cannot use http client outside of an activation",
            ))),
        }
    }

    /// Where a self-activation goes: the record and binary of the calling machine.
    /// Nested self-activations are not bounded in depth; each runs in a fresh
    /// activation environment of its own.
    pub fn self_activation_target<'a>(&self, registry: &'a ExecutorState) -> (r: Result<
        (&'a MachineRecord, &'a CompiledBinary),
        SelfActivateError,
    >)
        requires
            registry.wf(),
        ensures
            !grants(*self, Capability::SelfActivate) ==> r == Err::<(&MachineRecord, &CompiledBinary), SelfActivateError>(
                SelfActivateError::Capability(CapabilityError::Unavailable(Capability::SelfActivate))),
            grants(*self, Capability::SelfActivate) ==> {
                let id = bound_machine(*self)->Some_0;
                &&& r is Ok <==> registry.machines().contains_key(id)
                &&& r matches Ok((m, b)) ==> m@ == registry.machines()[id] && *b == registry.binaries()[m.binary_id]
                &&& r matches Err(e) ==> e == SelfActivateError::Missing(NotFound::Machine(id))
            },
    {
        if let Err(e) = self.check(Capability::SelfActivate) {
            return Err(SelfActivateError::Capability(e));
        }
        let id = match self.machine_id() {
            Ok(id) => id,
            Err(e) => return Err(SelfActivateError::Capability(e)),
        };
        match registry.machine_components(id) {
            Ok(parts) => Ok(parts),
            Err(e) => Err(SelfActivateError::Missing(e)),
        }
    }
}

/// Why a self-activation could not start.
#[derive(Clone, Copy, Debug)]
pub enum SelfActivateError {
    Capability(CapabilityError),
    Missing(NotFound),
}

/// How a guest call failed.
#[derive(Clone, Debug)]
pub enum GuestError {
    /// The guest reported a panic, with its message, before failing.
    Panic { message: String, backtrace: Option<String> },
    /// A trap, link failure or other engine fault.
    Other(String),
}

/// Classifies a failed guest call: it is a panic exactly when the guest set a
/// panic message during the call.
pub fn classify_failure(panic_message: Option<String>, backtrace: Option<String>, fault: String) -> (r: GuestError)
    ensures
        r == match panic_message {
            Some(message) => GuestError::Panic { message, backtrace },
            None => GuestError::Other(fault),
        },
{
    match panic_message {
        Some(message) => GuestError::Panic { message, backtrace },
        None => GuestError::Other(fault),
    }
}

/// The text of a guest failure.
pub open spec fn guest_error_text(e: GuestError) -> Seq<char> {
    match e {
        GuestError::Panic { message, backtrace: None } => "guest panic \u{2018}"@ + message@ + "\u{2019}"@,
        GuestError::Panic { message, backtrace: Some(bt) } => "guest panic \u{2018}"@ + message@ + "\u{2019}"@ + "\n"@ + bt@,
        GuestError::Other(e) => e@,
    }
}

impl GuestError {
    /// The failure as text.
    pub fn to_string(&self) -> (r: String)
        ensures
            r@ == guest_error_text(*self),
    {
        match self {
            GuestError::Panic { message, backtrace } => {
                let mut s = String::from_str("guest panic \u{2018}");
                s.append(message.as_str());
                s.append("\u{2019}");
                if let Some(bt) = backtrace {
                    s.append("\n");
                    s.append(bt.as_str());
                }
                s
            },
            GuestError::Other(e) => e.clone(),
        }
    }
}

/// What a self-activation returns to the calling guest: the output, the failure
/// of the activated guest, or a host fault that ends the calling guest's call.
pub fn self_activation_outcome(
    machine_id: MachineId,
    outcome: Result<Result<Vec<u8>, GuestError>, String>,
) -> (r: Result<Result<Vec<u8>, MachinesError>, String>)
    ensures
        match outcome {
            Ok(Ok(out)) => r == Ok::<Result<Vec<u8>, MachinesError>, String>(Ok(out)),
            Ok(Err(e)) => r matches Ok(Err(MachinesError::Panic { reason, machine }))
                && machine == machine_id && reason@ == guest_error_text(e),
            Err(fault) => r == Err::<Result<Vec<u8>, MachinesError>, String>(fault),
        },
{
    match outcome {
        Ok(Ok(out)) => Ok(Ok(out)),
        Ok(Err(e)) => Ok(Err(MachinesError::Panic { reason: e.to_string(), machine: machine_id })),
        Err(fault) => Err(fault),
    }
}

} // verus!
