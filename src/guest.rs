//! What guest code sees of the host: logging, HTTP verbs of its endpoints, and
//! an example machine.
use crate::bls::{PublicKey, Signature};
use vstd::prelude::*;
use vstd::string::*;

verus! {

/// An informational text sink.
pub trait Log {
    fn log_info(&self, message: &str);
}

/// The host's static key, as an activation sees it.
pub trait Bls {
    /// The host's public key.
    fn bls_static_public_key(&self) -> PublicKey;

    /// A signature of `message` by the host, made as the activated machine.
    fn bls_static_sign(&self, message: &[u8]) -> Signature;
}

/// The HTTP verbs a guest endpoint can answer to.
#[derive(Clone, Copy, Debug, PartialEq, Eq, Structural, PartialOrd, Ord)]
pub enum HttpMethod {
    Post,
    Get,
}

impl HttpMethod {
    /// The verb as it appears in a request line.
    pub fn as_str(&self) -> (r: &'static str)
        ensures
            r@ == match self {
                HttpMethod::Post => "POST"@,
                HttpMethod::Get => "GET"@,
            },
    {
        match self {
            HttpMethod::Post => "POST",
            HttpMethod::Get => "GET",
        }
    }
}

/// A machine that greets.
#[derive(Clone, Copy, Debug)]
pub struct HelloWorld;

impl HelloWorld {
    /// Greets `message`, logging the greeting.
    pub fn say<C: Log>(&self, cap: &C, message: String) -> (r: String)
        ensures
            r@ == "hello "@ + message@,
    {
        let response = String::from_str("hello ").concat(message.as_str());
        cap.log_info(response.as_str());
        response
    }
}

} // verus!
