//! Validation of uploaded bytes as a WebAssembly component.
use crate::ids::{sha256_of, BinaryId};
use vstd::prelude::*;

verus! {

#[verifier::external_type_specification]
#[verifier::external_body]
pub struct ExEngine(wasmtime::Engine);

#[verifier::external_type_specification]
#[verifier::external_body]
pub struct ExComponent(wasmtime::component::Component);

/// Relies on `wasmtime::component::Component::from_binary`: compiles the bytes, or
/// reports why it could not, as text. The outcome also depends on the resources of
/// the machine, so nothing is promised of it.
#[verifier::external_body]
fn compile_component(engine: &wasmtime::Engine, binary: &[u8]) -> (r: Result<
    wasmtime::component::Component,
    String,
>) {
    wasmtime::component::Component::from_binary(engine, binary).map_err(|e| format!("{:#}", e))
}

/// Relies on `wasmtime::Engine::new` with a `wasmtime::Config` that enables
/// async support and the component model; that configuration is valid, so the
/// engine is always made.
#[verifier::external_body]
fn component_engine() -> (r: wasmtime::Engine) {
    let mut config = wasmtime::Config::new();
    config.async_support(true);
    config.wasm_component_model(true);
    wasmtime::Engine::new(&config).expect("async component engine configuration is valid")
}

/// A validated component together with the id of the bytes it came from.
pub struct CompiledBinary {
    component: wasmtime::component::Component,
    binary_id: BinaryId,
}

/// Why bytes could not be loaded as a component.
#[derive(Debug)]
pub struct LoadError {
    /// The violation that the component compiler reported.
    pub message: String,
}

impl CompiledBinary {
    pub closed spec fn spec_binary_id(&self) -> BinaryId {
        self.binary_id
    }

    /// The id of the bytes this binary was compiled from.
    pub fn binary_id(&self) -> (r: BinaryId)
        ensures
            r == self.spec_binary_id(),
    {
        self.binary_id
    }

    /// The compiled component.
    pub fn component(&self) -> &wasmtime::component::Component {
        &self.component
    }
}

/// Compiles and validates components with one engine configuration.
pub struct Executor {
    engine: wasmtime::Engine,
}

impl Executor {
    /// An executor whose engine runs components asynchronously.
    pub fn new() -> Executor {
        Executor { engine: component_engine() }
    }

    /// An executor that compiles with `engine`.
    pub fn with_engine(engine: wasmtime::Engine) -> Executor {
        Executor { engine }
    }

    /// The engine components are compiled with.
    pub fn engine(&self) -> &wasmtime::Engine {
        &self.engine
    }

    /// Validates and compiles `binary`; the result carries the digest of the bytes.
    pub fn load_binary_from_wasm_binary(&self, binary: &[u8]) -> (r: Result<CompiledBinary, LoadError>)
        ensures
            r matches Ok(c) ==> c.spec_binary_id().view() == sha256_of(binary@),
    {
        let binary_id = BinaryId::new(binary);
        match compile_component(&self.engine, binary) {
            Ok(component) => Ok(CompiledBinary { component, binary_id }),
            Err(message) => Err(LoadError { message }),
        }
    }
}

} // verus!
