//! The engine: a configuration and what is built on it.

use vstd::prelude::*;
use vstd::string::*;

use crate::config::EngineConfig;
use crate::error::EngineError;

verus! {

/// The engine. It holds its configuration; the components live in their own
/// modules.
pub struct ASTCoreEngine {
    config: EngineConfig,
}

impl View for ASTCoreEngine {
    type V = EngineConfig;

    /// The configuration the engine was created with.
    closed spec fn view(&self) -> EngineConfig {
        self.config
    }
}

impl ASTCoreEngine {
    /// An engine with the given configuration. Creation never fails.
    pub fn new(config: EngineConfig) -> (engine: Result<Self, EngineError>)
        ensures
            engine matches Ok(e) && e@ == config,
    {
        Ok(ASTCoreEngine { config })
    }

    /// The configuration the engine was created with.
    pub fn config(&self) -> (config: &EngineConfig)
        ensures
            *config == self@,
    {
        &self.config
    }
}

/// The name and version of the engine.
pub fn get_engine_version() -> (version: String)
    ensures
        version@ == "ast-core-engine 0.1.0"@,
{
    String::from_str("ast-core-engine 0.1.0")
}

} // verus!
