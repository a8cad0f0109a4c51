use vstd::prelude::*;

verus! {

/// How far the engine may rewrite a model's graph when it builds a session.
#[derive(Clone, Copy, Debug, PartialEq, Eq, Structural, Hash)]
pub enum OptimizationLevel {
    DisableAll,
    Basic,
    Extended,
    All,
}

/// The least severe message that the engine logs.
#[derive(Clone, Copy, Debug, PartialEq, Eq, Structural, Hash)]
pub enum LogLevel {
    Verbose,
    Info,
    Warning,
    Error,
    Fatal,
}

/// The resolved settings under which sessions are built. They are taken
/// once, when the client is made.
#[derive(Clone, Copy, Debug, PartialEq, Eq, Structural, Hash)]
pub struct ClientConfig {
    pub log_level: LogLevel,
    pub optimization_level: OptimizationLevel,
    pub number_threads: u8,
}

} // verus!
