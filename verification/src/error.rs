use vstd::prelude::*;

verus! {

/// The ways in which loading or running a model can fail.
#[derive(Clone, Copy, Debug, PartialEq, Eq, Structural, Hash)]
pub enum ErrorKind {
    /// The byte store could not be reached, or its stream ended early.
    Transport,
    /// The received length differs from the length the address declares.
    Integrity,
    /// The engine refused the model bytes.
    EngineBuild,
    /// The engine failed during a forward pass.
    EngineRun,
    /// The engine returned another number of outputs than the model declares.
    ShapeCountMismatch,
    /// A tensor slot of the engine has no portable description.
    DescriptorConversion,
}

impl ErrorKind {
    /// Whether the caller may repeat the request as it is and hope for
    /// another outcome: only a transport failure is transient.
    pub fn is_recoverable(&self) -> (r: bool)
        ensures
            r == (*self == ErrorKind::Transport),
    {
        match self {
            ErrorKind::Transport => true,
            _ => false,
        }
    }

    /// Whether the failure belongs to loading a session, as opposed to
    /// running one or describing it.
    pub fn is_load_failure(&self) -> (r: bool)
        ensures
            r == (*self == ErrorKind::Transport || *self == ErrorKind::Integrity || *self
                == ErrorKind::EngineBuild),
    {
        match self {
            ErrorKind::Transport | ErrorKind::Integrity | ErrorKind::EngineBuild => true,
            _ => false,
        }
    }
}

} // verus!
