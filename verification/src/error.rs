use vstd::prelude::*;

verus! {

/// The error kinds that the engine core reports: initialization failure,
/// I/O failure, a state-contract violation, resource exhaustion (GPU buffer
/// growth past its configured limit), an unsupported request, and an opaque
/// runtime failure surfaced by a callback.
#[derive(Debug, Clone)]
pub enum GameError {
    InitError(String),
    IoError(String),
    StateError(String),
    ResourceError(String),
    NotSupportedError(String),
    RuntimeError(String),
}

impl GameError {
    /// The message carried by the error, as a sequence of characters.
    pub open spec fn spec_message(&self) -> Seq<char> {
        match self {
            GameError::InitError(m) => m@,
            GameError::IoError(m) => m@,
            GameError::StateError(m) => m@,
            GameError::ResourceError(m) => m@,
            GameError::NotSupportedError(m) => m@,
            GameError::RuntimeError(m) => m@,
        }
    }

    pub open spec fn is_state_error(&self) -> bool {
        matches!(self, GameError::StateError(_))
    }

    pub open spec fn is_resource_error(&self) -> bool {
        matches!(self, GameError::ResourceError(_))
    }

    /// A readable form of the message, for callers that report the error.
    pub fn message(&self) -> (r: &String)
        ensures
            r@ == self.spec_message(),
    {
        match self {
            GameError::InitError(m) => m,
            GameError::IoError(m) => m,
            GameError::StateError(m) => m,
            GameError::ResourceError(m) => m,
            GameError::NotSupportedError(m) => m,
            GameError::RuntimeError(m) => m,
        }
    }
}

pub type GameResult<T = ()> = Result<T, GameError>;

} // verus!
