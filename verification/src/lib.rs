pub mod driver;
pub mod extract;
pub mod gate;
pub mod interpret;
pub mod prompts;
pub mod session;
pub mod text;

use vstd::prelude::*;

verus! {

/// The bound put on every completion's length, in tokens.
pub const MAX_COMPLETION_TOKENS: u16 = 512;

/// Per-invocation configuration, fixed once and copied unchanged into
/// every pipeline call.
#[derive(Clone, Copy, PartialEq, Eq, Structural, Debug)]
pub struct RunFlags {
    pub repl: bool,
    pub interpret: bool,
    pub debug: bool,
    pub unsafe_mode: bool,
    pub model: ModelId,
}

/// The failures that end a run: a failed remote completion call, a failed
/// shell invocation, or captured output that is not text.
#[derive(Clone, Copy, PartialEq, Eq, Structural, Debug)]
pub enum RunError {
    Gateway,
    Execution,
    Decode,
}

/// How one exchange ended: with an answer, or with the user declining
/// execution. A decline is an outcome of its own, not an error, so the
/// caller can go on instead of terminating.
pub enum TurnOutcome {
    Completed(String),
    Aborted,
}

/// Identifier of the remote completion model a request is sent to.
#[derive(Clone, Copy, PartialEq, Eq, Structural, Debug)]
pub enum ModelId {
    Gpt35Turbo,
    Gpt4,
    Gpt4Turbo,
}

impl ModelId {
    /// The wire name of the model.
    pub fn identifier(&self) -> (r: &'static str)
        ensures
            *self == ModelId::Gpt35Turbo ==> r@ == "gpt-3.5-turbo"@,
            *self == ModelId::Gpt4 ==> r@ == "gpt-4"@,
            *self == ModelId::Gpt4Turbo ==> r@ == "gpt-4-turbo"@,
    {
        match self {
            ModelId::Gpt35Turbo => "gpt-3.5-turbo",
            ModelId::Gpt4 => "gpt-4",
            ModelId::Gpt4Turbo => "gpt-4-turbo",
        }
    }
}

} // verus!
