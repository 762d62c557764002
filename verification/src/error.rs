use vstd::prelude::*;
use cpython::PyErr;

verus! {

/// Everything that can go wrong between the client and the runtime.
#[derive(Debug)]
pub enum GymError {
    /// The seed could not be attached to the options of a reset call.
    InvalidSeed,
    /// The render mode could not be attached to the options of a make call.
    InvalidRenderMode,
    /// The factory refused: the identifier asked for, the options handed over
    /// (name and value), and the runtime's own error.
    InvalidMake(String, Vec<(String, String)>, PyErr),
    /// The step call refused the encoded action.
    InvalidAction,
    /// The result of a reset call is no pair that starts with an observation.
    WrongResetResult,
    /// The result of a step call is no observation, reward and two flags.
    WrongStepResult,
    /// No template could be read for a space. The text names the class of
    /// the descriptor where the class has no template, where the descriptor
    /// lacks what its class should hold (a `Dict` key that is no text too),
    /// where its template would not be well formed, or where spaces are
    /// nested beyond the limit; it names the attribute where an environment
    /// has no such space attribute.
    UnsupportedSpaceKind(String),
    /// The session could not be opened or the environment package not found.
    SessionBootstrapFailed,
    /// The render call failed.
    RenderFailed,
    /// The close call failed.
    CloseFailed,
}

} // verus!
