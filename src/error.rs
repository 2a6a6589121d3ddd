use vstd::prelude::*;

verus! {

/// Failures surfaced by the kernel orchestrator. None are retried internally.
#[derive(Debug, Clone, PartialEq, Eq)]
pub enum KernelError {
    /// The kernel executable could not be started.
    SpawnFailure(String),
    /// The child process lacks its input or output stream.
    StreamUnavailable(String),
    /// No reply line was produced: the process exited or deadlocked.
    EmptyResponse,
    /// The reply line is not a well-formed message.
    DecodeFailure(String),
    /// The named language is outside the configured set.
    UnsupportedLanguage(String),
    /// No runtime set is registered for the notebook.
    NotFound(String),
}

impl KernelError {
    /// A short human-readable description of the failure.
    pub fn describe(&self) -> (r: String)
        ensures
            match self {
                KernelError::SpawnFailure(m) => r@ == m@,
                KernelError::StreamUnavailable(m) => r@ == m@,
                KernelError::DecodeFailure(m) => r@ == m@,
                KernelError::EmptyResponse => r@ == "kernel returned empty response"@,
                KernelError::UnsupportedLanguage(_) => r@ == "unsupported language"@,
                KernelError::NotFound(_) => r@ == "notebook runtime not found"@,
            },
    {
        match self {
            KernelError::SpawnFailure(m) => m.clone(),
            KernelError::StreamUnavailable(m) => m.clone(),
            KernelError::EmptyResponse => "kernel returned empty response".to_owned(),
            KernelError::DecodeFailure(m) => m.clone(),
            KernelError::UnsupportedLanguage(_) => "unsupported language".to_owned(),
            KernelError::NotFound(_) => "notebook runtime not found".to_owned(),
        }
    }
}

} // verus!
