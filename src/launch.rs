use vstd::prelude::*;

verus! {

/// How to start one kernel: an executable and its ordered arguments.
/// No validation happens here; a bad executable surfaces when it is spawned.
#[derive(Debug, Clone)]
pub struct KernelLaunch {
    pub executable: String,
    pub args: Vec<String>,
}

} // verus!
