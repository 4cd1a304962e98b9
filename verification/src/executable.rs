//! The uniform contract of running one task: execute it and hand back the
//! exit code of the underlying process, or the reason it could not even be
//! launched.
//!
//! Performing a task is outside work (creating a directory, spawning the
//! toolchain): the crate's caller implements `Executable` and the executor
//! decides, for every possible answer, what the build does next.

use vstd::prelude::*;

use crate::node::Task;

verus! {

/// Something that can perform tasks: the toolchain invoker of a real build,
/// or a stand-in. `Ok` carries the exit code the task's process returned
/// (zero for success); `Err` carries the description of a failure to launch
/// the process at all, which is distinct from a nonzero exit.
pub trait Executable {
    /// Perform one task and report how it ended.
    fn execute(&mut self, task: &Task) -> Result<i32, String>;
}

/// Why a build failed: the identity of the responsible node, and either the
/// nonzero exit code its task returned or the launch failure it ran into.
#[derive(Clone, Debug)]
pub enum BuildError {
    /// The node's task ran and its process exited nonzero.
    TaskFailed {
        /// The graph index of the failed node.
        node: usize,
        /// The nonzero exit code.
        code: i32,
    },
    /// The node's task could not be launched at all.
    LaunchFailed {
        /// The graph index of the failed node.
        node: usize,
        /// What went wrong at launch.
        message: String,
    },
}

impl BuildError {
    /// The graph index of the node the build failed at.
    pub open spec fn spec_node(&self) -> usize {
        match *self {
            BuildError::TaskFailed { node, .. } => node,
            BuildError::LaunchFailed { node, .. } => node,
        }
    }

    /// The graph index of the node the build failed at.
    #[verifier::when_used_as_spec(spec_node)]
    pub fn node(&self) -> (r: usize)
        ensures
            r == self.spec_node(),
    {
        match self {
            BuildError::TaskFailed { node, .. } => *node,
            BuildError::LaunchFailed { node, .. } => *node,
        }
    }
}

} // verus!
