//! The build graph: an arena of nodes, each owning one task and the indices
//! of the nodes that must complete before it.
//!
//! Dependencies always point at earlier arena slots, so the graph is acyclic
//! by construction and needs no cycle detection. Nodes are shared by index:
//! a node reached through several parents exists, and executes, once.

use vstd::prelude::*;

use crate::compiler::CSourceToObject;
use crate::compiler::LinkObjectsToBinary;
use crate::directory::CreateDirectory;

verus! {

/// A unit of build work: a closed set of variants, matched exhaustively by
/// the executor and the toolchain invoker.
#[derive(Clone, Debug)]
pub enum Task {
    /// Ensure a directory exists.
    CreateDirectory(CreateDirectory),
    /// Compile one C source to an object file.
    CompileToObject(CSourceToObject),
    /// Link object files to a binary.
    LinkToBinary(LinkObjectsToBinary),
}

/// One node of the build graph: a task, and the arena indices of the nodes
/// it depends on.
#[derive(Clone, Debug)]
pub struct Node {
    /// The task this node performs.
    pub task: Task,
    /// The nodes that must have succeeded before this one may run.
    pub children: Vec<usize>,
}

/// A build graph: an arena of nodes. Node indices are the identities that
/// dependency lists and execution results refer to.
#[derive(Clone, Debug)]
pub struct Graph {
    /// The nodes, in an order consistent with their dependencies.
    pub nodes: Vec<Node>,
}

impl Graph {
    /// Every dependency points at an earlier slot of the arena: the graph is
    /// acyclic, and a walk that only descends to children terminates.
    pub open spec fn wf(&self) -> bool {
        forall|i: int, j: int|
            0 <= i < self.nodes@.len() && 0 <= j < self.nodes@[i].children@.len()
                ==> #[trigger] self.nodes@[i].children@[j] < i
    }

    /// How many nodes of the graph compile a source.
    pub open spec fn compile_count(&self) -> nat {
        self.nodes@.filter(|n: Node| n.task is CompileToObject).len()
    }

    /// How many nodes of the graph create a directory.
    pub open spec fn directory_count(&self) -> nat {
        self.nodes@.filter(|n: Node| n.task is CreateDirectory).len()
    }

    /// How many nodes of the graph link the binary.
    pub open spec fn link_count(&self) -> nat {
        self.nodes@.filter(|n: Node| n.task is LinkToBinary).len()
    }
}

} // verus!
