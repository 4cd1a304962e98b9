//! The executor: walks the build graph in dependency order, runs every
//! reachable node exactly once, and aborts the build at the first failure.
//!
//! Each node moves through `Pending -> Running -> Succeeded | Failed`. A
//! node never starts before all of its dependencies have succeeded, a node
//! reached through several parents runs at most once (its finished status is
//! reused), and a failed dependency leaves every dependent untouched at
//! `Pending`: in particular, after any compile fails, the link never runs.

use vstd::prelude::*;
use vstd::pervasive::VecAdditionalExecFns;

use crate::executable::BuildError;
use crate::executable::Executable;
use crate::node::Graph;

verus! {

/// Where one node stands in its execution lifecycle.
#[derive(Clone, Copy, Debug, PartialEq, Eq, Structural)]
pub enum NodeStatus {
    /// Not started; its dependencies may not all have succeeded yet.
    Pending,
    /// Its task is running right now.
    Running,
    /// Its task completed with exit code zero.
    Succeeded,
    /// Its task exited nonzero or could not be launched.
    Failed,
}

/// The execution state of one build: a status per graph node.
pub struct ExecState {
    /// The status of each node, indexed as the graph's arena is.
    pub status: Vec<NodeStatus>,
}

impl ExecState {
    /// The ordering guarantee of the executor, as a state invariant: a node
    /// that has left `Pending` — running, succeeded or failed — only ever
    /// did so after every one of its dependencies succeeded.
    pub open spec fn inv(&self, g: &Graph) -> bool {
        &&& self.status@.len() == g.nodes@.len()
        &&& forall|i: int, j: int|
            0 <= i < g.nodes@.len() && 0 <= j < g.nodes@[i].children@.len() && self.status@[i]
                != NodeStatus::Pending ==> self.status@[
                #[trigger] g.nodes@[i].children@[j] as int
            ] == NodeStatus::Succeeded
    }

    /// The fresh state of a build: every node pending.
    pub fn new(g: &Graph) -> (r: ExecState)
        ensures
            r.inv(g),
            r.status@.len() == g.nodes@.len(),
            forall|i: int| 0 <= i < r.status@.len() ==> r.status@[i] == NodeStatus::Pending,
    {
        let mut status: Vec<NodeStatus> = Vec::new();
        let mut i: usize = 0;
        while i < g.nodes.len()
            invariant
                i <= g.nodes@.len(),
                status@.len() == i,
                forall|j: int| 0 <= j < i ==> status@[j] == NodeStatus::Pending,
            decreases g.nodes@.len() - i,
        {
            status.push(NodeStatus::Pending);
            i += 1;
        }
        ExecState { status }
    }
}

/// Execute one node of the graph: first bring every dependency to
/// `Succeeded`, recursively, then run the node's own task once. A node
/// already succeeded is not run again. The first failure — a nonzero exit
/// or a launch error — aborts the walk and is reported with the responsible
/// node's identity; every other node is left exactly as it was.
pub fn execute_node<E: Executable>(
    g: &Graph,
    runner: &mut E,
    state: &mut ExecState,
    node: usize,
) -> (r: Result<(), BuildError>)
    requires
        g.wf(),
        old(state).inv(g),
        node < g.nodes@.len(),
        forall|i: int|
            0 <= i < old(state).status@.len() ==> old(state).status@[i] != NodeStatus::Running
                && old(state).status@[i] != NodeStatus::Failed,
    ensures
        final(state).inv(g),
        final(state).status@.len() == old(state).status@.len(),
        forall|i: int|
            0 <= i < old(state).status@.len() && old(state).status@[i] == NodeStatus::Succeeded
                ==> final(state).status@[i] == NodeStatus::Succeeded,
        forall|i: int|
            0 <= i < final(state).status@.len() ==> final(state).status@[i] != NodeStatus::Running,
        forall|i: int|
            node < i < old(state).status@.len() ==> final(state).status@[i] == old(
                state,
            ).status@[i],
        old(state).status@[node as int] == NodeStatus::Succeeded
            ==> r is Ok && final(state).status@ == old(state).status@,
        r is Ok ==> final(state).status@[node as int] == NodeStatus::Succeeded && forall|i: int|
            0 <= i < final(state).status@.len() ==> final(state).status@[i] != NodeStatus::Failed,
        r matches Err(e) ==> {
            &&& e.spec_node() < g.nodes@.len()
            &&& final(state).status@[e.spec_node() as int] == NodeStatus::Failed
            &&& forall|i: int|
                0 <= i < final(state).status@.len() && i != e.spec_node()
                    ==> final(state).status@[i] != NodeStatus::Failed
            &&& e matches BuildError::TaskFailed { code, .. } ==> code != 0
        },
    decreases node,
{
    if matches!(state.status[node], NodeStatus::Succeeded) {
        return Ok(());
    }
    let mut ci: usize = 0;
    while ci < g.nodes[node].children.len()
        invariant
            g.wf(),
            state.inv(g),
            node < g.nodes@.len(),
            state.status@.len() == g.nodes@.len(),
            old(state).status@.len() == g.nodes@.len(),
            ci <= g.nodes@[node as int].children@.len(),
            forall|i: int|
                0 <= i < state.status@.len() ==> state.status@[i] != NodeStatus::Running
                    && state.status@[i] != NodeStatus::Failed,
            forall|i: int|
                0 <= i < old(state).status@.len() && old(state).status@[i]
                    == NodeStatus::Succeeded ==> state.status@[i] == NodeStatus::Succeeded,
            forall|j: int|
                0 <= j < ci ==> state.status@[g.nodes@[node as int].children@[j] as int]
                    == NodeStatus::Succeeded,
            forall|i: int|
                node <= i < old(state).status@.len() ==> state.status@[i] == old(
                    state,
                ).status@[i],
        decreases g.nodes@[node as int].children@.len() - ci,
    {
        let child = g.nodes[node].children[ci];
        assert(child < node);
        if matches!(state.status[child], NodeStatus::Pending) {
            match execute_node(g, runner, state, child) {
                Ok(()) => {},
                Err(e) => {
                    return Err(e);
                },
            }
        }
        ci += 1;
    }
    state.status.set(node, NodeStatus::Running);
    let outcome = runner.execute(&g.nodes[node].task);
    match judge_outcome(node, outcome) {
        Ok(()) => {
            state.status.set(node, NodeStatus::Succeeded);
            Ok(())
        },
        Err(e) => {
            state.status.set(node, NodeStatus::Failed);
            Err(e)
        },
    }
}

/// The executor's whole failure policy, as one decision on a task's outcome:
/// exit code zero succeeds; a nonzero exit fails the node with exactly that
/// code; a failure to launch the process at all fails the node with exactly
/// that message. Each case is pinned, if and only if.
pub fn judge_outcome(node: usize, outcome: Result<i32, String>) -> (r: Result<(), BuildError>)
    ensures
        r is Ok <==> outcome == Ok::<i32, String>(0i32),
        outcome matches Ok(code) ==> (code != 0 ==> r == Err::<(), BuildError>(
            BuildError::TaskFailed { node, code },
        )),
        outcome matches Err(message) ==> r == Err::<(), BuildError>(
            BuildError::LaunchFailed { node, message },
        ),
{
    match outcome {
        Ok(code) => {
            if code == 0 {
                Ok(())
            } else {
                Err(BuildError::TaskFailed { node, code })
            }
        },
        Err(message) => Err(BuildError::LaunchFailed { node, message }),
    }
}

/// Execute a whole graph from a fresh state: run its terminal node — by
/// construction the link task, which depends on everything else — and hand
/// back the final state beside the result.
pub fn execute_graph<E: Executable>(g: &Graph, runner: &mut E) -> (r: (
    ExecState,
    Result<(), BuildError>,
))
    requires
        g.wf(),
        g.nodes@.len() >= 1,
    ensures
        r.0.inv(g),
        r.0.status@.len() == g.nodes@.len(),
        r.1 is Ok ==> r.0.status@[g.nodes@.len() - 1] == NodeStatus::Succeeded && forall|i: int|
            0 <= i < r.0.status@.len() ==> r.0.status@[i] != NodeStatus::Failed,
        r.1 matches Err(e) ==> {
            &&& e.spec_node() < g.nodes@.len()
            &&& r.0.status@[e.spec_node() as int] == NodeStatus::Failed
            &&& forall|i: int|
                0 <= i < r.0.status@.len() && i != e.spec_node() ==> r.0.status@[i]
                    != NodeStatus::Failed
            &&& e matches BuildError::TaskFailed { code, .. } ==> code != 0
        },
{
    let mut state = ExecState::new(g);
    let result = execute_node(g, runner, &mut state, g.nodes.len() - 1);
    (state, result)
}

/// A failed dependency blocks its dependents for good: in every state the
/// executor can reach, a node one of whose children has failed is still
/// `Pending` — it never started, and so in particular the link node never
/// runs once any compile node has failed.
pub proof fn lemma_failed_child_blocks_parent(g: &Graph, state: &ExecState, parent: int, j: int)
    requires
        state.inv(g),
        0 <= parent < g.nodes@.len(),
        0 <= j < g.nodes@[parent].children@.len(),
        state.status@[g.nodes@[parent].children@[j] as int] == NodeStatus::Failed,
    ensures
        state.status@[parent] == NodeStatus::Pending,
{
    if state.status@[parent] != NodeStatus::Pending {
        assert(state.status@[g.nodes@[parent].children@[j] as int] == NodeStatus::Succeeded);
    }
}

} // verus!
