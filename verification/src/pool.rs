//! The agent pool: a fixed-size collection of host-managed execution
//! agents, with idle/busy bookkeeping and all-or-nothing provisioning.
//!
//! An agent is identified by its index in the pool.  The host-side objects
//! behind the agents (creation, termination, work submission) are driven by
//! the embedding code; this module holds the verified bookkeeping: which
//! agents exist, which are idle, and what provisioning yields for each
//! possible host outcome.

use vstd::prelude::*;
use crate::diag::{Diagnostic, DiagnosticsSink};

verus! {

/// The state of one agent handle: idle until the bridge binds it to a
/// logical scheduler thread, busy afterwards.
#[derive(Clone, Copy, PartialEq, Eq, Structural, Debug)]
pub enum AgentState {
    Idle,
    Busy,
}

/// A provisioning failure: the host refused to create one of the requested
/// agents.  Every agent created before the refusal is torn down, so nothing
/// stays allocated.
#[derive(Clone, Copy, PartialEq, Eq, Structural, Debug)]
pub struct ProvisionError {
    /// How many agents were requested.
    pub requested: usize,
    /// How many the host had created before it refused.
    pub created: usize,
    /// How many of those are torn down again: always all of them.
    pub torn_down: usize,
}

impl ProvisionError {
    /// No agent outlives a failed provisioning call: everything the host
    /// created is torn down again.
    pub open spec fn no_leak(&self) -> bool {
        self.torn_down == self.created
    }
}

/// A fixed-size ordered collection of agent handles.  The size never
/// changes after construction, and an agent moves from idle to busy at
/// most once: the pool offers no way back.
#[derive(Debug)]
pub struct AgentPool {
    agents: Vec<AgentState>,
}

impl AgentPool {
    /// The pool as the sequence of its agents' states, by agent index.
    pub closed spec fn view(&self) -> Seq<AgentState> {
        self.agents@
    }

    /// Every agent in the pool is idle.
    pub open spec fn all_idle(&self) -> bool {
        forall|i: int| 0 <= i < self@.len() ==> self@[i] is Idle
    }

    /// A pool of `n` freshly created, idle agents.
    pub fn new_idle(n: usize) -> (p: AgentPool)
        ensures
            p@.len() == n,
            p.all_idle(),
    {
        let mut agents: Vec<AgentState> = Vec::new();
        let mut i: usize = 0;
        while i < n
            invariant
                i <= n,
                agents@.len() == i,
                forall|j: int| 0 <= j < i ==> agents@[j] is Idle,
            decreases n - i,
        {
            agents.push(AgentState::Idle);
            i = i + 1;
        }
        AgentPool { agents }
    }

    /// How many agents the pool holds.
    pub fn len(&self) -> (n: usize)
        ensures
            n == self@.len(),
    {
        self.agents.len()
    }

    /// The state of agent `i`.
    pub fn state_of(&self, i: usize) -> (s: AgentState)
        requires
            i < self@.len(),
        ensures
            s == self@[i as int],
    {
        self.agents[i]
    }

    /// Hand out one idle agent and mark it busy.  The lowest-numbered idle
    /// agent is chosen.  Requesting an agent from a pool with no idle agent
    /// left is a caller error, excluded by the precondition: the bridge
    /// never requests more acquisitions than agents provisioned.
    pub fn acquire_one(&mut self) -> (i: usize)
        requires
            exists|j: int| 0 <= j < old(self)@.len() && old(self)@[j] is Idle,
        ensures
            i < old(self)@.len(),
            old(self)@[i as int] is Idle,
            forall|j: int| 0 <= j < i ==> !(old(self)@[j] is Idle),
            final(self)@ == old(self)@.update(i as int, AgentState::Busy),
    {
        let n = self.agents.len();
        let mut i: usize = 0;
        loop
            invariant
                i <= n,
                n == self@.len(),
                *self == *old(self),
                forall|j: int| 0 <= j < i ==> !(self@[j] is Idle),
                exists|j: int| 0 <= j < self@.len() && self@[j] is Idle,
            decreases n - i,
        {
            if i < n {
                if matches!(self.agents[i], AgentState::Idle) {
                    self.agents.set(i, AgentState::Busy);
                    return i;
                }
                i = i + 1;
            } else {
                proof {
                    assert(forall|j: int| 0 <= j < self@.len() ==> !(self@[j] is Idle));
                    assert(false);
                }
            }
        }
    }
}

/// Provision an agent pool of `requested` agents against the host.
///
/// `host_created` is how many agents the host actually created before
/// refusing (the embedding code attempts creations one by one and stops at
/// the first refusal).  Partial success is not accepted: either every
/// requested agent was created and a fully idle pool of exactly that size
/// is returned, or a `ProvisionError` is returned that directs the
/// embedding code to tear down every created agent, after one
/// `ProvisionFailed` report on the sink.
pub fn provision(
    requested: usize,
    host_created: usize,
    sink: &mut DiagnosticsSink,
) -> (r: Result<AgentPool, ProvisionError>)
    requires
        host_created <= requested,
    ensures
        host_created == requested ==> (r matches Ok(p) && p@.len() == requested && p.all_idle()
            && final(sink).messages == old(sink).messages),
        host_created < requested ==> (r matches Err(e) && e.requested == requested
            && e.created == host_created && e.no_leak()
            && final(sink).messages@ == old(sink).messages@.push(Diagnostic::ProvisionFailed)),
        final(sink).hook_installed == old(sink).hook_installed,
{
    if host_created == requested {
        Ok(AgentPool::new_idle(requested))
    } else {
        sink.log(Diagnostic::ProvisionFailed);
        Err(ProvisionError { requested, created: host_created, torn_down: host_created })
    }
}

} // verus!
