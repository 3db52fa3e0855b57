//! The bridge: it adapts a work-stealing scheduler's "spawn a worker
//! thread" requests to a fixed pool of host-managed agents.
//!
//! A build is a one-shot, sequential session.  The external scheduler calls
//! its spawn handler once per logical thread it wants started; the handler,
//! written by the embedding code, asks the session which agent comes next,
//! submits the thread main loop to that agent on the host side, and records
//! whether the host accepted the submission.  Any rejected submission
//! aborts the whole build: there are no retries, and no partially built
//! scheduler pool is ever handed out.

use vstd::prelude::*;
use crate::diag::{Diagnostic, DiagnosticsSink};
use crate::pool::{AgentPool, AgentState, provision};
use crate::sizing::{fallback_reported, resolve, resolve_spec};

verus! {

/// Which spawn-count convention a build uses.  Both are in use among
/// integrations, with different agent accounting, so the choice is an
/// explicit parameter rather than an implicit default.
#[derive(Clone, Copy, PartialEq, Eq, Structural, Debug)]
pub enum SpawnMode {
    /// Configure the scheduler for the full concurrency count: one spawned
    /// logical thread, and one agent, per unit of the count.
    Full,
    /// Reserve one slot for the calling thread itself: the scheduler is
    /// configured for one logical thread fewer than the count.
    ReserveCaller,
}

/// How many logical threads the scheduler is configured for, and hence how
/// many spawn requests one build serves: the count itself, or one fewer in
/// reserved-caller mode.
pub open spec fn spawn_target_spec(count: usize, mode: SpawnMode) -> int {
    if mode is ReserveCaller {
        count - 1
    } else {
        count as int
    }
}

/// Compute the spawn target of a build.
pub fn spawn_target(count: usize, mode: SpawnMode) -> (t: usize)
    requires
        count >= 1,
    ensures
        t == spawn_target_spec(count, mode),
{
    match mode {
        SpawnMode::Full => count,
        SpawnMode::ReserveCaller => count - 1,
    }
}

/// A submission failure: the host rejected the work handed to an agent
/// during the spawn request numbered `slot` (counting from 0).  The build
/// it occurred in is aborted as a whole.
#[derive(Clone, Copy, PartialEq, Eq, Structural, Debug)]
pub struct SubmitError {
    /// Which spawn request failed: 0 for the first callback invocation.
    pub slot: usize,
}

/// A ready scheduler pool, as the bridge accounts for it: how many logical
/// threads it was configured with, and which agent hosts each of them.
/// Only a complete, fully spawned pool is ever constructed.
#[derive(Debug)]
pub struct SchedulerPool {
    threads: usize,
    agents: Vec<usize>,
}

impl SchedulerPool {
    /// How many logical threads the pool was configured for.
    pub closed spec fn spec_threads(&self) -> usize {
        self.threads
    }

    /// The agents bound to the pool's logical threads, in spawn order.
    pub closed spec fn spec_agents(&self) -> Seq<usize> {
        self.agents@
    }

    /// One agent per configured thread, and no agent bound twice.
    pub open spec fn wf(&self) -> bool {
        &&& self.spec_agents().len() == self.spec_threads()
        &&& forall|j: int, k: int|
            0 <= j < k < self.spec_agents().len() ==> self.spec_agents()[j] != self.spec_agents()[k]
    }

    /// How many logical threads the pool reports.
    pub fn num_threads(&self) -> (n: usize)
        ensures
            n == self.spec_threads(),
    {
        self.threads
    }

    /// How many agents are bound to the pool.
    pub fn bound_agent_count(&self) -> (n: usize)
        ensures
            n == self.spec_agents().len(),
    {
        self.agents.len()
    }

    /// The agent bound to logical thread `i`.
    pub fn bound_agent(&self, i: usize) -> (a: usize)
        requires
            i < self.spec_agents().len(),
        ensures
            a == self.spec_agents()[i as int],
    {
        self.agents[i]
    }
}

/// Law: in a well-formed scheduler pool every logical thread is hosted by a
/// distinct agent — each spawn request of the build that produced it
/// acquired an agent no earlier request had acquired.
pub proof fn lemma_bound_agents_distinct(p: SchedulerPool)
    requires
        p.wf(),
    ensures
        forall|j: int, k: int|
            0 <= j < p.spec_agents().len() && 0 <= k < p.spec_agents().len() && j != k
                ==> p.spec_agents()[j] != p.spec_agents()[k],
{
}

/// One build of a scheduler pool over an agent pool: tracks which spawn
/// requests have been served, which agents they consumed, and whether a
/// rejected submission has aborted the build.
pub struct BuildSession {
    pool: AgentPool,
    target: usize,
    bound: Vec<usize>,
    failed: Option<SubmitError>,
}

impl BuildSession {
    /// How many spawn requests this build serves in total.
    pub closed spec fn spec_target(&self) -> usize {
        self.target
    }

    /// The agents bound so far, in spawn order.
    pub closed spec fn bound_agents(&self) -> Seq<usize> {
        self.bound@
    }

    /// The states of the underlying agent pool.
    pub closed spec fn pool_states(&self) -> Seq<AgentState> {
        self.pool@
    }

    /// Whether a rejected submission has aborted the build.
    pub closed spec fn spec_aborted(&self) -> bool {
        self.failed is Some
    }

    /// The recorded failure, if the build is aborted.
    pub closed spec fn spec_failure(&self) -> Option<SubmitError> {
        self.failed
    }

    /// Session invariant: the spawn requests served so far consumed the
    /// agents in pool order, one each, and every remaining agent is still
    /// idle while the build is alive.
    pub open spec fn wf(&self) -> bool {
        &&& self.bound_agents().len() <= self.spec_target()
        &&& self.spec_target() <= self.pool_states().len()
        &&& forall|j: int| 0 <= j < self.bound_agents().len() ==> self.bound_agents()[j] == j
        &&& !self.spec_aborted() ==> forall|j: int|
            0 <= j < self.pool_states().len()
                ==> (self.pool_states()[j] is Busy <==> j < self.bound_agents().len())
    }

    /// Start a build over `pool`: the scheduler will be configured for the
    /// spawn target of `count` and `mode`, and the pool must hold at least
    /// that many agents, all still unbound.
    pub fn new(count: usize, mode: SpawnMode, pool: AgentPool) -> (s: BuildSession)
        requires
            count >= 1,
            pool.all_idle(),
            pool@.len() >= spawn_target_spec(count, mode),
        ensures
            s.wf(),
            s.spec_target() == spawn_target_spec(count, mode),
            s.bound_agents().len() == 0,
            !s.spec_aborted(),
    {
        let target = spawn_target(count, mode);
        BuildSession { pool, target, bound: Vec::new(), failed: None }
    }

    /// How many spawn requests are still to be served.
    pub fn remaining(&self) -> (n: usize)
        requires
            self.wf(),
        ensures
            n == self.spec_target() - self.bound_agents().len(),
    {
        self.target - self.bound.len()
    }

    /// Whether a rejected submission has aborted the build.
    pub fn is_aborted(&self) -> (b: bool)
        ensures
            b == self.spec_aborted(),
    {
        self.failed.is_some()
    }

    /// Which agent the next spawn request will consume.  The embedding code
    /// submits the thread main loop to this agent on the host side, then
    /// records the outcome with [`Self::record_spawn`].
    pub fn next_agent(&self) -> (id: usize)
        requires
            self.wf(),
            !self.spec_aborted(),
            self.bound_agents().len() < self.spec_target(),
        ensures
            id == self.bound_agents().len(),
            id < self.pool_states().len(),
            self.pool_states()[id as int] is Idle,
    {
        self.bound.len()
    }

    /// Serve one spawn request: acquire the next agent and record whether
    /// the host accepted the submission of the thread main loop to it.
    ///
    /// On acceptance the agent is bound — distinct from every agent bound
    /// before — and the build goes on.  On rejection the whole build is
    /// aborted: one `SubmitFailed` report is recorded on the sink and the
    /// error names the failing spawn request.
    pub fn record_spawn(&mut self, submit_ok: bool, sink: &mut DiagnosticsSink) -> (r: Result<
        usize,
        SubmitError,
    >)
        requires
            old(self).wf(),
            !old(self).spec_aborted(),
            old(self).bound_agents().len() < old(self).spec_target(),
        ensures
            final(self).wf(),
            final(self).spec_target() == old(self).spec_target(),
            submit_ok ==> (r matches Ok(id) && id == old(self).bound_agents().len()
                && final(self).bound_agents() == old(self).bound_agents().push(id)
                && !final(self).spec_aborted()
                && (forall|j: int| 0 <= j < old(self).bound_agents().len()
                    ==> old(self).bound_agents()[j] != id)
                && final(sink).messages == old(sink).messages),
            !submit_ok ==> (r matches Err(e) && e.slot == old(self).bound_agents().len()
                && final(self).spec_aborted()
                && final(self).spec_failure() == Some(e)
                && final(self).bound_agents() == old(self).bound_agents()
                && final(sink).messages@ == old(sink).messages@.push(Diagnostic::SubmitFailed)),
            final(sink).hook_installed == old(sink).hook_installed,
    {
        proof {
            // Witness for the acquisition: the next agent in pool order is
            // still idle while the build is alive.
            let next = self.bound_agents().len() as int;
            assert(self.pool_states()[next] is Idle);
        }
        let id = self.pool.acquire_one();
        assert(id == self.bound@.len());
        if submit_ok {
            self.bound.push(id);
            Ok(id)
        } else {
            let e = SubmitError { slot: id };
            self.failed = Some(e);
            sink.log(Diagnostic::SubmitFailed);
            Err(e)
        }
    }

    /// Finish the build.  Only a build whose every spawn request was served
    /// successfully yields a scheduler pool; an aborted build yields the
    /// recorded submission error and no pool object at all.
    pub fn finish(self) -> (r: Result<SchedulerPool, SubmitError>)
        requires
            self.wf(),
            self.spec_aborted() || self.bound_agents().len() == self.spec_target(),
        ensures
            !self.spec_aborted() ==> (r matches Ok(p) && p.wf()
                && p.spec_threads() == self.spec_target()
                && p.spec_agents() == self.bound_agents()),
            self.spec_aborted() ==> (r matches Err(e) && Some(e) == self.spec_failure()),
    {
        match self.failed {
            Some(e) => Err(e),
            None => Ok(SchedulerPool { threads: self.target, agents: self.bound }),
        }
    }
}

/// Every submission among the first `target` is accepted by the host.
pub open spec fn all_submits_accepted(outcomes: Seq<bool>, target: int) -> bool {
    forall|k: int| 0 <= k < target ==> outcomes[k]
}

/// Build a scheduler pool from an agent pool the caller already owns.  The
/// scheduler is configured for the spawn target of `count` and `mode`, and
/// each spawn request consumes one agent; `submit_outcomes[k]` is whether
/// the host accepts the `k`-th submission.
///
/// If every submission is accepted the build succeeds, with no report
/// recorded; the first rejected submission aborts the whole build, no
/// scheduler pool is returned, and one `SubmitFailed` report is recorded.
pub fn build_pool_from_existing(
    count: usize,
    mode: SpawnMode,
    pool: AgentPool,
    submit_outcomes: &Vec<bool>,
    sink: &mut DiagnosticsSink,
) -> (r: Result<SchedulerPool, SubmitError>)
    requires
        count >= 1,
        pool.all_idle(),
        pool@.len() >= spawn_target_spec(count, mode),
        submit_outcomes@.len() >= spawn_target_spec(count, mode),
    ensures
        all_submits_accepted(submit_outcomes@, spawn_target_spec(count, mode)) ==> (r matches Ok(p)
            && p.wf() && p.spec_threads() == spawn_target_spec(count, mode)
            && final(sink).messages == old(sink).messages),
        !all_submits_accepted(submit_outcomes@, spawn_target_spec(count, mode)) ==> (r matches Err(e)
            && e.slot < spawn_target_spec(count, mode)
            && !submit_outcomes@[e.slot as int]
            && (forall|j: int| 0 <= j < e.slot ==> submit_outcomes@[j])
            && final(sink).messages@ == old(sink).messages@.push(Diagnostic::SubmitFailed)),
        final(sink).hook_installed == old(sink).hook_installed,
{
    let mut session = BuildSession::new(count, mode, pool);
    let target = spawn_target(count, mode);
    let mut k: usize = 0;
    while k < target
        invariant
            session.wf(),
            !session.spec_aborted(),
            session.spec_target() == spawn_target_spec(count, mode),
            session.bound_agents().len() == k,
            k <= target,
            target == spawn_target_spec(count, mode),
            submit_outcomes@.len() >= target,
            forall|j: int| 0 <= j < k ==> submit_outcomes@[j],
            sink.messages == old(sink).messages,
            sink.hook_installed == old(sink).hook_installed,
        decreases target - k,
    {
        let ok = submit_outcomes[k];
        match session.record_spawn(ok, sink) {
            Ok(_) => {
                k = k + 1;
            },
            Err(e) => {
                return Err(e);
            },
        }
    }
    session.finish()
}

/// Build a scheduler pool when the caller supplies no agent pool: resolve
/// the concurrency count, provision a fresh pool of that size against the
/// host, and build with the full-count convention.
///
/// `host_parallelism` is the host's reported hardware parallelism (if the
/// query is supported), `host_capacity` is how many agents the host can
/// create before it refuses, and `submit_outcomes[k]` is whether the host
/// accepts the `k`-th submission.  Provisioning or submission failure is
/// converted into the absence of a pool, after the failure report the
/// lower-level step records; the caller may then degrade gracefully.
pub fn resolve_and_build_default_pool(
    explicit_count: Option<usize>,
    host_parallelism: Option<usize>,
    host_capacity: usize,
    submit_outcomes: &Vec<bool>,
    sink: &mut DiagnosticsSink,
) -> (r: Option<SchedulerPool>)
    requires
        explicit_count matches Some(n) ==> n >= 1,
        submit_outcomes@.len() >= resolve_spec(explicit_count, host_parallelism),
    ensures
        ({
            let count = resolve_spec(explicit_count, host_parallelism);
            let sizing_reports: Seq<Diagnostic> = if fallback_reported(
                explicit_count,
                host_parallelism,
            ) {
                seq![Diagnostic::SizingFallback]
            } else {
                Seq::empty()
            };
            &&& (host_capacity >= count && all_submits_accepted(submit_outcomes@, count as int))
                ==> (r matches Some(p) && p.wf() && p.spec_threads() == count
                    && final(sink).messages@ == old(sink).messages@ + sizing_reports)
            &&& host_capacity < count ==> (r is None && final(sink).messages@
                == old(sink).messages@ + sizing_reports + seq![Diagnostic::ProvisionFailed])
            &&& (host_capacity >= count && !all_submits_accepted(submit_outcomes@, count as int))
                ==> (r is None && final(sink).messages@
                    == old(sink).messages@ + sizing_reports + seq![Diagnostic::SubmitFailed])
        }),
        final(sink).hook_installed == old(sink).hook_installed,
{
    let count = resolve(explicit_count, host_parallelism, sink);
    let host_created = if host_capacity >= count {
        count
    } else {
        host_capacity
    };
    let ghost sizing_reports: Seq<Diagnostic> = if fallback_reported(
        explicit_count,
        host_parallelism,
    ) {
        seq![Diagnostic::SizingFallback]
    } else {
        Seq::empty()
    };
    proof {
        assert(sink.messages@ =~= old(sink).messages@ + sizing_reports);
    }
    match provision(count, host_created, sink) {
        Ok(pool) => {
            match build_pool_from_existing(count, SpawnMode::Full, pool, submit_outcomes, sink) {
                Ok(p) => {
                    Some(p)
                },
                Err(_) => {
                    proof {
                        assert(sink.messages@ =~= old(sink).messages@ + sizing_reports
                            + seq![Diagnostic::SubmitFailed]);
                    }
                    None
                },
            }
        },
        Err(_) => {
            proof {
                assert(sink.messages@ =~= old(sink).messages@ + sizing_reports
                    + seq![Diagnostic::ProvisionFailed]);
            }
            None
        },
    }
}

} // verus!
