//! A bridge that lets a work-stealing scheduler run on top of a fixed set of
//! host-managed execution agents instead of operating-system threads.
//!
//! The host environment is single-threaded at the language level; parallelism
//! comes only from pre-provisioned agents, each of which accepts one unit of
//! work and then runs it for the life of the scheduler pool.  The modules here
//! cover the pieces of that bridge:
//!
//! - [`sizing`]: the concurrency sizing policy, which resolves a caller's
//!   optional thread count against the host's reported parallelism.
//! - [`pool`]: agent handles and the fixed-size agent pool, with its
//!   idle/busy bookkeeping and all-or-nothing provisioning.
//! - [`bridge`]: the build session that turns the scheduler's spawn requests
//!   into agent acquisitions and submissions.
//! - [`diag`]: the diagnostics sink that records fallback and failure
//!   reports, and the panic-hook installer.
//!
//! Host calls themselves (creating an agent, submitting work to it, querying
//! parallelism) are performed by the embedding code, which drives these
//! verified components with the outcomes it observes.

pub mod bridge;
pub mod diag;
pub mod pool;
pub mod sizing;
