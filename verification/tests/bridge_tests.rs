use web_worker::bridge::{
    build_pool_from_existing, resolve_and_build_default_pool, spawn_target, BuildSession,
    SpawnMode,
};
use web_worker::diag::{Diagnostic, DiagnosticsSink};
use web_worker::pool::AgentPool;

#[test]
fn spawn_target_full_and_reserved() {
    assert_eq!(spawn_target(4, SpawnMode::Full), 4);
    assert_eq!(spawn_target(4, SpawnMode::ReserveCaller), 3);
    assert_eq!(spawn_target(1, SpawnMode::Full), 1);
    assert_eq!(spawn_target(1, SpawnMode::ReserveCaller), 0);
}

#[test]
fn build_with_existing_pool_succeeds_with_full_count() {
    let mut sink = DiagnosticsSink::new();
    let pool = AgentPool::new_idle(4);
    let outcomes = vec![true, true, true, true];
    let scheduler = build_pool_from_existing(4, SpawnMode::Full, pool, &outcomes, &mut sink)
        .unwrap();
    assert_eq!(scheduler.num_threads(), 4);
    assert_eq!(scheduler.bound_agent_count(), 4);
    assert!(sink.messages.is_empty());
}

#[test]
fn build_in_reserved_mode_spawns_one_thread_fewer() {
    let mut sink = DiagnosticsSink::new();
    let pool = AgentPool::new_idle(4);
    let outcomes = vec![true, true, true];
    let scheduler = build_pool_from_existing(
        4,
        SpawnMode::ReserveCaller,
        pool,
        &outcomes,
        &mut sink,
    )
    .unwrap();
    assert_eq!(scheduler.num_threads(), 3);
    assert_eq!(scheduler.bound_agent_count(), 3);
    assert!(sink.messages.is_empty());
}

#[test]
fn build_binds_a_distinct_agent_to_every_thread() {
    let mut sink = DiagnosticsSink::new();
    let pool = AgentPool::new_idle(5);
    let outcomes = vec![true; 5];
    let scheduler = build_pool_from_existing(5, SpawnMode::Full, pool, &outcomes, &mut sink)
        .unwrap();
    let mut seen = Vec::new();
    for i in 0..scheduler.bound_agent_count() {
        let agent = scheduler.bound_agent(i);
        assert!(!seen.contains(&agent));
        seen.push(agent);
    }
    assert_eq!(seen.len(), 5);
}

#[test]
fn submission_failure_aborts_the_whole_build() {
    let mut sink = DiagnosticsSink::new();
    let pool = AgentPool::new_idle(4);
    let outcomes = vec![true, false, true, true];
    let err = build_pool_from_existing(4, SpawnMode::Full, pool, &outcomes, &mut sink)
        .unwrap_err();
    assert_eq!(err.slot, 1);
    assert_eq!(sink.messages, vec![Diagnostic::SubmitFailed]);
}

#[test]
fn submission_failure_on_the_first_request() {
    let mut sink = DiagnosticsSink::new();
    let pool = AgentPool::new_idle(2);
    let outcomes = vec![false, true];
    let err = build_pool_from_existing(2, SpawnMode::Full, pool, &outcomes, &mut sink)
        .unwrap_err();
    assert_eq!(err.slot, 0);
    assert_eq!(sink.messages, vec![Diagnostic::SubmitFailed]);
}

#[test]
fn session_serves_spawn_requests_one_agent_each() {
    let mut sink = DiagnosticsSink::new();
    let pool = AgentPool::new_idle(3);
    let mut session = BuildSession::new(3, SpawnMode::Full, pool);
    assert_eq!(session.remaining(), 3);
    assert!(!session.is_aborted());

    assert_eq!(session.next_agent(), 0);
    assert_eq!(session.record_spawn(true, &mut sink).unwrap(), 0);
    assert_eq!(session.next_agent(), 1);
    assert_eq!(session.record_spawn(true, &mut sink).unwrap(), 1);
    assert_eq!(session.remaining(), 1);
    assert_eq!(session.next_agent(), 2);
    assert_eq!(session.record_spawn(true, &mut sink).unwrap(), 2);
    assert_eq!(session.remaining(), 0);

    let scheduler = session.finish().unwrap();
    assert_eq!(scheduler.num_threads(), 3);
    assert!(sink.messages.is_empty());
}

#[test]
fn aborted_session_returns_the_recorded_failure() {
    let mut sink = DiagnosticsSink::new();
    let pool = AgentPool::new_idle(2);
    let mut session = BuildSession::new(2, SpawnMode::Full, pool);
    session.record_spawn(true, &mut sink).unwrap();
    let err = session.record_spawn(false, &mut sink).unwrap_err();
    assert_eq!(err.slot, 1);
    assert!(session.is_aborted());
    let finish_err = session.finish().unwrap_err();
    assert_eq!(finish_err.slot, 1);
    assert_eq!(sink.messages, vec![Diagnostic::SubmitFailed]);
}

#[test]
fn end_to_end_explicit_count_four() {
    let mut sink = DiagnosticsSink::new();
    let outcomes = vec![true, true, true, true];
    let scheduler = resolve_and_build_default_pool(Some(4), Some(4), 4, &outcomes, &mut sink)
        .unwrap();
    assert_eq!(scheduler.num_threads(), 4);
    assert!(sink.messages.is_empty());
}

#[test]
fn end_to_end_host_reports_eight() {
    let mut sink = DiagnosticsSink::new();
    let outcomes = vec![true; 8];
    let scheduler = resolve_and_build_default_pool(None, Some(8), 8, &outcomes, &mut sink)
        .unwrap();
    assert_eq!(scheduler.num_threads(), 8);
    assert_eq!(scheduler.bound_agent_count(), 8);
    assert!(sink.messages.is_empty());
}

#[test]
fn end_to_end_query_unavailable_uses_fallback() {
    let mut sink = DiagnosticsSink::new();
    let outcomes = vec![true, true];
    let scheduler = resolve_and_build_default_pool(None, None, 2, &outcomes, &mut sink)
        .unwrap();
    assert_eq!(scheduler.num_threads(), 2);
    assert_eq!(sink.messages, vec![Diagnostic::SizingFallback]);
}

#[test]
fn end_to_end_provisioning_failure_yields_no_pool() {
    let mut sink = DiagnosticsSink::new();
    let outcomes = vec![true, true, true, true];
    let result = resolve_and_build_default_pool(Some(4), None, 2, &outcomes, &mut sink);
    assert!(result.is_none());
    assert_eq!(sink.messages, vec![Diagnostic::ProvisionFailed]);
}

#[test]
fn end_to_end_submission_failure_yields_no_pool() {
    let mut sink = DiagnosticsSink::new();
    let outcomes = vec![true, true, false, true];
    let result = resolve_and_build_default_pool(Some(4), None, 4, &outcomes, &mut sink);
    assert!(result.is_none());
    assert_eq!(sink.messages, vec![Diagnostic::SubmitFailed]);
}
