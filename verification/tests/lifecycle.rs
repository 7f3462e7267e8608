use devenv::lifecycle::{
    ensure_running, observe, plan_remove, plan_restart, plan_stop, provisions, remove_report, restart_start_state,
    start_operation, ContainerState, RemovePlan, RemoveReport, RestartDecision, RuntimeOp, StartDecision,
    StopDecision,
};
use devenv::registry::{register_env, unregister_env, Registry};

/// A runtime that holds one container and records what it is asked to do.
struct FakeRuntime {
    state: ContainerState,
    calls: Vec<RuntimeOp>,
}

impl FakeRuntime {
    fn perform(&mut self, op: RuntimeOp) {
        self.calls.push(op);
        self.state = match (self.state, op) {
            (ContainerState::Absent, RuntimeOp::CreateAndStart) => ContainerState::Running,
            (ContainerState::Stopped, RuntimeOp::Start) => ContainerState::Running,
            (ContainerState::Running, RuntimeOp::Stop) => ContainerState::Stopped,
            (ContainerState::Stopped, RuntimeOp::Remove) => ContainerState::Absent,
            (ContainerState::Running, RuntimeOp::Remove) => ContainerState::Absent,
            (state, _) => state,
        };
    }
}

fn start(runtime: &mut FakeRuntime) -> StartDecision {
    let decision = ensure_running(runtime.state);
    if let Some(op) = start_operation(decision) {
        runtime.perform(op);
    }
    decision
}

#[test]
fn observes_the_three_states() {
    assert_eq!(observe(false, false), ContainerState::Absent);
    assert_eq!(observe(true, false), ContainerState::Stopped);
    assert_eq!(observe(true, true), ContainerState::Running);
    assert_eq!(observe(false, true), ContainerState::Running);
}

#[test]
fn start_of_an_absent_container_creates_and_starts() {
    let mut runtime = FakeRuntime { state: ContainerState::Absent, calls: Vec::new() };
    let decision = start(&mut runtime);
    assert_eq!(decision, StartDecision::CreateFresh);
    assert_eq!(runtime.calls, vec![RuntimeOp::CreateAndStart]);
    assert_eq!(runtime.state, ContainerState::Running);
    assert!(provisions(decision));
}

#[test]
fn start_of_a_stopped_container_starts_without_create() {
    let mut runtime = FakeRuntime { state: ContainerState::Stopped, calls: Vec::new() };
    let decision = start(&mut runtime);
    assert_eq!(decision, StartDecision::StartExisting);
    assert_eq!(runtime.calls, vec![RuntimeOp::Start]);
    assert_eq!(runtime.state, ContainerState::Running);
    assert!(provisions(decision));
}

#[test]
fn start_of_a_running_container_does_nothing() {
    let mut runtime = FakeRuntime { state: ContainerState::Running, calls: Vec::new() };
    let decision = start(&mut runtime);
    assert_eq!(decision, StartDecision::AlreadyRunning);
    assert!(runtime.calls.is_empty());
    assert_eq!(runtime.state, ContainerState::Running);
    assert!(!provisions(decision));
    assert_eq!(start_operation(decision), None);
}

#[test]
fn stop_is_no_failure_where_nothing_runs() {
    assert_eq!(plan_stop(ContainerState::Running), StopDecision::Stop);
    assert_eq!(plan_stop(ContainerState::Stopped), StopDecision::NotRunning);
    assert_eq!(plan_stop(ContainerState::Absent), StopDecision::NotCreated);
}

#[test]
fn remove_of_an_absent_container_only_unregisters() {
    let mut runtime = FakeRuntime { state: ContainerState::Absent, calls: Vec::new() };
    let mut reg = Registry::new();
    register_env(&mut reg, "demo", "/tmp/demo").unwrap();
    let plan = plan_remove(runtime.state);
    assert_eq!(plan, RemovePlan { stop_first: false, remove_container: false, unregister: true });
    if plan.stop_first {
        runtime.perform(RuntimeOp::Stop);
    }
    if plan.remove_container {
        runtime.perform(RuntimeOp::Remove);
    }
    assert!(plan.unregister);
    let existed = unregister_env(&mut reg, "demo");
    assert!(runtime.calls.is_empty());
    assert_eq!(
        remove_report(plan, existed),
        RemoveReport { container_existed: false, registry_entry_existed: true }
    );
    assert!(reg.entries.is_empty());
}

#[test]
fn remove_stops_what_runs_and_removes_what_is_there() {
    assert_eq!(
        plan_remove(ContainerState::Running),
        RemovePlan { stop_first: true, remove_container: true, unregister: true }
    );
    assert_eq!(
        plan_remove(ContainerState::Stopped),
        RemovePlan { stop_first: false, remove_container: true, unregister: true }
    );
    assert_eq!(
        remove_report(plan_remove(ContainerState::Stopped), false),
        RemoveReport { container_existed: true, registry_entry_existed: false }
    );
}

#[test]
fn restart_stops_only_what_runs() {
    assert_eq!(plan_restart(ContainerState::Running), RestartDecision::StopThenStart);
    assert_eq!(plan_restart(ContainerState::Stopped), RestartDecision::StartStopped);
    assert_eq!(plan_restart(ContainerState::Absent), RestartDecision::StartFresh);
    assert_eq!(restart_start_state(ContainerState::Running), ContainerState::Stopped);
    assert_eq!(restart_start_state(ContainerState::Stopped), ContainerState::Stopped);
    assert_eq!(restart_start_state(ContainerState::Absent), ContainerState::Absent);
    for state in [ContainerState::Running, ContainerState::Stopped, ContainerState::Absent] {
        let decision = ensure_running(restart_start_state(state));
        assert!(provisions(decision));
    }
}
