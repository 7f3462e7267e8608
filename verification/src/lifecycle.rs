//! The lifecycle of an environment's container: what is observed of it, the
//! operations that change it, and what each command asks of the runtime.

use vstd::prelude::*;

verus! {

/// What the runtime shows of a container.
#[derive(Clone, Copy, PartialEq, Eq, Structural, Debug)]
pub enum ContainerState {
    /// No container of that name.
    Absent,
    /// The container is there and does not run.
    Stopped,
    /// The container runs.
    Running,
}

/// An operation on a container; the state changes by these alone.
#[derive(Clone, Copy, PartialEq, Eq, Structural, Debug)]
pub enum RuntimeOp {
    /// Create the container and start it.
    CreateAndStart,
    /// Start the container that is there.
    Start,
    /// Stop the running container.
    Stop,
    /// Remove the container by force.
    Remove,
}

/// What `start` found and did.
#[derive(Clone, Copy, PartialEq, Eq, Structural, Debug)]
pub enum StartDecision {
    /// The container ran already: nothing is done, and nothing is provisioned.
    AlreadyRunning,
    /// The container was stopped: it is started.
    StartExisting,
    /// There was no container: one is created and started.
    CreateFresh,
}

/// What `stop` found and did.
#[derive(Clone, Copy, PartialEq, Eq, Structural, Debug)]
pub enum StopDecision {
    /// The container ran: it is stopped.
    Stop,
    /// The container is there and did not run: nothing is done.
    NotRunning,
    /// There is no container: nothing is done.
    NotCreated,
}

/// What `restart` does before the start sequence.
#[derive(Clone, Copy, PartialEq, Eq, Structural, Debug)]
pub enum RestartDecision {
    /// The container ran: it is stopped, then started.
    StopThenStart,
    /// The container was stopped: it is started.
    StartStopped,
    /// There was no container: one is created.
    StartFresh,
}

/// What `remove` asks of the runtime and of the registry.
#[derive(Clone, Copy, PartialEq, Eq, Structural, Debug)]
pub struct RemovePlan {
    /// Stop the container first.
    pub stop_first: bool,
    /// Remove the container.
    pub remove_container: bool,
    /// Take the environment out of the registry.
    pub unregister: bool,
}

/// What `remove` reports when it is done.
#[derive(Clone, Copy, PartialEq, Eq, Structural, Debug)]
pub struct RemoveReport {
    pub container_existed: bool,
    pub registry_entry_existed: bool,
}

/// The state after an operation that the runtime carried out. An operation
/// that does not fit the state leaves it as it is.
pub open spec fn apply(state: ContainerState, op: RuntimeOp) -> ContainerState {
    match (state, op) {
        (ContainerState::Absent, RuntimeOp::CreateAndStart) => ContainerState::Running,
        (ContainerState::Stopped, RuntimeOp::Start) => ContainerState::Running,
        (ContainerState::Running, RuntimeOp::Stop) => ContainerState::Stopped,
        (ContainerState::Stopped, RuntimeOp::Remove) => ContainerState::Absent,
        (ContainerState::Running, RuntimeOp::Remove) => ContainerState::Absent,
        _ => state,
    }
}

/// The state after a sequence of operations.
pub open spec fn apply_all(state: ContainerState, ops: Seq<RuntimeOp>) -> ContainerState
    decreases ops.len(),
{
    if ops.len() == 0 {
        state
    } else {
        apply(apply_all(state, ops.drop_last()), ops.last())
    }
}

/// The operations that `start` asks for.
pub open spec fn start_ops(state: ContainerState) -> Seq<RuntimeOp> {
    match state {
        ContainerState::Absent => seq![RuntimeOp::CreateAndStart],
        ContainerState::Stopped => seq![RuntimeOp::Start],
        ContainerState::Running => Seq::empty(),
    }
}

/// The operations that `stop` asks for.
pub open spec fn stop_ops(state: ContainerState) -> Seq<RuntimeOp> {
    match state {
        ContainerState::Running => seq![RuntimeOp::Stop],
        _ => Seq::empty(),
    }
}

/// The operations that `remove` asks for.
pub open spec fn remove_ops(state: ContainerState) -> Seq<RuntimeOp> {
    match state {
        ContainerState::Running => seq![RuntimeOp::Stop, RuntimeOp::Remove],
        ContainerState::Stopped => seq![RuntimeOp::Remove],
        ContainerState::Absent => Seq::empty(),
    }
}

/// The operations that `restart` asks for: those of `stop`, then those of
/// `start` on what `stop` left.
pub open spec fn restart_ops(state: ContainerState) -> Seq<RuntimeOp> {
    stop_ops(state) + start_ops(apply_all(state, stop_ops(state)))
}

/// The operations of a removal plan, in the order in which they are made.
pub open spec fn plan_ops(plan: RemovePlan) -> Seq<RuntimeOp> {
    (if plan.stop_first {
        seq![RuntimeOp::Stop]
    } else {
        Seq::<RuntimeOp>::empty()
    }) + (if plan.remove_container {
        seq![RuntimeOp::Remove]
    } else {
        Seq::<RuntimeOp>::empty()
    })
}

/// The state that two answers of the runtime stand for.
pub open spec fn observed(exists: bool, running: bool) -> ContainerState {
    if running {
        ContainerState::Running
    } else if exists {
        ContainerState::Stopped
    } else {
        ContainerState::Absent
    }
}

/// The state that two answers of the runtime show: whether a container of the
/// name is listed at all, and whether it is listed as running.
pub fn observe(exists: bool, running: bool) -> (state: ContainerState)
    ensures
        state == observed(exists, running),
{
    if running {
        ContainerState::Running
    } else if exists {
        ContainerState::Stopped
    } else {
        ContainerState::Absent
    }
}

/// What `start` decides in each state.
pub open spec fn start_decision_spec(state: ContainerState) -> StartDecision {
    match state {
        ContainerState::Running => StartDecision::AlreadyRunning,
        ContainerState::Stopped => StartDecision::StartExisting,
        ContainerState::Absent => StartDecision::CreateFresh,
    }
}

/// Decides what brings the container to run.
pub fn ensure_running(state: ContainerState) -> (decision: StartDecision)
    ensures
        decision == start_decision_spec(state),
        start_decision_ops(decision) == start_ops(state),
        apply_all(state, start_ops(state)) == ContainerState::Running,
{
    proof {
        lemma_start_reaches_running(state);
    }
    match state {
        ContainerState::Running => StartDecision::AlreadyRunning,
        ContainerState::Stopped => StartDecision::StartExisting,
        ContainerState::Absent => StartDecision::CreateFresh,
    }
}

/// The operations that a start decision stands for.
pub open spec fn start_decision_ops(decision: StartDecision) -> Seq<RuntimeOp> {
    match decision {
        StartDecision::AlreadyRunning => Seq::empty(),
        StartDecision::StartExisting => seq![RuntimeOp::Start],
        StartDecision::CreateFresh => seq![RuntimeOp::CreateAndStart],
    }
}

/// The one operation of a start decision, if it has one.
pub fn start_operation(decision: StartDecision) -> (op: Option<RuntimeOp>)
    ensures
        match op {
            Some(o) => start_decision_ops(decision) == seq![o],
            None => start_decision_ops(decision) == Seq::<RuntimeOp>::empty(),
        },
{
    match decision {
        StartDecision::AlreadyRunning => None,
        StartDecision::StartExisting => Some(RuntimeOp::Start),
        StartDecision::CreateFresh => Some(RuntimeOp::CreateAndStart),
    }
}

/// Whether the provisioning commands run after this start decision: they do
/// whenever the container did not run before.
pub fn provisions(decision: StartDecision) -> (runs: bool)
    ensures
        runs == (decision != StartDecision::AlreadyRunning),
{
    match decision {
        StartDecision::AlreadyRunning => false,
        _ => true,
    }
}

/// Decides what `stop` does. To stop what does not run is no failure.
pub fn plan_stop(state: ContainerState) -> (decision: StopDecision)
    ensures
        decision == match state {
            ContainerState::Running => StopDecision::Stop,
            ContainerState::Stopped => StopDecision::NotRunning,
            ContainerState::Absent => StopDecision::NotCreated,
        },
        (decision == StopDecision::Stop) == (stop_ops(state) == seq![RuntimeOp::Stop]),
        (decision != StopDecision::Stop) == (stop_ops(state) == Seq::<RuntimeOp>::empty()),
        apply_all(state, stop_ops(state)) == state_after_stop(state),
{
    proof {
        lemma_stop_result(state);
        assert(seq![RuntimeOp::Stop].len() == 1);
    }
    match state {
        ContainerState::Running => StopDecision::Stop,
        ContainerState::Stopped => StopDecision::NotRunning,
        ContainerState::Absent => StopDecision::NotCreated,
    }
}

/// Decides what `remove` does: a running container is stopped first, a
/// container that is there is removed, and the registry is asked in any case.
pub fn plan_remove(state: ContainerState) -> (plan: RemovePlan)
    ensures
        plan.stop_first == (state == ContainerState::Running),
        plan.remove_container == (state != ContainerState::Absent),
        plan.unregister,
        plan_ops(plan) == remove_ops(state),
        apply_all(state, remove_ops(state)) == ContainerState::Absent,
{
    proof {
        lemma_remove_reaches_absent(state);
    }
    let plan = RemovePlan {
        stop_first: matches!(state, ContainerState::Running),
        remove_container: !matches!(state, ContainerState::Absent),
        unregister: true,
    };
    assert(plan_ops(plan) =~= remove_ops(state));
    plan
}

/// What `remove` reports: whether there was a container, and whether the
/// registry held the environment.
pub fn remove_report(plan: RemovePlan, unregistered: bool) -> (report: RemoveReport)
    ensures
        report.container_existed == plan.remove_container,
        report.registry_entry_existed == unregistered,
{
    RemoveReport { container_existed: plan.remove_container, registry_entry_existed: unregistered }
}

/// Decides what `restart` does before it starts the container.
pub fn plan_restart(state: ContainerState) -> (decision: RestartDecision)
    ensures
        decision == match state {
            ContainerState::Running => RestartDecision::StopThenStart,
            ContainerState::Stopped => RestartDecision::StartStopped,
            ContainerState::Absent => RestartDecision::StartFresh,
        },
        state_after_stop(state) == apply_all(state, stop_ops(state)),
        apply_all(state, restart_ops(state)) == ContainerState::Running,
{
    proof {
        lemma_stop_result(state);
        lemma_restart_reaches_running(state);
    }
    match state {
        ContainerState::Running => RestartDecision::StopThenStart,
        ContainerState::Stopped => RestartDecision::StartStopped,
        ContainerState::Absent => RestartDecision::StartFresh,
    }
}

/// The state that `stop` leaves: a running container is stopped, any other
/// state stays.
pub open spec fn state_after_stop(state: ContainerState) -> ContainerState {
    match state {
        ContainerState::Running => ContainerState::Stopped,
        _ => state,
    }
}

/// The state that the start sequence of a restart finds, once the stop that
/// the decision asks for is done.
pub fn restart_start_state(state: ContainerState) -> (next: ContainerState)
    ensures
        next == state_after_stop(state),
        next != ContainerState::Running,
{
    match state {
        ContainerState::Running => ContainerState::Stopped,
        ContainerState::Stopped => ContainerState::Stopped,
        ContainerState::Absent => ContainerState::Absent,
    }
}

/// One operation alone changes the state as `apply` says.
proof fn lemma_apply_one(state: ContainerState, op: RuntimeOp)
    ensures
        apply_all(state, seq![op]) == apply(state, op),
{
    assert(seq![op].drop_last() =~= Seq::<RuntimeOp>::empty());
    assert(apply_all(state, Seq::<RuntimeOp>::empty()) == state);
}

/// Two operations change the state one after the other.
proof fn lemma_apply_two(state: ContainerState, first: RuntimeOp, second: RuntimeOp)
    ensures
        apply_all(state, seq![first, second]) == apply(apply(state, first), second),
{
    assert(seq![first, second].drop_last() =~= seq![first]);
    lemma_apply_one(state, first);
}

/// From every state the operations of `start` lead to a running container:
/// create and start where there was none, start alone where it was stopped,
/// nothing where it ran.
pub proof fn lemma_start_reaches_running(state: ContainerState)
    ensures
        apply_all(state, start_ops(state)) == ContainerState::Running,
        state == ContainerState::Absent ==> start_ops(state) == seq![RuntimeOp::CreateAndStart],
        state == ContainerState::Stopped ==> start_ops(state) == seq![RuntimeOp::Start],
        state == ContainerState::Running ==> start_ops(state) == Seq::<RuntimeOp>::empty(),
{
    match state {
        ContainerState::Absent => lemma_apply_one(state, RuntimeOp::CreateAndStart),
        ContainerState::Stopped => lemma_apply_one(state, RuntimeOp::Start),
        ContainerState::Running => {},
    }
}

/// The operations of `stop` leave a running container stopped and any other
/// state as it was.
pub proof fn lemma_stop_result(state: ContainerState)
    ensures
        apply_all(state, stop_ops(state)) == state_after_stop(state),
{
    if state == ContainerState::Running {
        lemma_apply_one(state, RuntimeOp::Stop);
    }
}

/// The operations of `remove` leave no container, and where there was none
/// the runtime is asked for nothing, while the registry is still asked.
pub proof fn lemma_remove_reaches_absent(state: ContainerState)
    ensures
        apply_all(state, remove_ops(state)) == ContainerState::Absent,
        state == ContainerState::Absent ==> remove_ops(state) == Seq::<RuntimeOp>::empty(),
{
    match state {
        ContainerState::Running => lemma_apply_two(state, RuntimeOp::Stop, RuntimeOp::Remove),
        ContainerState::Stopped => lemma_apply_one(state, RuntimeOp::Remove),
        ContainerState::Absent => {},
    }
}

/// A restart always provisions: the start sequence that follows its stop
/// never finds the container running.
pub proof fn lemma_restart_provisions(state: ContainerState)
    ensures
        state_after_stop(state) != ContainerState::Running,
        start_decision_spec(state_after_stop(state)) != StartDecision::AlreadyRunning,
{
}

/// The operations of `restart` lead to a running container from every state.
pub proof fn lemma_restart_reaches_running(state: ContainerState)
    ensures
        apply_all(state, restart_ops(state)) == ContainerState::Running,
{
    lemma_stop_result(state);
    match state {
        ContainerState::Running => {
            assert(restart_ops(state) =~= seq![RuntimeOp::Stop, RuntimeOp::Start]);
            lemma_apply_two(state, RuntimeOp::Stop, RuntimeOp::Start);
        },
        ContainerState::Stopped => {
            assert(restart_ops(state) =~= seq![RuntimeOp::Start]);
            lemma_apply_one(state, RuntimeOp::Start);
        },
        ContainerState::Absent => {
            assert(restart_ops(state) =~= seq![RuntimeOp::CreateAndStart]);
            lemma_apply_one(state, RuntimeOp::CreateAndStart);
        },
    }
}

} // verus!
