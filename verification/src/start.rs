//! The start sequence of an environment as a machine: after each phase the
//! caller reports whether it succeeded and is told what comes next.

use vstd::prelude::*;
use crate::lifecycle::ContainerState;

verus! {

/// One phase of the start sequence.
#[derive(Clone, Copy, PartialEq, Eq, Structural, Debug)]
pub enum StartPhase {
    /// Write the build definition where there is none, or compare it.
    SyncDefinition,
    /// Build the image.
    BuildImage,
    /// Start the container, or create and start it.
    Launch,
    /// Run the provisioning command of this index.
    Provision(usize),
    /// Start the shell daemon in the container.
    StartDaemon,
    /// Make the project ignore its own key directory.
    UpdateIgnoreFile,
    /// Authorise the public key in the container.
    InstallKey,
    /// Open the project in an editor.
    OpenEditor,
    /// Attach an interactive shell.
    Attach,
}

/// What follows a phase.
#[derive(Clone, Copy, PartialEq, Eq, Structural, Debug)]
pub enum Transition {
    /// Carry out this phase next.
    Run(StartPhase),
    /// The sequence is complete.
    Finished,
    /// This phase failed, and nothing after it is carried out.
    Aborted(StartPhase),
}

/// What the start sequence depends on.
#[derive(Clone, Copy, PartialEq, Eq, Structural, Debug)]
pub struct StartContext {
    /// The state of the container before the sequence.
    pub state: ContainerState,
    /// The number of provisioning commands.
    pub commands: usize,
    /// Whether remote access is enabled.
    pub remote_enabled: bool,
    /// Whether the image is not to be built.
    pub no_build: bool,
    /// Whether an editor is to be opened.
    pub open: bool,
    /// Whether a shell is to be attached.
    pub attach: bool,
}

/// Whether a failure of the phase ends the sequence. The daemon, the key and
/// the editor are tried and their failure is passed over.
pub open spec fn aborts_on_failure_spec(phase: StartPhase) -> bool {
    match phase {
        StartPhase::StartDaemon | StartPhase::InstallKey | StartPhase::OpenEditor => false,
        _ => true,
    }
}

/// What follows the provisioning commands.
pub open spec fn after_provision(ctx: StartContext) -> StartPhase {
    if ctx.remote_enabled {
        StartPhase::StartDaemon
    } else {
        StartPhase::UpdateIgnoreFile
    }
}

/// What follows the key.
pub open spec fn after_key(ctx: StartContext) -> Transition {
    if ctx.open {
        Transition::Run(StartPhase::OpenEditor)
    } else if ctx.attach {
        Transition::Run(StartPhase::Attach)
    } else {
        Transition::Finished
    }
}

/// How the sequence begins: with nothing where the container runs already.
pub open spec fn first_phase_spec(ctx: StartContext) -> Transition {
    if ctx.state == ContainerState::Running {
        Transition::Finished
    } else {
        Transition::Run(StartPhase::SyncDefinition)
    }
}

/// What follows `phase`, given whether it succeeded.
pub open spec fn next_phase_spec(ctx: StartContext, phase: StartPhase, succeeded: bool) -> Transition {
    if !succeeded && aborts_on_failure_spec(phase) {
        Transition::Aborted(phase)
    } else {
        match phase {
            StartPhase::SyncDefinition => if ctx.no_build {
                Transition::Run(StartPhase::Launch)
            } else {
                Transition::Run(StartPhase::BuildImage)
            },
            StartPhase::BuildImage => Transition::Run(StartPhase::Launch),
            StartPhase::Launch => if ctx.commands > 0 {
                Transition::Run(StartPhase::Provision(0))
            } else {
                Transition::Run(after_provision(ctx))
            },
            StartPhase::Provision(i) => if i + 1 < ctx.commands {
                Transition::Run(StartPhase::Provision((i + 1) as usize))
            } else {
                Transition::Run(after_provision(ctx))
            },
            StartPhase::StartDaemon => Transition::Run(StartPhase::UpdateIgnoreFile),
            StartPhase::UpdateIgnoreFile => Transition::Run(StartPhase::InstallKey),
            StartPhase::InstallKey => after_key(ctx),
            StartPhase::OpenEditor => if ctx.attach {
                Transition::Run(StartPhase::Attach)
            } else {
                Transition::Finished
            },
            StartPhase::Attach => Transition::Finished,
        }
    }
}

/// The place of a phase in the sequence.
pub open spec fn rank(phase: StartPhase) -> int {
    match phase {
        StartPhase::SyncDefinition => 0,
        StartPhase::BuildImage => 1,
        StartPhase::Launch => 2,
        StartPhase::Provision(i) => 3 + i,
        StartPhase::StartDaemon => 3 + usize::MAX + 1,
        StartPhase::UpdateIgnoreFile => 3 + usize::MAX + 2,
        StartPhase::InstallKey => 3 + usize::MAX + 3,
        StartPhase::OpenEditor => 3 + usize::MAX + 4,
        StartPhase::Attach => 3 + usize::MAX + 5,
    }
}

/// Whether a failure of the phase ends the sequence.
pub fn aborts_on_failure(phase: StartPhase) -> (aborts: bool)
    ensures
        aborts == aborts_on_failure_spec(phase),
{
    match phase {
        StartPhase::StartDaemon | StartPhase::InstallKey | StartPhase::OpenEditor => false,
        _ => true,
    }
}

/// How the start sequence begins.
pub fn first_phase(ctx: StartContext) -> (first: Transition)
    ensures
        first == first_phase_spec(ctx),
{
    match ctx.state {
        ContainerState::Running => Transition::Finished,
        _ => Transition::Run(StartPhase::SyncDefinition),
    }
}

/// What follows `phase`, given whether it succeeded.
pub fn next_phase(ctx: StartContext, phase: StartPhase, succeeded: bool) -> (next: Transition)
    ensures
        next == next_phase_spec(ctx, phase, succeeded),
{
    if !succeeded && aborts_on_failure(phase) {
        return Transition::Aborted(phase);
    }
    let after_commands = if ctx.remote_enabled {
        StartPhase::StartDaemon
    } else {
        StartPhase::UpdateIgnoreFile
    };
    match phase {
        StartPhase::SyncDefinition => if ctx.no_build {
            Transition::Run(StartPhase::Launch)
        } else {
            Transition::Run(StartPhase::BuildImage)
        },
        StartPhase::BuildImage => Transition::Run(StartPhase::Launch),
        StartPhase::Launch => if ctx.commands > 0 {
            Transition::Run(StartPhase::Provision(0))
        } else {
            Transition::Run(after_commands)
        },
        StartPhase::Provision(i) => if i < ctx.commands && i + 1 < ctx.commands {
            Transition::Run(StartPhase::Provision(i + 1))
        } else {
            Transition::Run(after_commands)
        },
        StartPhase::StartDaemon => Transition::Run(StartPhase::UpdateIgnoreFile),
        StartPhase::UpdateIgnoreFile => Transition::Run(StartPhase::InstallKey),
        StartPhase::InstallKey => if ctx.open {
            Transition::Run(StartPhase::OpenEditor)
        } else if ctx.attach {
            Transition::Run(StartPhase::Attach)
        } else {
            Transition::Finished
        },
        StartPhase::OpenEditor => if ctx.attach {
            Transition::Run(StartPhase::Attach)
        } else {
            Transition::Finished
        },
        StartPhase::Attach => Transition::Finished,
    }
}

/// The sequence only moves forward, so it ends; and a provisioning command
/// that fails ends it at once, before any later command or phase.
pub proof fn lemma_sequence_advances(ctx: StartContext, phase: StartPhase, succeeded: bool)
    ensures
        next_phase_spec(ctx, phase, succeeded) matches Transition::Run(q) ==> rank(q) > rank(phase),
        phase matches StartPhase::Provision(i) ==> (!succeeded ==> next_phase_spec(ctx, phase, succeeded)
            == Transition::Aborted(phase)),
        phase matches StartPhase::Provision(i) ==> (succeeded && i + 1 < ctx.commands ==> next_phase_spec(
            ctx,
            phase,
            succeeded,
        ) == Transition::Run(StartPhase::Provision((i + 1) as usize))),
{
}

} // verus!
