//! The provisioning run as a whole: a fixed chain of states, each reached by
//! one piece of work. A failure ends the run where it stands; nothing that
//! was done is undone, and nothing is tried again.

use vstd::prelude::*;
use crate::error::{AppError, Failure};

verus! {

/// How far a run has come.
#[derive(Debug, Clone, Copy, PartialEq, Eq, Structural)]
pub enum Stage {
    EnvironmentReady,
    ContainerReady,
    ProjectScaffolded,
    ConfigPatched,
    DependenciesInstalled,
    VhostWritten,
    HostAliasRegistered,
    ProxyRestarted,
}

/// The work that leads from one state to the next.
#[derive(Debug, Clone, Copy, PartialEq, Eq, Structural)]
pub enum Work {
    /// Wait for the runtime container.
    WaitForContainer,
    /// Create the project inside it.
    Scaffold,
    /// Apply the rules to the project's environment file.
    PatchConfig,
    /// Clear the cached configuration, migrate, install the dependencies in
    /// both containers, patch the asset-build tool's configuration.
    InstallDependencies,
    /// Write the virtual-host file.
    WriteVhost,
    /// Register the host alias.
    RegisterAlias,
    /// Restart the reverse proxy.
    RestartProxy,
}

impl Stage {
    /// The place of a state in the chain, from 0.
    pub open spec fn rank(self) -> nat {
        match self {
            Stage::EnvironmentReady => 0,
            Stage::ContainerReady => 1,
            Stage::ProjectScaffolded => 2,
            Stage::ConfigPatched => 3,
            Stage::DependenciesInstalled => 4,
            Stage::VhostWritten => 5,
            Stage::HostAliasRegistered => 6,
            Stage::ProxyRestarted => 7,
        }
    }

    /// The state at a place of the chain; the last one beyond it.
    pub open spec fn at(rank: nat) -> Stage {
        if rank == 0 {
            Stage::EnvironmentReady
        } else if rank == 1 {
            Stage::ContainerReady
        } else if rank == 2 {
            Stage::ProjectScaffolded
        } else if rank == 3 {
            Stage::ConfigPatched
        } else if rank == 4 {
            Stage::DependenciesInstalled
        } else if rank == 5 {
            Stage::VhostWritten
        } else if rank == 6 {
            Stage::HostAliasRegistered
        } else {
            Stage::ProxyRestarted
        }
    }

    /// The work that is due in a state; none in the last.
    pub open spec fn spec_work(self) -> Option<Work> {
        match self {
            Stage::EnvironmentReady => Some(Work::WaitForContainer),
            Stage::ContainerReady => Some(Work::Scaffold),
            Stage::ProjectScaffolded => Some(Work::PatchConfig),
            Stage::ConfigPatched => Some(Work::InstallDependencies),
            Stage::DependenciesInstalled => Some(Work::WriteVhost),
            Stage::VhostWritten => Some(Work::RegisterAlias),
            Stage::HostAliasRegistered => Some(Work::RestartProxy),
            Stage::ProxyRestarted => None,
        }
    }

    /// The work that is due in this state; none in the last.
    pub fn work(self) -> (w: Option<Work>)
        ensures
            w == self.spec_work(),
            w is None <==> self == Stage::ProxyRestarted,
    {
        match self {
            Stage::EnvironmentReady => Some(Work::WaitForContainer),
            Stage::ContainerReady => Some(Work::Scaffold),
            Stage::ProjectScaffolded => Some(Work::PatchConfig),
            Stage::ConfigPatched => Some(Work::InstallDependencies),
            Stage::DependenciesInstalled => Some(Work::WriteVhost),
            Stage::VhostWritten => Some(Work::RegisterAlias),
            Stage::HostAliasRegistered => Some(Work::RestartProxy),
            Stage::ProxyRestarted => None,
        }
    }
}

/// Where a run stands.
#[derive(Debug, PartialEq, Eq)]
pub enum Progress {
    /// This state is reached; its work, if any, is due.
    Reached(Stage),
    /// The run ended with this error in the state `at`.
    Aborted { at: Stage, error: AppError },
}

/// `Progress` as contracts see it.
pub enum Standing {
    Reached(Stage),
    Aborted { at: Stage, error: Failure },
}

impl View for Progress {
    type V = Standing;

    open spec fn view(&self) -> Standing {
        match self {
            Progress::Reached(s) => Standing::Reached(*s),
            Progress::Aborted { at, error } => Standing::Aborted { at: *at, error: error@ },
        }
    }
}

/// Where a run stands once the work that was due in `stage` has ended:
/// one state further after a success, aborted in `stage` with the work's
/// error after a failure.
pub open spec fn after_work(stage: Stage, outcome: Result<(), Failure>) -> Standing {
    match outcome {
        Ok(_) => Standing::Reached(Stage::at(stage.rank() + 1)),
        Err(error) => Standing::Aborted { at: stage, error },
    }
}

/// Where a run stands after these pieces of work have ended, the first of
/// them begun in the first state. What comes after an abort, or after the
/// last state, changes nothing.
pub open spec fn after_works(outcomes: Seq<Result<(), Failure>>) -> Standing
    decreases outcomes.len(),
{
    if outcomes.len() == 0 {
        Standing::Reached(Stage::EnvironmentReady)
    } else {
        match after_works(outcomes.drop_last()) {
            Standing::Reached(stage) => if stage.spec_work() is Some {
                after_work(stage, outcomes.last())
            } else {
                Standing::Reached(stage)
            },
            Standing::Aborted { at, error } => Standing::Aborted { at, error },
        }
    }
}

/// The state in which a run begins: the settings are resolved and the
/// project is known.
pub fn start() -> (stage: Stage)
    ensures
        stage == Stage::EnvironmentReady,
{
    Stage::EnvironmentReady
}

/// One step of the run: takes the state in which a piece of work was due
/// and how that work ended, and says where the run stands now.
pub fn run(stage: Stage, outcome: Result<(), AppError>) -> (progress: Progress)
    ensures
        progress@ == after_work(stage, crate::error::outcome_of(outcome)),
{
    match outcome {
        Err(error) => Progress::Aborted { at: stage, error },
        Ok(_) => Progress::Reached(
            match stage {
                Stage::EnvironmentReady => Stage::ContainerReady,
                Stage::ContainerReady => Stage::ProjectScaffolded,
                Stage::ProjectScaffolded => Stage::ConfigPatched,
                Stage::ConfigPatched => Stage::DependenciesInstalled,
                Stage::DependenciesInstalled => Stage::VhostWritten,
                Stage::VhostWritten => Stage::HostAliasRegistered,
                Stage::HostAliasRegistered => Stage::ProxyRestarted,
                Stage::ProxyRestarted => Stage::ProxyRestarted,
            },
        ),
    }
}

/// While every piece of work ends well, the run reaches one state after
/// the other, in the order of the chain.
pub proof fn lemma_reaches_in_order(outcomes: Seq<Result<(), Failure>>, n: int)
    requires
        0 <= n <= outcomes.len(),
        n <= 7,
        forall|j: int| 0 <= j < n ==> (#[trigger] outcomes[j]) is Ok,
    ensures
        after_works(outcomes.take(n)) == Standing::Reached(Stage::at(n as nat)),
    decreases n,
{
    if n > 0 {
        lemma_reaches_in_order(outcomes, n - 1);
        assert(outcomes.take(n).drop_last() =~= outcomes.take(n - 1));
        assert(outcomes.take(n).last() == outcomes[n - 1]);
        assert(outcomes[n - 1] is Ok);
    }
}

/// A run of seven pieces of work that all end well ends in the last state.
pub proof fn lemma_full_run(outcomes: Seq<Result<(), Failure>>)
    requires
        outcomes.len() == 7,
        forall|j: int| 0 <= j < 7 ==> (#[trigger] outcomes[j]) is Ok,
    ensures
        after_works(outcomes) == Standing::Reached(Stage::ProxyRestarted),
{
    lemma_reaches_in_order(outcomes, 7);
    assert(outcomes.take(7) =~= outcomes);
}

/// The first failure ends the run for good: it stands aborted in the state
/// in which the failed work was due, with that work's error, whatever is
/// reported afterwards. No state is left again and no work is repeated.
pub proof fn lemma_failure_aborts(outcomes: Seq<Result<(), Failure>>, k: int, n: int)
    requires
        0 <= k < 7,
        k < n <= outcomes.len(),
        forall|j: int| 0 <= j < k ==> (#[trigger] outcomes[j]) is Ok,
        outcomes[k] is Err,
    ensures
        after_works(outcomes.take(n)) == (Standing::Aborted {
            at: Stage::at(k as nat),
            error: outcomes[k]->Err_0,
        }),
    decreases n,
{
    assert(outcomes.take(n).drop_last() =~= outcomes.take(n - 1));
    assert(outcomes.take(n).last() == outcomes[n - 1]);
    if n == k + 1 {
        lemma_reaches_in_order(outcomes, k);
    } else {
        lemma_failure_aborts(outcomes, k, n - 1);
    }
}

} // verus!
