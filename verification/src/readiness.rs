//! Waiting for a service container: one look, then one start of the whole
//! environment, then a bounded number of looks with a pause before each.

use vstd::prelude::*;
use vstd::string::StringExecFns;
use crate::command::{Command, CommandLine, Outcome, Report, Task};
use crate::config::AppConfig;
use crate::container::{
    scaffold_project, scaffold_task, start_environment, start_environment_line, status_query,
    status_query_line,
};
use crate::error::{AppError, Failure};
use crate::input::ProjectInput;
use crate::number::{decimal_of, decimal_text};
use crate::text::{trim, trimmed};

verus! {

/// How many times a started service is looked for.
pub const MAX_ATTEMPTS: u32 = 3;

/// Seconds of pause before each of those looks.
pub const WAIT_SECS: u64 = 3;

/// The service to wait for and the patience to have with it.
#[derive(Debug, PartialEq, Eq)]
pub struct ReadinessPoller {
    pub service: String,
    pub max_attempts: u32,
    pub interval_secs: u64,
}

/// A `ReadinessPoller` as contracts see it.
pub struct Poller {
    pub service: Seq<char>,
    pub max_attempts: u32,
    pub interval_secs: u64,
}

impl View for ReadinessPoller {
    type V = Poller;

    open spec fn view(&self) -> Poller {
        Poller {
            service: self.service@,
            max_attempts: self.max_attempts,
            interval_secs: self.interval_secs,
        }
    }
}

/// Which command is out.
#[derive(Debug, Clone, Copy, PartialEq, Eq, Structural)]
pub enum PollState {
    /// The first look.
    Checking,
    /// The start of the environment.
    Starting,
    /// A look after the start; attempts count from 1.
    Waiting { attempt: u32 },
}

/// What is to happen next.
#[derive(Debug, PartialEq, Eq)]
pub enum PollStep {
    /// Wait `wait_secs` seconds, run `command`, keeping what it prints where
    /// `capture` is set, and report under `state`.
    Run { state: PollState, command: Command, wait_secs: u64, capture: bool },
    /// The wait is over.
    Done(Result<(), AppError>),
}

/// A `PollStep` as contracts see it.
pub enum PollPosition {
    Run { state: PollState, command: CommandLine, wait_secs: u64, capture: bool },
    Done(Result<(), Failure>),
}

impl View for PollStep {
    type V = PollPosition;

    open spec fn view(&self) -> PollPosition {
        match self {
            PollStep::Run { state, command, wait_secs, capture } => PollPosition::Run {
                state: *state,
                command: command@,
                wait_secs: *wait_secs,
                capture: *capture,
            },
            PollStep::Done(r) => PollPosition::Done(crate::error::outcome_of(*r)),
        }
    }
}

/// A look shows the service running where the listing ran and printed more
/// than white space. How the listing ended does not count.
pub open spec fn is_running(outcome: Outcome) -> bool {
    outcome matches Outcome::Ran { output, .. } && trimmed(output).len() > 0
}

impl Poller {
    /// A look, after a pause of `wait_secs` seconds.
    pub open spec fn look(self, state: PollState, wait_secs: u64) -> PollPosition {
        PollPosition::Run {
            state,
            command: status_query_line(self.service),
            wait_secs,
            capture: true,
        }
    }

    /// The error where the service is not running after the last look.
    pub open spec fn exhausted(self) -> Failure {
        Failure::Docker(
            "O contêiner PHP '"@ + self.service + "' falhou ao iniciar após "@ + decimal_of(
                self.max_attempts as nat,
            ) + " tentativas."@,
        )
    }

    /// The first step: a look, at once.
    pub open spec fn begin(self) -> PollPosition {
        self.look(PollState::Checking, 0)
    }

    /// The step after the first start of the environment ended well, and
    /// after each look that did not show the service: the next look, or the
    /// end where no look is left. `done` counts the looks since the start.
    pub open spec fn look_again(self, done: u32) -> PollPosition {
        if done < self.max_attempts {
            self.look(PollState::Waiting { attempt: (done + 1) as u32 }, self.interval_secs)
        } else {
            PollPosition::Done(Err(self.exhausted()))
        }
    }

    /// The step that follows the report of the command that was out.
    ///
    /// The first look ends the wait where it shows the service; whatever
    /// else it gives, the environment is started. A start that fails ends
    /// the wait with an error: it is not tried again. A later look ends the
    /// wait where it shows the service or could not be made.
    pub open spec fn advance(self, state: PollState, outcome: Outcome) -> PollPosition {
        match state {
            PollState::Checking => if is_running(outcome) {
                PollPosition::Done(Ok(()))
            } else {
                PollPosition::Run {
                    state: PollState::Starting,
                    command: start_environment_line(),
                    wait_secs: 0,
                    capture: false,
                }
            },
            PollState::Starting => match outcome {
                Outcome::NotLaunched { reason } => PollPosition::Done(
                    Err(Failure::Docker("Falha ao executar 'docker compose up -d': "@ + reason)),
                ),
                Outcome::Ran { success, status, output } => if success {
                    self.look_again(0)
                } else {
                    PollPosition::Done(
                        Err(
                            Failure::Docker(
                                "Falha ao iniciar o ambiente Docker Compose. Verifique as configurações."@,
                            ),
                        ),
                    )
                },
            },
            PollState::Waiting { attempt } => match outcome {
                Outcome::NotLaunched { reason } => PollPosition::Done(
                    Err(Failure::Docker("Falha ao verificar o status do contêiner: "@ + reason)),
                ),
                Outcome::Ran { success, status, output } => if is_running(outcome) {
                    PollPosition::Done(Ok(()))
                } else {
                    self.look_again(attempt)
                },
            },
        }
    }

    /// Where the wait stands after these reports, each for the command that
    /// was out when it came. Reports that come after the end change nothing.
    pub open spec fn after(self, outcomes: Seq<Outcome>) -> PollPosition
        decreases outcomes.len(),
    {
        if outcomes.len() == 0 {
            self.begin()
        } else {
            match self.after(outcomes.drop_last()) {
                PollPosition::Run { state, command, wait_secs, capture } => self.advance(
                    state,
                    outcomes.last(),
                ),
                PollPosition::Done(r) => PollPosition::Done(r),
            }
        }
    }
}

/// Whether a report of a look shows the service running.
pub fn shows_running(report: &Report) -> (r: bool)
    ensures
        r == is_running(report@),
{
    match report {
        Report::Ran { output, .. } => trim(output.as_str()).as_str().unicode_len() > 0,
        Report::NotLaunched { .. } => false,
    }
}

impl ReadinessPoller {
    /// The poller for `service` with the usual patience: three looks after
    /// the start, three seconds before each.
    pub fn new(service: &str) -> (poller: ReadinessPoller)
        ensures
            poller@ == (Poller {
                service: service@,
                max_attempts: MAX_ATTEMPTS,
                interval_secs: WAIT_SECS,
            }),
    {
        ReadinessPoller {
            service: String::from_str(service),
            max_attempts: MAX_ATTEMPTS,
            interval_secs: WAIT_SECS,
        }
    }

    fn look(&self, state: PollState, wait_secs: u64) -> (step: PollStep)
        ensures
            step@ == self@.look(state, wait_secs),
    {
        PollStep::Run {
            state,
            command: status_query(self.service.as_str()),
            wait_secs,
            capture: true,
        }
    }

    fn look_again(&self, done: u32) -> (step: PollStep)
        ensures
            step@ == self@.look_again(done),
    {
        if done < self.max_attempts {
            self.look(PollState::Waiting { attempt: done + 1 }, self.interval_secs)
        } else {
            PollStep::Done(
                Err(
                    AppError::Docker(
                        String::from_str("O contêiner PHP '").concat(self.service.as_str()).concat(
                            "' falhou ao iniciar após ",
                        ).concat(decimal_text(self.max_attempts as u64).as_str()).concat(
                            " tentativas.",
                        ),
                    ),
                ),
            )
        }
    }

    /// The first step: ask at once whether the service is running.
    pub fn begin(&self) -> (step: PollStep)
        ensures
            step@ == self@.begin(),
    {
        self.look(PollState::Checking, 0)
    }

    /// The step that follows the report of the command that was out under
    /// `state`.
    pub fn advance(&self, state: PollState, report: &Report) -> (step: PollStep)
        ensures
            step@ == self@.advance(state, report@),
    {
        match state {
            PollState::Checking => if shows_running(report) {
                PollStep::Done(Ok(()))
            } else {
                PollStep::Run {
                    state: PollState::Starting,
                    command: start_environment(),
                    wait_secs: 0,
                    capture: false,
                }
            },
            PollState::Starting => match report {
                Report::NotLaunched { reason } => PollStep::Done(
                    Err(
                        AppError::Docker(
                            String::from_str("Falha ao executar 'docker compose up -d': ").concat(
                                reason.as_str(),
                            ),
                        ),
                    ),
                ),
                Report::Ran { success, .. } => if *success {
                    self.look_again(0)
                } else {
                    PollStep::Done(
                        Err(
                            AppError::Docker(
                                String::from_str(
                                    "Falha ao iniciar o ambiente Docker Compose. Verifique as configurações.",
                                ),
                            ),
                        ),
                    )
                },
            },
            PollState::Waiting { attempt } => match report {
                Report::NotLaunched { reason } => PollStep::Done(
                    Err(
                        AppError::Docker(
                            String::from_str("Falha ao verificar o status do contêiner: ").concat(
                                reason.as_str(),
                            ),
                        ),
                    ),
                ),
                Report::Ran { .. } => if shows_running(report) {
                    PollStep::Done(Ok(()))
                } else {
                    self.look_again(attempt)
                },
            },
        }
    }
}

/// A service that is running at the first look is ready at once: the look
/// is the only command, and nothing is started or looked for again.
pub proof fn lemma_ready_at_first_look(poller: Poller, outcomes: Seq<Outcome>)
    requires
        outcomes.len() >= 1,
        is_running(outcomes[0]),
    ensures
        poller.after(outcomes.take(0)) == poller.look(PollState::Checking, 0),
        poller.after(outcomes) == PollPosition::Done(Ok(())),
    decreases outcomes.len(),
{
    assert(outcomes.take(0) =~= Seq::<Outcome>::empty());
    if outcomes.len() == 1 {
        assert(outcomes.drop_last() =~= Seq::<Outcome>::empty());
    } else {
        assert(outcomes.drop_last()[0] == outcomes[0]);
        lemma_ready_at_first_look(poller, outcomes.drop_last());
    }
}

/// After a first look that did not show the service and a start that ended
/// well, while no look shows the service the looks go on one by one, each
/// after the pause.
pub proof fn lemma_keeps_looking(poller: Poller, outcomes: Seq<Outcome>, looks: int)
    requires
        0 <= looks < poller.max_attempts,
        outcomes.len() >= 2 + looks,
        !is_running(outcomes[0]),
        outcomes[1].succeeded(),
        forall|j: int|
            2 <= j < 2 + looks ==> (#[trigger] outcomes[j]) is Ran && !is_running(outcomes[j]),
    ensures
        poller.after(outcomes.take(2 + looks)) == poller.look(
            PollState::Waiting { attempt: (looks + 1) as u32 },
            poller.interval_secs,
        ),
    decreases looks,
{
    let now = outcomes.take(2 + looks);
    assert(now.drop_last() =~= outcomes.take(1 + looks));
    assert(now.last() == outcomes[1 + looks]);
    if looks == 0 {
        let first = outcomes.take(1);
        assert(first.drop_last() =~= Seq::<Outcome>::empty());
        assert(first.last() == outcomes[0]);
        assert(poller.after(Seq::<Outcome>::empty()) == poller.begin());
        assert(poller.after(first) == poller.advance(PollState::Checking, outcomes[0]));
    } else {
        lemma_keeps_looking(poller, outcomes, looks - 1);
    }
}

/// After a first look that did not show the service and a start that ended
/// well, the wait fails as exhausted with the look that is the last one
/// allowed, where none has shown the service: not before, and with no look
/// after it.
pub proof fn lemma_exhausted_after_last_look(poller: Poller, outcomes: Seq<Outcome>)
    requires
        poller.max_attempts >= 1,
        outcomes.len() == 2 + poller.max_attempts,
        !is_running(outcomes[0]),
        outcomes[1].succeeded(),
        forall|j: int|
            2 <= j < outcomes.len() ==> (#[trigger] outcomes[j]) is Ran && !is_running(
                outcomes[j],
            ),
    ensures
        poller.after(outcomes) == PollPosition::Done(Err(poller.exhausted())),
        forall|n: int| 2 <= n < outcomes.len() ==> #[trigger] poller.after(outcomes.take(n)) is Run,
{
    let last = poller.max_attempts - 1;
    lemma_keeps_looking(poller, outcomes, last);
    assert(outcomes.drop_last() =~= outcomes.take(2 + last));
    assert forall|n: int| 2 <= n < outcomes.len() implies #[trigger] poller.after(
        outcomes.take(n),
    ) is Run by {
        lemma_keeps_looking(poller, outcomes, n - 2);
    }
}

/// What creates a project: the wait for the runtime container, then the
/// task that scaffolds the project inside it.
#[derive(Debug, PartialEq, Eq)]
pub struct Creation {
    pub poller: ReadinessPoller,
    pub scaffold: Task,
}

/// The creation of the project: the runtime container is waited for with
/// the usual patience, then the project is created inside it at the version
/// asked for.
pub fn execute_laravel_creation(input: &ProjectInput, config: &AppConfig) -> (creation: Creation)
    ensures
        creation.poller@ == (Poller {
            service: config@.php_container_name,
            max_attempts: MAX_ATTEMPTS,
            interval_secs: WAIT_SECS,
        }),
        creation.scaffold@ == scaffold_task(
            config@.php_container_name,
            input@.name,
            input@.version,
        ),
{
    Creation {
        poller: ReadinessPoller::new(config.php_container_name.as_str()),
        scaffold: scaffold_project(
            config.php_container_name.as_str(),
            input.project_name.as_str(),
            input.laravel_version.as_str(),
        ),
    }
}

} // verus!
