//! Starting the podman machine and watching it until it stops.
use vstd::pervasive::unreached;
use vstd::prelude::*;

use crate::error::{view_decision, view_result, view_text_result, Error, ErrorView};
use crate::podman::machine::{
    ensure_accepts, ensure_machine, ensure_step, lemma_ensure_protocol, settings_from_env, EnsureState,
    EnsureStateView, MachineSettings, PodmanEnv, CPUS_KEY, DISK_KEY, MEMORY_KEY,
};
use crate::util::process::{
    answers, reply_view, run_then, string_texts, Invocation, InvocationView, Reply, ReplyView, Request, RequestView,
    Step, StepView,
};
use crate::util::text::same_text;
use crate::util::{env_bool, env_or, env_parse};

verus! {

/// Configuration for the podman start + monitor lifecycle.
#[derive(Debug, Clone)]
pub struct StartConfig {
    pub bin: String,
    pub machine: String,
    pub cpus: u32,
    pub memory: u32,
    pub disk: u32,
    pub rootful: bool,
}

impl View for StartConfig {
    type V = MachineSettings;

    open spec fn view(&self) -> MachineSettings {
        MachineSettings {
            bin: self.bin@,
            machine: self.machine@,
            cpus: self.cpus,
            memory: self.memory,
            disk: self.disk,
            rootful: self.rootful,
        }
    }
}

/// A configuration result with its texts taken as characters.
pub open spec fn view_config(r: Result<StartConfig, Error>) -> Result<MachineSettings, ErrorView> {
    match r {
        Ok(c) => Ok(c@),
        Err(e) => Err(e@),
    }
}

/// The arguments that start the machine.
pub open spec fn start_arguments() -> Seq<Seq<char>> {
    seq!["machine"@, "start"@]
}

/// The arguments that ask for the state of the machine `machine`.
pub open spec fn state_arguments(machine: Seq<char>) -> Seq<Seq<char>> {
    seq!["machine"@, "inspect"@, machine, "--format"@, "{{.State}}"@]
}

/// The error reported when the state of `machine` cannot be had.
pub open spec fn inspect_failure(machine: Seq<char>, cause: ErrorView) -> ErrorView {
    ErrorView::MachineInspect { machine, reason: cause.message() }
}

/// The state that an inspection reported, or the empty text where it failed.
pub open spec fn state_text(state: Result<Seq<char>, ErrorView>) -> Seq<char> {
    match state {
        Ok(s) => s,
        Err(_) => Seq::empty(),
    }
}

/// What a failed start gives, from the state inspected after it.
pub open spec fn start_failure(start_error: ErrorView, state: Result<Seq<char>, ErrorView>) -> Result<
    (),
    ErrorView,
> {
    if state_text(state) == "running"@ {
        Ok(())
    } else {
        Err(ErrorView::MachineStart { reason: start_error.message() })
    }
}

/// The command that starts the machine: `{bin} machine start`, with its
/// output.
pub open spec fn start_request(bin: Seq<char>) -> RequestView {
    RequestView::Output(InvocationView { bin, args: start_arguments() })
}

/// The command that reports the state of the machine:
/// `{bin} machine inspect {machine} --format {{.State}}`, by its output.
pub open spec fn state_request(bin: Seq<char>, machine: Seq<char>) -> RequestView {
    RequestView::Output(InvocationView { bin, args: state_arguments(machine) })
}

/// What the state query gives: its output, or its error reported as
/// `MachineInspect` for the machine.
pub open spec fn machine_state(machine: Seq<char>, reply: Result<Seq<char>, ErrorView>) -> Result<
    Seq<char>,
    ErrorView,
> {
    match reply {
        Ok(s) => Ok(s),
        Err(e) => Err(inspect_failure(machine, e)),
    }
}

/// Where starting the machine stands.
#[derive(Debug)]
pub enum StartPhase {
    /// Nothing is run yet.
    Begin,
    /// The machine is being started.
    AwaitStart,
    /// Starting failed with this error; the machine's state is queried.
    AwaitState(Error),
}

/// A [`StartPhase`] with its error taken by its view.
pub enum StartPhaseView {
    Begin,
    AwaitStart,
    AwaitState(ErrorView),
}

impl View for StartPhase {
    type V = StartPhaseView;

    open spec fn view(&self) -> StartPhaseView {
        match self {
            StartPhase::Begin => StartPhaseView::Begin,
            StartPhase::AwaitStart => StartPhaseView::AwaitStart,
            StartPhase::AwaitState(e) => StartPhaseView::AwaitState(e@),
        }
    }
}

/// Where the start sequence stands: making sure of the machine, starting
/// it, then watching it until it stops.
#[derive(Debug)]
pub enum StartState {
    Ensuring(EnsureState),
    Starting(StartPhase),
    /// The machine's state is being queried.
    Watching,
}

/// A [`StartState`] taken by its views.
pub enum StartStateView {
    Ensuring(EnsureStateView),
    Starting(StartPhaseView),
    Watching,
}

impl View for StartState {
    type V = StartStateView;

    open spec fn view(&self) -> StartStateView {
        match self {
            StartState::Ensuring(s) => StartStateView::Ensuring(s@),
            StartState::Starting(p) => StartStateView::Starting(p@),
            StartState::Watching => StartStateView::Watching,
        }
    }
}

/// Whether `reply` answers what the phase `phase` waits for.
pub open spec fn start_accepts(phase: StartPhaseView, reply: Option<ReplyView>) -> bool {
    match phase {
        StartPhaseView::Begin => true,
        _ => reply matches Some(ReplyView::Output(_)),
    }
}

/// Whether `reply` answers what the state `state` waits for.
pub open spec fn start_run_accepts(state: StartStateView, reply: Option<ReplyView>) -> bool {
    match state {
        StartStateView::Ensuring(s) => ensure_accepts(s, reply),
        StartStateView::Starting(p) => start_accepts(p, reply),
        StartStateView::Watching => reply matches Some(ReplyView::Output(_)),
    }
}

/// One step of starting: start the machine; if that fails, query its state
/// and let [`start_failure`] decide.
pub open spec fn start_step(
    bin: Seq<char>,
    machine: Seq<char>,
    phase: StartPhaseView,
    reply: Option<ReplyView>,
) -> StepView<StartPhaseView> {
    match phase {
        StartPhaseView::Begin => run_then(start_request(bin), StartPhaseView::AwaitStart),
        StartPhaseView::AwaitStart => match reply {
            Some(ReplyView::Output(Ok(_))) => StepView::Finish(Ok(())),
            Some(ReplyView::Output(Err(e))) => run_then(
                state_request(bin, machine),
                StartPhaseView::AwaitState(e),
            ),
            _ => arbitrary(),
        },
        StartPhaseView::AwaitState(start_error) => match reply {
            Some(ReplyView::Output(state)) => StepView::Finish(start_failure(start_error, state)),
            _ => arbitrary(),
        },
    }
}

/// One step of watching after the state query replied `reply`: query again
/// while the machine is running, else end as [`monitor_step`] says.
pub open spec fn watch_step(bin: Seq<char>, machine: Seq<char>, reply: Result<Seq<char>, ErrorView>) -> StepView<
    StartStateView,
> {
    match monitor_step(machine_state(machine, reply)) {
        None => run_then(state_request(bin, machine), StartStateView::Watching),
        Some(outcome) => StepView::Finish(outcome),
    }
}

/// One step of the start sequence for the settings `c`: the steps of making
/// sure that the machine exists, whose error ends the sequence and whose
/// success goes on to the steps of starting it; an error in starting ends
/// the sequence, and success goes on to watching the machine until it stops.
pub open spec fn start_run_step(c: MachineSettings, state: StartStateView, reply: Option<ReplyView>) -> StepView<
    StartStateView,
> {
    match state {
        StartStateView::Ensuring(s) => match ensure_step(c, s, reply) {
            StepView::Run { request, next } => run_then(request, StartStateView::Ensuring(next)),
            StepView::Finish(Err(e)) => StepView::Finish(Err(e)),
            StepView::Finish(Ok(())) => run_then(
                start_request(c.bin),
                StartStateView::Starting(StartPhaseView::AwaitStart),
            ),
        },
        StartStateView::Starting(p) => match start_step(c.bin, c.machine, p, reply) {
            StepView::Run { request, next } => run_then(request, StartStateView::Starting(next)),
            StepView::Finish(Err(e)) => StepView::Finish(Err(e)),
            StepView::Finish(Ok(())) => run_then(
                state_request(c.bin, c.machine),
                StartStateView::Watching,
            ),
        },
        StartStateView::Watching => match reply {
            Some(ReplyView::Output(r)) => watch_step(c.bin, c.machine, r),
            _ => arbitrary(),
        },
    }
}

/// One step of the start sequence for the environment `env`: an environment
/// that gives no settings finishes with its error.
pub open spec fn start_run_step_from_env(
    env: PodmanEnv,
    state: StartStateView,
    reply: Option<ReplyView>,
) -> StepView<StartStateView> {
    match settings_from_env(env) {
        Err(e) => StepView::Finish(Err(e)),
        Ok(c) => start_run_step(c, state, reply),
    }
}

/// Whether watching goes on after an inspection of the machine's state:
/// `None` while the machine is running, else how the watch ends.
pub open spec fn monitor_step(state: Result<Seq<char>, ErrorView>) -> Option<Result<(), ErrorView>> {
    match state {
        Err(e) => Some(Err(e)),
        Ok(s) => if s == "running"@ {
            None
        } else {
            Some(Ok(()))
        },
    }
}

impl StartConfig {
    /// Build a [`StartConfig`] from the values of the environment variables.
    ///
    /// # Errors
    ///
    /// Returns an error if any numeric variable is set but unparseable, or
    /// cannot be read.
    pub fn from_env(env: &PodmanEnv) -> (r: Result<Self, Error>)
        ensures
            view_config(r) == settings_from_env(*env),
    {
        let bin = env_or(&env.bin, "podman");
        let machine = env_or(&env.machine, "podman-machine-default");
        let cpus: u32 = env_parse(CPUS_KEY, &env.cpus, 4)?;
        let memory: u32 = env_parse(MEMORY_KEY, &env.memory, 4096)?;
        let disk: u32 = env_parse(DISK_KEY, &env.disk, 60)?;
        let rootful = env_bool(&env.rootful, false);
        Ok(Self { bin, machine, cpus, memory, disk, rootful })
    }
}

/// The arguments that ask for the state of the machine `machine`.
pub fn state_args(machine: &str) -> (r: Vec<String>)
    ensures
        string_texts(r@) == state_arguments(machine@),
{
    let mut args: Vec<String> = Vec::new();
    args.push(String::from_str("machine"));
    args.push(String::from_str("inspect"));
    args.push(machine.to_owned());
    args.push(String::from_str("--format"));
    args.push(String::from_str("{{.State}}"));
    assert(string_texts(args@) =~= state_arguments(machine@));
    args
}

/// Start the podman machine and monitor it until it stops, one step at a
/// time.
///
/// Reads the configuration from the values of the environment variables and,
/// given where the sequence stands and what the last command reported, says
/// which command to run next or how the sequence ends. The caller runs each
/// command (see [`perform`](crate::util::process::perform)) and hands back
/// its reply, starting from `StartState::Ensuring(EnsureState::Begin)`; it
/// pauses before each command that leads to [`StartState::Watching`]. The
/// sequence finishes with `Ok` only once the watched machine is no longer
/// running.
///
/// # Errors
///
/// Finishes with an error if configuration, machine initialisation, start,
/// or a state inspection while watching fails.
pub fn run(env: &PodmanEnv, state: StartState, reply: Option<Reply>) -> (r: Step<StartState>)
    requires
        start_run_accepts(state@, reply_view(reply)),
    ensures
        r@ == start_run_step_from_env(*env, state@, reply_view(reply)),
{
    match StartConfig::from_env(env) {
        Ok(config) => run_with(&config, state, reply),
        Err(e) => Step::Finish(Err(e)),
    }
}

/// Core start + monitor logic, one step at a time: makes sure the machine
/// exists, starts it, then watches it until it stops.
pub fn run_with(config: &StartConfig, state: StartState, reply: Option<Reply>) -> (r: Step<
    StartState,
>)
    requires
        start_run_accepts(state@, reply_view(reply)),
    ensures
        r@ == start_run_step(config@, state@, reply_view(reply)),
{
    match state {
        StartState::Ensuring(s) => match ensure_machine_exists(config, s, reply) {
            Step::Run { request, next } => Step::Run { request, next: StartState::Ensuring(next) },
            Step::Finish(Err(e)) => Step::Finish(Err(e)),
            Step::Finish(Ok(())) => match start_machine(
                config.bin.as_str(),
                config.machine.as_str(),
                StartPhase::Begin,
                None,
            ) {
                Step::Run { request, next } => Step::Run {
                    request,
                    next: StartState::Starting(next),
                },
                Step::Finish(r) => Step::Finish(r),
            },
        },
        StartState::Starting(p) => match start_machine(
            config.bin.as_str(),
            config.machine.as_str(),
            p,
            reply,
        ) {
            Step::Run { request, next } => Step::Run { request, next: StartState::Starting(next) },
            Step::Finish(Err(e)) => Step::Finish(Err(e)),
            Step::Finish(Ok(())) => Step::Run {
                request: state_query(config.bin.as_str(), config.machine.as_str()),
                next: StartState::Watching,
            },
        },
        StartState::Watching => match reply {
            Some(Reply::Output(r)) => match monitor_verdict(
                get_machine_state(config.machine.as_str(), r),
            ) {
                None => Step::Run {
                    request: state_query(config.bin.as_str(), config.machine.as_str()),
                    next: StartState::Watching,
                },
                Some(outcome) => Step::Finish(outcome),
            },
            _ => unreached(),
        },
    }
}

/// One step of ensuring the named machine exists, creating it if necessary.
pub fn ensure_machine_exists(config: &StartConfig, state: EnsureState, reply: Option<Reply>) -> (r:
    Step<EnsureState>)
    requires
        ensure_accepts(state@, reply_view(reply)),
    ensures
        r@ == ensure_step(config@, state@, reply_view(reply)),
{
    ensure_machine(
        config.bin.as_str(),
        config.machine.as_str(),
        config.cpus,
        config.memory,
        config.disk,
        config.rootful,
        state,
        reply,
    )
}

/// One step of starting the machine: issue `{bin} machine start`; if that
/// fails, query the machine's state, and a machine that is running anyway
/// counts as started.
pub fn start_machine(bin: &str, machine: &str, phase: StartPhase, reply: Option<Reply>) -> (r:
    Step<StartPhase>)
    requires
        start_accepts(phase@, reply_view(reply)),
    ensures
        r@ == start_step(bin@, machine@, phase@, reply_view(reply)),
{
    match phase {
        StartPhase::Begin => {
            let mut args: Vec<String> = Vec::new();
            args.push(String::from_str("machine"));
            args.push(String::from_str("start"));
            assert(string_texts(args@) =~= start_arguments());
            Step::Run {
                request: Request::Output(Invocation { bin: bin.to_owned(), args }),
                next: StartPhase::AwaitStart,
            }
        },
        StartPhase::AwaitStart => match reply {
            Some(Reply::Output(Ok(_stdout))) => Step::Finish(Ok(())),
            Some(Reply::Output(Err(e))) => Step::Run {
                request: state_query(bin, machine),
                next: StartPhase::AwaitState(e),
            },
            _ => unreached(),
        },
        StartPhase::AwaitState(start_error) => match reply {
            Some(Reply::Output(state)) => Step::Finish(
                start_failure_outcome(&start_error, get_machine_state(machine, state)),
            ),
            _ => unreached(),
        },
    }
}

/// The command that queries the state of a machine:
/// `{bin} machine inspect {machine} --format {{.State}}`.
pub fn state_query(bin: &str, machine: &str) -> (r: Request)
    ensures
        r@ == state_request(bin@, machine@),
{
    Request::Output(Invocation { bin: bin.to_owned(), args: state_args(machine) })
}

/// The state of a machine from what the state query reported: its output,
/// or [`Error::MachineInspect`] carrying the message of the query's error.
pub fn get_machine_state(machine: &str, reply: Result<String, Error>) -> (r: Result<String, Error>)
    ensures
        view_text_result(r) == machine_state(machine@, view_text_result(reply)),
{
    match reply {
        Ok(state) => Ok(state),
        Err(e) => Err(inspect_error(machine, &e)),
    }
}

/// The error reported when the state of `machine` cannot be had because of
/// `cause`.
pub fn inspect_error(machine: &str, cause: &Error) -> (r: Error)
    ensures
        r@ == inspect_failure(machine@, cause@),
{
    Error::MachineInspect { machine: machine.to_owned(), reason: cause.message() }
}

/// Decides after a failed start: the machine is running anyway, or the
/// start error is reported.
pub fn start_failure_outcome(start_error: &Error, state: Result<String, Error>) -> (r: Result<
    (),
    Error,
>)
    ensures
        view_result(r) == start_failure(start_error@, view_text_result(state)),
{
    let state = match state {
        Ok(s) => s,
        Err(_) => String::new(),
    };
    if same_text(state.as_str(), "running") {
        Ok(())
    } else {
        Err(Error::MachineStart { reason: start_error.message() })
    }
}

/// Decides whether to keep watching the machine after an inspection of its
/// state: `None` while it is running; `Some(Ok(()))` once it reports any
/// other state, so that launchd can restart the agent; the inspection's
/// error if it failed.
pub fn monitor_verdict(state: Result<String, Error>) -> (r: Option<Result<(), Error>>)
    ensures
        view_decision(r) == monitor_step(view_text_result(state)),
{
    match state {
        Err(e) => Some(Err(e)),
        Ok(s) => if same_text(s.as_str(), "running") {
            None
        } else {
            Some(Ok(()))
        },
    }
}

/// A start that fails is followed by a query of the machine's state: a
/// machine that is running anyway counts as started; otherwise the start
/// error's message is reported in `MachineStart`, also when the query
/// fails. A start that succeeds is the last command.
pub proof fn lemma_running_machine_counts_as_started(
    bin: Seq<char>,
    machine: Seq<char>,
    start_error: ErrorView,
    state: Result<Seq<char>, ErrorView>,
    output: Seq<char>,
)
    ensures
        start_step(bin, machine, StartPhaseView::AwaitStart, Some(ReplyView::Output(Ok(output))))
            == StepView::<StartPhaseView>::Finish(Ok(())),
        start_step(bin, machine, StartPhaseView::AwaitStart, Some(ReplyView::Output(Err(start_error))))
            == run_then(state_request(bin, machine), StartPhaseView::AwaitState(start_error)),
        start_step(
            bin,
            machine,
            StartPhaseView::AwaitState(start_error),
            Some(ReplyView::Output(Ok("running"@))),
        ) == StepView::<StartPhaseView>::Finish(Ok(())),
        state_text(state) != "running"@ ==> start_step(
            bin,
            machine,
            StartPhaseView::AwaitState(start_error),
            Some(ReplyView::Output(state)),
        ) == StepView::<StartPhaseView>::Finish(
            Err(ErrorView::MachineStart { reason: start_error.message() }),
        ),
{
}

/// Watching ends exactly when an inspection fails or reports a state other
/// than `running`.
pub proof fn lemma_watch_ends_unless_running(state: Result<Seq<char>, ErrorView>)
    ensures
        monitor_step(state) is None <==> state == Ok::<Seq<char>, ErrorView>("running"@),
{
}

/// While watching, a machine reported as running is queried again; any other
/// state ends the sequence with success, and a failed query ends it with
/// `MachineInspect` carrying the query error's message.
pub proof fn lemma_watch_steps(bin: Seq<char>, machine: Seq<char>, other: Seq<char>, cause: ErrorView)
    requires
        other != "running"@,
    ensures
        watch_step(bin, machine, Ok("running"@)) == run_then(
            state_request(bin, machine),
            StartStateView::Watching,
        ),
        watch_step(bin, machine, Ok(other)) == StepView::<StartStateView>::Finish(Ok(())),
        watch_step(bin, machine, Err(cause)) == StepView::<StartStateView>::Finish(
            Err(inspect_failure(machine, cause)),
        ),
{
}

/// The start sequence finishes with success only while watching: making
/// sure of the machine and starting it either go on or end with an error,
/// and a started machine is always watched.
pub proof fn lemma_success_only_after_watching(
    c: MachineSettings,
    state: StartStateView,
    reply: Option<ReplyView>,
)
    requires
        start_run_accepts(state, reply),
        start_run_step(c, state, reply) == StepView::<StartStateView>::Finish(Ok(())),
    ensures
        state is Watching,
{
}

/// Each command that a start step asks for leads to a state that accepts
/// the reply that command gets.
pub proof fn lemma_start_protocol(
    c: MachineSettings,
    state: StartStateView,
    reply: Option<ReplyView>,
    answer: ReplyView,
)
    requires
        start_run_accepts(state, reply),
        start_run_step(c, state, reply) is Run,
        answers(start_run_step(c, state, reply)->request, answer),
    ensures
        start_run_accepts(start_run_step(c, state, reply)->next, Some(answer)),
{
    if let StartStateView::Ensuring(s) = state {
        if ensure_step(c, s, reply) is Run {
            lemma_ensure_protocol(c, s, reply, answer);
        }
    }
}

/// Whenever making sure of the machine ends well (the machine was there, or
/// was just created, or appeared after a failed init), the next command is
/// `{bin} machine start`, answered in `Starting(AwaitStart)`: a machine is
/// always started before it is watched.
pub proof fn lemma_start_follows_ensure(c: MachineSettings, s: EnsureStateView, reply: Option<ReplyView>)
    requires
        ensure_step(c, s, reply) == StepView::<EnsureStateView>::Finish(Ok(())),
    ensures
        start_run_step(c, StartStateView::Ensuring(s), reply) == (StepView::Run {
            request: RequestView::Output(InvocationView { bin: c.bin, args: seq!["machine"@, "start"@] }),
            next: StartStateView::Starting(StartPhaseView::AwaitStart),
        }),
{
}

/// No step taken while making sure of the machine leads to watching: every
/// command asked for from an `Ensuring` state leads to an `Ensuring` or a
/// `Starting` state.
pub proof fn lemma_no_watch_before_start(c: MachineSettings, s: EnsureStateView, reply: Option<ReplyView>)
    requires
        start_run_step(c, StartStateView::Ensuring(s), reply) is Run,
    ensures
        !(start_run_step(c, StartStateView::Ensuring(s), reply)->next is Watching),
        start_run_step(c, StartStateView::Ensuring(s), reply)->next is Starting ==> start_run_step(
            c,
            StartStateView::Ensuring(s),
            reply,
        ) == (StepView::Run {
            request: RequestView::Output(InvocationView { bin: c.bin, args: seq!["machine"@, "start"@] }),
            next: StartStateView::Starting(StartPhaseView::AwaitStart),
        }),
{
}

} // verus!
