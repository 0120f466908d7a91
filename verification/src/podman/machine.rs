//! The podman machine: its settings, and making sure that it exists.
use vstd::pervasive::unreached;
use vstd::prelude::*;

use crate::error::{view_decision, view_result, Error, ErrorView};
use crate::util::process::{
    answers, reply_view, run_then, string_texts, Invocation, InvocationView, Reply, ReplyView, Request, RequestView,
    Step, StepView,
};
use crate::util::text::{decimal, decimal_text};
use crate::util::{env_bool_spec, env_or_spec, env_parse_spec, EnvValue};

verus! {

/// Variable naming the podman binary.
pub const BIN_KEY: &'static str = "KONTENA_PODMAN_BIN";
/// Variable giving the number of CPUs.
pub const CPUS_KEY: &'static str = "KONTENA_PODMAN_CPUS";
/// Variable giving the memory in MiB.
pub const MEMORY_KEY: &'static str = "KONTENA_PODMAN_MEMORY";
/// Variable giving the disk size in GiB.
pub const DISK_KEY: &'static str = "KONTENA_PODMAN_DISK";
/// Variable naming the machine.
pub const MACHINE_KEY: &'static str = "KONTENA_MACHINE_NAME";
/// Variable saying whether the machine is rootful.
pub const ROOTFUL_KEY: &'static str = "KONTENA_PODMAN_ROOTFUL";

/// The environment variables that configure the podman machine, as read.
#[derive(Debug)]
pub struct PodmanEnv {
    pub bin: EnvValue,
    pub machine: EnvValue,
    pub cpus: EnvValue,
    pub memory: EnvValue,
    pub disk: EnvValue,
    pub rootful: EnvValue,
}

/// The settings of a podman machine, with texts taken as characters.
pub struct MachineSettings {
    pub bin: Seq<char>,
    pub machine: Seq<char>,
    pub cpus: u32,
    pub memory: u32,
    pub disk: u32,
    pub rootful: bool,
}

/// The settings that the environment gives, or the first error in it.
pub open spec fn settings_from_env(env: PodmanEnv) -> Result<MachineSettings, ErrorView> {
    match env_parse_spec(CPUS_KEY@, env.cpus, 4u32) {
        Err(e) => Err(e),
        Ok(cpus) => match env_parse_spec(MEMORY_KEY@, env.memory, 4096u32) {
            Err(e) => Err(e),
            Ok(memory) => match env_parse_spec(DISK_KEY@, env.disk, 60u32) {
                Err(e) => Err(e),
                Ok(disk) => Ok(
                    MachineSettings {
                        bin: env_or_spec(env.bin, "podman"@),
                        machine: env_or_spec(env.machine, "podman-machine-default"@),
                        cpus,
                        memory,
                        disk,
                        rootful: env_bool_spec(env.rootful, false),
                    },
                ),
            },
        },
    }
}

/// The arguments that ask whether the machine `machine` exists.
pub open spec fn inspect_arguments(machine: Seq<char>) -> Seq<Seq<char>> {
    seq!["machine"@, "inspect"@, machine]
}

/// The arguments that create a machine with the given resources.
pub open spec fn init_arguments(cpus: u32, memory: u32, disk: u32, rootful: bool) -> Seq<Seq<char>> {
    let base = seq![
        "machine"@,
        "init"@,
        "--cpus"@,
        decimal(cpus as nat),
        "--memory"@,
        decimal(memory as nat),
        "--disk-size"@,
        decimal(disk as nat),
    ];
    if rootful {
        base.push("--rootful"@)
    } else {
        base
    }
}

/// The settings with the given fields.
pub open spec fn settings(
    bin: Seq<char>,
    machine: Seq<char>,
    cpus: u32,
    memory: u32,
    disk: u32,
    rootful: bool,
) -> MachineSettings {
    MachineSettings { bin, machine, cpus, memory, disk, rootful }
}

/// Where making sure of the machine stands.
#[derive(Debug)]
pub enum EnsureState {
    /// Nothing is run yet.
    Begin,
    /// The machine is being inspected.
    AwaitProbe,
    /// The machine is being created.
    AwaitInit,
    /// Creating failed with this error; the machine is inspected again.
    AwaitRecheck(Error),
}

/// An [`EnsureState`] with its error taken by its view.
pub enum EnsureStateView {
    Begin,
    AwaitProbe,
    AwaitInit,
    AwaitRecheck(ErrorView),
}

impl View for EnsureState {
    type V = EnsureStateView;

    open spec fn view(&self) -> EnsureStateView {
        match self {
            EnsureState::Begin => EnsureStateView::Begin,
            EnsureState::AwaitProbe => EnsureStateView::AwaitProbe,
            EnsureState::AwaitInit => EnsureStateView::AwaitInit,
            EnsureState::AwaitRecheck(e) => EnsureStateView::AwaitRecheck(e@),
        }
    }
}

/// The command that tells whether the machine `machine` exists:
/// `{bin} machine inspect {machine}`, by its exit status.
pub open spec fn inspect_request(bin: Seq<char>, machine: Seq<char>) -> RequestView {
    RequestView::Check(InvocationView { bin, args: inspect_arguments(machine) })
}

/// The command that creates the machine:
/// `{bin} machine init --cpus .. --memory .. --disk-size .. [--rootful]`.
pub open spec fn init_request(bin: Seq<char>, cpus: u32, memory: u32, disk: u32, rootful: bool) -> RequestView {
    RequestView::Output(InvocationView { bin, args: init_arguments(cpus, memory, disk, rootful) })
}

/// Whether `reply` answers what the state `state` waits for (any reply, or
/// none, at the beginning).
pub open spec fn ensure_accepts(state: EnsureStateView, reply: Option<ReplyView>) -> bool {
    match state {
        EnsureStateView::Begin => true,
        EnsureStateView::AwaitProbe => reply matches Some(ReplyView::Check(_)),
        EnsureStateView::AwaitInit => reply matches Some(ReplyView::Output(_)),
        EnsureStateView::AwaitRecheck(_) => reply matches Some(ReplyView::Check(_)),
    }
}

/// One step of making sure that the machine exists: inspect it; if it is
/// absent, create it; if creating fails, inspect it again and let
/// [`init_failure`] decide.
pub open spec fn ensure_step(c: MachineSettings, state: EnsureStateView, reply: Option<ReplyView>) -> StepView<
    EnsureStateView,
> {
    let bin = c.bin;
    let machine = c.machine;
    match state {
        EnsureStateView::Begin => StepView::Run {
            request: inspect_request(bin, machine),
            next: EnsureStateView::AwaitProbe,
        },
        EnsureStateView::AwaitProbe => match reply {
            Some(ReplyView::Check(probe)) => match probe_step(probe) {
                Some(outcome) => StepView::Finish(outcome),
                None => StepView::Run {
                    request: init_request(bin, c.cpus, c.memory, c.disk, c.rootful),
                    next: EnsureStateView::AwaitInit,
                },
            },
            _ => arbitrary(),
        },
        EnsureStateView::AwaitInit => match reply {
            Some(ReplyView::Output(Ok(_))) => StepView::Finish(Ok(())),
            Some(ReplyView::Output(Err(e))) => StepView::Run {
                request: inspect_request(bin, machine),
                next: EnsureStateView::AwaitRecheck(e),
            },
            _ => arbitrary(),
        },
        EnsureStateView::AwaitRecheck(init_error) => match reply {
            Some(ReplyView::Check(recheck)) => StepView::Finish(init_failure(init_error, recheck)),
            _ => arbitrary(),
        },
    }
}

/// What the first inspection decides: `None` when the machine is absent and
/// must be created, else the outcome (present: success; failed: its error).
pub open spec fn probe_step(probe: Result<bool, ErrorView>) -> Option<Result<(), ErrorView>> {
    match probe {
        Err(e) => Some(Err(e)),
        Ok(true) => Some(Ok(())),
        Ok(false) => None,
    }
}

/// What a failed init gives, from the inspection that follows it.
pub open spec fn init_failure(init_error: ErrorView, recheck: Result<bool, ErrorView>) -> Result<
    (),
    ErrorView,
> {
    match recheck {
        Err(e) => Err(e),
        Ok(true) => Ok(()),
        Ok(false) => Err(ErrorView::MachineInit { reason: init_error.message() }),
    }
}

/// The arguments that ask whether the machine `machine` exists.
pub fn inspect_args(machine: &str) -> (r: Vec<String>)
    ensures
        string_texts(r@) == inspect_arguments(machine@),
{
    let mut args: Vec<String> = Vec::new();
    args.push(String::from_str("machine"));
    args.push(String::from_str("inspect"));
    args.push(machine.to_owned());
    assert(string_texts(args@) =~= inspect_arguments(machine@));
    args
}

/// The arguments that create a machine with the given resources.
pub fn init_args(cpus: u32, memory: u32, disk: u32, rootful: bool) -> (r: Vec<String>)
    ensures
        string_texts(r@) == init_arguments(cpus, memory, disk, rootful),
{
    let mut args: Vec<String> = Vec::new();
    args.push(String::from_str("machine"));
    args.push(String::from_str("init"));
    args.push(String::from_str("--cpus"));
    args.push(decimal_text(cpus));
    args.push(String::from_str("--memory"));
    args.push(decimal_text(memory));
    args.push(String::from_str("--disk-size"));
    args.push(decimal_text(disk));
    if rootful {
        args.push(String::from_str("--rootful"));
    }
    assert(string_texts(args@) =~= init_arguments(cpus, memory, disk, rootful));
    args
}

/// The command that tells whether the machine `machine` exists:
/// `{bin} machine inspect {machine}`, by its exit status.
pub fn machine_exists(bin: &str, machine: &str) -> (r: Request)
    ensures
        r@ == inspect_request(bin@, machine@),
{
    Request::Check(Invocation { bin: bin.to_owned(), args: inspect_args(machine) })
}

/// Decides after the first inspection: `None` when the machine is absent
/// and must be created; `Some(Ok(()))` when it exists; the inspection's error
/// when it failed.
pub fn probe_decision(probe: Result<bool, Error>) -> (r: Option<Result<(), Error>>)
    ensures
        view_decision(r) == probe_step(view_result(probe)),
{
    match probe {
        Err(e) => Some(Err(e)),
        Ok(true) => Some(Ok(())),
        Ok(false) => None,
    }
}

/// Decides after a failed init: the machine is there after all (another
/// process created it), or the init error is reported.
pub fn init_failure_outcome(init_error: &Error, recheck: Result<bool, Error>) -> (r: Result<
    (),
    Error,
>)
    ensures
        view_result(r) == init_failure(init_error@, view_result(recheck)),
{
    match recheck {
        Err(e) => Err(e),
        Ok(true) => Ok(()),
        Ok(false) => Err(Error::MachineInit { reason: init_error.message() }),
    }
}

/// One step of making sure that the named machine exists, creating it if
/// necessary: given where the sequence stands and what the last command
/// reported, the next command to run, or the outcome.
pub fn ensure_machine(
    bin: &str,
    machine: &str,
    cpus: u32,
    memory: u32,
    disk: u32,
    rootful: bool,
    state: EnsureState,
    reply: Option<Reply>,
) -> (r: Step<EnsureState>)
    requires
        ensure_accepts(state@, reply_view(reply)),
    ensures
        r@ == ensure_step(
            settings(bin@, machine@, cpus, memory, disk, rootful),
            state@,
            reply_view(reply),
        ),
{
    match state {
        EnsureState::Begin => Step::Run {
            request: machine_exists(bin, machine),
            next: EnsureState::AwaitProbe,
        },
        EnsureState::AwaitProbe => match reply {
            Some(Reply::Check(probe)) => match probe_decision(probe) {
                Some(outcome) => Step::Finish(outcome),
                None => Step::Run {
                    request: Request::Output(
                        Invocation {
                            bin: bin.to_owned(),
                            args: init_args(cpus, memory, disk, rootful),
                        },
                    ),
                    next: EnsureState::AwaitInit,
                },
            },
            _ => unreached(),
        },
        EnsureState::AwaitInit => match reply {
            Some(Reply::Output(Ok(_))) => Step::Finish(Ok(())),
            Some(Reply::Output(Err(e))) => Step::Run {
                request: machine_exists(bin, machine),
                next: EnsureState::AwaitRecheck(e),
            },
            _ => unreached(),
        },
        EnsureState::AwaitRecheck(init_error) => match reply {
            Some(Reply::Check(recheck)) => Step::Finish(init_failure_outcome(&init_error, recheck)),
            _ => unreached(),
        },
    }
}

/// A machine that the first inspection reports as present is left as it
/// is: the inspection is the only command, and the outcome is success.
pub proof fn lemma_present_machine_left_alone(c: MachineSettings, reply: Option<ReplyView>)
    ensures
        ensure_step(c, EnsureStateView::Begin, reply) == run_then(
            inspect_request(c.bin, c.machine),
            EnsureStateView::AwaitProbe,
        ),
        ensure_step(c, EnsureStateView::AwaitProbe, Some(ReplyView::Check(Ok(true))))
            == StepView::<EnsureStateView>::Finish(Ok(())),
{
}

/// An absent machine is created with the configured resources. An init that
/// fails is followed by a second inspection: a machine that appeared anyway
/// (another process created it) counts as success; one still absent reports
/// the init error's message in `MachineInit`; a failed inspection reports
/// its own error unchanged.
pub proof fn lemma_init_race_tolerated(c: MachineSettings, init_error: ErrorView, inspect_error: ErrorView)
    ensures
        ensure_step(c, EnsureStateView::AwaitProbe, Some(ReplyView::Check(Ok(false)))) == run_then(
            init_request(c.bin, c.cpus, c.memory, c.disk, c.rootful),
            EnsureStateView::AwaitInit,
        ),
        ensure_step(c, EnsureStateView::AwaitInit, Some(ReplyView::Output(Err(init_error))))
            == run_then(inspect_request(c.bin, c.machine), EnsureStateView::AwaitRecheck(init_error)),
        ensure_step(c, EnsureStateView::AwaitRecheck(init_error), Some(ReplyView::Check(Ok(true))))
            == StepView::<EnsureStateView>::Finish(Ok(())),
        ensure_step(c, EnsureStateView::AwaitRecheck(init_error), Some(ReplyView::Check(Ok(false))))
            == StepView::<EnsureStateView>::Finish(Err(init_failure(init_error, Ok(false))->Err_0)),
        init_failure(init_error, Ok(false)) == Err::<(), ErrorView>(
            ErrorView::MachineInit { reason: init_error.message() },
        ),
        ensure_step(
            c,
            EnsureStateView::AwaitRecheck(init_error),
            Some(ReplyView::Check(Err(inspect_error))),
        ) == StepView::<EnsureStateView>::Finish(Err(inspect_error)),
{
}

/// Each command that a step of making sure asks for leads to a state that
/// accepts the reply that command gets.
pub proof fn lemma_ensure_protocol(
    c: MachineSettings,
    state: EnsureStateView,
    reply: Option<ReplyView>,
    answer: ReplyView,
)
    requires
        ensure_accepts(state, reply),
        ensure_step(c, state, reply) is Run,
        answers(ensure_step(c, state, reply)->request, answer),
    ensures
        ensure_accepts(ensure_step(c, state, reply)->next, Some(answer)),
{
}

} // verus!
