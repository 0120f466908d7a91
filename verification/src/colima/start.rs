//! Starting colima in the foreground.
use vstd::pervasive::unreached;
use vstd::prelude::*;

use crate::error::{view_result, Error, ErrorView};
use crate::util::process::{
    answers, reply_view, run_then, string_texts, Invocation, InvocationView, Reply, ReplyView, Request,
    RequestView, Step, StepView,
};
use crate::util::text::decimal_text;
use crate::util::text::{decimal, is_digit, lemma_decimal_digits};
use crate::util::validate::{not_allowed, one_of, out_of_range, range, texts};
use crate::util::{env_or, env_or_spec, env_parse, env_parse_spec, EnvValue};

verus! {

/// Variable naming the colima binary.
pub const BIN_KEY: &'static str = "KONTENA_COLIMA_BIN";
/// Variable giving the number of CPUs.
pub const CPUS_KEY: &'static str = "KONTENA_COLIMA_CPUS";
/// Variable giving the memory in GiB.
pub const MEMORY_KEY: &'static str = "KONTENA_COLIMA_MEMORY";
/// Variable giving the disk size in GiB.
pub const DISK_KEY: &'static str = "KONTENA_COLIMA_DISK";
/// Variable giving the VM type.
pub const VM_TYPE_KEY: &'static str = "KONTENA_COLIMA_VM_TYPE";
/// Variable giving the container runtime.
pub const RUNTIME_KEY: &'static str = "KONTENA_COLIMA_RUNTIME";
/// Variable saying whether to use Rosetta.
pub const ROSETTA_KEY: &'static str = "KONTENA_COLIMA_ROSETTA";

/// The environment variables that configure colima, as read.
#[derive(Debug)]
pub struct ColimaEnv {
    pub bin: EnvValue,
    pub cpus: EnvValue,
    pub memory: EnvValue,
    pub disk: EnvValue,
    pub vm_type: EnvValue,
    pub runtime: EnvValue,
    pub rosetta: EnvValue,
}

/// The configuration of a colima start.
#[derive(Debug)]
pub struct ColimaConfig {
    pub bin: String,
    pub cpus: u32,
    pub memory: u32,
    pub disk: u32,
    pub vm_type: String,
    pub runtime: String,
    pub rosetta: bool,
}

/// A [`ColimaConfig`] with its texts taken as characters.
pub struct ColimaConfigView {
    pub bin: Seq<char>,
    pub cpus: u32,
    pub memory: u32,
    pub disk: u32,
    pub vm_type: Seq<char>,
    pub runtime: Seq<char>,
    pub rosetta: bool,
}

impl View for ColimaConfig {
    type V = ColimaConfigView;

    open spec fn view(&self) -> ColimaConfigView {
        ColimaConfigView {
            bin: self.bin@,
            cpus: self.cpus,
            memory: self.memory,
            disk: self.disk,
            vm_type: self.vm_type@,
            runtime: self.runtime@,
            rosetta: self.rosetta,
        }
    }
}

/// The VM types that colima accepts.
pub open spec fn vm_types() -> Seq<Seq<char>> {
    seq!["vz"@, "qemu"@]
}

/// The container runtimes that colima accepts.
pub open spec fn runtimes() -> Seq<Seq<char>> {
    seq!["docker"@, "containerd"@]
}

/// The configuration that the environment gives, or the first error in it.
pub open spec fn config_from_env(env: ColimaEnv) -> Result<ColimaConfigView, ErrorView> {
    match env_parse_spec(CPUS_KEY@, env.cpus, 4u32) {
        Err(e) => Err(e),
        Ok(cpus) => match env_parse_spec(MEMORY_KEY@, env.memory, 8u32) {
            Err(e) => Err(e),
            Ok(memory) => match env_parse_spec(DISK_KEY@, env.disk, 60u32) {
                Err(e) => Err(e),
                Ok(disk) => match env_parse_spec(ROSETTA_KEY@, env.rosetta, true) {
                    Err(e) => Err(e),
                    Ok(rosetta) => Ok(
                        ColimaConfigView {
                            bin: env_or_spec(env.bin, "colima"@),
                            cpus,
                            memory,
                            disk,
                            vm_type: env_or_spec(env.vm_type, "vz"@),
                            runtime: env_or_spec(env.runtime, "docker"@),
                            rosetta,
                        },
                    ),
                },
            },
        },
    }
}

/// The first check that `c` fails, if any.
pub open spec fn config_check(c: ColimaConfigView) -> Result<(), ErrorView> {
    if !(1 <= c.cpus <= 256) {
        Err(out_of_range("cpus"@, c.cpus, 1, 256))
    } else if !(1 <= c.memory <= 256) {
        Err(out_of_range("memory"@, c.memory, 1, 256))
    } else if !(5 <= c.disk <= 2048) {
        Err(out_of_range("disk"@, c.disk, 5, 2048))
    } else if !vm_types().contains(c.vm_type) {
        Err(not_allowed("vm_type"@, c.vm_type, vm_types()))
    } else if !runtimes().contains(c.runtime) {
        Err(not_allowed("runtime"@, c.runtime, runtimes()))
    } else {
        Ok(())
    }
}

/// The first error in the configuration that the environment gives, if any:
/// a variable that cannot be had, else a value that fails its check.
pub open spec fn config_error(env: ColimaEnv) -> Option<ErrorView> {
    match config_from_env(env) {
        Err(e) => Some(e),
        Ok(c) => match config_check(c) {
            Err(e) => Some(e),
            Ok(()) => None,
        },
    }
}

/// The arguments of `colima` for the configuration `c`.
pub open spec fn start_arguments(c: ColimaConfigView) -> Seq<Seq<char>> {
    let base = seq![
        "start"@,
        "--cpu"@,
        decimal(c.cpus as nat),
        "--memory"@,
        decimal(c.memory as nat),
        "--disk"@,
        decimal(c.disk as nat),
        "--vm-type"@,
        c.vm_type,
        "--runtime"@,
        c.runtime,
        "--foreground"@,
    ];
    if c.rosetta && c.vm_type == "vz"@ {
        base.push("--vz-rosetta"@)
    } else {
        base
    }
}

/// A configuration result with its texts taken as characters.
pub open spec fn config_view(r: Result<ColimaConfig, Error>) -> Result<ColimaConfigView, ErrorView> {
    match r {
        Ok(c) => Ok(c@),
        Err(e) => Err(e@),
    }
}

impl ColimaConfig {
    /// Build a [`ColimaConfig`] from the values of the environment variables.
    ///
    /// # Errors
    ///
    /// Returns the error of the first numeric or boolean variable that is set
    /// but unparseable, or cannot be read.
    pub fn from_env(env: &ColimaEnv) -> (r: Result<ColimaConfig, Error>)
        ensures
            config_view(r) == config_from_env(*env),
    {
        let bin = env_or(&env.bin, "colima");
        let cpus: u32 = env_parse(CPUS_KEY, &env.cpus, 4)?;
        let memory: u32 = env_parse(MEMORY_KEY, &env.memory, 8)?;
        let disk: u32 = env_parse(DISK_KEY, &env.disk, 60)?;
        let vm_type = env_or(&env.vm_type, "vz");
        let runtime = env_or(&env.runtime, "docker");
        let rosetta: bool = env_parse(ROSETTA_KEY, &env.rosetta, true)?;
        Ok(ColimaConfig { bin, cpus, memory, disk, vm_type, runtime, rosetta })
    }

    /// Validate all config values against their allowed ranges and lists.
    pub fn validate(&self) -> (r: Result<(), Error>)
        ensures
            view_result(r) == config_check(self@),
    {
        validate_range("cpus", self.cpus, 1, 256)?;
        validate_range("memory", self.memory, 1, 256)?;
        validate_range("disk", self.disk, 5, 2048)?;
        let allowed_vm_types: [&str; 2] = ["vz", "qemu"];
        proof {
            assert(texts(allowed_vm_types@) =~= vm_types());
        }
        validate_enum("vm_type", self.vm_type.as_str(), &allowed_vm_types)?;
        let allowed_runtimes: [&str; 2] = ["docker", "containerd"];
        proof {
            assert(texts(allowed_runtimes@) =~= runtimes());
        }
        validate_enum("runtime", self.runtime.as_str(), &allowed_runtimes)?;
        Ok(())
    }

    /// The arguments of `colima` for this configuration.
    pub fn start_args(&self) -> (r: Vec<String>)
        ensures
            string_texts(r@) == start_arguments(self@),
    {
        let mut args: Vec<String> = Vec::new();
        args.push(String::from_str("start"));
        args.push(String::from_str("--cpu"));
        args.push(decimal_text(self.cpus));
        args.push(String::from_str("--memory"));
        args.push(decimal_text(self.memory));
        args.push(String::from_str("--disk"));
        args.push(decimal_text(self.disk));
        args.push(String::from_str("--vm-type"));
        args.push(self.vm_type.clone());
        args.push(String::from_str("--runtime"));
        args.push(self.runtime.clone());
        args.push(String::from_str("--foreground"));
        proof {
            reveal_strlit("vz");
        }
        if self.rosetta && crate::util::text::same_text(self.vm_type.as_str(), "vz") {
            args.push(String::from_str("--vz-rosetta"));
        }
        assert(string_texts(args@) =~= start_arguments(self@));
        args
    }
}

/// The command that starts colima for the environment `env`, or the first
/// configuration error.
pub open spec fn start_plan(env: ColimaEnv) -> Result<InvocationView, ErrorView> {
    match config_error(env) {
        Some(e) => Err(e),
        None => {
            let c = config_from_env(env)->Ok_0;
            Ok(InvocationView { bin: c.bin, args: start_arguments(c) })
        },
    }
}

/// The view of a planned command or its error.
pub open spec fn view_plan(r: Result<Invocation, Error>) -> Result<InvocationView, ErrorView> {
    match r {
        Ok(i) => Ok(i@),
        Err(e) => Err(e@),
    }
}

/// Reads and validates the configuration and builds the colima command.
///
/// # Errors
///
/// Returns the first configuration error: a variable that is set but
/// cannot be parsed or read, else a value out of its range or list.
pub fn plan(env: &ColimaEnv) -> (r: Result<Invocation, Error>)
    ensures
        view_plan(r) == start_plan(*env),
{
    let config = match ColimaConfig::from_env(env) {
        Ok(config) => config,
        Err(e) => return Err(e),
    };
    if let Err(e) = config.validate() {
        return Err(e);
    }
    let args = config.start_args();
    Ok(Invocation { bin: config.bin, args })
}

/// Where starting colima stands.
#[derive(Debug, Clone, Copy, PartialEq, Eq)]
pub enum ExecState {
    /// Nothing is run yet.
    Begin,
    /// colima is being exec'd.
    AwaitExec,
}

impl View for ExecState {
    type V = ExecState;

    open spec fn view(&self) -> ExecState {
        *self
    }
}

/// Whether `reply` answers what the state `state` waits for.
pub open spec fn colima_accepts(state: ExecState, reply: Option<ReplyView>) -> bool {
    match state {
        ExecState::Begin => true,
        ExecState::AwaitExec => reply matches Some(ReplyView::Exec(_)),
    }
}

/// One step of starting colima for the environment `env`: a configuration
/// error finishes at once, before any command; otherwise colima is exec'd
/// once with the planned command, and what the exec reports is the outcome.
pub open spec fn colima_step(env: ColimaEnv, state: ExecState, reply: Option<ReplyView>) -> StepView<ExecState> {
    match state {
        ExecState::Begin => match start_plan(env) {
            Err(e) => StepView::Finish(Err(e)),
            Ok(command) => run_then(RequestView::Exec(command), ExecState::AwaitExec),
        },
        ExecState::AwaitExec => match reply {
            Some(ReplyView::Exec(r)) => StepView::Finish(r),
            _ => arbitrary(),
        },
    }
}

/// Start colima in foreground mode, one step at a time.
///
/// Validates all configuration from the values of the environment variables,
/// builds the argument list, and then asks for colima to be `exec`'d so that
/// it replaces the current process. Colima runs in `--foreground` mode -- it
/// blocks until stopped and launchd restarts the agent when it exits. The
/// caller runs the command (see [`perform`](crate::util::process::perform))
/// and hands back its reply, starting from [`ExecState::Begin`].
///
/// # Errors
///
/// Finishes with the first configuration error, without running anything;
/// else with what the exec reports.
pub fn run(env: &ColimaEnv, state: ExecState, reply: Option<Reply>) -> (r: Step<ExecState>)
    requires
        colima_accepts(state, reply_view(reply)),
    ensures
        r@ == colima_step(*env, state, reply_view(reply)),
{
    match state {
        ExecState::Begin => match plan(env) {
            Err(e) => Step::Finish(Err(e)),
            Ok(command) => Step::Run { request: Request::Exec(command), next: ExecState::AwaitExec },
        },
        ExecState::AwaitExec => match reply {
            Some(Reply::Exec(r)) => Step::Finish(r),
            _ => unreached(),
        },
    }
}

/// Validate that `value` falls within `[min, max]` (inclusive).
///
/// # Errors
///
/// Returns [`Error::OutOfRange`], whose message is
/// `{name}={value} is out of range [{min}, {max}]`.
pub fn validate_range(name: &str, value: u32, min: u32, max: u32) -> (r: Result<(), Error>)
    ensures
        r is Ok <==> min <= value <= max,
        r matches Err(e) ==> e@ == out_of_range(name@, value, min, max),
{
    range(name, &value, &min, &max)
}

/// Validate that `value` is one of `allowed`.
///
/// # Errors
///
/// Returns [`Error::InvalidEnum`], whose message is
/// `{name}={value:?} is not one of [{allowed, quoted}]`.
pub fn validate_enum(name: &str, value: &str, allowed: &[&str]) -> (r: Result<(), Error>)
    ensures
        r is Ok <==> texts(allowed@).contains(value@),
        r matches Err(e) ==> e@ == not_allowed(name@, value@, texts(allowed@)),
{
    one_of(name, value, allowed)
}

} // verus!

verus! {

/// For a configuration that passes its checks, colima is asked for Rosetta
/// (`--vz-rosetta`) exactly when Rosetta is wanted and the VM type is `vz`.
pub proof fn lemma_rosetta_only_with_vz(c: ColimaConfigView)
    requires
        config_check(c) is Ok,
    ensures
        start_arguments(c).contains("--vz-rosetta"@) <==> (c.rosetta && c.vm_type == "vz"@),
{
    let flag = "--vz-rosetta"@;
    reveal_strlit("--vz-rosetta");
    reveal_strlit("start");
    reveal_strlit("--cpu");
    reveal_strlit("--memory");
    reveal_strlit("--disk");
    reveal_strlit("--vm-type");
    reveal_strlit("--runtime");
    reveal_strlit("--foreground");
    reveal_strlit("vz");
    reveal_strlit("qemu");
    reveal_strlit("docker");
    reveal_strlit("containerd");
    lemma_decimal_digits(c.cpus as nat);
    lemma_decimal_digits(c.memory as nat);
    lemma_decimal_digits(c.disk as nat);
    assert(!is_digit(flag[0]));
    assert(vm_types().contains(c.vm_type));
    assert(runtimes().contains(c.runtime));
    assert(c.vm_type != flag) by {
        assert(c.vm_type == "vz"@ || c.vm_type == "qemu"@);
        assert(flag.len() != "vz"@.len() && flag.len() != "qemu"@.len());
    }
    assert(c.runtime != flag) by {
        assert(c.runtime == "docker"@ || c.runtime == "containerd"@);
        assert(flag.len() != "docker"@.len() && flag.len() != "containerd"@.len());
    }
    let base = seq![
        "start"@,
        "--cpu"@,
        decimal(c.cpus as nat),
        "--memory"@,
        decimal(c.memory as nat),
        "--disk"@,
        decimal(c.disk as nat),
        "--vm-type"@,
        c.vm_type,
        "--runtime"@,
        c.runtime,
        "--foreground"@,
    ];
    assert forall|i: int| 0 <= i < base.len() implies base[i] != flag by {
        if i == 2 || i == 4 || i == 6 {
            assert(is_digit(base[i][0]));
        } else if i == 11 {
            assert(base[i][2] != flag[2]);
        } else if i != 8 && i != 10 {
            assert(base[i].len() != flag.len());
        }
    }
    if c.rosetta && c.vm_type == "vz"@ {
        assert(start_arguments(c)[12] == flag);
    } else {
        assert(start_arguments(c) == base);
    }
}

/// The defaults, which an environment with none of the variables set gives,
/// pass every check, so colima is started with them.
pub proof fn lemma_defaults_are_valid(env: ColimaEnv)
    requires
        env.cpus is Missing,
        env.memory is Missing,
        env.disk is Missing,
        env.vm_type is Missing,
        env.runtime is Missing,
        env.rosetta is Missing,
    ensures
        config_error(env) is None,
{
    let c = config_from_env(env)->Ok_0;
    assert(vm_types()[0] == c.vm_type);
    assert(runtimes()[0] == c.runtime);
}

/// The command that a colima step asks for leads to a state that accepts
/// the reply that command gets.
pub proof fn lemma_colima_protocol(
    env: ColimaEnv,
    state: ExecState,
    reply: Option<ReplyView>,
    answer: ReplyView,
)
    requires
        colima_accepts(state, reply),
        colima_step(env, state, reply) is Run,
        answers(colima_step(env, state, reply)->request, answer),
    ensures
        colima_accepts(colima_step(env, state, reply)->next, Some(answer)),
{
}

/// Each configured value stands right after its flag in the arguments of
/// colima: `start --cpu {cpus} --memory {memory} --disk {disk} --vm-type
/// {vm_type} --runtime {runtime} --foreground`, then `--vz-rosetta` alone
/// when Rosetta is wanted with the `vz` VM type.
pub proof fn lemma_arguments_carry_the_configuration(c: ColimaConfigView)
    ensures
        start_arguments(c).len() == if c.rosetta && c.vm_type == "vz"@ {
            13int
        } else {
            12int
        },
        start_arguments(c)[0] == "start"@,
        start_arguments(c)[1] == "--cpu"@,
        start_arguments(c)[2] == decimal(c.cpus as nat),
        start_arguments(c)[3] == "--memory"@,
        start_arguments(c)[4] == decimal(c.memory as nat),
        start_arguments(c)[5] == "--disk"@,
        start_arguments(c)[6] == decimal(c.disk as nat),
        start_arguments(c)[7] == "--vm-type"@,
        start_arguments(c)[8] == c.vm_type,
        start_arguments(c)[9] == "--runtime"@,
        start_arguments(c)[10] == c.runtime,
        start_arguments(c)[11] == "--foreground"@,
        start_arguments(c).len() == 13 ==> start_arguments(c)[12] == "--vz-rosetta"@,
{
}

/// The checks of colima's configuration: it passes exactly when
/// `1 <= cpus <= 256`, `1 <= memory <= 256`, `5 <= disk <= 2048`, the VM
/// type is `vz` or `qemu` and the runtime is `docker` or `containerd`; so a
/// planned command always carries values within these bounds.
pub proof fn lemma_colima_checks(c: ColimaConfigView, env: ColimaEnv)
    ensures
        config_check(c) is Ok <==> (1 <= c.cpus <= 256 && 1 <= c.memory <= 256 && 5 <= c.disk
            <= 2048 && (c.vm_type == "vz"@ || c.vm_type == "qemu"@) && (c.runtime == "docker"@
            || c.runtime == "containerd"@)),
        config_error(env) is None ==> ({
            let d = config_from_env(env)->Ok_0;
            &&& 1 <= d.cpus <= 256
            &&& 1 <= d.memory <= 256
            &&& 5 <= d.disk <= 2048
            &&& d.vm_type == "vz"@ || d.vm_type == "qemu"@
            &&& d.runtime == "docker"@ || d.runtime == "containerd"@
        }),
{
    assert(vm_types().contains(c.vm_type) <==> (c.vm_type == "vz"@ || c.vm_type == "qemu"@)) by {
        if c.vm_type == "vz"@ {
            assert(vm_types()[0] == c.vm_type);
        }
        if c.vm_type == "qemu"@ {
            assert(vm_types()[1] == c.vm_type);
        }
    }
    assert(runtimes().contains(c.runtime) <==> (c.runtime == "docker"@ || c.runtime
        == "containerd"@)) by {
        if c.runtime == "docker"@ {
            assert(runtimes()[0] == c.runtime);
        }
        if c.runtime == "containerd"@ {
            assert(runtimes()[1] == c.runtime);
        }
    }
    if config_error(env) is None {
        let d = config_from_env(env)->Ok_0;
        if vm_types().contains(d.vm_type) {
            let i = choose|i: int| 0 <= i < vm_types().len() && vm_types()[i] == d.vm_type;
            assert(i == 0 || i == 1);
        }
        if runtimes().contains(d.runtime) {
            let i = choose|i: int| 0 <= i < runtimes().len() && runtimes()[i] == d.runtime;
            assert(i == 0 || i == 1);
        }
    }
    if vm_types().contains(c.vm_type) {
        let i = choose|i: int| 0 <= i < vm_types().len() && vm_types()[i] == c.vm_type;
        assert(i == 0 || i == 1);
    }
    if runtimes().contains(c.runtime) {
        let i = choose|i: int| 0 <= i < runtimes().len() && runtimes()[i] == c.runtime;
        assert(i == 0 || i == 1);
    }
}

} // verus!
