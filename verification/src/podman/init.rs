//! Idempotent podman machine initialisation.
use vstd::prelude::*;

use crate::error::{view_result, Error, ErrorView};
use crate::podman::machine::{
    ensure_accepts, ensure_machine, ensure_step, lemma_ensure_protocol, settings_from_env, EnsureState, EnsureStateView,
    MachineSettings, PodmanEnv, CPUS_KEY, DISK_KEY, MEMORY_KEY,
};
use crate::util::process::{answers, reply_view, Reply, ReplyView, Step, StepView};
use crate::util::validate::{out_of_range, range};
use crate::util::{env_bool, env_or, env_parse};

verus! {

/// Configuration for podman machine initialisation.
#[derive(Debug, Clone)]
pub struct InitConfig {
    pub bin: String,
    pub cpus: u32,
    pub memory: u32,
    pub disk: u32,
    pub machine: String,
    pub rootful: bool,
}

impl View for InitConfig {
    type V = MachineSettings;

    open spec fn view(&self) -> MachineSettings {
        MachineSettings {
            bin: self.bin@,
            machine: self.machine@,
            cpus: self.cpus,
            memory: self.memory,
            disk: self.disk,
            rootful: self.rootful,
        }
    }
}

/// The first range check that the settings `c` fail, if any.
pub open spec fn init_check(c: MachineSettings) -> Result<(), ErrorView> {
    if !(1 <= c.cpus <= 256) {
        Err(out_of_range("cpus"@, c.cpus, 1, 256))
    } else if !(512 <= c.memory <= 131_072) {
        Err(out_of_range("memory"@, c.memory, 512, 131_072))
    } else if !(10 <= c.disk <= 2048) {
        Err(out_of_range("disk"@, c.disk, 10, 2048))
    } else {
        Ok(())
    }
}

/// One step of initialisation for the settings `c`: at the beginning the
/// settings are checked, and a failed check finishes with its error before
/// any command; otherwise the steps of making sure that the machine exists.
pub open spec fn init_step(c: MachineSettings, state: EnsureStateView, reply: Option<ReplyView>) -> StepView<
    EnsureStateView,
> {
    match (state, init_check(c)) {
        (EnsureStateView::Begin, Err(e)) => StepView::Finish(Err(e)),
        _ => ensure_step(c, state, reply),
    }
}

/// One step of initialisation for the environment `env`: an environment
/// that gives no settings finishes with its error.
pub open spec fn init_step_from_env(
    env: PodmanEnv,
    state: EnsureStateView,
    reply: Option<ReplyView>,
) -> StepView<EnsureStateView> {
    match settings_from_env(env) {
        Err(e) => StepView::Finish(Err(e)),
        Ok(c) => init_step(c, state, reply),
    }
}

/// A configuration result with its texts taken as characters.
pub open spec fn view_config(r: Result<InitConfig, Error>) -> Result<MachineSettings, ErrorView> {
    match r {
        Ok(c) => Ok(c@),
        Err(e) => Err(e@),
    }
}

impl InitConfig {
    /// Build an [`InitConfig`] from the values of the environment variables.
    ///
    /// # Errors
    ///
    /// Returns an error if any numeric variable is set but unparseable, or
    /// cannot be read.
    pub fn from_env(env: &PodmanEnv) -> (r: Result<Self, Error>)
        ensures
            view_config(r) == settings_from_env(*env),
    {
        let bin = env_or(&env.bin, "podman");
        let cpus: u32 = env_parse(CPUS_KEY, &env.cpus, 4)?;
        let memory: u32 = env_parse(MEMORY_KEY, &env.memory, 4096)?;
        let disk: u32 = env_parse(DISK_KEY, &env.disk, 60)?;
        let machine = env_or(&env.machine, "podman-machine-default");
        let rootful = env_bool(&env.rootful, false);
        Ok(Self { bin, cpus, memory, disk, machine, rootful })
    }

    /// Validate all config values against their allowed ranges.
    pub fn validate(&self) -> (r: Result<(), Error>)
        ensures
            view_result(r) == init_check(self@),
    {
        range("cpus", &self.cpus, &1, &256)?;
        range("memory", &self.memory, &512, &131_072)?;
        range("disk", &self.disk, &10, &2048)?;
        Ok(())
    }
}

/// Idempotent podman machine initialisation, one step at a time.
///
/// Reads the configuration from the values of the environment variables
/// and, given where the sequence stands and what the last command reported,
/// says which command to run next or how the sequence ends. The caller runs
/// each command (see [`perform`](crate::util::process::perform)) and hands
/// back its reply, starting from [`EnsureState::Begin`].
///
/// # Errors
///
/// Finishes with an error if configuration is invalid, subprocess execution
/// fails, or machine init fails and the machine still does not exist.
pub fn run(env: &PodmanEnv, state: EnsureState, reply: Option<Reply>) -> (r: Step<EnsureState>)
    requires
        ensure_accepts(state@, reply_view(reply)),
    ensures
        r@ == init_step_from_env(*env, state@, reply_view(reply)),
{
    match InitConfig::from_env(env) {
        Ok(config) => run_with(&config, state, reply),
        Err(e) => Step::Finish(Err(e)),
    }
}

/// Core init logic, one step at a time: validates the configuration before
/// any command, then makes sure that the machine exists.
pub fn run_with(config: &InitConfig, state: EnsureState, reply: Option<Reply>) -> (r: Step<
    EnsureState,
>)
    requires
        ensure_accepts(state@, reply_view(reply)),
    ensures
        r@ == init_step(config@, state@, reply_view(reply)),
{
    if let EnsureState::Begin = state {
        if let Err(e) = config.validate() {
            return Step::Finish(Err(e));
        }
    }
    ensure_machine(
        config.bin.as_str(),
        config.machine.as_str(),
        config.cpus,
        config.memory,
        config.disk,
        config.rootful,
        state,
        reply,
    )
}

/// Settings that fail a range check finish with that check's error at the
/// first step, before any command: initialisation validates first.
pub proof fn lemma_invalid_settings_run_nothing(c: MachineSettings, reply: Option<ReplyView>)
    requires
        init_check(c) is Err,
    ensures
        init_step(c, EnsureStateView::Begin, reply) == StepView::<EnsureStateView>::Finish(
            Err(init_check(c)->Err_0),
        ),
{
}

/// The default settings, which an environment with none of the variables
/// set gives, pass the range checks.
pub proof fn lemma_defaults_are_valid(env: PodmanEnv)
    requires
        env.cpus is Missing,
        env.memory is Missing,
        env.disk is Missing,
    ensures
        settings_from_env(env) is Ok,
        init_check(settings_from_env(env)->Ok_0) is Ok,
{
}

/// Each command that an init step asks for leads to a state that accepts
/// the reply that command gets.
pub proof fn lemma_init_protocol(
    c: MachineSettings,
    state: EnsureStateView,
    reply: Option<ReplyView>,
    answer: ReplyView,
)
    requires
        ensure_accepts(state, reply),
        init_step(c, state, reply) is Run,
        answers(init_step(c, state, reply)->request, answer),
    ensures
        ensure_accepts(init_step(c, state, reply)->next, Some(answer)),
{
    lemma_ensure_protocol(c, state, reply, answer);
}

/// The range checks of initialisation: the settings pass exactly when
/// `1 <= cpus <= 256`, `512 <= memory <= 131072` and `10 <= disk <= 2048`,
/// and the first value out of its range is reported with its name and
/// bounds, in the order cpus, memory, disk.
pub proof fn lemma_init_ranges(c: MachineSettings)
    ensures
        init_check(c) is Ok <==> (1 <= c.cpus <= 256 && 512 <= c.memory <= 131_072 && 10 <= c.disk
            <= 2048),
        !(1 <= c.cpus <= 256) ==> init_check(c) == Err::<(), ErrorView>(
            out_of_range("cpus"@, c.cpus, 1, 256),
        ),
        (1 <= c.cpus <= 256 && !(512 <= c.memory <= 131_072)) ==> init_check(c) == Err::<
            (),
            ErrorView,
        >(out_of_range("memory"@, c.memory, 512, 131_072)),
        (1 <= c.cpus <= 256 && 512 <= c.memory <= 131_072 && !(10 <= c.disk <= 2048))
            ==> init_check(c) == Err::<(), ErrorView>(out_of_range("disk"@, c.disk, 10, 2048)),
{
}

} // verus!
