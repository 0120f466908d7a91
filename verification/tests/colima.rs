use std::cell::RefCell;

use kontena::colima::start::{
    plan, run, validate_enum, validate_range, ColimaConfig, ColimaEnv, ExecState,
};
use kontena::error::Error;
use kontena::util::process::{perform, CommandRunner, Reply, Step};
use kontena::util::EnvValue;

#[test]
fn validate_range_accepts_minimum_boundary() {
    assert!(validate_range("cpus", 1, 1, 256).is_ok());
}

#[test]
fn validate_range_accepts_maximum_boundary() {
    assert!(validate_range("cpus", 256, 1, 256).is_ok());
}

#[test]
fn validate_range_accepts_mid_value() {
    assert!(validate_range("memory", 8, 1, 256).is_ok());
}

#[test]
fn validate_range_rejects_below_minimum() {
    let err = validate_range("cpus", 0, 1, 256).unwrap_err();
    let msg = err.message();
    assert!(msg.contains("cpus=0"), "error should identify field and value: {msg}");
    assert!(msg.contains("out of range"), "{msg}");
}

#[test]
fn validate_range_rejects_above_maximum() {
    let err = validate_range("disk", 2049, 5, 2048).unwrap_err();
    let msg = err.message();
    assert!(msg.contains("disk=2049"), "{msg}");
}

#[test]
fn validate_enum_accepts_valid_value() {
    assert!(validate_enum("vm_type", "vz", &["vz", "qemu"]).is_ok());
    assert!(validate_enum("vm_type", "qemu", &["vz", "qemu"]).is_ok());
}

#[test]
fn validate_enum_rejects_invalid_value() {
    let err = validate_enum("runtime", "podman", &["docker", "containerd"]).unwrap_err();
    let msg = err.message();
    assert!(msg.contains("podman"), "error should mention the invalid value: {msg}");
    assert!(msg.contains("docker"), "error should list allowed values: {msg}");
}

#[test]
fn validate_enum_rejects_empty_string() {
    let err = validate_enum("vm_type", "", &["vz", "qemu"]).unwrap_err();
    let msg = err.message();
    assert!(msg.contains("not one of"), "{msg}");
}

#[test]
fn validate_enum_case_sensitive() {
    let err = validate_enum("vm_type", "VZ", &["vz", "qemu"]).unwrap_err();
    let msg = err.message();
    assert!(msg.contains("VZ"), "{msg}");
}

#[test]
fn validate_enum_single_allowed_value() {
    assert!(validate_enum("x", "only", &["only"]).is_ok());
    assert!(validate_enum("x", "other", &["only"]).is_err());
}

fn unset_env() -> ColimaEnv {
    ColimaEnv {
        bin: EnvValue::Missing,
        cpus: EnvValue::Missing,
        memory: EnvValue::Missing,
        disk: EnvValue::Missing,
        vm_type: EnvValue::Missing,
        runtime: EnvValue::Missing,
        rosetta: EnvValue::Missing,
    }
}

fn set(s: &str) -> EnvValue {
    EnvValue::Present(s.to_string())
}

#[test]
fn plan_with_defaults() {
    let command = plan(&unset_env()).unwrap();
    assert_eq!(command.bin, "colima");
    assert_eq!(
        command.args,
        vec![
            "start", "--cpu", "4", "--memory", "8", "--disk", "60", "--vm-type", "vz",
            "--runtime", "docker", "--foreground", "--vz-rosetta",
        ]
    );
}

#[test]
fn plan_without_rosetta_on_qemu() {
    let mut env = unset_env();
    env.vm_type = set("qemu");
    env.rosetta = set("true");
    env.cpus = set("2");
    env.bin = set("/opt/bin/colima");
    let command = plan(&env).unwrap();
    assert_eq!(command.bin, "/opt/bin/colima");
    assert!(!command.args.iter().any(|a| a == "--vz-rosetta"));
    assert_eq!(command.args[2], "2");
    assert_eq!(command.args[8], "qemu");
}

#[test]
fn plan_without_rosetta_when_disabled() {
    let mut env = unset_env();
    env.rosetta = set("false");
    let command = plan(&env).unwrap();
    assert_eq!(command.args.len(), 12);
    assert_eq!(command.args[11], "--foreground");
}

#[test]
fn plan_reports_first_parse_error() {
    let mut env = unset_env();
    env.memory = set("lots");
    env.disk = set("also-bad");
    let err = plan(&env).unwrap_err();
    match err {
        Error::EnvParse { key, value, .. } => {
            assert_eq!(key, "KONTENA_COLIMA_MEMORY");
            assert_eq!(value, "lots");
        }
        other => panic!("unexpected error {other:?}"),
    }
}

#[test]
fn plan_rejects_rosetta_that_is_not_a_bool() {
    let mut env = unset_env();
    env.rosetta = set("yes");
    let err = plan(&env).unwrap_err();
    assert!(matches!(err, Error::EnvParse { .. }));
}

#[test]
fn plan_reports_range_errors_in_order() {
    let mut env = unset_env();
    env.cpus = set("0");
    env.disk = set("1");
    let err = plan(&env).unwrap_err();
    assert_eq!(err.message(), "cpus=0 is out of range [1, 256]");
    env.cpus = set("4");
    let err = plan(&env).unwrap_err();
    assert_eq!(err.message(), "disk=1 is out of range [5, 2048]");
}

#[test]
fn plan_rejects_unknown_vm_type_and_runtime() {
    let mut env = unset_env();
    env.runtime = set("podman");
    let err = plan(&env).unwrap_err();
    assert_eq!(
        err.message(),
        "runtime=\"podman\" is not one of [\"docker\", \"containerd\"]"
    );
    env.vm_type = set("hyperv");
    let err = plan(&env).unwrap_err();
    assert_eq!(err.message(), "vm_type=\"hyperv\" is not one of [\"vz\", \"qemu\"]");
}

#[test]
fn plan_reports_unreadable_variable() {
    let mut env = unset_env();
    env.cpus = EnvValue::Unreadable("not unicode".to_string());
    let err = plan(&env).unwrap_err();
    assert_eq!(err.message(), "cannot read KONTENA_COLIMA_CPUS: not unicode");
}

#[test]
fn config_validate_accepts_boundaries() {
    let config = ColimaConfig {
        bin: "colima".into(),
        cpus: 256,
        memory: 1,
        disk: 2048,
        vm_type: "qemu".into(),
        runtime: "containerd".into(),
        rosetta: false,
    };
    assert!(config.validate().is_ok());
    assert_eq!(config.start_args().len(), 12);
}

struct ExecRecorder {
    calls: RefCell<Vec<(String, Vec<String>)>>,
    reply: Result<(), Error>,
}

impl CommandRunner for ExecRecorder {
    fn run_check(&self, _bin: &str, _args: &[&str]) -> Result<bool, Error> {
        panic!("run_check is not expected")
    }

    fn run_output(&self, _bin: &str, _args: &[&str]) -> Result<String, Error> {
        panic!("run_output is not expected")
    }

    fn run_exec(&self, bin: &str, args: &[&str]) -> Result<(), Error> {
        self.calls
            .borrow_mut()
            .push((bin.to_string(), args.iter().map(|s| s.to_string()).collect()));
        self.reply.clone()
    }
}

/// Runs the colima sequence step by step with `runner`.
fn drive(runner: &ExecRecorder, env: &ColimaEnv) -> Result<(), Error> {
    let mut state = ExecState::Begin;
    let mut reply: Option<Reply> = None;
    loop {
        match run(env, state, reply) {
            Step::Finish(r) => return r,
            Step::Run { request, next } => {
                reply = Some(perform(runner, &request));
                state = next;
            }
        }
    }
}

#[test]
fn run_execs_the_planned_command() {
    let runner = ExecRecorder {
        calls: RefCell::new(Vec::new()),
        reply: Err(Error::Exec {
            bin: "colima".into(),
            reason: "not found".into(),
        }),
    };
    let err = drive(&runner, &unset_env()).unwrap_err();
    assert_eq!(err.message(), "exec(colima) failed: not found");
    let calls = runner.calls.borrow();
    assert_eq!(calls.len(), 1);
    assert_eq!(calls[0].0, "colima");
    assert_eq!(calls[0].1, plan(&unset_env()).unwrap().args);
}

#[test]
fn run_does_not_exec_with_invalid_config() {
    let runner = ExecRecorder {
        calls: RefCell::new(Vec::new()),
        reply: Ok(()),
    };
    let mut env = unset_env();
    env.memory = set("512");
    let err = drive(&runner, &env).unwrap_err();
    assert_eq!(err.message(), "memory=512 is out of range [1, 256]");
    assert!(runner.calls.borrow().is_empty());
}

#[test]
fn run_finishes_with_what_exec_reports() {
    let runner = ExecRecorder {
        calls: RefCell::new(Vec::new()),
        reply: Ok(()),
    };
    assert!(drive(&runner, &unset_env()).is_ok());
    assert_eq!(runner.calls.borrow().len(), 1);
}
