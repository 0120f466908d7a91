use kontena::util::validate::{format_quoted_list, one_of, range};

#[test]
fn range_accepts_boundaries() {
    assert!(range("cpus", &1_u32, &1, &256).is_ok());
    assert!(range("cpus", &256_u32, &1, &256).is_ok());
}

#[test]
fn range_accepts_mid_value() {
    assert!(range("memory", &8_u32, &1, &256).is_ok());
}

#[test]
fn range_rejects_below_minimum() {
    let err = range("cpus", &0_u32, &1, &256).unwrap_err();
    let msg = err.message();
    assert!(msg.contains("cpus"), "{msg}");
    assert!(msg.contains('0'), "{msg}");
}

#[test]
fn range_rejects_above_maximum() {
    let err = range("disk", &3000_u32, &10, &2048).unwrap_err();
    let msg = err.message();
    assert!(msg.contains("disk"), "{msg}");
    assert!(msg.contains("3000"), "{msg}");
}

#[test]
fn range_min_equals_max() {
    assert!(range("x", &5_u32, &5, &5).is_ok());
    assert!(range("x", &4_u32, &5, &5).is_err());
    assert!(range("x", &6_u32, &5, &5).is_err());
}

#[test]
fn one_of_accepts_valid_value() {
    assert!(one_of("vm_type", "vz", &["vz", "qemu"]).is_ok());
    assert!(one_of("vm_type", "qemu", &["vz", "qemu"]).is_ok());
}

#[test]
fn one_of_rejects_invalid_value() {
    let err = one_of("runtime", "podman", &["docker", "containerd"]).unwrap_err();
    let msg = err.message();
    assert!(msg.contains("podman"), "{msg}");
    assert!(msg.contains("docker"), "{msg}");
}

#[test]
fn one_of_rejects_empty_string() {
    let err = one_of("vm_type", "", &["vz", "qemu"]).unwrap_err();
    let msg = err.message();
    assert!(msg.contains("not one of"), "{msg}");
}

#[test]
fn one_of_case_sensitive() {
    let err = one_of("vm_type", "VZ", &["vz", "qemu"]).unwrap_err();
    let msg = err.message();
    assert!(msg.contains("VZ"), "{msg}");
}

#[test]
fn one_of_single_allowed_value() {
    assert!(one_of("x", "only", &["only"]).is_ok());
    assert!(one_of("x", "other", &["only"]).is_err());
}

#[test]
fn format_quoted_list_formats_correctly() {
    assert_eq!(format_quoted_list(&["a", "b"]), r#""a", "b""#);
    assert_eq!(format_quoted_list(&["x"]), r#""x""#);
    assert_eq!(format_quoted_list(&[]), "");
}

#[test]
fn range_error_message_is_exact() {
    let err = range("disk", &3000_u32, &10, &2048).unwrap_err();
    assert_eq!(err.message(), "disk=3000 is out of range [10, 2048]");
}

#[test]
fn one_of_error_message_is_exact() {
    let err = one_of("runtime", "podman", &["docker", "containerd"]).unwrap_err();
    assert_eq!(
        err.message(),
        "runtime=\"podman\" is not one of [\"docker\", \"containerd\"]"
    );
}

#[test]
fn one_of_rejects_everything_when_nothing_is_allowed() {
    let err = one_of("x", "a", &[]).unwrap_err();
    assert_eq!(err.message(), "x=\"a\" is not one of []");
}
