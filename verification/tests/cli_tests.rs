use cargo_nuttx::cli::{strip_subcommand_name, NuttxLocation, NuttxLocationArgs};

fn strings(v: &[&str]) -> Vec<String> {
    v.iter().map(|s| s.to_string()).collect()
}

#[test]
fn strips_nuttx_after_program_name() {
    assert_eq!(
        strip_subcommand_name(strings(&["cargo-nuttx", "nuttx", "--board", "sim", "build"])),
        strings(&["cargo-nuttx", "--board", "sim", "build"])
    );
}

#[test]
fn keeps_arguments_without_subcommand_name() {
    assert_eq!(
        strip_subcommand_name(strings(&["cargo-nuttx", "--board", "sim", "build"])),
        strings(&["cargo-nuttx", "--board", "sim", "build"])
    );
    assert_eq!(strip_subcommand_name(strings(&["cargo-nuttx"])), strings(&["cargo-nuttx"]));
    assert_eq!(strip_subcommand_name(strings(&[])), strings(&[]));
    assert_eq!(
        strip_subcommand_name(strings(&["cargo-nuttx", "build", "nuttx"])),
        strings(&["cargo-nuttx", "build", "nuttx"])
    );
}

#[test]
fn cargo_and_direct_invocations_agree() {
    let rest = ["--board", "raspberrypi-pico-2", "build", "--download"];
    let mut via_cargo = vec!["cargo-nuttx", "nuttx"];
    via_cargo.extend(rest);
    let mut direct = vec!["cargo-nuttx"];
    direct.extend(rest);
    assert_eq!(strip_subcommand_name(strings(&via_cargo)), strip_subcommand_name(strings(&direct)));
}

#[test]
fn only_one_nuttx_is_stripped() {
    assert_eq!(
        strip_subcommand_name(strings(&["cargo-nuttx", "nuttx", "nuttx"])),
        strings(&["cargo-nuttx", "nuttx"])
    );
}

#[test]
fn path_location_wins() {
    let loc = NuttxLocation::from(NuttxLocationArgs { path: Some("/opt/nuttx".to_string()), download: None });
    assert!(matches!(loc, NuttxLocation::Path { root } if root == "/opt/nuttx"));
    let loc = NuttxLocation::from(NuttxLocationArgs {
        path: Some("/opt/nuttx".to_string()),
        download: Some("13.0.0".to_string()),
    });
    assert!(matches!(loc, NuttxLocation::Path { root } if root == "/opt/nuttx"));
}

#[test]
fn download_location_without_path() {
    let loc = NuttxLocation::from(NuttxLocationArgs { path: None, download: Some("12.9.0".to_string()) });
    assert!(matches!(loc, NuttxLocation::Download { version } if version == "12.9.0"));
}
