use cargo_nuttx::cargo::PackageInfo;
use cargo_nuttx::metadata::{board_table, default_entrypoint_symbol, get_nuttx_metadata, BoardSpecificMetadata, Metadata};

fn board(target: &str, firmware: &str) -> BoardSpecificMetadata {
    BoardSpecificMetadata {
        target: target.to_string(),
        firmware_file: firmware.to_string(),
        target_cpu: None,
        opt_level: None,
    }
}

fn metadata(entrypoint: Option<&str>) -> Metadata {
    Metadata {
        program_name: None,
        entrypoint_symbol: entrypoint.map(|s| s.to_string()),
        priority: 100,
        stack_size: 16384,
        config: Some("shell/nuttx/config".to_string()),
        boards: board_table(vec![
            ("raspberrypi-pico-2".to_string(), board("thumbv8m.main-nuttx-eabihf", "nuttx.uf2")),
            ("sim".to_string(), board("x86_64-unknown-nuttx", "nuttx")),
        ]),
        board_config_directory: Some("shell/nuttx/config/board".to_string()),
    }
}

fn package(name: &str, table: Option<Result<Metadata, String>>) -> PackageInfo {
    PackageInfo {
        id: format!("path+file:///w/{}#0.1.0", name),
        name: name.to_string(),
        manifest_path: format!("/w/{}/Cargo.toml", name),
        targets: Vec::new(),
        nuttx_metadata: table,
    }
}

#[test]
fn board_metadata_finds_the_board() {
    let m = metadata(None);
    let b = m.board_metadata("sim").unwrap();
    assert_eq!(b.target, "x86_64-unknown-nuttx");
    assert_eq!(b.firmware_file, "nuttx");
    let b = m.board_metadata("raspberrypi-pico-2").unwrap();
    assert_eq!(b.firmware_file, "nuttx.uf2");
}

#[test]
fn board_metadata_reports_unknown_board() {
    let m = metadata(None);
    assert_eq!(m.board_metadata("esp32").unwrap_err(), "No board metadata found for board esp32");
    assert_eq!(m.board_metadata("").unwrap_err(), "No board metadata found for board ");
}

#[test]
fn entrypoint_defaults_to_snake_case_main() {
    assert_eq!(metadata(None).entrypoint_symbol_or_default("fluxemu-shell-nuttallite"), "fluxemu_shell_nuttallite_main");
    assert_eq!(metadata(None).entrypoint_symbol_or_default("MyApp"), "my_app_main");
    assert_eq!(metadata(Some("start")).entrypoint_symbol_or_default("my-app"), "start");
}

#[test]
fn board_config_path_is_named_after_the_board() {
    assert_eq!(metadata(None).board_config_path("sim").as_deref(), Some("shell/nuttx/config/board/sim"));
}

#[test]
fn board_config_directory_is_optional() {
    let mut m = metadata(None);
    m.board_config_directory = None;
    assert_eq!(m.board_config_path("sim"), None);
}

#[test]
fn board_table_keeps_the_last_entry_of_a_name() {
    let table = board_table(vec![
        ("sim".to_string(), board("first", "a")),
        ("pico".to_string(), board("pico-target", "b")),
        ("sim".to_string(), board("second", "c")),
    ]);
    assert_eq!(table.len(), 2);
    assert_eq!(table.get("sim").unwrap().target, "second");
    assert_eq!(table.get("pico").unwrap().target, "pico-target");
    assert!(table.get("esp32").is_none());
}

#[test]
fn get_nuttx_metadata_reports_missing_table() {
    let p = package("plain", None);
    assert_eq!(expect_err(get_nuttx_metadata(&p)), "Package plain has no [package.metadata.nuttx] table");
}

#[test]
fn get_nuttx_metadata_passes_on_read_errors() {
    let p = package("broken", Some(Err("missing field `priority`".to_string())));
    assert_eq!(expect_err(get_nuttx_metadata(&p)), "missing field `priority`");
}

#[test]
fn get_nuttx_metadata_returns_the_table() {
    let p = package("app", Some(Ok(metadata(Some("app_main")))));
    let m = get_nuttx_metadata(&p).unwrap();
    assert_eq!(m.priority, 100);
    assert_eq!(m.stack_size, 16384);
    assert_eq!(m.entrypoint_symbol.as_deref(), Some("app_main"));
}

fn expect_err<T, E>(r: Result<T, E>) -> E {
    match r {
        Ok(_) => panic!("expected an error"),
        Err(e) => e,
    }
}

#[test]
fn default_entrypoint_for_a_snake_name() {
    assert_eq!(default_entrypoint_symbol("fluxemu_shell"), "fluxemu_shell_main");
    assert_eq!(default_entrypoint_symbol(""), "_main");
}
