use cargo_nuttx::nuttx::{
    download_location, download_urls, firmware_copy, nuttx_apps_url, nuttx_include_directories,
    nuttx_link_steps, nuttx_setup_steps, nuttx_source_dirs, nuttx_url, Step,
};
use cargo_nuttx::shim::{
    config_appendix_for, form_config_appendix, form_kconfig, form_make_defs, form_makefile, kconfig_for,
    make_defs_for, makefile_for,
};

#[test]
fn nuttx_archive_urls() {
    assert_eq!(nuttx_url("13.0.0"), "https://dlcdn.apache.org/nuttx/13.0.0/apache-nuttx-13.0.0.tar.gz");
    assert_eq!(
        nuttx_apps_url("13.0.0"),
        "https://dlcdn.apache.org/nuttx/13.0.0/apache-nuttx-apps-13.0.0.tar.gz"
    );
    assert_eq!(nuttx_url(""), "https://dlcdn.apache.org/nuttx//apache-nuttx-.tar.gz");
}

#[test]
fn download_is_skipped_when_present() {
    assert!(download_urls("12.0.0", true, true).is_empty());
    let both = vec![nuttx_url("12.0.0"), nuttx_apps_url("12.0.0")];
    assert_eq!(download_urls("12.0.0", true, false), both);
    assert_eq!(download_urls("12.0.0", false, true), both);
    assert_eq!(download_urls("12.0.0", false, false), both);
}

#[test]
fn download_location_under_cache() {
    assert_eq!(download_location("/home/u/.cache", "my-app", "sim"), "/home/u/.cache/cargo_nuttx/nuttx/my-app/sim");
}

#[test]
fn kconfig_text() {
    let expected = "
config CARGO_NUTTX_MY_APP
    tristate \"A rust application\"
    default n

if CARGO_NUTTX_MY_APP
    config CARGO_NUTTX_MY_APP_PROGNAME
        string \"Program name\"
        default \"my_app\"

    config CARGO_NUTTX_MY_APP_PRIORITY
        int \"Task priority\"
        default 100

    config CARGO_NUTTX_MY_APP_STACKSIZE
        int \"Stack size\"
        default 16384
endif
       ";
    assert_eq!(form_kconfig("my-app", 100, 16384), expected);
    assert!(form_kconfig("x", 255, u32::MAX).contains("default 255\n"));
    assert!(form_kconfig("x", 0, u32::MAX).contains("default 4294967295\nendif"));
}

#[test]
fn make_defs_text() {
    let expected = "
ifneq ($(CONFIG_CARGO_NUTTX_MY_APP),)
    CONFIGURED_APPS += $(APPDIR)/external/my-app
    EXTRA_LIBS += \"/t/libmy_app.a\"
endif
        ";
    assert_eq!(form_make_defs("my-app", "/t/libmy_app.a"), expected);
}

#[test]
fn makefile_text() {
    let expected = "
include $(APPDIR)/Make.defs

PROGNAME  = $(CONFIG_CARGO_NUTTX_MY_APP_PROGNAME)
PRIORITY  = $(CONFIG_CARGO_NUTTX_MY_APP_PRIORITY)
STACKSIZE = $(CONFIG_CARGO_NUTTX_MY_APP_STACKSIZE)
MODULE    = $(CONFIG_CARGO_NUTTX_MY_APP)

RUSTLIB := \"/does/not/exist.a\"

context:: $(RUSTLIB)

$(RUSTLIB):

clean::

include $(APPDIR)/Application.mk
        ";
    assert_eq!(form_makefile("my-app", "/does/not/exist.a"), expected);
}

#[test]
fn config_appendix_text() {
    let expected = "\nCONFIG_A=y\nCONFIG_B=y\nCONFIG_CARGO_NUTTX_MY_APP=y\nCONFIG_CARGO_NUTTX_MY_APP_PRIORITY=100\nCONFIG_CARGO_NUTTX_MY_APP_STACK_SIZE=16384\nCONFIG_INIT_ENTRYPOINT=\"my_app_main\"\nCONFIG_INIT_ENTRYNAME=\"my_app_main\"\n";
    assert_eq!(form_config_appendix("CONFIG_A=y\n", "CONFIG_B=y\n", "my-app", 100, 16384, "my_app_main"), expected);
    let bare = form_config_appendix("", "", "my-app", 1, 2, "e");
    assert!(bare.starts_with("\nCONFIG_CARGO_NUTTX_MY_APP=y\n"));
}

#[test]
fn appendix_enables_the_option_the_kconfig_declares() {
    let kconfig = form_kconfig("fluxemu-shell", 7, 4096);
    let appendix = form_config_appendix("", "", "fluxemu-shell", 7, 4096, "main");
    let make_defs = form_make_defs("fluxemu-shell", "/lib.a");
    let makefile = form_makefile("fluxemu-shell", "/lib.a");
    assert!(kconfig.contains("config CARGO_NUTTX_FLUXEMU_SHELL\n"));
    assert!(appendix.contains("CONFIG_CARGO_NUTTX_FLUXEMU_SHELL=y\n"));
    assert!(make_defs.contains("$(CONFIG_CARGO_NUTTX_FLUXEMU_SHELL)"));
    assert!(makefile.contains("$(CONFIG_CARGO_NUTTX_FLUXEMU_SHELL)"));
    assert!(kconfig.contains("config CARGO_NUTTX_FLUXEMU_SHELL_PRIORITY\n        int \"Task priority\"\n        default 7"));
    assert!(appendix.contains("CONFIG_CARGO_NUTTX_FLUXEMU_SHELL_PRIORITY=7\n"));
}

#[test]
fn source_dirs_of_a_root() {
    assert_eq!(nuttx_source_dirs("/n"), ("/n/nuttx".to_string(), "/n/apps".to_string()));
}

fn expect_write(step: &Step, path: &str, keep: bool) -> String {
    match step {
        Step::WriteFile { path: p, contents, keep_existing } => {
            assert_eq!(p, path);
            assert_eq!(*keep_existing, keep);
            contents.clone()
        }
        other => panic!("expected a write of {}, found {:?}", path, other),
    }
}

fn expect_run(step: &Step, dir: &str, program: &str, args: &[&str]) {
    match step {
        Step::Run { dir: d, program: p, args: a } => {
            assert_eq!(d, dir);
            assert_eq!(p, program);
            assert_eq!(a, &args.iter().map(|s| s.to_string()).collect::<Vec<_>>());
        }
        other => panic!("expected {} to run, found {:?}", program, other),
    }
}

fn expect_copy(step: &Step, from: &str, to: &str, keep: bool) {
    match step {
        Step::CopyFile { from: f, to: t, keep_existing } => {
            assert_eq!(f, from);
            assert_eq!(t, to);
            assert_eq!(*keep_existing, keep);
        }
        other => panic!("expected a copy, found {:?}", other),
    }
}

fn check_setup(clean: bool) {
    let steps = nuttx_setup_steps("/n", "my-app", "sim", "nsh", "A=1\n", "B=2\n", "my_app_main", clean, 100, 8192);
    assert_eq!(steps.len(), if clean { 14 } else { 13 });
    match &steps[0] {
        Step::RequireDirectories { paths, message } => {
            assert_eq!(paths, &vec!["/n/nuttx".to_string(), "/n/apps".to_string()]);
            assert_eq!(message, "NuttX space is malformed");
        }
        other => panic!("unexpected {:?}", other),
    }
    match &steps[1] {
        Step::CreateDirAll { path } => assert_eq!(path, "/n/apps/external/my-app"),
        other => panic!("unexpected {:?}", other),
    }
    assert_eq!(
        expect_write(&steps[2], "/n/apps/external/Makefile", true),
        "MENUDESC = \"External Apps\"\n            include $(APPDIR)/Directory.mk"
    );
    assert_eq!(
        expect_write(&steps[3], "/n/apps/external/Make.defs", true),
        "include $(wildcard $(APPDIR)/external/*/Make.defs)"
    );
    assert_eq!(expect_write(&steps[4], "/n/apps/external/my-app/Kconfig", false), form_kconfig("my-app", 100, 8192));
    assert_eq!(
        expect_write(&steps[5], "/n/apps/external/my-app/Make.defs", false),
        form_make_defs("my-app", "/does/not/exist.a")
    );
    assert_eq!(
        expect_write(&steps[6], "/n/apps/external/my-app/Makefile", false),
        form_makefile("my-app", "/does/not/exist.a")
    );
    let mut k = 7;
    if clean {
        expect_run(&steps[k], "/n/nuttx", "make", &["distclean"]);
        k += 1;
    }
    expect_run(&steps[k], "/n/nuttx", "./tools/configure.sh", &["sim:nsh"]);
    expect_copy(&steps[k + 1], "/n/nuttx/.config", "/n/nuttx/.config.cargo_nuttx", !clean);
    expect_copy(&steps[k + 2], "/n/nuttx/.config.cargo_nuttx", "/n/nuttx/.config", false);
    match &steps[k + 3] {
        Step::AppendFile { path, contents } => {
            assert_eq!(path, "/n/nuttx/.config");
            assert_eq!(contents, &form_config_appendix("A=1\n", "B=2\n", "my-app", 100, 8192, "my_app_main"));
        }
        other => panic!("unexpected {:?}", other),
    }
    expect_run(&steps[k + 4], "/n/nuttx", "make", &["olddefconfig"]);
    expect_run(&steps[k + 5], "/n/nuttx", "make", &["context"]);
}

#[test]
fn setup_steps_without_clean() {
    check_setup(false);
}

#[test]
fn setup_steps_with_clean() {
    check_setup(true);
}

#[test]
fn settings_are_appended_once() {
    let steps = nuttx_setup_steps("/n", "a", "b", "c", "", "", "e", false, 1, 2);
    let appends = steps.iter().filter(|s| matches!(s, Step::AppendFile { .. })).count();
    assert_eq!(appends, 1);
    let at = steps.iter().position(|s| matches!(s, Step::AppendFile { .. })).unwrap();
    expect_copy(&steps[at - 1], "/n/nuttx/.config.cargo_nuttx", "/n/nuttx/.config", false);
}

#[test]
fn include_directories() {
    assert_eq!(
        nuttx_include_directories("/n"),
        vec!["/n/nuttx/include".to_string(), "/n/nuttx/include/arch".to_string()]
    );
}

#[test]
fn link_steps_point_the_shim_at_the_library() {
    let steps = nuttx_link_steps("/n", "my-app", "/t/libmy_app.a");
    assert_eq!(steps.len(), 3);
    assert_eq!(
        expect_write(&steps[0], "/n/apps/external/my-app/Make.defs", false),
        form_make_defs("my-app", "/t/libmy_app.a")
    );
    assert_eq!(
        expect_write(&steps[1], "/n/apps/external/my-app/Makefile", false),
        form_makefile("my-app", "/t/libmy_app.a")
    );
    match &steps[2] {
        Step::RunMakeWithUserArgs { dir } => assert_eq!(dir, "/n/nuttx"),
        other => panic!("unexpected {:?}", other),
    }
}

#[test]
fn firmware_goes_to_target_nuttx_board_profile() {
    let c = firmware_copy("/n", "/w/target", "raspberrypi-pico-2", true, "nuttx.uf2");
    assert_eq!(c.from, "/n/nuttx/nuttx.uf2");
    assert_eq!(c.to, "/w/target/nuttx/raspberrypi-pico-2/release/nuttx.uf2");
    let c = firmware_copy("/n", "/w/target", "sim", false, "nuttx");
    assert_eq!(c.to, "/w/target/nuttx/sim/debug/nuttx");
}

#[test]
fn fragments_without_final_line_break_stay_whole_lines() {
    let appendix = form_config_appendix("X=1", "Y=2", "my-app", 100, 16384, "my_app_main");
    assert!(appendix.starts_with("\nX=1\nY=2\nCONFIG_CARGO_NUTTX_MY_APP=y\n"));
    let lines: Vec<&str> = appendix.lines().collect();
    assert!(lines.contains(&"X=1"));
    assert!(lines.contains(&"Y=2"));
    assert!(lines.contains(&"CONFIG_CARGO_NUTTX_MY_APP=y"));
    let appendix = form_config_appendix("", "Y=2", "a", 1, 2, "e");
    assert!(appendix.starts_with("\nY=2\nCONFIG_CARGO_NUTTX_A=y\n"));
}

/// Carries out steps on an in-memory file tree; `configure` is the text configure.sh writes.
fn replay(files: &mut std::collections::HashMap<String, String>, steps: Vec<Step>, configure: &str) {
    for step in steps {
        match step {
            Step::WriteFile { path, contents, keep_existing } => {
                if !(keep_existing && files.contains_key(&path)) {
                    files.insert(path, contents);
                }
            }
            Step::CopyFile { from, to, keep_existing } => {
                if !(keep_existing && files.contains_key(&to)) {
                    let v = files[&from].clone();
                    files.insert(to, v);
                }
            }
            Step::AppendFile { path, contents } => files.get_mut(&path).unwrap().push_str(&contents),
            Step::Run { dir, program, args } => {
                if program == "./tools/configure.sh" {
                    files.insert(format!("{}/.config", dir), configure.to_string());
                } else if args == vec!["olddefconfig".to_string()] {
                    let c = files[&format!("{}/.config", dir)].clone();
                    files.insert(format!("{}/.config", dir), c + "# normalised\n");
                }
            }
            _ => {}
        }
    }
}

#[test]
fn rebuilding_starts_from_the_same_config() {
    let mut files = std::collections::HashMap::new();
    let plan = || nuttx_setup_steps("/n", "my-app", "sim", "nsh", "A=1", "B=2\n", "my_app_main", false, 100, 8192);
    let mut first = plan();
    first.truncate(11);
    replay(&mut files, first, "BASE=1\n");
    let after_first = files["/n/nuttx/.config"].clone();
    assert_eq!(
        after_first,
        "BASE=1\n".to_string() + &form_config_appendix("A=1", "B=2\n", "my-app", 100, 8192, "my_app_main")
    );
    let mut rest = plan();
    let tail = rest.split_off(11);
    replay(&mut files, tail, "BASE=1\n");
    replay(&mut files, nuttx_link_steps("/n", "my-app", "/t/lib.a"), "BASE=1\n");
    let mut second = plan();
    second.truncate(11);
    replay(&mut files, second, "BASE=2\n");
    assert_eq!(files["/n/nuttx/.config"], after_first);
}

#[test]
fn texts_for_given_converted_names() {
    assert_eq!(kconfig_for("MY_APP", "my_app", 100, 16384), form_kconfig("my-app", 100, 16384));
    assert!(kconfig_for("X", "x", 1, 2).starts_with("\nconfig CARGO_NUTTX_X\n"));
    assert!(kconfig_for("X", "x", 1, 2).contains("default \"x\"\n"));
    assert_eq!(make_defs_for("MY_APP", "my-app", "/l.a"), form_make_defs("my-app", "/l.a"));
    assert_eq!(
        make_defs_for("Q", "q-crate", "/l.a"),
        "\nifneq ($(CONFIG_CARGO_NUTTX_Q),)\n    CONFIGURED_APPS += $(APPDIR)/external/q-crate\n    EXTRA_LIBS += \"/l.a\"\nendif\n        "
    );
    assert_eq!(makefile_for("MY_APP", "/l.a"), form_makefile("my-app", "/l.a"));
    assert!(makefile_for("Q", "/l.a").contains("MODULE    = $(CONFIG_CARGO_NUTTX_Q)\n"));
    assert_eq!(
        config_appendix_for("A=1", "", "Q", 3, 4, "q_main"),
        "\nA=1\nCONFIG_CARGO_NUTTX_Q=y\nCONFIG_CARGO_NUTTX_Q_PRIORITY=3\nCONFIG_CARGO_NUTTX_Q_STACK_SIZE=4\nCONFIG_INIT_ENTRYPOINT=\"q_main\"\nCONFIG_INIT_ENTRYNAME=\"q_main\"\n"
    );
}

#[test]
fn every_option_the_makefile_reads_is_declared() {
    let makefile = makefile_for("MY_APP", "/l.a");
    let kconfig = kconfig_for("MY_APP", "my_app", 10, 20);
    let mut rest = makefile.as_str();
    let mut seen = 0;
    while let Some(at) = rest.find("$(CONFIG_") {
        let after = &rest[at + "$(CONFIG_".len()..];
        let end = after.find(')').unwrap();
        let option = &after[..end];
        assert!(kconfig.contains(&format!("config {}\n", option)), "{} is not declared", option);
        seen += 1;
        rest = &after[end..];
    }
    assert_eq!(seen, 4);
    assert!(make_defs_for("MY_APP", "my-app", "/l.a").contains("$(CONFIG_CARGO_NUTTX_MY_APP)"));
}
