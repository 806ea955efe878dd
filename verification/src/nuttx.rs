//! NuttX side of the build: where NuttX is fetched from and kept, the ordered steps
//! that prepare a NuttX tree for the crate and link the crate into it, and where the
//! firmware ends up.

use vstd::prelude::*;

use crate::paths::{joined_path, path_join};
use crate::shim::{
    config_appendix_text, form_config_appendix, form_kconfig, form_make_defs, form_makefile, kconfig_text,
    make_defs_text, makefile_text,
};
use crate::text::views;

verus! {

/// The address of the NuttX source archive of `version`.
pub open spec fn nuttx_url_text(version: Seq<char>) -> Seq<char> {
    "https://dlcdn.apache.org/nuttx/"@ + version + "/apache-nuttx-"@ + version + ".tar.gz"@
}

/// The address of the NuttX apps archive of `version`.
pub open spec fn nuttx_apps_url_text(version: Seq<char>) -> Seq<char> {
    "https://dlcdn.apache.org/nuttx/"@ + version + "/apache-nuttx-apps-"@ + version + ".tar.gz"@
}

/// The address of the NuttX source archive of `version` on the Apache download servers.
pub fn nuttx_url(version: &str) -> (r: String)
    ensures
        r@ == nuttx_url_text(version@),
{
    let mut r = String::new();
    r.append("https://dlcdn.apache.org/nuttx/");
    r.append(version);
    r.append("/apache-nuttx-");
    r.append(version);
    r.append(".tar.gz");
    r
}

/// The address of the NuttX apps archive of `version` on the Apache download servers.
pub fn nuttx_apps_url(version: &str) -> (r: String)
    ensures
        r@ == nuttx_apps_url_text(version@),
{
    let mut r = String::new();
    r.append("https://dlcdn.apache.org/nuttx/");
    r.append(version);
    r.append("/apache-nuttx-apps-");
    r.append(version);
    r.append(".tar.gz");
    r
}

/// The archives to fetch for `version` into a NuttX root: none where its `nuttx` and
/// `apps` directories both exist already, else the NuttX and the apps archive.
pub open spec fn download_url_list(version: Seq<char>, nuttx_present: bool, apps_present: bool) -> Seq<Seq<char>> {
    if nuttx_present && apps_present {
        Seq::<Seq<char>>::empty()
    } else {
        seq![nuttx_url_text(version), nuttx_apps_url_text(version)]
    }
}

/// The archives to download for `version`, given whether the root's `nuttx` and
/// `apps` directories exist.
pub fn download_urls(version: &str, nuttx_present: bool, apps_present: bool) -> (r: Vec<String>)
    ensures
        views(r@) == download_url_list(version@, nuttx_present, apps_present),
{
    let mut r: Vec<String> = Vec::new();
    if !(nuttx_present && apps_present) {
        r.push(nuttx_url(version));
        r.push(nuttx_apps_url(version));
    }
    assert(views(r@) =~= download_url_list(version@, nuttx_present, apps_present));
    r
}

/// The name of this tool, under which it keeps its files.
pub open spec fn tool_name() -> Seq<char> {
    "cargo_nuttx"@
}

/// Where a downloaded NuttX is kept for a crate and board: `<cache>/cargo_nuttx/nuttx/<crate>/<board>`.
pub open spec fn download_root(cache_dir: Seq<char>, crate_name: Seq<char>, board: Seq<char>) -> Seq<char> {
    joined_path(joined_path(joined_path(joined_path(cache_dir, tool_name()), "nuttx"@), crate_name), board)
}

/// Where a downloaded NuttX is kept for `crate_name` and `board` under the user's cache directory.
pub fn download_location(cache_dir: &str, crate_name: &str, board: &str) -> (r: String)
    ensures
        r@ == download_root(cache_dir@, crate_name@, board@),
{
    let a = path_join(cache_dir, "cargo_nuttx");
    let b = path_join(a.as_str(), "nuttx");
    let c = path_join(b.as_str(), crate_name);
    path_join(c.as_str(), board)
}

/// The `nuttx` directory of a NuttX root.
pub open spec fn nuttx_dir(root: Seq<char>) -> Seq<char> {
    joined_path(root, "nuttx"@)
}

/// The `apps` directory of a NuttX root.
pub open spec fn apps_dir(root: Seq<char>) -> Seq<char> {
    joined_path(root, "apps"@)
}

/// The `apps/external` directory of a NuttX root.
pub open spec fn external_dir(root: Seq<char>) -> Seq<char> {
    joined_path(apps_dir(root), "external"@)
}

/// The application shim directory `apps/external/<crate>` of a NuttX root.
pub open spec fn shim_dir(root: Seq<char>, crate_name: Seq<char>) -> Seq<char> {
    joined_path(external_dir(root), crate_name)
}

/// The board configuration `nuttx/.config` of a NuttX root.
pub open spec fn config_file(root: Seq<char>) -> Seq<char> {
    joined_path(nuttx_dir(root), ".config"@)
}

/// The copy of the board configuration as `configure.sh` left it, `nuttx/.config.cargo_nuttx`.
pub open spec fn saved_config_file(root: Seq<char>) -> Seq<char> {
    joined_path(nuttx_dir(root), ".config."@ + tool_name())
}

/// The `nuttx` and `apps` directories of a NuttX root.
pub fn nuttx_source_dirs(root: &str) -> (r: (String, String))
    ensures
        r.0@ == nuttx_dir(root@),
        r.1@ == apps_dir(root@),
{
    (path_join(root, "nuttx"), path_join(root, "apps"))
}

/// One step of preparing or finishing the NuttX build.
#[derive(Debug)]
pub enum Step {
    /// Fail with `message` unless each path is a directory.
    RequireDirectories { paths: Vec<String>, message: String },
    /// Create a directory and its parents.
    CreateDirAll { path: String },
    /// Write `contents` to a file; where `keep_existing` holds, leave an existing file alone.
    WriteFile { path: String, contents: String, keep_existing: bool },
    /// Run `program` with `args` in `dir`.
    Run { dir: String, program: String, args: Vec<String> },
    /// Run `make` in `dir` with the extra arguments given on the command line.
    RunMakeWithUserArgs { dir: String },
    /// Copy a file; where `keep_existing` holds, leave an existing destination alone.
    CopyFile { from: String, to: String, keep_existing: bool },
    /// Append `contents` to a file.
    AppendFile { path: String, contents: String },
}

/// A step by the text of its values.
#[verifier::ext_equal]
pub enum StepView {
    RequireDirectories { paths: Seq<Seq<char>>, message: Seq<char> },
    CreateDirAll { path: Seq<char> },
    WriteFile { path: Seq<char>, contents: Seq<char>, keep_existing: bool },
    Run { dir: Seq<char>, program: Seq<char>, args: Seq<Seq<char>> },
    RunMakeWithUserArgs { dir: Seq<char> },
    CopyFile { from: Seq<char>, to: Seq<char>, keep_existing: bool },
    AppendFile { path: Seq<char>, contents: Seq<char> },
}

impl View for Step {
    type V = StepView;

    open spec fn view(&self) -> StepView {
        match self {
            Step::RequireDirectories { paths, message } => StepView::RequireDirectories {
                paths: views(paths@),
                message: message@,
            },
            Step::CreateDirAll { path } => StepView::CreateDirAll { path: path@ },
            Step::WriteFile { path, contents, keep_existing } => StepView::WriteFile {
                path: path@,
                contents: contents@,
                keep_existing: *keep_existing,
            },
            Step::Run { dir, program, args } => StepView::Run {
                dir: dir@,
                program: program@,
                args: views(args@),
            },
            Step::RunMakeWithUserArgs { dir } => StepView::RunMakeWithUserArgs { dir: dir@ },
            Step::CopyFile { from, to, keep_existing } => StepView::CopyFile {
                from: from@,
                to: to@,
                keep_existing: *keep_existing,
            },
            Step::AppendFile { path, contents } => StepView::AppendFile {
                path: path@,
                contents: contents@,
            },
        }
    }
}

/// The views of a sequence of steps.
pub open spec fn step_views(steps: Seq<Step>) -> Seq<StepView> {
    steps.map_values(|s: Step| s@)
}

/// The `Makefile` of `apps/external`, written where there is none.
pub open spec fn external_makefile_text() -> Seq<char> {
    "MENUDESC = \"External Apps\"\n            include $(APPDIR)/Directory.mk"@
}

/// The `Make.defs` of `apps/external`, written where there is none.
pub open spec fn external_make_defs_text() -> Seq<char> {
    "include $(wildcard $(APPDIR)/external/*/Make.defs)"@
}

/// The library path the shim names before the crate is built.
pub open spec fn placeholder_library() -> Seq<char> {
    "/does/not/exist.a"@
}

/// The message for a NuttX root without `nuttx` and `apps` directories.
pub open spec fn malformed_tree_message() -> Seq<char> {
    "NuttX space is malformed"@
}

/// A `make` run with one target in a directory.
pub open spec fn make_step(dir: Seq<char>, target: Seq<char>) -> StepView {
    StepView::Run { dir, program: "make"@, args: seq![target] }
}

/// Preparing a NuttX root for the crate before the crate is built: check the tree,
/// write the application shim with a placeholder library, configure the board
/// (cleaning first where asked), keep a copy of the configuration as configured,
/// start again from that copy, append the fragments and the crate's settings, and
/// refresh the configuration and the headers.
pub open spec fn setup_plan(
    root: Seq<char>,
    crate_name: Seq<char>,
    board: Seq<char>,
    board_config: Seq<char>,
    config_fragment: Seq<char>,
    board_config_fragment: Seq<char>,
    entrypoint_symbol: Seq<char>,
    clean: bool,
    priority: nat,
    stack_size: nat,
) -> Seq<StepView> {
    let nuttx = nuttx_dir(root);
    let external = external_dir(root);
    let shim = shim_dir(root, crate_name);
    let head = seq![
        StepView::RequireDirectories { paths: seq![nuttx, apps_dir(root)], message: malformed_tree_message() },
        StepView::CreateDirAll { path: shim },
        StepView::WriteFile {
            path: joined_path(external, "Makefile"@),
            contents: external_makefile_text(),
            keep_existing: true,
        },
        StepView::WriteFile {
            path: joined_path(external, "Make.defs"@),
            contents: external_make_defs_text(),
            keep_existing: true,
        },
        StepView::WriteFile {
            path: joined_path(shim, "Kconfig"@),
            contents: kconfig_text(crate_name, priority, stack_size),
            keep_existing: false,
        },
        StepView::WriteFile {
            path: joined_path(shim, "Make.defs"@),
            contents: make_defs_text(crate_name, placeholder_library()),
            keep_existing: false,
        },
        StepView::WriteFile {
            path: joined_path(shim, "Makefile"@),
            contents: makefile_text(crate_name, placeholder_library()),
            keep_existing: false,
        },
    ];
    let cleaned = if clean {
        head.push(make_step(nuttx, "distclean"@))
    } else {
        head
    };
    cleaned + seq![
        StepView::Run {
            dir: nuttx,
            program: "./tools/configure.sh"@,
            args: seq![board + ":"@ + board_config],
        },
        StepView::CopyFile { from: config_file(root), to: saved_config_file(root), keep_existing: !clean },
        StepView::CopyFile { from: saved_config_file(root), to: config_file(root), keep_existing: false },
        StepView::AppendFile {
            path: config_file(root),
            contents: config_appendix_text(
                config_fragment,
                board_config_fragment,
                crate_name,
                priority,
                stack_size,
                entrypoint_symbol,
            ),
        },
        make_step(nuttx, "olddefconfig"@),
        make_step(nuttx, "context"@),
    ]
}

/// Finishing the NuttX build once the crate's static library exists: point the shim at
/// it and run `make` with the user's arguments.
pub open spec fn link_plan(root: Seq<char>, crate_name: Seq<char>, staticlib_path: Seq<char>) -> Seq<StepView> {
    let shim = shim_dir(root, crate_name);
    seq![
        StepView::WriteFile {
            path: joined_path(shim, "Make.defs"@),
            contents: make_defs_text(crate_name, staticlib_path),
            keep_existing: false,
        },
        StepView::WriteFile {
            path: joined_path(shim, "Makefile"@),
            contents: makefile_text(crate_name, staticlib_path),
            keep_existing: false,
        },
        StepView::RunMakeWithUserArgs { dir: nuttx_dir(root) },
    ]
}

fn run_make(dir: &str, target: &str) -> (r: Step)
    ensures
        r@ == make_step(dir@, target@),
{
    let mut args: Vec<String> = Vec::new();
    args.push(String::from_str(target));
    let r = Step::Run { dir: String::from_str(dir), program: String::from_str("make"), args };
    assert(r@ =~~= make_step(dir@, target@));
    r
}

/// The steps that prepare the NuttX root `root` for `crate_name` on `board` before the
/// crate is built.
pub fn nuttx_setup_steps(
    root: &str,
    crate_name: &str,
    board: &str,
    board_config: &str,
    config_fragment: &str,
    board_config_fragment: &str,
    entrypoint_symbol: &str,
    clean: bool,
    priority: u8,
    stack_size: u32,
) -> (r: Vec<Step>)
    ensures
        step_views(r@) == setup_plan(
            root@,
            crate_name@,
            board@,
            board_config@,
            config_fragment@,
            board_config_fragment@,
            entrypoint_symbol@,
            clean,
            priority as nat,
            stack_size as nat,
        ),
{
    let (nuttx, apps) = nuttx_source_dirs(root);
    let external = path_join(apps.as_str(), "external");
    let shim = path_join(external.as_str(), crate_name);
    let config = path_join(nuttx.as_str(), ".config");
    let mut saved_name = String::from_str(".config.");
    saved_name.append("cargo_nuttx");
    let saved = path_join(nuttx.as_str(), saved_name.as_str());
    let placeholder = "/does/not/exist.a";

    let mut steps: Vec<Step> = Vec::new();
    let mut required: Vec<String> = Vec::new();
    required.push(nuttx.clone());
    required.push(apps);
    steps.push(Step::RequireDirectories {
        paths: required,
        message: String::from_str("NuttX space is malformed"),
    });
    steps.push(Step::CreateDirAll { path: shim.clone() });
    steps.push(Step::WriteFile {
        path: path_join(external.as_str(), "Makefile"),
        contents: String::from_str("MENUDESC = \"External Apps\"\n            include $(APPDIR)/Directory.mk"),
        keep_existing: true,
    });
    steps.push(Step::WriteFile {
        path: path_join(external.as_str(), "Make.defs"),
        contents: String::from_str("include $(wildcard $(APPDIR)/external/*/Make.defs)"),
        keep_existing: true,
    });
    steps.push(Step::WriteFile {
        path: path_join(shim.as_str(), "Kconfig"),
        contents: form_kconfig(crate_name, priority, stack_size),
        keep_existing: false,
    });
    steps.push(Step::WriteFile {
        path: path_join(shim.as_str(), "Make.defs"),
        contents: form_make_defs(crate_name, placeholder),
        keep_existing: false,
    });
    steps.push(Step::WriteFile {
        path: path_join(shim.as_str(), "Makefile"),
        contents: form_makefile(crate_name, placeholder),
        keep_existing: false,
    });
    if clean {
        steps.push(run_make(nuttx.as_str(), "distclean"));
    }
    let mut target = String::from_str(board);
    target.append(":");
    target.append(board_config);
    let mut configure_args: Vec<String> = Vec::new();
    configure_args.push(target);
    steps.push(Step::Run {
        dir: nuttx.clone(),
        program: String::from_str("./tools/configure.sh"),
        args: configure_args,
    });
    steps.push(Step::CopyFile { from: config.clone(), to: saved.clone(), keep_existing: !clean });
    steps.push(Step::CopyFile { from: saved, to: config.clone(), keep_existing: false });
    steps.push(Step::AppendFile {
        path: config,
        contents: form_config_appendix(
            config_fragment,
            board_config_fragment,
            crate_name,
            priority,
            stack_size,
            entrypoint_symbol,
        ),
    });
    steps.push(run_make(nuttx.as_str(), "olddefconfig"));
    steps.push(run_make(nuttx.as_str(), "context"));
    assert(step_views(steps@) =~~= setup_plan(
        root@,
        crate_name@,
        board@,
        board_config@,
        config_fragment@,
        board_config_fragment@,
        entrypoint_symbol@,
        clean,
        priority as nat,
        stack_size as nat,
    ));
    steps
}

/// The NuttX include directories the crate is built against: `nuttx/include` and
/// `nuttx/include/arch`.
pub fn nuttx_include_directories(root: &str) -> (r: Vec<String>)
    ensures
        views(r@) == seq![
            joined_path(nuttx_dir(root@), "include"@),
            joined_path(joined_path(nuttx_dir(root@), "include"@), "arch"@),
        ],
{
    let nuttx = path_join(root, "nuttx");
    let headers = path_join(nuttx.as_str(), "include");
    let arch = path_join(headers.as_str(), "arch");
    let mut r: Vec<String> = Vec::new();
    r.push(headers);
    r.push(arch);
    assert(views(r@) =~= seq![
        joined_path(nuttx_dir(root@), "include"@),
        joined_path(joined_path(nuttx_dir(root@), "include"@), "arch"@),
    ]);
    r
}

/// The steps that link the built static library `staticlib_path` into NuttX.
pub fn nuttx_link_steps(root: &str, crate_name: &str, staticlib_path: &str) -> (r: Vec<Step>)
    ensures
        step_views(r@) == link_plan(root@, crate_name@, staticlib_path@),
{
    let (nuttx, apps) = nuttx_source_dirs(root);
    let external = path_join(apps.as_str(), "external");
    let shim = path_join(external.as_str(), crate_name);
    let mut steps: Vec<Step> = Vec::new();
    steps.push(Step::WriteFile {
        path: path_join(shim.as_str(), "Make.defs"),
        contents: form_make_defs(crate_name, staticlib_path),
        keep_existing: false,
    });
    steps.push(Step::WriteFile {
        path: path_join(shim.as_str(), "Makefile"),
        contents: form_makefile(crate_name, staticlib_path),
        keep_existing: false,
    });
    steps.push(Step::RunMakeWithUserArgs { dir: nuttx });
    assert(step_views(steps@) =~~= link_plan(root@, crate_name@, staticlib_path@));
    steps
}

/// Where the firmware is taken from and copied to.
pub struct FirmwareCopy {
    /// The firmware file in the NuttX tree.
    pub from: String,
    /// Its place in Cargo's target directory.
    pub to: String,
}

/// The firmware's place in Cargo's target directory:
/// `<target>/nuttx/<board>/<release|debug>/<firmware_file>`.
pub open spec fn firmware_output(target_directory: Seq<char>, board: Seq<char>, release: bool, firmware_file: Seq<char>) -> Seq<char> {
    let profile = if release { "release"@ } else { "debug"@ };
    joined_path(joined_path(joined_path(joined_path(target_directory, "nuttx"@), board), profile), firmware_file)
}

/// The firmware `<root>/nuttx/<firmware_file>` and where it is copied to.
pub fn firmware_copy(
    root: &str,
    target_directory: &str,
    board: &str,
    release: bool,
    firmware_file: &str,
) -> (r: FirmwareCopy)
    ensures
        r.from@ == joined_path(nuttx_dir(root@), firmware_file@),
        r.to@ == firmware_output(target_directory@, board@, release, firmware_file@),
{
    let nuttx = path_join(root, "nuttx");
    let from = path_join(nuttx.as_str(), firmware_file);
    let a = path_join(target_directory, "nuttx");
    let b = path_join(a.as_str(), board);
    let profile = if release { "release" } else { "debug" };
    let c = path_join(b.as_str(), profile);
    let to = path_join(c.as_str(), firmware_file);
    FirmwareCopy { from, to }
}


/// The crate's settings are appended once per build, right after the configuration is
/// restored from the copy `configure.sh` left: repeated builds do not pile them up.
pub proof fn lemma_settings_appended_once_to_fresh_config(
    root: Seq<char>,
    crate_name: Seq<char>,
    board: Seq<char>,
    board_config: Seq<char>,
    config_fragment: Seq<char>,
    board_config_fragment: Seq<char>,
    entrypoint_symbol: Seq<char>,
    clean: bool,
    priority: nat,
    stack_size: nat,
)
    ensures
        ({
            let plan = setup_plan(root, crate_name, board, board_config, config_fragment,
                board_config_fragment, entrypoint_symbol, clean, priority, stack_size);
            exists|k: int| #![trigger plan[k]]
                0 < k < plan.len() && plan[k - 1] == (StepView::CopyFile {
                    from: saved_config_file(root),
                    to: config_file(root),
                    keep_existing: false,
                }) && plan[k] == (StepView::AppendFile {
                    path: config_file(root),
                    contents: config_appendix_text(config_fragment, board_config_fragment,
                        crate_name, priority, stack_size, entrypoint_symbol),
                }) && forall|j: int| 0 <= j < plan.len() && j != k ==> !(#[trigger] plan[j] is AppendFile)
        }),
{
    let plan = setup_plan(root, crate_name, board, board_config, config_fragment,
        board_config_fragment, entrypoint_symbol, clean, priority, stack_size);
    let k = if clean { 11int } else { 10int };
    assert(plan[k] is AppendFile);
    assert(forall|j: int| 0 <= j < plan.len() && j != k ==> !(#[trigger] plan[j] is AppendFile));
}

/// The shim files that the setup writes with the placeholder library are the files
/// the link steps write again, then naming the built library.
pub proof fn lemma_link_replaces_placeholder(
    root: Seq<char>,
    crate_name: Seq<char>,
    board: Seq<char>,
    board_config: Seq<char>,
    config_fragment: Seq<char>,
    board_config_fragment: Seq<char>,
    entrypoint_symbol: Seq<char>,
    clean: bool,
    priority: nat,
    stack_size: nat,
    staticlib_path: Seq<char>,
)
    ensures
        ({
            let setup = setup_plan(root, crate_name, board, board_config, config_fragment,
                board_config_fragment, entrypoint_symbol, clean, priority, stack_size);
            let link = link_plan(root, crate_name, staticlib_path);
            &&& setup[5] == (StepView::WriteFile {
                path: joined_path(shim_dir(root, crate_name), "Make.defs"@),
                contents: make_defs_text(crate_name, placeholder_library()),
                keep_existing: false,
            })
            &&& setup[6] == (StepView::WriteFile {
                path: joined_path(shim_dir(root, crate_name), "Makefile"@),
                contents: makefile_text(crate_name, placeholder_library()),
                keep_existing: false,
            })
            &&& link[0] == (StepView::WriteFile {
                path: joined_path(shim_dir(root, crate_name), "Make.defs"@),
                contents: make_defs_text(crate_name, staticlib_path),
                keep_existing: false,
            })
            &&& link[1] == (StepView::WriteFile {
                path: joined_path(shim_dir(root, crate_name), "Makefile"@),
                contents: makefile_text(crate_name, staticlib_path),
                keep_existing: false,
            })
        }),
{
}

/// The setup configures the board and base configuration asked for: it runs
/// `./tools/configure.sh <board>:<board_config>` in the root's `nuttx` directory, and no
/// other `configure.sh` run; `make distclean` runs right before it where cleaning is asked
/// for, and nowhere where it is not.
pub proof fn lemma_setup_configures_requested_board(
    root: Seq<char>,
    crate_name: Seq<char>,
    board: Seq<char>,
    board_config: Seq<char>,
    config_fragment: Seq<char>,
    board_config_fragment: Seq<char>,
    entrypoint_symbol: Seq<char>,
    clean: bool,
    priority: nat,
    stack_size: nat,
)
    ensures
        ({
            let plan = setup_plan(root, crate_name, board, board_config, config_fragment,
                board_config_fragment, entrypoint_symbol, clean, priority, stack_size);
            let distclean = StepView::Run { dir: joined_path(root, "nuttx"@), program: "make"@, args: seq!["distclean"@] };
            exists|k: int| #![trigger plan[k]]
                0 < k < plan.len() && plan[k] == (StepView::Run {
                    dir: joined_path(root, "nuttx"@),
                    program: "./tools/configure.sh"@,
                    args: seq![board + ":"@ + board_config],
                }) && (forall|j: int| 0 <= j < plan.len() && j != k && #[trigger] plan[j] is Run
                    ==> plan[j]->Run_program != "./tools/configure.sh"@)
                && (clean ==> plan[k - 1] == distclean)
                && (!clean ==> forall|j: int| 0 <= j < plan.len() ==> #[trigger] plan[j] != distclean)
        }),
{
    let plan = setup_plan(root, crate_name, board, board_config, config_fragment,
        board_config_fragment, entrypoint_symbol, clean, priority, stack_size);
    reveal_strlit("make");
    reveal_strlit("./tools/configure.sh");
    reveal_strlit("distclean");
    reveal_strlit("olddefconfig");
    reveal_strlit("context");
    assert("make"@ != "./tools/configure.sh"@) by {
        assert("make"@.len() != "./tools/configure.sh"@.len());
    }
    assert(seq!["olddefconfig"@] != seq!["distclean"@]) by {
        assert(seq!["olddefconfig"@][0].len() != seq!["distclean"@][0].len());
    }
    assert(seq!["context"@] != seq!["distclean"@]) by {
        assert(seq!["context"@][0].len() != seq!["distclean"@][0].len());
    }
    let k = if clean { 8int } else { 7int };
    assert(plan[k] is Run);
}

} // verus!
