//! The application shim NuttX builds the crate through (`Kconfig`, `Make.defs` and
//! `Makefile` in `apps/external/<crate>`), and the lines appended to the board
//! configuration. Each text is given twice: for the converted crate names, and for the
//! crate name itself through the case conversion.

use vstd::prelude::*;

use crate::casing::{case_converted, to_case, TextCase};
use crate::text::{decimal, decimal_string, line_terminated, terminate_lines};

verus! {

/// The configuration symbol of the app, for the upper-snake-case crate name `u`:
/// `CARGO_NUTTX_<u>`.
pub open spec fn app_symbol_of(u: Seq<char>) -> Seq<char> {
    "CARGO_NUTTX_"@ + u
}

/// The configuration symbol of the app of `crate_name`.
pub open spec fn app_symbol(crate_name: Seq<char>) -> Seq<char> {
    app_symbol_of(case_converted(crate_name, TextCase::UpperSnake))
}

/// How `Kconfig` declares an option: a `config <option>` line.
pub open spec fn option_declaration(option: Seq<char>) -> Seq<char> {
    "config "@ + option + "\n"@
}

/// How a makefile reads an option: `$(CONFIG_<option>)`.
pub open spec fn option_read(option: Seq<char>) -> Seq<char> {
    "$(CONFIG_"@ + option + ")"@
}

/// The options of the app, for the upper-snake-case crate name `u`: the app itself,
/// its program name, priority and stack size.
pub open spec fn shim_options(u: Seq<char>) -> Seq<Seq<char>> {
    seq![
        app_symbol_of(u),
        app_symbol_of(u) + "_PROGNAME"@,
        app_symbol_of(u) + "_PRIORITY"@,
        app_symbol_of(u) + "_STACKSIZE"@,
    ]
}

/// The `Kconfig` of the shim, for the upper-snake-case name `u` and the snake-case name
/// `snake` of the crate: it declares the app option and its program name, priority and
/// stack size options with their defaults.
pub open spec fn kconfig_text_for(u: Seq<char>, snake: Seq<char>, priority: nat, stack_size: nat) -> Seq<char> {
    "\n"@ + "config "@ + "CARGO_NUTTX_"@ + u + "\n"@
        + "    tristate \"A rust application\"\n    default n\n\nif "@ + "CARGO_NUTTX_"@
        + u + "\n"@ + "    "@ + "config "@ + "CARGO_NUTTX_"@ + u + "_PROGNAME"@ + "\n"@
        + "        string \"Program name\"\n        default \""@ + snake + "\"\n\n"@
        + "    "@ + "config "@ + "CARGO_NUTTX_"@ + u + "_PRIORITY"@ + "\n"@
        + "        int \"Task priority\"\n        default "@ + decimal(priority) + "\n"@
        + "\n"@ + "    "@ + "config "@ + "CARGO_NUTTX_"@ + u + "_STACKSIZE"@ + "\n"@
        + "        int \"Stack size\"\n        default "@ + decimal(stack_size) + "\n"@
        + "endif\n       "@
}

/// The `Kconfig` of the shim for `crate_name`.
pub open spec fn kconfig_text(crate_name: Seq<char>, priority: nat, stack_size: nat) -> Seq<char> {
    kconfig_text_for(
        case_converted(crate_name, TextCase::UpperSnake),
        case_converted(crate_name, TextCase::Snake),
        priority,
        stack_size,
    )
}

/// The `Make.defs` of the shim, for the upper-snake-case name `u` of `crate_name`: it adds
/// the app and links `staticlib_path` when the app option is enabled.
pub open spec fn make_defs_text_for(u: Seq<char>, crate_name: Seq<char>, staticlib_path: Seq<char>) -> Seq<char> {
    "\nifneq ("@ + "$(CONFIG_"@ + "CARGO_NUTTX_"@ + u + ")"@ + ",)\n    "@
        + "CONFIGURED_APPS += $(APPDIR)/external/"@ + crate_name + "\n"@
        + "    EXTRA_LIBS += \""@ + staticlib_path + "\""@ + "\nendif\n        "@
}

/// The `Make.defs` of the shim for `crate_name`.
pub open spec fn make_defs_text(crate_name: Seq<char>, staticlib_path: Seq<char>) -> Seq<char> {
    make_defs_text_for(case_converted(crate_name, TextCase::UpperSnake), crate_name, staticlib_path)
}

/// The `Makefile` of the shim, for the upper-snake-case crate name `u`: it reads the
/// program name, priority, stack size and app options and names `staticlib_path` as the
/// Rust library.
pub open spec fn makefile_text_for(u: Seq<char>, staticlib_path: Seq<char>) -> Seq<char> {
    "\ninclude $(APPDIR)/Make.defs\n\nPROGNAME  = "@ + "$(CONFIG_"@ + "CARGO_NUTTX_"@ + u
        + "_PROGNAME"@ + ")"@ + "\nPRIORITY  = "@ + "$(CONFIG_"@ + "CARGO_NUTTX_"@ + u
        + "_PRIORITY"@ + ")"@ + "\nSTACKSIZE = "@ + "$(CONFIG_"@ + "CARGO_NUTTX_"@ + u
        + "_STACKSIZE"@ + ")"@ + "\nMODULE    = "@ + "$(CONFIG_"@ + "CARGO_NUTTX_"@ + u
        + ")"@ + "\n\n"@ + "RUSTLIB := \""@ + staticlib_path + "\""@
        + "\n\ncontext:: $(RUSTLIB)\n\n$(RUSTLIB):\n\nclean::\n\ninclude $(APPDIR)/Application.mk\n        "@
}

/// The `Makefile` of the shim for `crate_name`.
pub open spec fn makefile_text(crate_name: Seq<char>, staticlib_path: Seq<char>) -> Seq<char> {
    makefile_text_for(case_converted(crate_name, TextCase::UpperSnake), staticlib_path)
}

/// What is appended to the board's `.config`, for the upper-snake-case crate name `u`: a
/// line break, the two configuration fragments as whole lines (a line break added where
/// one does not end in one), then the lines that enable the app, set its priority and
/// stack size, and make it the init entry point.
pub open spec fn config_appendix_text_for(
    config_fragment: Seq<char>,
    board_config_fragment: Seq<char>,
    u: Seq<char>,
    priority: nat,
    stack_size: nat,
    entrypoint_symbol: Seq<char>,
) -> Seq<char> {
    "\n"@ + line_terminated(config_fragment) + line_terminated(board_config_fragment)
        + "CONFIG_"@ + "CARGO_NUTTX_"@ + u + "=y\n"@ + "CONFIG_"@ + "CARGO_NUTTX_"@ + u
        + "_PRIORITY"@ + "="@ + decimal(priority) + "\n"@ + "CONFIG_"@ + "CARGO_NUTTX_"@
        + u + "_STACK_SIZE"@ + "="@ + decimal(stack_size) + "\n"@
        + "CONFIG_INIT_ENTRYPOINT=\""@ + entrypoint_symbol + "\"\n"@
        + "CONFIG_INIT_ENTRYNAME=\""@ + entrypoint_symbol + "\"\n"@
}

/// What is appended to the board's `.config` for `crate_name`.
pub open spec fn config_appendix_text(
    config_fragment: Seq<char>,
    board_config_fragment: Seq<char>,
    crate_name: Seq<char>,
    priority: nat,
    stack_size: nat,
    entrypoint_symbol: Seq<char>,
) -> Seq<char> {
    config_appendix_text_for(
        config_fragment,
        board_config_fragment,
        case_converted(crate_name, TextCase::UpperSnake),
        priority,
        stack_size,
        entrypoint_symbol,
    )
}

/// The `Kconfig` of the shim for the crate named `upper` in upper snake case and
/// `snake` in snake case.
pub fn kconfig_for(upper: &str, snake: &str, priority: u8, stack_size: u32) -> (r: String)
    ensures
        r@ == kconfig_text_for(upper@, snake@, priority as nat, stack_size as nat),
{
    let prio = decimal_string(priority as u64);
    let stack = decimal_string(stack_size as u64);
    let mut r = String::new();
    r.append("\n");
    r.append("config ");
    r.append("CARGO_NUTTX_");
    r.append(upper);
    r.append("\n");
    r.append("    tristate \"A rust application\"\n    default n\n\nif ");
    r.append("CARGO_NUTTX_");
    r.append(upper);
    r.append("\n");
    r.append("    ");
    r.append("config ");
    r.append("CARGO_NUTTX_");
    r.append(upper);
    r.append("_PROGNAME");
    r.append("\n");
    r.append("        string \"Program name\"\n        default \"");
    r.append(snake);
    r.append("\"\n\n");
    r.append("    ");
    r.append("config ");
    r.append("CARGO_NUTTX_");
    r.append(upper);
    r.append("_PRIORITY");
    r.append("\n");
    r.append("        int \"Task priority\"\n        default ");
    r.append(prio.as_str());
    r.append("\n");
    r.append("\n");
    r.append("    ");
    r.append("config ");
    r.append("CARGO_NUTTX_");
    r.append(upper);
    r.append("_STACKSIZE");
    r.append("\n");
    r.append("        int \"Stack size\"\n        default ");
    r.append(stack.as_str());
    r.append("\n");
    r.append("endif\n       ");
    r
}

/// The `Kconfig` of the shim for `crate_name`.
pub fn form_kconfig(crate_name: &str, priority: u8, stack_size: u32) -> (r: String)
    ensures
        r@ == kconfig_text(crate_name@, priority as nat, stack_size as nat),
{
    let upper = to_case(crate_name, TextCase::UpperSnake);
    let snake = to_case(crate_name, TextCase::Snake);
    kconfig_for(upper.as_str(), snake.as_str(), priority, stack_size)
}

/// The `Make.defs` of the shim for `crate_name`, named `upper` in upper snake case,
/// linking `staticlib_path`.
pub fn make_defs_for(upper: &str, crate_name: &str, staticlib_path: &str) -> (r: String)
    ensures
        r@ == make_defs_text_for(upper@, crate_name@, staticlib_path@),
{
    let mut r = String::new();
    r.append("\nifneq (");
    r.append("$(CONFIG_");
    r.append("CARGO_NUTTX_");
    r.append(upper);
    r.append(")");
    r.append(",)\n    ");
    r.append("CONFIGURED_APPS += $(APPDIR)/external/");
    r.append(crate_name);
    r.append("\n");
    r.append("    EXTRA_LIBS += \"");
    r.append(staticlib_path);
    r.append("\"");
    r.append("\nendif\n        ");
    r
}

/// The `Make.defs` of the shim for `crate_name`, linking `staticlib_path`.
pub fn form_make_defs(crate_name: &str, staticlib_path: &str) -> (r: String)
    ensures
        r@ == make_defs_text(crate_name@, staticlib_path@),
{
    let upper = to_case(crate_name, TextCase::UpperSnake);
    make_defs_for(upper.as_str(), crate_name, staticlib_path)
}

/// The `Makefile` of the shim for the crate named `upper` in upper snake case, naming
/// `staticlib_path`.
pub fn makefile_for(upper: &str, staticlib_path: &str) -> (r: String)
    ensures
        r@ == makefile_text_for(upper@, staticlib_path@),
{
    let mut r = String::new();
    r.append("\ninclude $(APPDIR)/Make.defs\n\nPROGNAME  = ");
    r.append("$(CONFIG_");
    r.append("CARGO_NUTTX_");
    r.append(upper);
    r.append("_PROGNAME");
    r.append(")");
    r.append("\nPRIORITY  = ");
    r.append("$(CONFIG_");
    r.append("CARGO_NUTTX_");
    r.append(upper);
    r.append("_PRIORITY");
    r.append(")");
    r.append("\nSTACKSIZE = ");
    r.append("$(CONFIG_");
    r.append("CARGO_NUTTX_");
    r.append(upper);
    r.append("_STACKSIZE");
    r.append(")");
    r.append("\nMODULE    = ");
    r.append("$(CONFIG_");
    r.append("CARGO_NUTTX_");
    r.append(upper);
    r.append(")");
    r.append("\n\n");
    r.append("RUSTLIB := \"");
    r.append(staticlib_path);
    r.append("\"");
    r.append("\n\ncontext:: $(RUSTLIB)\n\n$(RUSTLIB):\n\nclean::\n\ninclude $(APPDIR)/Application.mk\n        ");
    r
}

/// The `Makefile` of the shim for `crate_name`, naming `staticlib_path`.
pub fn form_makefile(crate_name: &str, staticlib_path: &str) -> (r: String)
    ensures
        r@ == makefile_text(crate_name@, staticlib_path@),
{
    let upper = to_case(crate_name, TextCase::UpperSnake);
    makefile_for(upper.as_str(), staticlib_path)
}

/// The text appended to the board's `.config` for the crate named `upper` in upper
/// snake case.
pub fn config_appendix_for(
    config_fragment: &str,
    board_config_fragment: &str,
    upper: &str,
    priority: u8,
    stack_size: u32,
    entrypoint_symbol: &str,
) -> (r: String)
    ensures
        r@ == config_appendix_text_for(
            config_fragment@,
            board_config_fragment@,
            upper@,
            priority as nat,
            stack_size as nat,
            entrypoint_symbol@,
        ),
{
    let fragment = terminate_lines(config_fragment);
    let board_fragment = terminate_lines(board_config_fragment);
    let prio = decimal_string(priority as u64);
    let stack = decimal_string(stack_size as u64);
    let mut r = String::new();
    r.append("\n");
    r.append(fragment.as_str());
    r.append(board_fragment.as_str());
    r.append("CONFIG_");
    r.append("CARGO_NUTTX_");
    r.append(upper);
    r.append("=y\n");
    r.append("CONFIG_");
    r.append("CARGO_NUTTX_");
    r.append(upper);
    r.append("_PRIORITY");
    r.append("=");
    r.append(prio.as_str());
    r.append("\n");
    r.append("CONFIG_");
    r.append("CARGO_NUTTX_");
    r.append(upper);
    r.append("_STACK_SIZE");
    r.append("=");
    r.append(stack.as_str());
    r.append("\n");
    r.append("CONFIG_INIT_ENTRYPOINT=\"");
    r.append(entrypoint_symbol);
    r.append("\"\n");
    r.append("CONFIG_INIT_ENTRYNAME=\"");
    r.append(entrypoint_symbol);
    r.append("\"\n");
    r
}

/// The text appended to the board's `.config` for `crate_name`.
pub fn form_config_appendix(
    config_fragment: &str,
    board_config_fragment: &str,
    crate_name: &str,
    priority: u8,
    stack_size: u32,
    entrypoint_symbol: &str,
) -> (r: String)
    ensures
        r@ == config_appendix_text(
            config_fragment@,
            board_config_fragment@,
            crate_name@,
            priority as nat,
            stack_size as nat,
            entrypoint_symbol@,
        ),
{
    let upper = to_case(crate_name, TextCase::UpperSnake);
    config_appendix_for(config_fragment, board_config_fragment, upper.as_str(), priority, stack_size, entrypoint_symbol)
}

/// Whether `t` occurs in `s` as a contiguous piece.
pub open spec fn has_infix(s: Seq<char>, t: Seq<char>) -> bool {
    exists|i: int| 0 <= i && i + t.len() <= s.len() && #[trigger] s.subrange(i, i + t.len()) == t
}

/// A piece occurs in any text that it stands in the middle of.
pub proof fn lemma_infix_of_concat(x: Seq<char>, t: Seq<char>, y: Seq<char>)
    ensures
        has_infix(x + t + y, t),
{
    let s = x + t + y;
    assert(s.subrange(x.len() as int, (x.len() + t.len()) as int) =~= t);
}

/// A piece of a text is a piece of any longer text that starts with it.
pub proof fn lemma_infix_extend(a: Seq<char>, b: Seq<char>, t: Seq<char>)
    requires
        has_infix(a, t),
    ensures
        has_infix(a + b, t),
{
    let i = choose|i: int| 0 <= i && i + t.len() <= a.len() && #[trigger] a.subrange(i, i + t.len()) == t;
    assert((a + b).subrange(i, i + t.len()) =~= a.subrange(i, i + t.len()));
}

#[verifier::rlimit(80)]
proof fn lemma_kconfig_declares_app(u: Seq<char>, snake: Seq<char>, priority: nat, stack_size: nat)
    ensures
        has_infix(kconfig_text_for(u, snake, priority, stack_size), option_declaration(app_symbol_of(u))),
{
    let x = "\n"@;
    let y = "    tristate \"A rust application\"\n    default n\n\nif "@ + "CARGO_NUTTX_"@ + u + "\n"@
        + "    "@ + "config "@ + "CARGO_NUTTX_"@ + u + "_PROGNAME"@ + "\n"@
        + "        string \"Program name\"\n        default \""@ + snake + "\"\n\n"@
        + "    "@ + "config "@ + "CARGO_NUTTX_"@ + u + "_PRIORITY"@ + "\n"@
        + "        int \"Task priority\"\n        default "@ + decimal(priority) + "\n"@
        + "\n"@ + "    "@ + "config "@ + "CARGO_NUTTX_"@ + u + "_STACKSIZE"@ + "\n"@
        + "        int \"Stack size\"\n        default "@ + decimal(stack_size) + "\n"@
        + "endif\n       "@;
    assert(kconfig_text_for(u, snake, priority, stack_size) =~= x + (option_declaration(app_symbol_of(u))) + y);
    lemma_infix_of_concat(x, option_declaration(app_symbol_of(u)), y);
}

#[verifier::rlimit(80)]
proof fn lemma_kconfig_declares_program_name(u: Seq<char>, snake: Seq<char>, priority: nat, stack_size: nat)
    ensures
        has_infix(kconfig_text_for(u, snake, priority, stack_size), option_declaration(app_symbol_of(u) + "_PROGNAME"@)),
{
    let x = "\n"@ + "config "@ + "CARGO_NUTTX_"@ + u + "\n"@
        + "    tristate \"A rust application\"\n    default n\n\nif "@ + "CARGO_NUTTX_"@
        + u + "\n"@ + "    "@;
    let y = "        string \"Program name\"\n        default \""@ + snake + "\"\n\n"@ + "    "@
        + "config "@ + "CARGO_NUTTX_"@ + u + "_PRIORITY"@ + "\n"@
        + "        int \"Task priority\"\n        default "@ + decimal(priority) + "\n"@
        + "\n"@ + "    "@ + "config "@ + "CARGO_NUTTX_"@ + u + "_STACKSIZE"@ + "\n"@
        + "        int \"Stack size\"\n        default "@ + decimal(stack_size) + "\n"@
        + "endif\n       "@;
    assert(kconfig_text_for(u, snake, priority, stack_size) =~= x + (option_declaration(app_symbol_of(u) + "_PROGNAME"@)) + y);
    lemma_infix_of_concat(x, option_declaration(app_symbol_of(u) + "_PROGNAME"@), y);
}

#[verifier::rlimit(80)]
proof fn lemma_kconfig_declares_priority(u: Seq<char>, snake: Seq<char>, priority: nat, stack_size: nat)
    ensures
        has_infix(kconfig_text_for(u, snake, priority, stack_size), option_declaration(app_symbol_of(u) + "_PRIORITY"@)),
{
    let x = "\n"@ + "config "@ + "CARGO_NUTTX_"@ + u + "\n"@
        + "    tristate \"A rust application\"\n    default n\n\nif "@ + "CARGO_NUTTX_"@
        + u + "\n"@ + "    "@ + "config "@ + "CARGO_NUTTX_"@ + u + "_PROGNAME"@ + "\n"@
        + "        string \"Program name\"\n        default \""@ + snake + "\"\n\n"@
        + "    "@;
    let y = "        int \"Task priority\"\n        default "@ + decimal(priority) + "\n"@ + "\n"@
        + "    "@ + "config "@ + "CARGO_NUTTX_"@ + u + "_STACKSIZE"@ + "\n"@
        + "        int \"Stack size\"\n        default "@ + decimal(stack_size) + "\n"@
        + "endif\n       "@;
    assert(kconfig_text_for(u, snake, priority, stack_size) =~= x + (option_declaration(app_symbol_of(u) + "_PRIORITY"@)) + y);
    lemma_infix_of_concat(x, option_declaration(app_symbol_of(u) + "_PRIORITY"@), y);
}

#[verifier::rlimit(80)]
proof fn lemma_kconfig_declares_stack_size(u: Seq<char>, snake: Seq<char>, priority: nat, stack_size: nat)
    ensures
        has_infix(kconfig_text_for(u, snake, priority, stack_size), option_declaration(app_symbol_of(u) + "_STACKSIZE"@)),
{
    let x = "\n"@ + "config "@ + "CARGO_NUTTX_"@ + u + "\n"@
        + "    tristate \"A rust application\"\n    default n\n\nif "@ + "CARGO_NUTTX_"@
        + u + "\n"@ + "    "@ + "config "@ + "CARGO_NUTTX_"@ + u + "_PROGNAME"@ + "\n"@
        + "        string \"Program name\"\n        default \""@ + snake + "\"\n\n"@
        + "    "@ + "config "@ + "CARGO_NUTTX_"@ + u + "_PRIORITY"@ + "\n"@
        + "        int \"Task priority\"\n        default "@ + decimal(priority) + "\n"@
        + "\n"@ + "    "@;
    let y = "        int \"Stack size\"\n        default "@ + decimal(stack_size) + "\n"@
        + "endif\n       "@;
    assert(kconfig_text_for(u, snake, priority, stack_size) =~= x + (option_declaration(app_symbol_of(u) + "_STACKSIZE"@)) + y);
    lemma_infix_of_concat(x, option_declaration(app_symbol_of(u) + "_STACKSIZE"@), y);
}

#[verifier::rlimit(80)]
proof fn lemma_kconfig_priority_default(u: Seq<char>, snake: Seq<char>, priority: nat, stack_size: nat)
    ensures
        has_infix(kconfig_text_for(u, snake, priority, stack_size), option_declaration(app_symbol_of(u) + "_PRIORITY"@) + "        int \"Task priority\"\n        default "@ + decimal(priority)),
{
    let x = "\n"@ + "config "@ + "CARGO_NUTTX_"@ + u + "\n"@
        + "    tristate \"A rust application\"\n    default n\n\nif "@ + "CARGO_NUTTX_"@
        + u + "\n"@ + "    "@ + "config "@ + "CARGO_NUTTX_"@ + u + "_PROGNAME"@ + "\n"@
        + "        string \"Program name\"\n        default \""@ + snake + "\"\n\n"@
        + "    "@;
    let y = "\n"@ + "\n"@ + "    "@ + "config "@ + "CARGO_NUTTX_"@ + u + "_STACKSIZE"@ + "\n"@
        + "        int \"Stack size\"\n        default "@ + decimal(stack_size) + "\n"@
        + "endif\n       "@;
    assert(kconfig_text_for(u, snake, priority, stack_size) =~= x + (option_declaration(app_symbol_of(u) + "_PRIORITY"@) + "        int \"Task priority\"\n        default "@ + decimal(priority)) + y);
    lemma_infix_of_concat(x, option_declaration(app_symbol_of(u) + "_PRIORITY"@) + "        int \"Task priority\"\n        default "@ + decimal(priority), y);
}

#[verifier::rlimit(80)]
proof fn lemma_kconfig_priority_line(u: Seq<char>, snake: Seq<char>, priority: nat, stack_size: nat)
    ensures
        has_infix(kconfig_text_for(u, snake, priority, stack_size), option_declaration(app_symbol_of(u) + "_PRIORITY"@) + "        int \"Task priority\"\n        default "@ + decimal(priority) + "\n"@),
{
    let x = "\n"@ + "config "@ + "CARGO_NUTTX_"@ + u + "\n"@
        + "    tristate \"A rust application\"\n    default n\n\nif "@ + "CARGO_NUTTX_"@
        + u + "\n"@ + "    "@ + "config "@ + "CARGO_NUTTX_"@ + u + "_PROGNAME"@ + "\n"@
        + "        string \"Program name\"\n        default \""@ + snake + "\"\n\n"@
        + "    "@;
    let y = "\n"@ + "    "@ + "config "@ + "CARGO_NUTTX_"@ + u + "_STACKSIZE"@ + "\n"@
        + "        int \"Stack size\"\n        default "@ + decimal(stack_size) + "\n"@
        + "endif\n       "@;
    assert(kconfig_text_for(u, snake, priority, stack_size) =~= x + (option_declaration(app_symbol_of(u) + "_PRIORITY"@) + "        int \"Task priority\"\n        default "@ + decimal(priority) + "\n"@) + y);
    lemma_infix_of_concat(x, option_declaration(app_symbol_of(u) + "_PRIORITY"@) + "        int \"Task priority\"\n        default "@ + decimal(priority) + "\n"@, y);
}

#[verifier::rlimit(80)]
proof fn lemma_kconfig_stack_size_line(u: Seq<char>, snake: Seq<char>, priority: nat, stack_size: nat)
    ensures
        has_infix(kconfig_text_for(u, snake, priority, stack_size), option_declaration(app_symbol_of(u) + "_STACKSIZE"@) + "        int \"Stack size\"\n        default "@ + decimal(stack_size) + "\n"@),
{
    let x = "\n"@ + "config "@ + "CARGO_NUTTX_"@ + u + "\n"@
        + "    tristate \"A rust application\"\n    default n\n\nif "@ + "CARGO_NUTTX_"@
        + u + "\n"@ + "    "@ + "config "@ + "CARGO_NUTTX_"@ + u + "_PROGNAME"@ + "\n"@
        + "        string \"Program name\"\n        default \""@ + snake + "\"\n\n"@
        + "    "@ + "config "@ + "CARGO_NUTTX_"@ + u + "_PRIORITY"@ + "\n"@
        + "        int \"Task priority\"\n        default "@ + decimal(priority) + "\n"@
        + "\n"@ + "    "@;
    let y = "endif\n       "@;
    assert(kconfig_text_for(u, snake, priority, stack_size) =~= x + (option_declaration(app_symbol_of(u) + "_STACKSIZE"@) + "        int \"Stack size\"\n        default "@ + decimal(stack_size) + "\n"@) + y);
    lemma_infix_of_concat(x, option_declaration(app_symbol_of(u) + "_STACKSIZE"@) + "        int \"Stack size\"\n        default "@ + decimal(stack_size) + "\n"@, y);
}

#[verifier::rlimit(80)]
proof fn lemma_kconfig_program_name_line(u: Seq<char>, snake: Seq<char>, priority: nat, stack_size: nat)
    ensures
        has_infix(kconfig_text_for(u, snake, priority, stack_size), option_declaration(app_symbol_of(u) + "_PROGNAME"@) + "        string \"Program name\"\n        default \""@ + snake + "\"\n\n"@),
{
    let x = "\n"@ + "config "@ + "CARGO_NUTTX_"@ + u + "\n"@
        + "    tristate \"A rust application\"\n    default n\n\nif "@ + "CARGO_NUTTX_"@
        + u + "\n"@ + "    "@;
    let y = "    "@ + "config "@ + "CARGO_NUTTX_"@ + u + "_PRIORITY"@ + "\n"@
        + "        int \"Task priority\"\n        default "@ + decimal(priority) + "\n"@
        + "\n"@ + "    "@ + "config "@ + "CARGO_NUTTX_"@ + u + "_STACKSIZE"@ + "\n"@
        + "        int \"Stack size\"\n        default "@ + decimal(stack_size) + "\n"@
        + "endif\n       "@;
    assert(kconfig_text_for(u, snake, priority, stack_size) =~= x + (option_declaration(app_symbol_of(u) + "_PROGNAME"@) + "        string \"Program name\"\n        default \""@ + snake + "\"\n\n"@) + y);
    lemma_infix_of_concat(x, option_declaration(app_symbol_of(u) + "_PROGNAME"@) + "        string \"Program name\"\n        default \""@ + snake + "\"\n\n"@, y);
}

#[verifier::rlimit(80)]
proof fn lemma_appendix_sets_stack_size(config_fragment: Seq<char>, board_config_fragment: Seq<char>, u: Seq<char>, priority: nat, stack_size: nat, entrypoint_symbol: Seq<char>)
    ensures
        has_infix(config_appendix_text_for(config_fragment, board_config_fragment, u, priority, stack_size, entrypoint_symbol), "CONFIG_"@ + (app_symbol_of(u) + "_STACK_SIZE"@) + "="@ + decimal(stack_size) + "\n"@),
{
    let x = "\n"@ + line_terminated(config_fragment) + line_terminated(board_config_fragment)
        + "CONFIG_"@ + "CARGO_NUTTX_"@ + u + "=y\n"@ + "CONFIG_"@ + "CARGO_NUTTX_"@ + u
        + "_PRIORITY"@ + "="@ + decimal(priority) + "\n"@;
    let y = "CONFIG_INIT_ENTRYPOINT=\""@ + entrypoint_symbol + "\"\n"@ + "CONFIG_INIT_ENTRYNAME=\""@
        + entrypoint_symbol + "\"\n"@;
    assert(config_appendix_text_for(config_fragment, board_config_fragment, u, priority, stack_size, entrypoint_symbol) =~= x + ("CONFIG_"@ + (app_symbol_of(u) + "_STACK_SIZE"@) + "="@ + decimal(stack_size) + "\n"@) + y);
    lemma_infix_of_concat(x, "CONFIG_"@ + (app_symbol_of(u) + "_STACK_SIZE"@) + "="@ + decimal(stack_size) + "\n"@, y);
}

#[verifier::rlimit(80)]
proof fn lemma_appendix_sets_entry_point(config_fragment: Seq<char>, board_config_fragment: Seq<char>, u: Seq<char>, priority: nat, stack_size: nat, entrypoint_symbol: Seq<char>)
    ensures
        has_infix(config_appendix_text_for(config_fragment, board_config_fragment, u, priority, stack_size, entrypoint_symbol), "CONFIG_INIT_ENTRYPOINT=\""@ + entrypoint_symbol + "\"\n"@),
{
    let x = "\n"@ + line_terminated(config_fragment) + line_terminated(board_config_fragment)
        + "CONFIG_"@ + "CARGO_NUTTX_"@ + u + "=y\n"@ + "CONFIG_"@ + "CARGO_NUTTX_"@ + u
        + "_PRIORITY"@ + "="@ + decimal(priority) + "\n"@ + "CONFIG_"@ + "CARGO_NUTTX_"@
        + u + "_STACK_SIZE"@ + "="@ + decimal(stack_size) + "\n"@;
    let y = "CONFIG_INIT_ENTRYNAME=\""@ + entrypoint_symbol + "\"\n"@;
    assert(config_appendix_text_for(config_fragment, board_config_fragment, u, priority, stack_size, entrypoint_symbol) =~= x + ("CONFIG_INIT_ENTRYPOINT=\""@ + entrypoint_symbol + "\"\n"@) + y);
    lemma_infix_of_concat(x, "CONFIG_INIT_ENTRYPOINT=\""@ + entrypoint_symbol + "\"\n"@, y);
}

#[verifier::rlimit(80)]
proof fn lemma_appendix_sets_entry_name(config_fragment: Seq<char>, board_config_fragment: Seq<char>, u: Seq<char>, priority: nat, stack_size: nat, entrypoint_symbol: Seq<char>)
    ensures
        has_infix(config_appendix_text_for(config_fragment, board_config_fragment, u, priority, stack_size, entrypoint_symbol), "CONFIG_INIT_ENTRYNAME=\""@ + entrypoint_symbol + "\"\n"@),
{
    let x = "\n"@ + line_terminated(config_fragment) + line_terminated(board_config_fragment)
        + "CONFIG_"@ + "CARGO_NUTTX_"@ + u + "=y\n"@ + "CONFIG_"@ + "CARGO_NUTTX_"@ + u
        + "_PRIORITY"@ + "="@ + decimal(priority) + "\n"@ + "CONFIG_"@ + "CARGO_NUTTX_"@
        + u + "_STACK_SIZE"@ + "="@ + decimal(stack_size) + "\n"@
        + "CONFIG_INIT_ENTRYPOINT=\""@ + entrypoint_symbol + "\"\n"@;
    let y = Seq::<char>::empty();
    assert(config_appendix_text_for(config_fragment, board_config_fragment, u, priority, stack_size, entrypoint_symbol) =~= x + ("CONFIG_INIT_ENTRYNAME=\""@ + entrypoint_symbol + "\"\n"@) + y);
    lemma_infix_of_concat(x, "CONFIG_INIT_ENTRYNAME=\""@ + entrypoint_symbol + "\"\n"@, y);
}

#[verifier::rlimit(80)]
proof fn lemma_makefile_names_library(u: Seq<char>, staticlib_path: Seq<char>)
    ensures
        has_infix(makefile_text_for(u, staticlib_path), "RUSTLIB := \""@ + staticlib_path + "\""@),
{
    let x = "\ninclude $(APPDIR)/Make.defs\n\nPROGNAME  = "@ + "$(CONFIG_"@ + "CARGO_NUTTX_"@ + u
        + "_PROGNAME"@ + ")"@ + "\nPRIORITY  = "@ + "$(CONFIG_"@ + "CARGO_NUTTX_"@ + u
        + "_PRIORITY"@ + ")"@ + "\nSTACKSIZE = "@ + "$(CONFIG_"@ + "CARGO_NUTTX_"@ + u
        + "_STACKSIZE"@ + ")"@ + "\nMODULE    = "@ + "$(CONFIG_"@ + "CARGO_NUTTX_"@ + u
        + ")"@ + "\n\n"@;
    let y = 
        "\n\ncontext:: $(RUSTLIB)\n\n$(RUSTLIB):\n\nclean::\n\ninclude $(APPDIR)/Application.mk\n        "@;
    assert(makefile_text_for(u, staticlib_path) =~= x + ("RUSTLIB := \""@ + staticlib_path + "\""@) + y);
    lemma_infix_of_concat(x, "RUSTLIB := \""@ + staticlib_path + "\""@, y);
}

#[verifier::rlimit(80)]
proof fn lemma_make_defs_adds_app_directory(u: Seq<char>, crate_name: Seq<char>, staticlib_path: Seq<char>)
    ensures
        has_infix(make_defs_text_for(u, crate_name, staticlib_path), "CONFIGURED_APPS += $(APPDIR)/external/"@ + crate_name + "\n"@),
{
    let x = "\nifneq ("@ + "$(CONFIG_"@ + "CARGO_NUTTX_"@ + u + ")"@ + ",)\n    "@;
    let y = "    EXTRA_LIBS += \""@ + staticlib_path + "\""@ + "\nendif\n        "@;
    assert(make_defs_text_for(u, crate_name, staticlib_path) =~= x + ("CONFIGURED_APPS += $(APPDIR)/external/"@ + crate_name + "\n"@) + y);
    lemma_infix_of_concat(x, "CONFIGURED_APPS += $(APPDIR)/external/"@ + crate_name + "\n"@, y);
}

#[verifier::rlimit(80)]
proof fn lemma_make_defs_links_library(u: Seq<char>, crate_name: Seq<char>, staticlib_path: Seq<char>)
    ensures
        has_infix(make_defs_text_for(u, crate_name, staticlib_path), "    EXTRA_LIBS += \""@ + staticlib_path + "\""@),
{
    let x = "\nifneq ("@ + "$(CONFIG_"@ + "CARGO_NUTTX_"@ + u + ")"@ + ",)\n    "@
        + "CONFIGURED_APPS += $(APPDIR)/external/"@ + crate_name + "\n"@;
    let y = "\nendif\n        "@;
    assert(make_defs_text_for(u, crate_name, staticlib_path) =~= x + ("    EXTRA_LIBS += \""@ + staticlib_path + "\""@) + y);
    lemma_infix_of_concat(x, "    EXTRA_LIBS += \""@ + staticlib_path + "\""@, y);
}

#[verifier::rlimit(80)]
proof fn lemma_makefile_reads_program_name(u: Seq<char>, staticlib_path: Seq<char>)
    ensures
        has_infix(makefile_text_for(u, staticlib_path), option_read(app_symbol_of(u) + "_PROGNAME"@)),
{
    let x = "\ninclude $(APPDIR)/Make.defs\n\nPROGNAME  = "@;
    let y = "\nPRIORITY  = "@ + "$(CONFIG_"@ + "CARGO_NUTTX_"@ + u + "_PRIORITY"@ + ")"@
        + "\nSTACKSIZE = "@ + "$(CONFIG_"@ + "CARGO_NUTTX_"@ + u + "_STACKSIZE"@ + ")"@
        + "\nMODULE    = "@ + "$(CONFIG_"@ + "CARGO_NUTTX_"@ + u + ")"@ + "\n\n"@
        + "RUSTLIB := \""@ + staticlib_path + "\""@
        + "\n\ncontext:: $(RUSTLIB)\n\n$(RUSTLIB):\n\nclean::\n\ninclude $(APPDIR)/Application.mk\n        "@;
    assert(makefile_text_for(u, staticlib_path) =~= x + (option_read(app_symbol_of(u) + "_PROGNAME"@)) + y);
    lemma_infix_of_concat(x, option_read(app_symbol_of(u) + "_PROGNAME"@), y);
}

#[verifier::rlimit(80)]
proof fn lemma_makefile_reads_priority(u: Seq<char>, staticlib_path: Seq<char>)
    ensures
        has_infix(makefile_text_for(u, staticlib_path), option_read(app_symbol_of(u) + "_PRIORITY"@)),
{
    let x = "\ninclude $(APPDIR)/Make.defs\n\nPROGNAME  = "@ + "$(CONFIG_"@ + "CARGO_NUTTX_"@ + u
        + "_PROGNAME"@ + ")"@ + "\nPRIORITY  = "@;
    let y = "\nSTACKSIZE = "@ + "$(CONFIG_"@ + "CARGO_NUTTX_"@ + u + "_STACKSIZE"@ + ")"@
        + "\nMODULE    = "@ + "$(CONFIG_"@ + "CARGO_NUTTX_"@ + u + ")"@ + "\n\n"@
        + "RUSTLIB := \""@ + staticlib_path + "\""@
        + "\n\ncontext:: $(RUSTLIB)\n\n$(RUSTLIB):\n\nclean::\n\ninclude $(APPDIR)/Application.mk\n        "@;
    assert(makefile_text_for(u, staticlib_path) =~= x + (option_read(app_symbol_of(u) + "_PRIORITY"@)) + y);
    lemma_infix_of_concat(x, option_read(app_symbol_of(u) + "_PRIORITY"@), y);
}

#[verifier::rlimit(80)]
proof fn lemma_makefile_reads_stack_size(u: Seq<char>, staticlib_path: Seq<char>)
    ensures
        has_infix(makefile_text_for(u, staticlib_path), option_read(app_symbol_of(u) + "_STACKSIZE"@)),
{
    let x = "\ninclude $(APPDIR)/Make.defs\n\nPROGNAME  = "@ + "$(CONFIG_"@ + "CARGO_NUTTX_"@ + u
        + "_PROGNAME"@ + ")"@ + "\nPRIORITY  = "@ + "$(CONFIG_"@ + "CARGO_NUTTX_"@ + u
        + "_PRIORITY"@ + ")"@ + "\nSTACKSIZE = "@;
    let y = "\nMODULE    = "@ + "$(CONFIG_"@ + "CARGO_NUTTX_"@ + u + ")"@ + "\n\n"@ + "RUSTLIB := \""@
        + staticlib_path + "\""@
        + "\n\ncontext:: $(RUSTLIB)\n\n$(RUSTLIB):\n\nclean::\n\ninclude $(APPDIR)/Application.mk\n        "@;
    assert(makefile_text_for(u, staticlib_path) =~= x + (option_read(app_symbol_of(u) + "_STACKSIZE"@)) + y);
    lemma_infix_of_concat(x, option_read(app_symbol_of(u) + "_STACKSIZE"@), y);
}

#[verifier::rlimit(80)]
proof fn lemma_makefile_reads_app(u: Seq<char>, staticlib_path: Seq<char>)
    ensures
        has_infix(makefile_text_for(u, staticlib_path), option_read(app_symbol_of(u))),
{
    let x = "\ninclude $(APPDIR)/Make.defs\n\nPROGNAME  = "@ + "$(CONFIG_"@ + "CARGO_NUTTX_"@ + u
        + "_PROGNAME"@ + ")"@ + "\nPRIORITY  = "@ + "$(CONFIG_"@ + "CARGO_NUTTX_"@ + u
        + "_PRIORITY"@ + ")"@ + "\nSTACKSIZE = "@ + "$(CONFIG_"@ + "CARGO_NUTTX_"@ + u
        + "_STACKSIZE"@ + ")"@ + "\nMODULE    = "@;
    let y = "\n\n"@ + "RUSTLIB := \""@ + staticlib_path + "\""@
        + "\n\ncontext:: $(RUSTLIB)\n\n$(RUSTLIB):\n\nclean::\n\ninclude $(APPDIR)/Application.mk\n        "@;
    assert(makefile_text_for(u, staticlib_path) =~= x + (option_read(app_symbol_of(u))) + y);
    lemma_infix_of_concat(x, option_read(app_symbol_of(u)), y);
}

#[verifier::rlimit(80)]
proof fn lemma_make_defs_reads_app(u: Seq<char>, crate_name: Seq<char>, staticlib_path: Seq<char>)
    ensures
        has_infix(make_defs_text_for(u, crate_name, staticlib_path), option_read(app_symbol_of(u))),
{
    let x = "\nifneq ("@;
    let y = ",)\n    "@ + "CONFIGURED_APPS += $(APPDIR)/external/"@ + crate_name + "\n"@
        + "    EXTRA_LIBS += \""@ + staticlib_path + "\""@ + "\nendif\n        "@;
    assert(make_defs_text_for(u, crate_name, staticlib_path) =~= x + (option_read(app_symbol_of(u))) + y);
    lemma_infix_of_concat(x, option_read(app_symbol_of(u)), y);
}

#[verifier::rlimit(80)]
proof fn lemma_appendix_enables_app(config_fragment: Seq<char>, board_config_fragment: Seq<char>, u: Seq<char>, priority: nat, stack_size: nat, entrypoint_symbol: Seq<char>)
    ensures
        has_infix(config_appendix_text_for(config_fragment, board_config_fragment, u, priority, stack_size, entrypoint_symbol), "CONFIG_"@ + app_symbol_of(u) + "=y\n"@),
{
    let x = "\n"@ + line_terminated(config_fragment) + line_terminated(board_config_fragment);
    let y = "CONFIG_"@ + "CARGO_NUTTX_"@ + u + "_PRIORITY"@ + "="@ + decimal(priority) + "\n"@
        + "CONFIG_"@ + "CARGO_NUTTX_"@ + u + "_STACK_SIZE"@ + "="@ + decimal(stack_size)
        + "\n"@ + "CONFIG_INIT_ENTRYPOINT=\""@ + entrypoint_symbol + "\"\n"@
        + "CONFIG_INIT_ENTRYNAME=\""@ + entrypoint_symbol + "\"\n"@;
    assert(config_appendix_text_for(config_fragment, board_config_fragment, u, priority, stack_size, entrypoint_symbol) =~= x + ("CONFIG_"@ + app_symbol_of(u) + "=y\n"@) + y);
    lemma_infix_of_concat(x, "CONFIG_"@ + app_symbol_of(u) + "=y\n"@, y);
}

#[verifier::rlimit(80)]
proof fn lemma_appendix_sets_priority(config_fragment: Seq<char>, board_config_fragment: Seq<char>, u: Seq<char>, priority: nat, stack_size: nat, entrypoint_symbol: Seq<char>)
    ensures
        has_infix(config_appendix_text_for(config_fragment, board_config_fragment, u, priority, stack_size, entrypoint_symbol), "CONFIG_"@ + (app_symbol_of(u) + "_PRIORITY"@) + "="@ + decimal(priority) + "\n"@),
{
    let x = "\n"@ + line_terminated(config_fragment) + line_terminated(board_config_fragment)
        + "CONFIG_"@ + "CARGO_NUTTX_"@ + u + "=y\n"@;
    let y = "CONFIG_"@ + "CARGO_NUTTX_"@ + u + "_STACK_SIZE"@ + "="@ + decimal(stack_size) + "\n"@
        + "CONFIG_INIT_ENTRYPOINT=\""@ + entrypoint_symbol + "\"\n"@
        + "CONFIG_INIT_ENTRYNAME=\""@ + entrypoint_symbol + "\"\n"@;
    assert(config_appendix_text_for(config_fragment, board_config_fragment, u, priority, stack_size, entrypoint_symbol) =~= x + ("CONFIG_"@ + (app_symbol_of(u) + "_PRIORITY"@) + "="@ + decimal(priority) + "\n"@) + y);
    lemma_infix_of_concat(x, "CONFIG_"@ + (app_symbol_of(u) + "_PRIORITY"@) + "="@ + decimal(priority) + "\n"@, y);
}

/// Every option the shim's `Makefile` reads (the app, its program name, priority and
/// stack size) is declared in the shim's `Kconfig`, and `Make.defs` tests the app option.
pub proof fn lemma_shim_options_declared(
    u: Seq<char>,
    snake: Seq<char>,
    priority: nat,
    stack_size: nat,
    crate_name: Seq<char>,
    staticlib_path: Seq<char>,
)
    ensures
        forall|i: int|
            0 <= i < shim_options(u).len() ==> has_infix(
                makefile_text_for(u, staticlib_path),
                option_read(#[trigger] shim_options(u)[i]),
            ) && has_infix(kconfig_text_for(u, snake, priority, stack_size), option_declaration(shim_options(u)[i])),
        has_infix(make_defs_text_for(u, crate_name, staticlib_path), option_read(app_symbol_of(u))),
{
    lemma_kconfig_declares_app(u, snake, priority, stack_size);
    lemma_kconfig_declares_program_name(u, snake, priority, stack_size);
    lemma_kconfig_declares_priority(u, snake, priority, stack_size);
    lemma_kconfig_declares_stack_size(u, snake, priority, stack_size);
    lemma_makefile_reads_app(u, staticlib_path);
    lemma_makefile_reads_program_name(u, staticlib_path);
    lemma_makefile_reads_priority(u, staticlib_path);
    lemma_makefile_reads_stack_size(u, staticlib_path);
    lemma_make_defs_reads_app(u, crate_name, staticlib_path);
}

/// The appended configuration enables the app option the shim declares and reads, and
/// sets the priority option to the `Kconfig` default; every option the `Makefile` reads
/// is declared in the `Kconfig`.
pub proof fn lemma_appendix_configures_declared_app(
    config_fragment: Seq<char>,
    board_config_fragment: Seq<char>,
    crate_name: Seq<char>,
    priority: nat,
    stack_size: nat,
    entrypoint_symbol: Seq<char>,
    staticlib_path: Seq<char>,
)
    ensures
        ({
            let u = case_converted(crate_name, TextCase::UpperSnake);
            let kconfig = kconfig_text(crate_name, priority, stack_size);
            let appendix = config_appendix_text(config_fragment, board_config_fragment, crate_name, priority,
                stack_size, entrypoint_symbol);
            &&& forall|i: int|
                0 <= i < shim_options(u).len() ==> has_infix(
                    makefile_text(crate_name, staticlib_path),
                    option_read(#[trigger] shim_options(u)[i]),
                ) && has_infix(kconfig, option_declaration(shim_options(u)[i]))
            &&& has_infix(make_defs_text(crate_name, staticlib_path), option_read(app_symbol(crate_name)))
            &&& has_infix(appendix, "CONFIG_"@ + app_symbol(crate_name) + "=y\n"@)
            &&& has_infix(
                kconfig,
                option_declaration(app_symbol(crate_name) + "_PRIORITY"@)
                    + "        int \"Task priority\"\n        default "@ + decimal(priority),
            )
            &&& has_infix(appendix, "CONFIG_"@ + (app_symbol(crate_name) + "_PRIORITY"@) + "="@ + decimal(priority) + "\n"@)
        }),
{
    let u = case_converted(crate_name, TextCase::UpperSnake);
    let snake = case_converted(crate_name, TextCase::Snake);
    lemma_shim_options_declared(u, snake, priority, stack_size, crate_name, staticlib_path);
    lemma_kconfig_priority_default(u, snake, priority, stack_size);
    lemma_appendix_enables_app(config_fragment, board_config_fragment, u, priority, stack_size, entrypoint_symbol);
    lemma_appendix_sets_priority(config_fragment, board_config_fragment, u, priority, stack_size, entrypoint_symbol);
}

/// The shim's `Kconfig` gives each option the value asked for: the program name default
/// is the snake-case crate name, and the priority and stack size defaults are the decimal
/// notation of the given priority and stack size, each ending its line.
pub proof fn lemma_kconfig_defaults_are_given_values(crate_name: Seq<char>, priority: nat, stack_size: nat)
    ensures
        has_infix(
            kconfig_text(crate_name, priority, stack_size),
            option_declaration(app_symbol(crate_name) + "_PROGNAME"@) + "        string \"Program name\"\n        default \""@
                + case_converted(crate_name, TextCase::Snake) + "\"\n\n"@,
        ),
        has_infix(
            kconfig_text(crate_name, priority, stack_size),
            option_declaration(app_symbol(crate_name) + "_PRIORITY"@) + "        int \"Task priority\"\n        default "@
                + decimal(priority) + "\n"@,
        ),
        has_infix(
            kconfig_text(crate_name, priority, stack_size),
            option_declaration(app_symbol(crate_name) + "_STACKSIZE"@) + "        int \"Stack size\"\n        default "@
                + decimal(stack_size) + "\n"@,
        ),
{
    let u = case_converted(crate_name, TextCase::UpperSnake);
    let snake = case_converted(crate_name, TextCase::Snake);
    lemma_kconfig_program_name_line(u, snake, priority, stack_size);
    lemma_kconfig_priority_line(u, snake, priority, stack_size);
    lemma_kconfig_stack_size_line(u, snake, priority, stack_size);
}

/// The appended configuration sets the given priority and stack size, and makes the
/// given entry point symbol both the init entry point and the init entry name.
pub proof fn lemma_appendix_sets_given_values(
    config_fragment: Seq<char>,
    board_config_fragment: Seq<char>,
    crate_name: Seq<char>,
    priority: nat,
    stack_size: nat,
    entrypoint_symbol: Seq<char>,
)
    ensures
        ({
            let appendix = config_appendix_text(config_fragment, board_config_fragment, crate_name, priority,
                stack_size, entrypoint_symbol);
            &&& has_infix(appendix, "CONFIG_"@ + (app_symbol(crate_name) + "_PRIORITY"@) + "="@ + decimal(priority) + "\n"@)
            &&& has_infix(appendix, "CONFIG_"@ + (app_symbol(crate_name) + "_STACK_SIZE"@) + "="@ + decimal(stack_size) + "\n"@)
            &&& has_infix(appendix, "CONFIG_INIT_ENTRYPOINT=\""@ + entrypoint_symbol + "\"\n"@)
            &&& has_infix(appendix, "CONFIG_INIT_ENTRYNAME=\""@ + entrypoint_symbol + "\"\n"@)
        }),
{
    let u = case_converted(crate_name, TextCase::UpperSnake);
    lemma_appendix_sets_priority(config_fragment, board_config_fragment, u, priority, stack_size, entrypoint_symbol);
    lemma_appendix_sets_stack_size(config_fragment, board_config_fragment, u, priority, stack_size, entrypoint_symbol);
    lemma_appendix_sets_entry_point(config_fragment, board_config_fragment, u, priority, stack_size, entrypoint_symbol);
    lemma_appendix_sets_entry_name(config_fragment, board_config_fragment, u, priority, stack_size, entrypoint_symbol);
}

/// The shim's `Make.defs` adds the app from `apps/external/<crate_name>` and links the
/// given static library, and its `Makefile` names that library as the Rust library.
pub proof fn lemma_shim_links_given_library(crate_name: Seq<char>, staticlib_path: Seq<char>)
    ensures
        has_infix(make_defs_text(crate_name, staticlib_path), "CONFIGURED_APPS += $(APPDIR)/external/"@ + crate_name + "\n"@),
        has_infix(make_defs_text(crate_name, staticlib_path), "    EXTRA_LIBS += \""@ + staticlib_path + "\""@),
        has_infix(makefile_text(crate_name, staticlib_path), "RUSTLIB := \""@ + staticlib_path + "\""@),
{
    let u = case_converted(crate_name, TextCase::UpperSnake);
    lemma_make_defs_adds_app_directory(u, crate_name, staticlib_path);
    lemma_make_defs_links_library(u, crate_name, staticlib_path);
    lemma_makefile_names_library(u, staticlib_path);
}

/// The configuration fragments are added as whole lines: each stands in the appended
/// text right after a line break, unchanged but for a line break added at its end where
/// it had none, so that every line of a fragment is a line of the configuration and the
/// app's own settings start on a line of their own.
#[verifier::rlimit(80)]
pub proof fn lemma_fragments_stay_whole_lines(
    config_fragment: Seq<char>,
    board_config_fragment: Seq<char>,
    u: Seq<char>,
    priority: nat,
    stack_size: nat,
    entrypoint_symbol: Seq<char>,
)
    ensures
        ({
            let c = config_appendix_text_for(config_fragment, board_config_fragment, u, priority, stack_size,
                entrypoint_symbol);
            let f1 = line_terminated(config_fragment);
            let f2 = line_terminated(board_config_fragment);
            let end = 1 + f1.len() + f2.len();
            let enable = "CONFIG_"@ + app_symbol_of(u) + "=y\n"@;
            &&& c[0] == '\n'
            &&& c.subrange(1, 1 + config_fragment.len() as int) == config_fragment
            &&& c.subrange(1 + f1.len() as int, 1 + f1.len() + board_config_fragment.len() as int)
                == board_config_fragment
            &&& (f1.len() == config_fragment.len() || c[1 + config_fragment.len() as int] == '\n')
            &&& (f2.len() == board_config_fragment.len() || c[1 + f1.len() + board_config_fragment.len() as int]
                == '\n')
            &&& f1.len() <= config_fragment.len() + 1
            &&& f2.len() <= board_config_fragment.len() + 1
            &&& end + enable.len() <= c.len()
            &&& c[end - 1] == '\n'
            &&& c.subrange(end as int, end + enable.len() as int) == enable
        }),
{
    let c = config_appendix_text_for(config_fragment, board_config_fragment, u, priority, stack_size,
        entrypoint_symbol);
    let f1 = line_terminated(config_fragment);
    let f2 = line_terminated(board_config_fragment);
    reveal_strlit("\n");
    let head = "\n"@ + f1 + f2;
    let enable = "CONFIG_"@ + app_symbol_of(u) + "=y\n"@;
    let rest = "CONFIG_"@ + "CARGO_NUTTX_"@ + u + "_PRIORITY"@ + "="@ + decimal(priority) + "\n"@
        + "CONFIG_"@ + "CARGO_NUTTX_"@ + u + "_STACK_SIZE"@ + "="@ + decimal(stack_size)
        + "\n"@ + "CONFIG_INIT_ENTRYPOINT=\""@ + entrypoint_symbol + "\"\n"@
        + "CONFIG_INIT_ENTRYNAME=\""@ + entrypoint_symbol + "\"\n"@;
    assert(c =~= head + enable + rest);
    assert(c.subrange(head.len() as int, head.len() + enable.len() as int) =~= enable);
    assert(c.subrange(1, 1 + config_fragment.len() as int) =~= config_fragment);
    assert(c.subrange(1 + f1.len() as int, 1 + f1.len() + board_config_fragment.len() as int) =~= board_config_fragment);
    assert(head[head.len() - 1] == '\n');
}

} // verus!
