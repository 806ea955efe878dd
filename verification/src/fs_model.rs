//! What the planned steps do to the files of a NuttX root, as a model over file
//! contents by path, and the law that repeated builds start from the same
//! configuration.

use vstd::prelude::*;

use crate::shim::config_appendix_text;
use crate::nuttx::{
    config_file, external_dir, link_plan, saved_config_file, setup_plan, shim_dir,
    StepView,
};
use crate::paths::joined_path;

verus! {

/// File contents by path.
pub type Files = Map<Seq<char>, Seq<char>>;

/// The files after one step. `outside` is what a program run (`configure.sh`, `make`)
/// does to the files; checks and directory creation leave file contents alone; a copy
/// or an append whose source is missing changes nothing (the build stops there).
pub open spec fn apply_step(fs: Files, step: StepView, outside: spec_fn(Files, StepView) -> Files) -> Files {
    match step {
        StepView::WriteFile { path, contents, keep_existing } => if keep_existing && fs.contains_key(path) {
            fs
        } else {
            fs.insert(path, contents)
        },
        StepView::CopyFile { from, to, keep_existing } => if keep_existing && fs.contains_key(to) {
            fs
        } else if fs.contains_key(from) {
            fs.insert(to, fs[from])
        } else {
            fs
        },
        StepView::AppendFile { path, contents } => if fs.contains_key(path) {
            fs.insert(path, fs[path] + contents)
        } else {
            fs
        },
        StepView::Run { .. } => outside(fs, step),
        StepView::RunMakeWithUserArgs { .. } => outside(fs, step),
        _ => fs,
    }
}

/// The files after the steps, in order.
pub open spec fn run_steps(fs: Files, steps: Seq<StepView>, outside: spec_fn(Files, StepView) -> Files) -> Files
    decreases steps.len(),
{
    if steps.len() == 0 {
        fs
    } else {
        apply_step(run_steps(fs, steps.drop_last(), outside), steps.last(), outside)
    }
}

/// The programs run leave the file at `p` as it is.
pub open spec fn outside_spares(outside: spec_fn(Files, StepView) -> Files, p: Seq<char>) -> bool {
    forall|g: Files, st: StepView|
        #![trigger outside(g, st)]
        (st is Run || st is RunMakeWithUserArgs) ==> (outside(g, st).contains_key(p) == g.contains_key(p) && (
        g.contains_key(p) ==> outside(g, st)[p] == g[p]))
}

/// The step writes no file at `p`, other than through a program it runs.
pub open spec fn step_spares(step: StepView, p: Seq<char>) -> bool {
    match step {
        StepView::WriteFile { path, .. } => path != p,
        StepView::CopyFile { to, .. } => to != p,
        StepView::AppendFile { path, .. } => path != p,
        _ => true,
    }
}

proof fn lemma_run_spares(fs: Files, steps: Seq<StepView>, p: Seq<char>, outside: spec_fn(Files, StepView) -> Files)
    requires
        outside_spares(outside, p),
        forall|i: int| 0 <= i < steps.len() ==> step_spares(#[trigger] steps[i], p),
    ensures
        run_steps(fs, steps, outside).contains_key(p) == fs.contains_key(p),
        fs.contains_key(p) ==> run_steps(fs, steps, outside)[p] == fs[p],
    decreases steps.len(),
{
    if steps.len() > 0 {
        let prev = steps.drop_last();
        assert forall|i: int| 0 <= i < prev.len() implies step_spares(#[trigger] prev[i], p) by {
            assert(prev[i] == steps[i]);
        }
        lemma_run_spares(fs, prev, p, outside);
        let g = run_steps(fs, prev, outside);
        assert(step_spares(steps[steps.len() - 1], p));
        let st = steps.last();
        if st is Run || st is RunMakeWithUserArgs {
            assert(outside(g, st).contains_key(p) == g.contains_key(p));
        }
    }
}

proof fn lemma_run_take_step(fs: Files, steps: Seq<StepView>, k: int, outside: spec_fn(Files, StepView) -> Files)
    requires
        0 <= k < steps.len(),
    ensures
        run_steps(fs, steps.take(k + 1), outside) == apply_step(run_steps(fs, steps.take(k), outside), steps[k], outside),
{
    assert(steps.take(k + 1).drop_last() =~= steps.take(k));
}

/// The saved copy of the configuration is a file of its own: no other file the steps
/// write resolves to its path.
pub open spec fn saved_copy_is_separate(root: Seq<char>, crate_name: Seq<char>) -> bool {
    let saved = saved_config_file(root);
    &&& saved != config_file(root)
    &&& saved != joined_path(external_dir(root), "Makefile"@)
    &&& saved != joined_path(external_dir(root), "Make.defs"@)
    &&& saved != joined_path(shim_dir(root, crate_name), "Kconfig"@)
    &&& saved != joined_path(shim_dir(root, crate_name), "Make.defs"@)
    &&& saved != joined_path(shim_dir(root, crate_name), "Makefile"@)
}

/// The number of steps a build without `--clean` runs before `make olddefconfig`.
pub open spec fn steps_before_olddefconfig() -> int {
    11
}

proof fn lemma_setup_spares_saved_before_copy(
    plan: Seq<StepView>,
    root: Seq<char>,
    crate_name: Seq<char>,
)
    requires
        saved_copy_is_separate(root, crate_name),
        plan.len() == 13,
        forall|i: int| 0 <= i < 8 ==> !(#[trigger] plan[i] is CopyFile) && !(plan[i] is AppendFile),
        plan[2] is WriteFile && plan[2]->WriteFile_path == joined_path(external_dir(root), "Makefile"@),
        plan[3] is WriteFile && plan[3]->WriteFile_path == joined_path(external_dir(root), "Make.defs"@),
        plan[4] is WriteFile && plan[4]->WriteFile_path == joined_path(shim_dir(root, crate_name), "Kconfig"@),
        plan[5] is WriteFile && plan[5]->WriteFile_path == joined_path(shim_dir(root, crate_name), "Make.defs"@),
        plan[6] is WriteFile && plan[6]->WriteFile_path == joined_path(shim_dir(root, crate_name), "Makefile"@),
        forall|i: int| 0 <= i < 8 && i != 2 && i != 3 && i != 4 && i != 5 && i != 6 ==> !(#[trigger] plan[i] is WriteFile),
    ensures
        forall|i: int| 0 <= i < plan.take(8).len() ==> step_spares(#[trigger] plan.take(8)[i], saved_config_file(root)),
{
    assert forall|i: int| 0 <= i < plan.take(8).len() implies step_spares(#[trigger] plan.take(8)[i], saved_config_file(root)) by {
        assert(plan.take(8)[i] == plan[i]);
    }
}

/// Two builds without `--clean`, with the same arguments and nothing but the first
/// build touching the NuttX root in between, reach `make olddefconfig` with the same
/// configuration: the one `configure.sh` produced for the first build, followed once
/// by the fragments and the crate's settings. The settings never pile up.
///
/// The programs run (`configure.sh`, `make`) may change any other file, differently in
/// each build, but leave the saved copy `.config.cargo_nuttx` alone; the saved copy is
/// a file of its own; and the first build got past its copies (as it must to reach
/// `make olddefconfig`).
pub proof fn lemma_rebuild_starts_from_same_config(
    fs0: Files,
    root: Seq<char>,
    crate_name: Seq<char>,
    board: Seq<char>,
    board_config: Seq<char>,
    config_fragment: Seq<char>,
    board_config_fragment: Seq<char>,
    entrypoint_symbol: Seq<char>,
    priority: nat,
    stack_size: nat,
    staticlib_path: Seq<char>,
    first_outside: spec_fn(Files, StepView) -> Files,
    second_outside: spec_fn(Files, StepView) -> Files,
)
    requires
        saved_copy_is_separate(root, crate_name),
        outside_spares(first_outside, saved_config_file(root)),
        outside_spares(second_outside, saved_config_file(root)),
        run_steps(
            fs0,
            setup_plan(root, crate_name, board, board_config, config_fragment, board_config_fragment,
                entrypoint_symbol, false, priority, stack_size).take(9),
            first_outside,
        ).contains_key(saved_config_file(root)),
    ensures
        ({
            let plan = setup_plan(root, crate_name, board, board_config, config_fragment, board_config_fragment,
                entrypoint_symbol, false, priority, stack_size);
            let before = plan.take(steps_before_olddefconfig());
            let first = run_steps(fs0, before, first_outside);
            let after_first = run_steps(
                run_steps(fs0, plan, first_outside),
                link_plan(root, crate_name, staticlib_path),
                first_outside,
            );
            let second = run_steps(after_first, before, second_outside);
            let appendix = config_appendix_text(config_fragment, board_config_fragment, crate_name, priority,
                stack_size, entrypoint_symbol);
            &&& first.contains_key(config_file(root))
            &&& second.contains_key(config_file(root))
            &&& second[config_file(root)] == first[config_file(root)]
            &&& first[config_file(root)] == first[saved_config_file(root)] + appendix
        }),
{
    let plan = setup_plan(root, crate_name, board, board_config, config_fragment, board_config_fragment,
        entrypoint_symbol, false, priority, stack_size);
    let saved = saved_config_file(root);
    let config = config_file(root);
    let appendix = config_appendix_text(config_fragment, board_config_fragment, crate_name, priority,
        stack_size, entrypoint_symbol);
    let link = link_plan(root, crate_name, staticlib_path);
    assert(plan.len() == 13);
    lemma_setup_spares_saved_before_copy(plan, root, crate_name);

    // The first build, up to `make olddefconfig`.
    let f8 = run_steps(fs0, plan.take(8), first_outside);
    lemma_run_take_step(fs0, plan, 8, first_outside);
    lemma_run_take_step(fs0, plan, 9, first_outside);
    lemma_run_take_step(fs0, plan, 10, first_outside);
    let f9 = run_steps(fs0, plan.take(9), first_outside);
    let s1 = f9[saved];
    let f10 = run_steps(fs0, plan.take(10), first_outside);
    assert(f10 == f9.insert(config, s1));
    let f11 = run_steps(fs0, plan.take(11), first_outside);
    assert(f11 == f10.insert(config, s1 + appendix));
    assert(f11[saved] == s1);

    // The rest of the first build leaves the saved copy alone.
    lemma_run_take_step(fs0, plan, 11, first_outside);
    lemma_run_take_step(fs0, plan, 12, first_outside);
    assert(plan.take(13) =~= plan);
    let full = run_steps(fs0, plan, first_outside);
    assert(full.contains_key(saved) && full[saved] == s1);
    assert forall|i: int| 0 <= i < link.len() implies step_spares(#[trigger] link[i], saved) by {}
    lemma_run_spares(full, link, saved, first_outside);
    let mid = run_steps(full, link, first_outside);
    assert(mid.contains_key(saved) && mid[saved] == s1);

    // The second build, up to `make olddefconfig`.
    lemma_run_spares(mid, plan.take(8), saved, second_outside);
    let g8 = run_steps(mid, plan.take(8), second_outside);
    assert(g8.contains_key(saved) && g8[saved] == s1);
    lemma_run_take_step(mid, plan, 8, second_outside);
    lemma_run_take_step(mid, plan, 9, second_outside);
    lemma_run_take_step(mid, plan, 10, second_outside);
    let g9 = run_steps(mid, plan.take(9), second_outside);
    assert(g9 == g8);
    let g11 = run_steps(mid, plan.take(11), second_outside);
    assert(g11[config] == s1 + appendix);
}

} // verus!
