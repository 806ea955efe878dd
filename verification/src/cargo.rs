//! The Cargo side of the build: which package and target to build, how `cargo build`
//! is invoked for the board, and which static library it produced.

use vstd::prelude::*;
use vstd::utf8::encode_utf8;

use crate::metadata::{BoardSpecificMetadata, Metadata};
use crate::paths::{parent_path, path_has_prefix, path_parent, path_starts_with};
use crate::shim::{has_infix, lemma_infix_extend, lemma_infix_of_concat};
use crate::text::{joined, split_at, split_on, views, join_with};

verus! {

/// A build target of a package, as `cargo metadata` describes it.
#[derive(Debug)]
pub struct TargetInfo {
    /// The target's name.
    pub name: String,
    /// The target's kinds (`lib`, `bin`, `staticlib`, ...), as Cargo spells them.
    pub kinds: Vec<String>,
}

impl TargetInfo {
    /// Whether one of the target's kinds is `staticlib`.
    pub open spec fn spec_is_staticlib(&self) -> bool {
        exists|i: int| 0 <= i < self.kinds@.len() && (#[trigger] self.kinds@[i])@ == "staticlib"@
    }

    /// Whether one of the target's kinds is `staticlib`.
    pub fn is_staticlib(&self) -> (r: bool)
        ensures
            r == self.spec_is_staticlib(),
    {
        let wanted = String::from_str("staticlib");
        let n = self.kinds.len();
        let mut i: usize = 0;
        while i < n
            invariant
                n == self.kinds@.len(),
                i <= n,
                wanted@ == "staticlib"@,
                forall|j: int| 0 <= j < i ==> (#[trigger] self.kinds@[j])@ != "staticlib"@,
            decreases n - i,
        {
            if self.kinds[i] == wanted {
                return true;
            }
            i = i + 1;
        }
        false
    }
}

/// A package of the workspace, as `cargo metadata` describes it.
pub struct PackageInfo {
    /// The package id.
    pub id: String,
    /// The package name.
    pub name: String,
    /// The path of the package's `Cargo.toml`.
    pub manifest_path: String,
    /// The package's build targets.
    pub targets: Vec<TargetInfo>,
    /// The package's `[package.metadata.nuttx]` table, if it has one, as read; or
    /// the message of the error met reading it.
    pub nuttx_metadata: Option<Result<Metadata, String>>,
}

/// What `cargo metadata` reports of a workspace.
pub struct Workspace {
    /// All packages, workspace members and dependencies.
    pub packages: Vec<PackageInfo>,
    /// The ids of the workspace members.
    pub workspace_members: Vec<String>,
    /// Cargo's target directory.
    pub target_directory: String,
}

/// Why no package could be chosen.
#[derive(Debug, Clone, Copy, PartialEq, Eq, Structural)]
pub enum FindPackageError {
    /// No package has the name given with `-p`.
    NoSuchPackage,
    /// No workspace member's directory holds the working directory.
    CurrentPackageUnknown,
}

impl FindPackageError {
    /// The text of the error.
    pub open spec fn spec_message(self) -> Seq<char> {
        match self {
            FindPackageError::NoSuchPackage => "No such package in workspace: {name}"@,
            FindPackageError::CurrentPackageUnknown => "Could not determine current package; pass the -p flag"@,
        }
    }

    /// The text of the error.
    pub fn message(&self) -> (r: String)
        ensures
            r@ == self.spec_message(),
    {
        match self {
            FindPackageError::NoSuchPackage => String::from_str("No such package in workspace: {name}"),
            FindPackageError::CurrentPackageUnknown => String::from_str(
                "Could not determine current package; pass the -p flag",
            ),
        }
    }
}

/// The view of an optional string argument.
pub open spec fn opt_str_view(o: Option<&str>) -> Option<Seq<char>> {
    match o {
        Some(s) => Some(s@),
        None => None,
    }
}

impl Workspace {
    /// Whether the package at `i` is a workspace member.
    pub open spec fn is_member(&self, i: int) -> bool {
        exists|j: int|
            0 <= j < self.workspace_members@.len() && (#[trigger] self.workspace_members@[j])@
                == self.packages@[i].id@
    }

    /// Whether every workspace member's manifest path has a parent directory.
    pub open spec fn members_have_parents(&self) -> bool {
        forall|i: int|
            0 <= i < self.packages@.len() && self.is_member(i) ==> (#[trigger] parent_path(
                self.packages@[i].manifest_path@,
            )) is Some
    }

    /// Whether `dir` is the directory of a workspace member's manifest.
    pub open spec fn has_member_directory(&self, dir: Seq<char>) -> bool {
        exists|i: int|
            0 <= i < self.packages@.len() && self.is_member(i) && #[trigger] parent_path(self.packages@[i].manifest_path@)
                == Some(dir)
    }

    /// Whether the package at `i` is a workspace member whose directory holds `dir`.
    pub open spec fn encloses(&self, i: int, dir: Seq<char>) -> bool {
        &&& 0 <= i < self.packages@.len()
        &&& self.is_member(i)
        &&& parent_path(self.packages@[i].manifest_path@) matches Some(d)
        &&& path_has_prefix(dir, d)
    }

    /// The length in bytes of the manifest path of the package at `i`.
    pub open spec fn manifest_len(&self, i: int) -> usize {
        encode_utf8(self.packages@[i].manifest_path@).len() as usize
    }

    /// Whether the package at `i` is the package for the working directory `dir`:
    /// among the members whose directory holds `dir`, one with the longest manifest
    /// path, and the last such one.
    pub open spec fn is_current_package(&self, i: int, dir: Seq<char>) -> bool {
        &&& self.encloses(i, dir)
        &&& forall|j: int| #[trigger] self.encloses(j, dir) ==> self.manifest_len(j) <= self.manifest_len(i)
        &&& forall|j: int| i < j && #[trigger] self.encloses(j, dir) ==> self.manifest_len(j) < self.manifest_len(i)
    }

    /// What `find_package` answers for an explicit name or a working directory.
    pub open spec fn package_search_result(
        &self,
        explicit_name: Option<Seq<char>>,
        working_directory: Seq<char>,
        r: Result<&PackageInfo, FindPackageError>,
    ) -> bool {
        match explicit_name {
            Some(name) => match r {
                Ok(p) => exists|i: int|
                    0 <= i < self.packages@.len() && (#[trigger] self.packages@[i]).name@ == name
                        && *p == self.packages@[i]
                        && forall|j: int| 0 <= j < i ==> (#[trigger] self.packages@[j]).name@ != name,
                Err(e) => e == FindPackageError::NoSuchPackage && forall|j: int|
                    0 <= j < self.packages@.len() ==> (#[trigger] self.packages@[j]).name@ != name,
            },
            None => match r {
                Ok(p) => exists|i: int|
                    #[trigger] self.is_current_package(i, working_directory) && *p == self.packages@[i],
                Err(e) => e == FindPackageError::CurrentPackageUnknown && forall|j: int|
                    !#[trigger] self.encloses(j, working_directory),
            },
        }
    }

    /// Whether the package at `i` is a workspace member.
    pub fn is_workspace_member(&self, i: usize) -> (r: bool)
        requires
            i < self.packages@.len(),
        ensures
            r == self.is_member(i as int),
    {
        let n = self.workspace_members.len();
        let mut j: usize = 0;
        while j < n
            invariant
                n == self.workspace_members@.len(),
                i < self.packages@.len(),
                j <= n,
                forall|k: int| 0 <= k < j ==> (#[trigger] self.workspace_members@[k])@ != self.packages@[i as int].id@,
            decreases n - j,
        {
            if self.workspace_members[j] == self.packages[i].id {
                return true;
            }
            j = j + 1;
        }
        false
    }

    fn find_named_package(&self, name: &str) -> (r: Result<&PackageInfo, FindPackageError>)
        ensures
            self.package_search_result(Some(name@), Seq::empty(), r),
    {
        let wanted = String::from_str(name);
        let n = self.packages.len();
        let mut i: usize = 0;
        while i < n
            invariant
                n == self.packages@.len(),
                i <= n,
                wanted@ == name@,
                forall|j: int| 0 <= j < i ==> (#[trigger] self.packages@[j]).name@ != name@,
            decreases n - i,
        {
            if self.packages[i].name == wanted {
                return Ok(&self.packages[i]);
            }
            i = i + 1;
        }
        Err(FindPackageError::NoSuchPackage)
    }

    /// Whether the package at `i` is a workspace member marked in `holds_directory`.
    pub open spec fn is_candidate(&self, i: int, holds_directory: Seq<bool>) -> bool {
        &&& 0 <= i < self.packages@.len()
        &&& self.is_member(i)
        &&& holds_directory[i]
    }

    /// Whether the package at `i` is, among the marked members, one with the longest
    /// manifest path, and the last such one.
    pub open spec fn is_longest_candidate(&self, i: int, holds_directory: Seq<bool>) -> bool {
        &&& self.is_candidate(i, holds_directory)
        &&& forall|j: int| #[trigger] self.is_candidate(j, holds_directory) ==> self.manifest_len(j) <= self.manifest_len(i)
        &&& forall|j: int| i < j && #[trigger] self.is_candidate(j, holds_directory)
            ==> self.manifest_len(j) < self.manifest_len(i)
    }

    /// For each package, whether its manifest's directory holds `dir`.
    pub open spec fn directory_marks(&self, dir: Seq<char>) -> Seq<bool> {
        Seq::new(
            self.packages@.len(),
            |i: int| parent_path(self.packages@[i].manifest_path@) matches Some(d) && path_has_prefix(dir, d),
        )
    }

    /// The package for a working directory, given for each package whether its
    /// manifest's directory holds the working directory: among the workspace members so
    /// marked, the one with the longest manifest path in bytes, the last one where
    /// several are that long; an error where no member is marked.
    pub fn select_current_package(&self, holds_directory: &Vec<bool>) -> (r: Result<&PackageInfo, FindPackageError>)
        requires
            holds_directory@.len() == self.packages@.len(),
        ensures
            match r {
                Ok(p) => exists|i: int|
                    #[trigger] self.is_longest_candidate(i, holds_directory@) && *p == self.packages@[i],
                Err(e) => e == FindPackageError::CurrentPackageUnknown && forall|j: int|
                    !#[trigger] self.is_candidate(j, holds_directory@),
            },
    {
        let n = self.packages.len();
        let ghost marks = holds_directory@;
        let mut best: Option<usize> = None;
        let mut best_len: usize = 0;
        let mut i: usize = 0;
        while i < n
            invariant
                n == self.packages@.len(),
                marks == holds_directory@,
                marks.len() == n,
                i <= n,
                match best {
                    Some(b) => {
                        &&& b < i
                        &&& self.is_candidate(b as int, marks)
                        &&& best_len == self.manifest_len(b as int)
                        &&& forall|j: int| 0 <= j < i && #[trigger] self.is_candidate(j, marks)
                            ==> self.manifest_len(j) <= self.manifest_len(b as int)
                        &&& forall|j: int| b < j < i && #[trigger] self.is_candidate(j, marks)
                            ==> self.manifest_len(j) < self.manifest_len(b as int)
                    },
                    None => forall|j: int| 0 <= j < i ==> !#[trigger] self.is_candidate(j, marks),
                },
            decreases n - i,
        {
            if holds_directory[i] && self.is_workspace_member(i) {
                let len = self.packages[i].manifest_path.as_str().len();
                let replace = match best {
                    Some(_) => len >= best_len,
                    None => true,
                };
                if replace {
                    best = Some(i);
                    best_len = len;
                }
            }
            i = i + 1;
        }
        match best {
            Some(b) => {
                assert(self.is_longest_candidate(b as int, marks));
                Ok(&self.packages[b])
            },
            None => Err(FindPackageError::CurrentPackageUnknown),
        }
    }

    fn find_enclosing_package(&self, working_directory: &str) -> (r: Result<&PackageInfo, FindPackageError>)
        ensures
            self.package_search_result(None, working_directory@, r),
            self.has_member_directory(working_directory@) ==> r is Ok,
    {
        let n = self.packages.len();
        let mut marks: Vec<bool> = Vec::new();
        let mut i: usize = 0;
        while i < n
            invariant
                n == self.packages@.len(),
                i <= n,
                marks@.len() == i,
                forall|k: int| 0 <= k < i ==> #[trigger] marks@[k] == self.directory_marks(working_directory@)[k],
                forall|k: int|
                    0 <= k < i && #[trigger] parent_path(self.packages@[k].manifest_path@) == Some(working_directory@)
                        ==> marks@[k],
            decreases n - i,
        {
            let inside = match path_parent(self.packages[i].manifest_path.as_str()) {
                Some(dir) => path_starts_with(working_directory, dir.as_str()),
                None => false,
            };
            marks.push(inside);
            i = i + 1;
        }
        assert(marks@ =~= self.directory_marks(working_directory@));
        assert forall|j: int|
            #![trigger self.is_candidate(j, marks@)]
            #![trigger self.encloses(j, working_directory@)]
            self.is_candidate(j, marks@) == self.encloses(j, working_directory@) by {}
        let r = self.select_current_package(&marks);
        match r {
            Ok(p) => {
                let ghost i = choose|i: int| #[trigger] self.is_longest_candidate(i, marks@) && *p == self.packages@[i];
                assert(self.is_current_package(i, working_directory@));
            },
            Err(_) => {
                proof {
                    if self.has_member_directory(working_directory@) {
                        let k = choose|k: int|
                            0 <= k < self.packages@.len() && self.is_member(k) && #[trigger] parent_path(
                                self.packages@[k].manifest_path@,
                            ) == Some(working_directory@);
                        assert(self.is_candidate(k, marks@));
                    }
                }
            },
        }
        r
    }
}

/// The package to build: the one named with `-p` where a name is given, else the
/// workspace member whose directory holds the working directory, the one with the
/// longest manifest path where several do. `working_directory` is read only when no
/// name is given.
pub fn find_package<'a>(
    explicit_name: Option<&str>,
    workspace: &'a Workspace,
    working_directory: &str,
) -> (r: Result<&'a PackageInfo, FindPackageError>)
    requires
        explicit_name is None ==> workspace.members_have_parents(),
    ensures
        workspace.package_search_result(opt_str_view(explicit_name), working_directory@, r),
        explicit_name is None && workspace.has_member_directory(working_directory@) ==> r is Ok,
{
    match explicit_name {
        Some(name) => workspace.find_named_package(name),
        None => workspace.find_enclosing_package(working_directory),
    }
}

/// Like `find_package`, but first checks that every workspace member's manifest path
/// has a parent directory where that is needed; answers `None` where one has none.
pub fn find_package_checked<'a>(
    explicit_name: Option<&str>,
    workspace: &'a Workspace,
    working_directory: &str,
) -> (r: Option<Result<&'a PackageInfo, FindPackageError>>)
    ensures
        r is None <==> (explicit_name is None && !workspace.members_have_parents()),
        r matches Some(found) ==> workspace.package_search_result(
            opt_str_view(explicit_name),
            working_directory@,
            found,
        ),
        explicit_name is None && workspace.members_have_parents() && workspace.has_member_directory(
            working_directory@,
        ) ==> r matches Some(Ok(_)),
{
    if explicit_name.is_none() {
        let n = workspace.packages.len();
        let mut i: usize = 0;
        while i < n
            invariant
                n == workspace.packages@.len(),
                i <= n,
                explicit_name is None,
                forall|j: int| 0 <= j < i && workspace.is_member(j) ==> (#[trigger] parent_path(
                    workspace.packages@[j].manifest_path@,
                )) is Some,
            decreases n - i,
        {
            if workspace.is_workspace_member(i) {
                match path_parent(workspace.packages[i].manifest_path.as_str()) {
                    Some(_) => {},
                    None => {
                        assert(!workspace.members_have_parents()) by {
                            assert(workspace.is_member(i as int));
                            assert(parent_path(workspace.packages@[i as int].manifest_path@) is None);
                        }
                        return None;
                    },
                }
            }
            i = i + 1;
        }
    }
    Some(find_package(explicit_name, workspace, working_directory))
}


/// The static-library targets among `targets`, in order.
pub open spec fn staticlib_targets(targets: Seq<TargetInfo>) -> Seq<TargetInfo>
    decreases targets.len(),
{
    if targets.len() == 0 {
        Seq::<TargetInfo>::empty()
    } else {
        let prev = staticlib_targets(targets.drop_last());
        if targets.last().spec_is_staticlib() {
            prev.push(targets.last())
        } else {
            prev
        }
    }
}

/// The targets a reference sequence points to.
pub open spec fn deref_targets(v: Seq<&TargetInfo>) -> Seq<TargetInfo> {
    v.map_values(|t: &TargetInfo| *t)
}

/// The targets that can be linked into NuttX: those of kind `staticlib`, in order.
pub fn find_potential_cargo_targets(targets: &Vec<TargetInfo>) -> (r: Vec<&TargetInfo>)
    ensures
        deref_targets(r@) == staticlib_targets(targets@),
{
    let mut r: Vec<&TargetInfo> = Vec::new();
    let n = targets.len();
    let mut i: usize = 0;
    assert(targets@.take(0) =~= Seq::<TargetInfo>::empty());
    while i < n
        invariant
            n == targets@.len(),
            i <= n,
            deref_targets(r@) == staticlib_targets(targets@.take(i as int)),
        decreases n - i,
    {
        let t = &targets[i];
        assert(targets@.take(i as int + 1).drop_last() =~= targets@.take(i as int));
        assert(targets@.take(i as int + 1).last() == targets@[i as int]);
        if t.is_staticlib() {
            let ghost before = r@;
            r.push(t);
            assert(deref_targets(r@) =~= deref_targets(before).push(*t));
        }
        i = i + 1;
    }
    assert(targets@.take(n as int) =~= targets@);
    r
}

/// The target to build: the only static-library target, or, where there is not
/// exactly one, all of them for the error report.
pub fn select_build_target(targets: &Vec<TargetInfo>) -> (r: Result<&TargetInfo, Vec<&TargetInfo>>)
    ensures
        match r {
            Ok(t) => staticlib_targets(targets@).len() == 1 && *t == staticlib_targets(targets@)[0],
            Err(found) => staticlib_targets(targets@).len() != 1
                && deref_targets(found@) == staticlib_targets(targets@),
        },
{
    let found = find_potential_cargo_targets(targets);
    if found.len() != 1 {
        return Err(found);
    }
    let t = found[0];
    assert(deref_targets(found@)[0] == *t);
    Ok(t)
}

/// How `cargo build` is run for a board.
pub struct CargoInvocation {
    /// The arguments after `cargo`.
    pub args: Vec<String>,
    /// The value of `NUTTX_INCLUDE_DIR`: the NuttX include directories joined by `:`.
    pub include_dir_env: String,
    /// The value of `RUSTFLAGS`.
    pub rustflags_env: String,
}

/// The view of an optional string.
pub open spec fn opt_string_view(o: Option<String>) -> Option<Seq<char>> {
    match o {
        Some(s) => Some(s@),
        None => None,
    }
}

/// The arguments of `cargo` that build `crate_name` for `target` with the nightly
/// `build-std` of `std` and `panic_abort`, reporting artifacts as JSON.
pub open spec fn cargo_build_args(crate_name: Seq<char>, target: Seq<char>, release: bool) -> Seq<Seq<char>> {
    let base = seq![
        "build"@,
        "--message-format=json-render-diagnostics"@,
        "-Zunstable-options"@,
        "-Zbuild-std=std,panic_abort"@,
        "-Zjson-target-spec"@,
        "--target"@,
        target,
        "--package"@,
        crate_name,
    ];
    if release {
        base.push("--release"@)
    } else {
        base
    }
}

/// The rustc flags: the inherited `RUSTFLAGS` split at spaces, then the board's target
/// CPU and optimisation level where it sets them.
pub open spec fn rustflags_list(
    inherited: Option<Seq<char>>,
    target_cpu: Option<Seq<char>>,
    opt_level: Option<Seq<char>>,
) -> Seq<Seq<char>> {
    let base = match inherited {
        Some(s) => split_at(s, ' '),
        None => Seq::<Seq<char>>::empty(),
    };
    let with_cpu = match target_cpu {
        Some(cpu) => base.push("-Ctarget-cpu="@ + cpu),
        None => base,
    };
    match opt_level {
        Some(level) => with_cpu.push("-Copt-level="@ + level),
        None => with_cpu,
    }
}

/// The `cargo build` invocation for `crate_name` on a board: its arguments, the NuttX
/// include directories and the rustc flags, with `inherited_rustflags` the `RUSTFLAGS`
/// already set, if any.
pub fn cargo_build_invocation(
    crate_name: &str,
    release: bool,
    board: &BoardSpecificMetadata,
    include_directories: &Vec<String>,
    inherited_rustflags: Option<&str>,
) -> (r: CargoInvocation)
    ensures
        views(r.args@) == cargo_build_args(crate_name@, board.target@, release),
        r.include_dir_env@ == joined(views(include_directories@), ":"@),
        r.rustflags_env@ == joined(
            rustflags_list(
                opt_str_view(inherited_rustflags),
                opt_string_view(board.target_cpu),
                opt_string_view(board.opt_level),
            ),
            " "@,
        ),
{
    let include_dir_env = join_with(include_directories, ":");

    let mut flags: Vec<String> = match inherited_rustflags {
        Some(s) => split_on(s, ' '),
        None => Vec::new(),
    };
    match &board.target_cpu {
        Some(cpu) => {
            let mut f = String::from_str("-Ctarget-cpu=");
            f.append(cpu.as_str());
            let ghost before = flags@;
            flags.push(f);
            assert(views(flags@) =~= views(before).push("-Ctarget-cpu="@ + cpu@));
        },
        None => {},
    }
    match &board.opt_level {
        Some(level) => {
            let mut f = String::from_str("-Copt-level=");
            f.append(level.as_str());
            let ghost before = flags@;
            flags.push(f);
            assert(views(flags@) =~= views(before).push("-Copt-level="@ + level@));
        },
        None => {},
    }
    assert(views(flags@) =~= rustflags_list(
        opt_str_view(inherited_rustflags),
        opt_string_view(board.target_cpu),
        opt_string_view(board.opt_level),
    ));
    let rustflags_env = join_with(&flags, " ");

    let mut args: Vec<String> = Vec::new();
    args.push(String::from_str("build"));
    args.push(String::from_str("--message-format=json-render-diagnostics"));
    args.push(String::from_str("-Zunstable-options"));
    args.push(String::from_str("-Zbuild-std=std,panic_abort"));
    args.push(String::from_str("-Zjson-target-spec"));
    args.push(String::from_str("--target"));
    args.push(board.target.clone());
    args.push(String::from_str("--package"));
    args.push(String::from_str(crate_name));
    if release {
        args.push(String::from_str("--release"));
    }
    assert(views(args@) =~= cargo_build_args(crate_name@, board.target@, release));
    CargoInvocation { args, include_dir_env, rustflags_env }
}

/// Where the board adds no flags, the `RUSTFLAGS` handed to `cargo` is the inherited
/// one unchanged, or empty where none was set.
pub proof fn lemma_inherited_rustflags_kept(inherited: Option<Seq<char>>)
    ensures
        joined(rustflags_list(inherited, None, None), " "@) == match inherited {
            Some(s) => s,
            None => Seq::<char>::empty(),
        },
{
    match inherited {
        Some(s) => {
            crate::text::lemma_join_split_roundtrip(s, ' ');
            assert(" "@ == seq![' ']) by {
                reveal_strlit(" ");
            }
        },
        None => {},
    }
}

/// A compiler artifact reported by `cargo build`.
pub struct ArtifactInfo {
    /// The target the artifact was built from.
    pub target: TargetInfo,
    /// The files produced.
    pub filenames: Vec<String>,
}

/// Whether `a` is a static library built from the target named `name`.
pub open spec fn is_wanted_staticlib(a: ArtifactInfo, name: Seq<char>) -> bool {
    &&& a.target.name@ == name
    &&& a.target.spec_is_staticlib()
    &&& a.filenames@.len() > 0
}

/// The message for a build that produced no static library.
pub open spec fn no_staticlib_message() -> Seq<char> {
    "No staticlib produced!"@
}

/// The static library `cargo build` produced for the target named `build_target_name`:
/// the first file of the last static-library artifact of that target.
pub fn staticlib_artifact_path(artifacts: &Vec<ArtifactInfo>, build_target_name: &str) -> (r: Result<String, String>)
    ensures
        match r {
            Ok(path) => exists|i: int|
                0 <= i < artifacts@.len() && is_wanted_staticlib(#[trigger] artifacts@[i], build_target_name@)
                    && path@ == artifacts@[i].filenames@[0]@
                    && forall|j: int| i < j < artifacts@.len() ==> !is_wanted_staticlib(#[trigger] artifacts@[j], build_target_name@),
            Err(e) => e@ == no_staticlib_message() && forall|j: int|
                0 <= j < artifacts@.len() ==> !is_wanted_staticlib(#[trigger] artifacts@[j], build_target_name@),
        },
{
    let wanted = String::from_str(build_target_name);
    let n = artifacts.len();
    let mut found: Option<usize> = None;
    let mut i: usize = 0;
    while i < n
        invariant
            n == artifacts@.len(),
            i <= n,
            wanted@ == build_target_name@,
            match found {
                Some(k) => k < i && is_wanted_staticlib(artifacts@[k as int], build_target_name@)
                    && forall|j: int| k < j < i ==> !is_wanted_staticlib(#[trigger] artifacts@[j], build_target_name@),
                None => forall|j: int| 0 <= j < i ==> !is_wanted_staticlib(#[trigger] artifacts@[j], build_target_name@),
            },
        decreases n - i,
    {
        let a = &artifacts[i];
        if a.target.name == wanted && a.target.is_staticlib() && a.filenames.len() > 0 {
            found = Some(i);
        }
        i = i + 1;
    }
    match found {
        Some(k) => {
            assert(is_wanted_staticlib(artifacts@[k as int], build_target_name@));
            Ok(artifacts[k].filenames[0].clone())
        },
        None => Err(String::from_str("No staticlib produced!")),
    }
}

/// Whether one of a target's kinds is `staticlib`, read off its kinds.
pub open spec fn has_staticlib_kind(t: TargetInfo) -> bool {
    exists|i: int| 0 <= i < t.kinds@.len() && (#[trigger] t.kinds@[i])@ == "staticlib"@
}

/// The potential targets are exactly the targets one of whose kinds is `staticlib`, in
/// their order: a target with kinds `staticlib` and `rlib` is one, a `bin` is not.
pub proof fn lemma_potential_targets_are_staticlib_kinds(targets: Seq<TargetInfo>)
    ensures
        staticlib_targets(targets) == targets.filter(|t: TargetInfo| has_staticlib_kind(t)),
    decreases targets.len(),
{
    reveal(Seq::filter);
    if targets.len() > 0 {
        lemma_potential_targets_are_staticlib_kinds(targets.drop_last());
        assert(targets.last().spec_is_staticlib() == has_staticlib_kind(targets.last()));
    }
}

/// Every piece of a joined text is a piece of the text.
pub proof fn lemma_joined_holds_pieces(pieces: Seq<Seq<char>>, sep: Seq<char>, x: Seq<char>)
    requires
        pieces.contains(x),
    ensures
        has_infix(joined(pieces, sep), x),
    decreases pieces.len(),
{
    if pieces.len() == 1 {
        assert(pieces[0] == x);
        lemma_infix_of_concat(Seq::<char>::empty(), x, Seq::<char>::empty());
        assert(Seq::<char>::empty() + x + Seq::<char>::empty() =~= x);
    } else {
        let prev = pieces.drop_last();
        let front = joined(prev, sep) + sep;
        if pieces.last() == x {
            lemma_infix_of_concat(front, x, Seq::<char>::empty());
            assert(front + x + Seq::<char>::empty() =~= joined(pieces, sep));
        } else {
            let k = choose|k: int| 0 <= k < pieces.len() && pieces[k] == x;
            assert(prev[k] == x);
            lemma_joined_holds_pieces(prev, sep, x);
            lemma_infix_extend(joined(prev, sep), sep + pieces.last(), x);
            assert(joined(prev, sep) + (sep + pieces.last()) =~= joined(pieces, sep));
        }
    }
}

/// The rustc flags are the inherited ones, each kept in its place, followed by one
/// `-Ctarget-cpu=<cpu>` flag exactly when the board sets a target CPU and one
/// `-Copt-level=<level>` flag exactly when it sets an optimisation level, whether or not
/// `RUSTFLAGS` was set; each board flag stands in the `RUSTFLAGS` value handed to cargo.
pub proof fn lemma_board_flags_always_passed(
    inherited: Option<Seq<char>>,
    target_cpu: Option<Seq<char>>,
    opt_level: Option<Seq<char>>,
)
    ensures
        ({
            let list = rustflags_list(inherited, target_cpu, opt_level);
            let kept: Seq<Seq<char>> = match inherited {
                Some(s) => split_at(s, ' '),
                None => Seq::<Seq<char>>::empty(),
            };
            &&& list.len() == kept.len() + (if target_cpu is Some { 1int } else { 0int }) + (if opt_level is Some {
                1int
            } else {
                0int
            })
            &&& list.take(kept.len() as int) == kept
            &&& (target_cpu matches Some(cpu) ==> list[kept.len() as int] == "-Ctarget-cpu="@ + cpu
                && has_infix(joined(list, " "@), "-Ctarget-cpu="@ + cpu))
            &&& (opt_level matches Some(level) ==> list.last() == "-Copt-level="@ + level
                && has_infix(joined(list, " "@), "-Copt-level="@ + level))
        }),
{
    let list = rustflags_list(inherited, target_cpu, opt_level);
    let kept: Seq<Seq<char>> = match inherited {
        Some(s) => split_at(s, ' '),
        None => Seq::<Seq<char>>::empty(),
    };
    assert(list.take(kept.len() as int) =~= kept);
    match target_cpu {
        Some(cpu) => {
            assert(list[kept.len() as int] == "-Ctarget-cpu="@ + cpu);
            lemma_joined_holds_pieces(list, " "@, "-Ctarget-cpu="@ + cpu);
        },
        None => {},
    }
    match opt_level {
        Some(level) => {
            assert(list[list.len() - 1] == "-Copt-level="@ + level);
            lemma_joined_holds_pieces(list, " "@, "-Copt-level="@ + level);
        },
        None => {},
    }
}

/// `cargo build` is asked to build the given package for the given target with
/// `build-std` of `std` and `panic_abort`, reporting as JSON, and with `--release` at the
/// end exactly when a release build is asked for.
pub proof fn lemma_cargo_args_name_package_and_target(crate_name: Seq<char>, target: Seq<char>, release: bool)
    ensures
        ({
            let a = cargo_build_args(crate_name, target, release);
            &&& a.len() == if release { 10int } else { 9int }
            &&& a[0] == "build"@
            &&& a.contains("-Zbuild-std=std,panic_abort"@)
            &&& a.contains("--message-format=json-render-diagnostics"@)
            &&& a[5] == "--target"@ && a[6] == target
            &&& a[7] == "--package"@ && a[8] == crate_name
            &&& (release ==> a[9] == "--release"@)
        }),
{
    let a = cargo_build_args(crate_name, target, release);
    assert(a[3] == "-Zbuild-std=std,panic_abort"@);
    assert(a[1] == "--message-format=json-render-diagnostics"@);
}

} // verus!
