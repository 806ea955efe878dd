//! Command-line values that the build logic reads.

use vstd::prelude::*;

use crate::text::views;

verus! {

/// Where the NuttX and NuttX apps trees come from, as given on the command line:
/// at most one of the two is set by the argument parser.
pub struct NuttxLocationArgs {
    /// A directory holding `nuttx` and `apps`, already extracted.
    pub path: Option<String>,
    /// A NuttX release to download and extract into the cache directory.
    pub download: Option<String>,
}

/// Where the NuttX and NuttX apps trees come from.
pub enum NuttxLocation {
    /// A directory holding `nuttx` and `apps`.
    Path { root: String },
    /// A NuttX release to download into the cache directory.
    Download { version: String },
}

impl NuttxLocation {
    /// The location named by the arguments: the path when one is given, the download
    /// otherwise. The argument parser guarantees that one of the two is given.
    pub fn from(args: NuttxLocationArgs) -> (r: NuttxLocation)
        requires
            args.path is Some || args.download is Some,
        ensures
            match args.path {
                Some(root) => r == (NuttxLocation::Path { root }),
                None => r == (NuttxLocation::Download { version: args.download->0 }),
            },
    {
        match (args.path, args.download) {
            (Some(root), _) => NuttxLocation::Path { root },
            (None, Some(version)) => NuttxLocation::Download { version },
            (None, None) => {
                proof { assert(false); }
                NuttxLocation::Path { root: String::new() }
            }
        }
    }
}

/// The arguments with the subcommand name dropped: Cargo runs `cargo-nuttx nuttx ...`
/// for `cargo nuttx ...`, so a second argument `nuttx` is removed.
pub open spec fn without_subcommand_name(args: Seq<Seq<char>>) -> Seq<Seq<char>> {
    if args.len() > 1 && args[1] == "nuttx"@ {
        args.remove(1)
    } else {
        args
    }
}

/// Drops the `nuttx` that Cargo passes as second argument when run as `cargo nuttx`.
pub fn strip_subcommand_name(args: Vec<String>) -> (r: Vec<String>)
    ensures
        views(r@) == without_subcommand_name(views(args@)),
{
    let mut args = args;
    if args.len() > 1 {
        let name = String::from_str("nuttx");
        if args[1] == name {
            let ghost before = args@;
            args.remove(1);
            assert(views(args@) =~= views(before).remove(1));
        }
    }
    args
}

/// Running as `cargo nuttx <args>` and as `cargo-nuttx <args>` yields the same
/// arguments, unless the first of `<args>` is itself `nuttx`.
pub proof fn lemma_cargo_subcommand_invocation(program: Seq<char>, rest: Seq<Seq<char>>)
    requires
        rest.len() == 0 || rest[0] != "nuttx"@,
    ensures
        without_subcommand_name(seq![program, "nuttx"@] + rest)
            == without_subcommand_name(seq![program] + rest),
{
    let a = seq![program, "nuttx"@] + rest;
    let b = seq![program] + rest;
    assert(a[1] == "nuttx"@);
    assert(a.remove(1) =~= b);
    if b.len() > 1 {
        assert(b[1] == rest[0]);
    }
}

} // verus!
