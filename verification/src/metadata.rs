//! The `[package.metadata.nuttx]` table of a package, and the values derived from it.

use vstd::hash_map::StringHashMap;
use vstd::prelude::*;

use crate::cargo::PackageInfo;
use crate::casing::{case_converted, to_case, TextCase};
use crate::paths::{joined_path, path_join};

verus! {

/// The settings of one board, from `[package.metadata.nuttx.boards.<board>]`.
#[derive(Debug)]
pub struct BoardSpecificMetadata {
    /// The Rust target triple to build for.
    pub target: String,
    /// The firmware file that the NuttX build leaves in its `nuttx` directory.
    pub firmware_file: String,
    /// The target CPU handed to rustc, if any.
    pub target_cpu: Option<String>,
    /// The optimisation level handed to rustc, if any.
    pub opt_level: Option<String>,
}

/// The `[package.metadata.nuttx]` table of a package.
pub struct Metadata {
    /// The program name.
    pub program_name: Option<String>,
    /// The symbol NuttX starts the program at; by default `<crate_name>_main`.
    pub entrypoint_symbol: Option<String>,
    /// The task priority.
    pub priority: u8,
    /// The task stack size.
    pub stack_size: u32,
    /// A configuration fragment added to the board configuration, if any.
    pub config: Option<String>,
    /// The per-board settings, keyed by the board name NuttX uses.
    pub boards: StringHashMap<BoardSpecificMetadata>,
    /// The directory of per-board configuration fragments, one file per board name, if any.
    pub board_config_directory: Option<String>,
}

/// The message for a package without a `[package.metadata.nuttx]` table.
pub open spec fn missing_table_message(package_name: Seq<char>) -> Seq<char> {
    "Package "@ + package_name + " has no [package.metadata.nuttx] table"@
}

/// The message for a board that the table has no settings for.
pub open spec fn unknown_board_message(board: Seq<char>) -> Seq<char> {
    "No board metadata found for board "@ + board
}

/// The board settings keyed by board name that a list of entries gives, a later
/// entry replacing an earlier one of the same name.
pub open spec fn board_entries_map(entries: Seq<(String, BoardSpecificMetadata)>) -> Map<Seq<char>, BoardSpecificMetadata>
    decreases entries.len(),
{
    if entries.len() == 0 {
        Map::empty()
    } else {
        board_entries_map(entries.drop_last()).insert(entries.last().0@, entries.last().1)
    }
}

/// The board table of a list of (board name, settings) entries.
pub fn board_table(entries: Vec<(String, BoardSpecificMetadata)>) -> (r: StringHashMap<BoardSpecificMetadata>)
    ensures
        r@ == board_entries_map(entries@),
{
    let ghost all = entries@;
    let mut rest = entries;
    let mut r: StringHashMap<BoardSpecificMetadata> = StringHashMap::new();
    assert(board_entries_map(rest@).union_prefer_right(r@) =~= board_entries_map(rest@));
    while rest.len() > 0
        invariant
            board_entries_map(all) == board_entries_map(rest@).union_prefer_right(r@),
        decreases rest@.len(),
    {
        let ghost before = rest@;
        let ghost m0 = r@;
        let (name, board) = rest.pop().unwrap();
        assert(rest@ =~= before.drop_last());
        if !r.contains_key(name.as_str()) {
            r.insert(name, board);
            assert(board_entries_map(before).union_prefer_right(m0) =~= board_entries_map(rest@).union_prefer_right(r@));
        } else {
            assert(board_entries_map(before).union_prefer_right(m0) =~= board_entries_map(rest@).union_prefer_right(r@));
        }
    }
    assert(board_entries_map(rest@) =~= Map::<Seq<char>, BoardSpecificMetadata>::empty());
    assert(board_entries_map(rest@).union_prefer_right(r@) =~= r@);
    r
}

/// The entry point symbol NuttX starts a package at by default, for the package named
/// `snake_name` in snake case: `<snake_name>_main`.
pub fn default_entrypoint_symbol(snake_name: &str) -> (r: String)
    ensures
        r@ == snake_name@ + "_main"@,
{
    let mut r = String::from_str(snake_name);
    r.append("_main");
    r
}

/// The `[package.metadata.nuttx]` table of `package`: an error naming the package
/// where it has none, the error met while reading the table where there was one.
pub fn get_nuttx_metadata(package: &PackageInfo) -> (r: Result<&Metadata, String>)
    ensures
        match package.nuttx_metadata {
            None => r matches Err(e) && e@ == missing_table_message(package.name@),
            Some(Err(msg)) => r matches Err(e) && e@ == msg@,
            Some(Ok(m)) => r matches Ok(found) && *found == m,
        },
{
    match &package.nuttx_metadata {
        None => {
            let mut e = String::from_str("Package ");
            e.append(package.name.as_str());
            e.append(" has no [package.metadata.nuttx] table");
            Err(e)
        },
        Some(Err(msg)) => Err(msg.clone()),
        Some(Ok(m)) => Ok(m),
    }
}

impl Metadata {
    /// The settings of `board`.
    pub fn board_metadata(&self, board: &str) -> (r: Result<&BoardSpecificMetadata, String>)
        ensures
            match r {
                Ok(b) => self.boards@.contains_key(board@) && *b == self.boards@[board@],
                Err(e) => e@ == unknown_board_message(board@) && !self.boards@.contains_key(board@),
            },
    {
        match self.boards.get(board) {
            Some(b) => Ok(b),
            None => {
                let mut e = String::from_str("No board metadata found for board ");
                e.append(board);
                Err(e)
            },
        }
    }

    /// The entry point symbol: the configured one, or the snake-case package name
    /// followed by `_main`.
    pub fn entrypoint_symbol_or_default(&self, package_name: &str) -> (r: String)
        ensures
            r@ == match self.entrypoint_symbol {
                Some(e) => e@,
                None => case_converted(package_name@, TextCase::Snake) + "_main"@,
            },
    {
        match &self.entrypoint_symbol {
            Some(e) => e.clone(),
            None => {
                let snake = to_case(package_name, TextCase::Snake);
                default_entrypoint_symbol(snake.as_str())
            },
        }
    }

    /// The board-specific configuration fragment: the file named after the board in
    /// the board configuration directory, where one is set.
    pub fn board_config_path(&self, board: &str) -> (r: Option<String>)
        ensures
            match self.board_config_directory {
                Some(dir) => r matches Some(path) && path@ == joined_path(dir@, board@),
                None => r is None,
            },
    {
        match &self.board_config_directory {
            Some(dir) => Some(path_join(dir.as_str(), board)),
            None => None,
        }
    }
}

} // verus!
