//! Where a log frame comes from: the table from frame index to source
//! location, and the resolver that reads it.

use std::collections::BTreeMap;
use std::path::Path;
use vstd::prelude::*;

verus! {

broadcast use vstd::std_specs::btree::group_btree_axioms;

/// The source location of one log statement.
#[derive(Clone, Debug, PartialEq, Eq)]
pub struct Location {
    /// Path of the source file, as the debug information records it.
    pub file: String,
    pub line: u64,
    /// Module path of the log statement.
    pub module: String,
}

/// From frame index to the location of the log statement.
pub type Locations = BTreeMap<u64, Location>;

/// File, line and module of a frame, each absent where nothing is known.
pub type LocationInfo = (Option<String>, Option<u64>, Option<String>);

/// `LocationInfo` as mathematical values.
pub type LocationModel = (Option<Seq<char>>, Option<u64>, Option<Seq<char>>);

/// What is left of `path` once the leading `base` is taken off it, component
/// by component; `None` where `path` does not lie under `base`.
pub uninterp spec fn stripped_prefix(path: Seq<char>, base: Seq<char>) -> Option<Seq<char>>;

/// A path as it is shown: relative to `base` where it lies under `base`,
/// unchanged where it does not.
pub open spec fn displayed_path(path: Seq<char>, base: Seq<char>) -> Seq<char> {
    match stripped_prefix(path, base) {
        Some(rest) => rest,
        None => path,
    }
}

/// The table as a mathematical map; `None` where resolution is disabled.
pub open spec fn table_model(locs: Option<Locations>) -> Option<Map<u64, Location>> {
    match locs {
        Some(table) => Some(table@),
        None => None,
    }
}

/// The three parts of a `LocationInfo` by their views.
pub open spec fn info_model(info: LocationInfo) -> LocationModel {
    (
        match info.0 {
            Some(file) => Some(file@),
            None => None,
        },
        info.1,
        match info.2 {
            Some(module) => Some(module@),
            None => None,
        },
    )
}

/// What resolution yields: nothing with a disabled table or an index that
/// the table lacks; else the stored line and module, and the stored path as
/// `displayed_path` shows it under `current_dir`.
pub open spec fn resolved(
    locs: Option<Map<u64, Location>>,
    index: u64,
    current_dir: Seq<char>,
) -> LocationModel {
    match locs {
        Some(table) => if table.contains_key(index) {
            (
                Some(displayed_path(table[index].file@, current_dir)),
                Some(table[index].line),
                Some(table[index].module@),
            )
        } else {
            (None, None, None)
        },
        None => (None, None, None),
    }
}

/// Calls `Path::strip_prefix` on `path` with `base` and renders what is left
/// as text. The contract only gives the outcome its name,
/// `stripped_prefix(path, base)`: which paths lie under which is left to the
/// standard library.
#[verifier::external_body]
fn strip_prefix(path: &str, base: &str) -> (rest: Option<String>)
    ensures
        match rest {
            Some(tail) => stripped_prefix(path@, base@) == Some(tail@),
            None => stripped_prefix(path@, base@) is None,
        },
{
    match Path::new(path).strip_prefix(Path::new(base)) {
        Ok(tail) => Some(tail.display().to_string()),
        Err(_) => None,
    }
}

/// Resolves a frame index to file, line and module. A table that is
/// enabled has to hold the index: that is what the completeness of a table
/// is checked for when it is loaded.
pub fn location_info(locs: &Option<Locations>, index: u64, current_dir: &str) -> (info:
    LocationInfo)
    requires
        table_model(*locs) matches Some(table) ==> table.contains_key(index),
    ensures
        info_model(info) == resolved(table_model(*locs), index, current_dir@),
{
    match locs {
        Some(table) => match table.get(&index) {
            Some(location) => {
                let file = match strip_prefix(location.file.as_str(), current_dir) {
                    Some(tail) => tail,
                    None => location.file.clone(),
                };
                (Some(file), Some(location.line), Some(location.module.clone()))
            },
            None => (None, None, None),
        },
        None => (None, None, None),
    }
}

/// Resolves a frame index as `location_info` does, and to nothing where an
/// enabled table lacks the index: a frame may come from a table entry that
/// is no log statement, which a complete table need not locate.
pub fn resolve(locs: &Option<Locations>, index: u64, current_dir: &str) -> (info: LocationInfo)
    ensures
        info_model(info) == resolved(table_model(*locs), index, current_dir@),
{
    let known = match locs {
        Some(table) => table.contains_key(&index),
        None => true,
    };
    if known {
        location_info(locs, index, current_dir)
    } else {
        (None, None, None)
    }
}

} // verus!
