//! The dock watchers' decisions: which lines of niri's event stream call for
//! a fresh window list, and which file events call for reloading the dock
//! configuration.
use vstd::prelude::*;

use crate::text::{contains, contains_text, opt_str_view, same_text};

verus! {

/// A line of `niri msg -j event-stream` that concerns windows or workspaces.
pub fn is_window_event(line: &str) -> (r: bool)
    ensures
        r == (contains(line@, "Window"@) || contains(line@, "Workspace"@)),
{
    contains_text(line, "Window") || contains_text(line, "Workspace")
}

/// The optional file names, as characters.
pub open spec fn name_views(names: Seq<Option<String>>) -> Seq<Option<Seq<char>>> {
    names.map_values(|n: Option<String>| match n {
        Some(s) => Some(s@),
        None => None,
    })
}

/// A file event calls for reloading the dock configuration when it modifies
/// or creates a file and one of its paths has the configuration's file name
/// (`None` stands for a path without one).
pub fn is_config_event(
    is_modify: bool,
    is_create: bool,
    file_names: &Vec<Option<String>>,
    config_name: Option<&str>,
) -> (r: bool)
    ensures
        r == ((is_modify || is_create) && exists|k: int|
            0 <= k < file_names@.len() && #[trigger] name_views(file_names@)[k] == opt_str_view(config_name)),
{
    let ghost target = opt_str_view(config_name);
    if !(is_modify || is_create) {
        return false;
    }
    let mut i: usize = 0;
    while i < file_names.len()
        invariant
            i <= file_names.len(),
            target == opt_str_view(config_name),
            is_modify || is_create,
            forall|k: int| 0 <= k < i ==> name_views(file_names@)[k] != target,
        decreases file_names.len() - i,
    {
        let hit = match (&file_names[i], config_name) {
            (Some(n), Some(c)) => same_text(n.as_str(), c),
            (None, None) => true,
            _ => false,
        };
        if hit {
            assert(name_views(file_names@)[i as int] == target);
            assert(exists|k: int|
                0 <= k < file_names@.len() && #[trigger] name_views(file_names@)[k] == target);
            return true;
        }
        i = i + 1;
    }
    false
}

} // verus!
