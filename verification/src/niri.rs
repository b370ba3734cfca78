//! What the shell and the settings read from the niri compositor's JSON
//! answers (`niri msg -j workspaces`, `windows`, `outputs`).
use vstd::prelude::*;

use crate::json::{as_bool, as_string, as_u64, get, json_bool, json_decode, json_get, json_str, json_u64, parse_json, Json};
use crate::order::{sorted_unique, strictly_sorted};
use crate::output::CommandOutput;
use crate::text::{opt_view, views};

verus! {

/// The workspace and window state shown in the top bar.
#[derive(Debug, Default, Clone, PartialEq, Eq)]
pub struct NiriState {
    pub active_workspace_id: Option<u64>,
    pub total_workspaces: u64,
    pub focused_window_title: Option<String>,
}

/// The items of the JSON array that a successful command printed, if it
/// printed one.
pub open spec fn listed(out: Option<CommandOutput>) -> Option<Seq<Json>> {
    match out {
        Some(o) => if o.success {
            match json_decode(o.stdout@) {
                Some(Json::Array(items)) => Some(items@),
                _ => None,
            }
        } else {
            None
        },
        None => None,
    }
}

/// `v.get(key).and_then(as_bool).unwrap_or(false)`.
pub open spec fn flagged(v: Json, key: Seq<char>) -> bool {
    json_bool(json_get(v, key)) == Some(true)
}

/// The position of the first item flagged with `key`.
pub open spec fn first_flagged(items: Seq<Json>, key: Seq<char>) -> Option<int>
    decreases items.len(),
{
    if items.len() == 0 {
        None
    } else if flagged(items[0], key) {
        Some(0)
    } else {
        match first_flagged(items.drop_first(), key) {
            Some(i) => Some(i + 1),
            None => None,
        }
    }
}

/// The id of the first active workspace in `items`.
pub open spec fn active_workspace(items: Seq<Json>) -> Option<u64> {
    match first_flagged(items, "is_active"@) {
        Some(i) => json_u64(json_get(items[i], "id"@)),
        None => None,
    }
}

/// The title of the first focused window in `items`.
pub open spec fn focused_title(items: Seq<Json>) -> Option<Seq<char>> {
    match first_flagged(items, "is_focused"@) {
        Some(i) => json_str(json_get(items[i], "title"@)),
        None => None,
    }
}

/// The first item of `items` flagged with `key`.
fn find_flagged(items: &Vec<Json>, key: &str) -> (r: Option<usize>)
    ensures
        match r {
            Some(i) => first_flagged(items@, key@) == Some(i as int) && i < items@.len(),
            None => first_flagged(items@, key@) is None,
        },
{
    let mut i: usize = 0;
    assert(items@.skip(0) =~= items@);
    while i < items.len()
        invariant
            i <= items.len(),
            first_flagged(items@, key@) == match first_flagged(items@.skip(i as int), key@) {
                Some(k) => Some(k + i),
                None => None,
            },
        decreases items.len() - i,
    {
        assert(items@.skip(i as int)[0] == items@[i as int]);
        assert(items@.skip(i as int).drop_first() =~= items@.skip(i + 1));
        if as_bool(get(&items[i], key)) == Some(true) {
            return Some(i);
        }
        i = i + 1;
    }
    None
}

/// The array that a successful command printed, parsed.
fn listed_items(out: &Option<CommandOutput>) -> (r: Option<Vec<Json>>)
    ensures
        match r {
            Some(v) => listed(*out) == Some(v@),
            None => listed(*out) is None,
        },
{
    match out {
        Some(o) => {
            if o.success {
                match parse_json(o.stdout.as_slice()) {
                    Some(doc) => match doc.tree {
                        Json::Array(items) => Some(items),
                        _ => None,
                    },
                    None => None,
                }
            } else {
                None
            }
        },
        None => None,
    }
}

/// The number of workspaces in a parsed workspace list (0 without one).
pub open spec fn total_of(items: Option<Seq<Json>>) -> u64 {
    match items {
        Some(i) => i.len() as u64,
        None => 0u64,
    }
}

/// The id of the first active workspace in a parsed workspace list.
pub open spec fn active_of(items: Option<Seq<Json>>) -> Option<u64> {
    match items {
        Some(i) => active_workspace(i),
        None => None,
    }
}

/// The title of the first focused window in a parsed window list.
pub open spec fn focused_of(items: Option<Seq<Json>>) -> Option<Seq<char>> {
    match items {
        Some(i) => focused_title(i),
        None => None,
    }
}

pub open spec fn items_view(items: Option<Vec<Json>>) -> Option<Seq<Json>> {
    match items {
        Some(v) => Some(v@),
        None => None,
    }
}

/// The active workspace's id is the `id` member of the first workspace whose
/// `is_active` is `true`: read as a `u64` when it is one, absent otherwise.
pub proof fn law_active_workspace_is_its_id(items: Seq<Json>, k: int)
    requires
        0 <= k < items.len(),
        json_bool(json_get(items[k], "is_active"@)) == Some(true),
        forall|j: int| 0 <= j < k ==> json_bool(json_get(items[j], "is_active"@)) != Some(true),
    ensures
        active_workspace(items) == json_u64(json_get(items[k], "id"@)),
    decreases k,
{
    if k > 0 {
        assert(!flagged(items[0], "is_active"@));
        let rest = items.drop_first();
        assert forall|j: int| 0 <= j < k - 1 implies json_bool(json_get(rest[j], "is_active"@))
            != Some(true) by {
            assert(rest[j] == items[j + 1]);
        }
        assert(rest[k - 1] == items[k]);
        law_active_workspace_is_its_id(rest, k - 1);
        assert(first_flagged(rest, "is_active"@) == Some(k - 1)) by {
            lemma_first_flagged_at(rest, "is_active"@, k - 1);
        }
    }
}

proof fn lemma_first_flagged_at(items: Seq<Json>, key: Seq<char>, k: int)
    requires
        0 <= k < items.len(),
        flagged(items[k], key),
        forall|j: int| 0 <= j < k ==> !flagged(items[j], key),
    ensures
        first_flagged(items, key) == Some(k),
    decreases k,
{
    if k > 0 {
        let rest = items.drop_first();
        assert(!flagged(items[0], key));
        assert forall|j: int| 0 <= j < k - 1 implies !flagged(rest[j], key) by {
            assert(rest[j] == items[j + 1]);
        }
        assert(rest[k - 1] == items[k]);
        lemma_first_flagged_at(rest, key, k - 1);
    }
}

proof fn lemma_first_flagged_none(items: Seq<Json>, key: Seq<char>)
    requires
        forall|j: int| 0 <= j < items.len() ==> !flagged(items[j], key),
    ensures
        first_flagged(items, key) is None,
    decreases items.len(),
{
    if items.len() > 0 {
        let rest = items.drop_first();
        assert(!flagged(items[0], key));
        assert forall|j: int| 0 <= j < rest.len() implies !flagged(rest[j], key) by {
            assert(rest[j] == items[j + 1]);
        }
        lemma_first_flagged_none(rest, key);
    }
}

/// The active workspace's id depends on nothing but the workspaces'
/// `is_active` and `id` members: two lists that agree on those give the same
/// id, whatever else (`idx`, `output`, ...) their workspaces hold. With no
/// active workspace there is no id.
pub proof fn law_active_workspace_reads_only_id(a: Seq<Json>, b: Seq<Json>)
    requires
        a.len() == b.len(),
        forall|k: int|
            0 <= k < a.len() ==> json_get(a[k], "is_active"@) == json_get(b[k], "is_active"@)
                && json_get(a[k], "id"@) == json_get(b[k], "id"@),
    ensures
        active_workspace(a) == active_workspace(b),
        (forall|k: int| 0 <= k < a.len() ==> json_bool(json_get(a[k], "is_active"@)) != Some(true))
            ==> active_workspace(a) is None,
{
    if exists|k: int| 0 <= k < a.len() && json_bool(json_get(a[k], "is_active"@)) == Some(true) {
        let k = choose|k: int|
            0 <= k < a.len() && json_bool(json_get(a[k], "is_active"@)) == Some(true);
        let m = lemma_least_active(a, k);
        law_active_workspace_is_its_id(a, m);
        law_active_workspace_is_its_id(b, m);
    } else {
        lemma_first_flagged_none(a, "is_active"@);
        lemma_first_flagged_none(b, "is_active"@);
    }
}

/// The first active workspace at or before an active one at `k`.
proof fn lemma_least_active(a: Seq<Json>, k: int) -> (m: int)
    requires
        0 <= k < a.len(),
        json_bool(json_get(a[k], "is_active"@)) == Some(true),
    ensures
        0 <= m <= k,
        json_bool(json_get(a[m], "is_active"@)) == Some(true),
        forall|j: int| 0 <= j < m ==> json_bool(json_get(a[j], "is_active"@)) != Some(true),
    decreases k,
{
    if exists|j: int| 0 <= j < k && json_bool(json_get(a[j], "is_active"@)) == Some(true) {
        let j = choose|j: int| 0 <= j < k && json_bool(json_get(a[j], "is_active"@)) == Some(true);
        lemma_least_active(a, j)
    } else {
        k
    }
}

/// The workspace and window state, from the parsed workspace and window
/// lists (`None` where there is no list): the number of workspaces and the
/// first active one's id, and the first focused window's title.
pub fn niri_state_of(workspaces: Option<Vec<Json>>, windows: Option<Vec<Json>>) -> (r: NiriState)
    ensures
        r.total_workspaces == total_of(items_view(workspaces)),
        r.active_workspace_id == active_of(items_view(workspaces)),
        opt_view(r.focused_window_title) == focused_of(items_view(windows)),
{
    let mut state = NiriState {
        active_workspace_id: None,
        total_workspaces: 0,
        focused_window_title: None,
    };
    proof {
        reveal_strlit("is_active");
        reveal_strlit("id");
        reveal_strlit("is_focused");
        reveal_strlit("title");
    }
    if let Some(items) = workspaces {
        state.total_workspaces = items.len() as u64;
        if let Some(i) = find_flagged(&items, "is_active") {
            state.active_workspace_id = as_u64(get(&items[i], "id"));
        }
    }
    if let Some(items) = windows {
        if let Some(i) = find_flagged(&items, "is_focused") {
            state.focused_window_title = as_string(get(&items[i], "title"));
        }
    }
    state
}

/// The workspace and window state, from the outputs of
/// `niri msg -j workspaces` and `niri msg -j windows` (`None` when a command
/// could not run).
pub fn get_niri_state(workspaces: Option<CommandOutput>, windows: Option<CommandOutput>) -> (r:
    NiriState)
    ensures
        r.total_workspaces == total_of(listed(workspaces)),
        r.active_workspace_id == active_of(listed(workspaces)),
        opt_view(r.focused_window_title) == focused_of(listed(windows)),
{
    niri_state_of(listed_items(&workspaces), listed_items(&windows))
}

/// The `name` members of `items` that are strings, in order.
pub open spec fn names_of(items: Seq<Json>) -> Seq<Seq<char>>
    decreases items.len(),
{
    if items.len() == 0 {
        seq![]
    } else {
        let p = names_of(items.drop_last());
        match json_str(json_get(items.last(), "name"@)) {
            Some(n) => p.push(n),
            None => p,
        }
    }
}

/// The output names in a parsed document: the keys of an object, or the
/// `name` members of an array's items.
pub open spec fn tree_names(tree: Json) -> Seq<Seq<char>> {
    match tree {
        Json::Object(entries) => entries@.map_values(|e: (String, Json)| e.0@),
        Json::Array(items) => names_of(items@),
        _ => seq![],
    }
}

/// The output names in what `niri msg -j outputs` printed.
pub open spec fn raw_output_names(out: Option<CommandOutput>) -> Seq<Seq<char>> {
    match out {
        Some(o) => if o.success {
            match json_decode(o.stdout@) {
                Some(t) => tree_names(t),
                None => seq![],
            }
        } else {
            seq![]
        },
        None => seq![],
    }
}

fn names_in(tree: &Json) -> (r: Vec<String>)
    ensures
        views(r@) == tree_names(*tree),
{
    let mut out: Vec<String> = Vec::new();
    proof {
        reveal_strlit("name");
    }
    match tree {
        Json::Object(entries) => {
            let mut i: usize = 0;
            while i < entries.len()
                invariant
                    i <= entries.len(),
                    views(out@) == entries@.take(i as int).map_values(|e: (String, Json)| e.0@),
                decreases entries.len() - i,
            {
                let ghost before = views(out@);
                out.push(entries[i].0.clone());
                assert(views(out@) =~= before.push(entries@[i as int].0@));
                assert(entries@.take(i + 1).map_values(|e: (String, Json)| e.0@) =~= entries@.take(
                    i as int,
                ).map_values(|e: (String, Json)| e.0@).push(entries@[i as int].0@));
                i = i + 1;
            }
            assert(entries@.take(entries.len() as int) =~= entries@);
        },
        Json::Array(items) => {
            let mut i: usize = 0;
            assert(items@.take(0) =~= Seq::<Json>::empty());
            while i < items.len()
                invariant
                    i <= items.len(),
                    views(out@) == names_of(items@.take(i as int)),
                decreases items.len() - i,
            {
                let ghost before = views(out@);
                assert(items@.take(i + 1).drop_last() =~= items@.take(i as int));
                assert(items@.take(i + 1).last() == items@[i as int]);
                if let Some(n) = as_string(get(&items[i], "name")) {
                    out.push(n);
                    assert(views(out@) =~= before.push(n@));
                }
                i = i + 1;
            }
            assert(items@.take(items.len() as int) =~= items@);
        },
        _ => {
            assert(views(out@) =~= Seq::<Seq<char>>::empty());
        },
    }
    out
}

/// The outputs offered in the display settings, from a parsed
/// `niri msg -j outputs` document (`None` without one): the names sorted
/// without duplicates, or `eDP-1` when there are none.
pub fn niri_outputs_in(tree: Option<&Json>) -> (r: Vec<String>)
    ensures
        ({
            let raw = match tree {
                Some(t) => tree_names(*t),
                None => seq![],
            };
            &&& raw.len() == 0 ==> views(r@) == seq!["eDP-1"@]
            &&& raw.len() > 0 ==> strictly_sorted(views(r@)) && views(r@).to_set() == raw.to_set()
        }),
{
    let raw: Vec<String> = match tree {
        Some(t) => names_in(t),
        None => Vec::new(),
    };
    let sorted = sorted_unique(&raw);
    if sorted.len() == 0 {
        let mut r: Vec<String> = Vec::new();
        r.push("eDP-1".to_string());
        assert(views(raw@).len() == 0) by {
            if views(raw@).len() > 0 {
                assert(views(raw@).to_set().contains(views(raw@)[0]));
                assert(views(sorted@).to_set().contains(views(raw@)[0]));
            }
        }
        assert(views(r@) =~= seq!["eDP-1"@]);
        r
    } else {
        assert(views(raw@).len() > 0) by {
            if views(raw@).len() == 0 {
                assert(views(sorted@).to_set().contains(views(sorted@)[0]));
            }
        }
        sorted
    }
}

/// The outputs offered in the display settings, from the output of
/// `niri msg -j outputs` (`None` when the command could not run).
pub fn niri_output_names(out: Option<CommandOutput>) -> (r: Vec<String>)
    ensures
        raw_output_names(out).len() == 0 ==> views(r@) == seq!["eDP-1"@],
        raw_output_names(out).len() > 0 ==> strictly_sorted(views(r@)) && views(r@).to_set()
            == raw_output_names(out).to_set(),
{
    match &out {
        Some(o) => {
            if o.success {
                if let Some(doc) = parse_json(o.stdout.as_slice()) {
                    return niri_outputs_in(Some(&doc.tree));
                }
            }
        },
        None => {},
    }
    niri_outputs_in(None)
}

} // verus!
