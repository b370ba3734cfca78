//! The dock's pinned applications: the configuration, its default, where it
//! lives and the pin operations on it. Reading and writing the file is left
//! to the caller, which hands the parsed configuration in and saves what the
//! operations say must be saved.
use vstd::prelude::*;

use crate::text::{same_text, views};

verus! {

broadcast use vstd::seq_lib::group_seq_properties;

/// The dock's configuration: the desktop ids of the pinned applications, in
/// dock order.
#[derive(Debug, Clone, PartialEq, Eq)]
pub struct DockConfig {
    pub pinned: Vec<String>,
}

impl DockConfig {
    /// The pinned desktop ids, as character sequences.
    pub open spec fn pins(&self) -> Seq<Seq<char>> {
        views(self.pinned@)
    }
}

/// The pins that `DockConfig::default` starts with.
pub open spec fn default_pins() -> Seq<Seq<char>> {
    seq![
        "org.gnome.Terminal.desktop"@,
        "firefox.desktop"@,
        "os.ermete.Settings.desktop"@,
    ]
}

impl Default for DockConfig {
    /// The terminal, the browser and the settings application.
    fn default() -> (r: Self)
        ensures
            r.pins() == default_pins(),
    {
        let pinned = vec![
            "org.gnome.Terminal.desktop".to_string(),
            "firefox.desktop".to_string(),
            "os.ermete.Settings.desktop".to_string(),
        ];
        let r = DockConfig { pinned };
        assert(r.pins() =~= default_pins());
        r
    }
}

/// The pins after pinning `id`: unchanged when `id` is already pinned,
/// otherwise `id` is appended at the end.
pub open spec fn with_pin(pins: Seq<Seq<char>>, id: Seq<char>) -> Seq<Seq<char>> {
    if pins.contains(id) {
        pins
    } else {
        pins.push(id)
    }
}

/// The pins after unpinning `id`: every occurrence of `id` leaves, the others
/// keep their order.
pub open spec fn without_pin(pins: Seq<Seq<char>>, id: Seq<char>) -> Seq<Seq<char>> {
    pins.filter(other_than(id))
}

/// The test that keeps every pin but `id`.
pub open spec fn other_than(id: Seq<char>) -> spec_fn(Seq<char>) -> bool {
    |x: Seq<char>| x != id
}

/// Whether `desktop_id` is pinned in `config`.
pub fn is_pinned(config: &DockConfig, desktop_id: &str) -> (r: bool)
    ensures
        r == config.pins().contains(desktop_id@),
{
    let mut i: usize = 0;
    while i < config.pinned.len()
        invariant
            i <= config.pinned.len(),
            forall|j: int| 0 <= j < i ==> config.pins()[j] != desktop_id@,
        decreases config.pinned.len() - i,
    {
        if same_text(config.pinned[i].as_str(), desktop_id) {
            assert(config.pins()[i as int] == desktop_id@);
            return true;
        }
        i = i + 1;
    }
    false
}

/// Pins `desktop_id` at the end of the dock unless it is already pinned.
/// Returns whether the configuration changed, that is whether it must be
/// saved.
pub fn add_pin(config: &mut DockConfig, desktop_id: &str) -> (changed: bool)
    ensures
        final(config).pins() == with_pin(old(config).pins(), desktop_id@),
        changed == !old(config).pins().contains(desktop_id@),
{
    if is_pinned(config, desktop_id) {
        false
    } else {
        let ghost before = config.pins();
        config.pinned.push(desktop_id.to_string());
        assert(config.pins() =~= before.push(desktop_id@));
        true
    }
}

/// Unpins every occurrence of `desktop_id`; the other pins keep their order.
pub fn remove_pin(config: &mut DockConfig, desktop_id: &str)
    ensures
        final(config).pins() == without_pin(old(config).pins(), desktop_id@),
{
    let ghost pred = other_than(desktop_id@);
    let ghost all = config.pins();
    let mut kept: Vec<String> = Vec::new();
    let mut i: usize = 0;
    assert(all.take(0) =~= Seq::<Seq<char>>::empty());
    assert(all.take(0).filter(pred) =~= Seq::<Seq<char>>::empty()) by {
        reveal(Seq::filter);
    }
    while i < config.pinned.len()
        invariant
            i <= config.pinned.len(),
            all == config.pins(),
            pred == other_than(desktop_id@),
            views(kept@) == all.take(i as int).filter(pred),
        decreases config.pinned.len() - i,
    {
        assert(all.take(i + 1) =~= all.take(i as int).push(all[i as int]));
        proof { all.take(i as int).lemma_filter_push(all[i as int], pred); }
        assert(all[i as int] == config.pinned@[i as int]@);
        if !same_text(config.pinned[i].as_str(), desktop_id) {
            let ghost before = views(kept@);
            kept.push(config.pinned[i].clone());
            assert(views(kept@) =~= before.push(all[i as int]));
        }
        i = i + 1;
    }
    assert(all.take(i as int) =~= all);
    config.pinned = kept;
}

/// The path of the dock configuration below the home directory `home`
/// (`HOME`, or `/root` when it is unset), as `Path::join` writes it.
pub open spec fn dock_config_path(home: Option<Seq<char>>) -> Seq<char> {
    let base = match home {
        Some(h) => h,
        None => "/root"@,
    };
    let rel = ".config/ermete-shell/dock.json"@;
    if base.len() == 0 {
        rel
    } else if base.last() == '/' {
        base + rel
    } else {
        base + seq!['/'] + rel
    }
}

/// Where the dock configuration lives, given the value of `HOME`.
pub fn get_dock_config_path(home: Option<&str>) -> (r: String)
    ensures
        r@ == dock_config_path(
            match home {
                Some(h) => Some(h@),
                None => None,
            },
        ),
{
    let rel = ".config/ermete-shell/dock.json";
    let base: String = match home {
        Some(h) => h.to_string(),
        None => "/root".to_string(),
    };
    proof {
        reveal_strlit("/root");
        reveal_strlit(".config/ermete-shell/dock.json");
    }
    let n = base.as_str().unicode_len();
    if n == 0 {
        rel.to_string()
    } else if base.as_str().get_char(n - 1) == '/' {
        let mut r = base;
        r.append(rel);
        r
    } else {
        let mut r = base;
        r.append("/");
        proof {
            reveal_strlit("/");
        }
        r.append(rel);
        r
    }
}

/// What loading the configuration yields: the parsed file when there is one,
/// otherwise the default. The flag says whether the default must be written
/// back.
pub fn settle_loaded_config(parsed: Option<DockConfig>) -> (r: (DockConfig, bool))
    ensures
        parsed is Some ==> r.0 == parsed->0 && !r.1,
        parsed is None ==> r.0.pins() == default_pins() && r.1,
{
    match parsed {
        Some(config) => (config, false),
        None => (DockConfig::default(), true),
    }
}

/// Pinning twice is pinning once.
pub proof fn law_add_pin_idempotent(pins: Seq<Seq<char>>, id: Seq<char>)
    ensures
        with_pin(with_pin(pins, id), id) == with_pin(pins, id),
{
    assert(with_pin(pins, id).contains(id)) by {
        if !pins.contains(id) {
            assert(pins.push(id)[pins.len() as int] == id);
        }
    }
}

/// After pinning, the id is pinned; after unpinning, it is not.
pub proof fn law_pin_membership(pins: Seq<Seq<char>>, id: Seq<char>)
    ensures
        with_pin(pins, id).contains(id),
        !without_pin(pins, id).contains(id),
{
    broadcast use vstd::seq_lib::group_filter_ensures;

    if !pins.contains(id) {
        assert(pins.push(id)[pins.len() as int] == id);
    }
    if without_pin(pins, id).contains(id) {
        let k = choose|k: int| 0 <= k < without_pin(pins, id).len() && without_pin(pins, id)[k] == id;
        pins.lemma_filter_pred(other_than(id), k);
    }
}

/// Unpinning an application that was just pinned, when it was not pinned
/// before, gives back the dock as it was.
pub proof fn law_remove_undoes_add(pins: Seq<Seq<char>>, id: Seq<char>)
    requires
        !pins.contains(id),
    ensures
        without_pin(with_pin(pins, id), id) == pins,
{
    pins.lemma_filter_push(id, other_than(id));
    lemma_filter_keeps_all(pins, id);
}

/// Filtering out an id that does not occur changes nothing.
proof fn lemma_filter_keeps_all(pins: Seq<Seq<char>>, id: Seq<char>)
    requires
        !pins.contains(id),
    ensures
        pins.filter(other_than(id)) == pins,
    decreases pins.len(),
{
    reveal(Seq::filter);
    if pins.len() > 0 {
        assert(!pins.drop_last().contains(id)) by {
            if pins.drop_last().contains(id) {
                let k = choose|k: int| 0 <= k < pins.drop_last().len() && pins.drop_last()[k] == id;
                assert(pins[k] == id);
            }
        }
        lemma_filter_keeps_all(pins.drop_last(), id);
        assert(pins.last() != id) by {
            assert(pins[pins.len() - 1] == pins.last());
        }
        assert(pins.drop_last().push(pins.last()) =~= pins);
    }
}

/// Pins never repeat: pinning and unpinning keep a dock without duplicates
/// free of them.
pub proof fn law_pins_stay_unique(pins: Seq<Seq<char>>, id: Seq<char>)
    requires
        pins.no_duplicates(),
    ensures
        with_pin(pins, id).no_duplicates(),
        without_pin(pins, id).no_duplicates(),
{
    if !pins.contains(id) {
        let s = pins.push(id);
        assert forall|i: int, j: int| 0 <= i < s.len() && 0 <= j < s.len() && i != j implies s[i]
            != s[j] by {
            if i == pins.len() {
                assert(s[j] == pins[j]);
            } else if j == pins.len() {
                assert(s[i] == pins[i]);
            }
        }
    }
    lemma_filter_unique(pins, other_than(id));
}

proof fn lemma_filter_unique(s: Seq<Seq<char>>, pred: spec_fn(Seq<char>) -> bool)
    requires
        s.no_duplicates(),
    ensures
        s.filter(pred).no_duplicates(),
    decreases s.len(),
{
    broadcast use vstd::seq_lib::group_filter_ensures;

    reveal(Seq::filter);
    if s.len() > 0 {
        let p = s.drop_last();
        assert(p.no_duplicates()) by {
            assert forall|i: int, j: int| 0 <= i < p.len() && 0 <= j < p.len() && i != j implies p[i]
                != p[j] by {
                assert(p[i] == s[i] && p[j] == s[j]);
            }
        }
        lemma_filter_unique(p, pred);
        if pred(s.last()) {
            let f = p.filter(pred);
            assert(!f.contains(s.last())) by {
                if f.contains(s.last()) {
                    let k = choose|k: int| 0 <= k < f.len() && f[k] == s.last();
                    p.lemma_filter_contains_rev(pred, s.last());
                    let m = choose|m: int| 0 <= m < p.len() && p[m] == s.last();
                    assert(s[m] == s[s.len() - 1]);
                }
            }
            let g = f.push(s.last());
            assert forall|i: int, j: int| 0 <= i < g.len() && 0 <= j < g.len() && i != j implies g[i]
                != g[j] by {
                if i == f.len() {
                    assert(g[j] == f[j]);
                } else if j == f.len() {
                    assert(g[i] == f[i]);
                }
            }
        }
    }
}

} // verus!
