//! The decisions behind the settings pages: what the network pages show of
//! `nmcli` output, and the commands that the toggles and buttons run.
use vstd::prelude::*;

use crate::output::{lossy_text, utf8_lossy, CommandOutput};
use crate::text::{
    decimal, lines, push_decimal, same_text, split_char, split_lines, split_on, trim, trim_text,
    views,
};

verus! {

/// The label for an `nmcli` device state.
pub open spec fn state_label(state: Seq<char>) -> Seq<char> {
    if state == "connected"@ {
        "Connesso"@
    } else if state == "disconnected"@ {
        "Scollegato"@
    } else if state == "unavailable"@ {
        "Non disponibile"@
    } else if state == "connecting"@ {
        "In connessione"@
    } else {
        state
    }
}

/// What the wired page shows for the first ethernet line of
/// `nmcli -t -f DEVICE,TYPE,STATE dev` (`None` when the command could not
/// run): `device - state` for a `device:type:state` line, the line itself
/// when it has fewer fields, `Scollegato` when there is none.
pub open spec fn ethernet_label(stdout: Option<Seq<u8>>) -> Seq<char> {
    match stdout {
        Some(b) => {
            let t = trim(lossy_text(b));
            if t.len() > 0 {
                let parts = split_on(t, ':');
                if parts.len() >= 3 {
                    parts[0] + " - "@ + state_label(parts[2])
                } else {
                    t
                }
            } else {
                "Scollegato"@
            }
        },
        None => "Scollegato"@,
    }
}

fn state_text(state: &str) -> (r: String)
    ensures
        r@ == state_label(state@),
{
    proof {
        reveal_strlit("connected");
        reveal_strlit("disconnected");
        reveal_strlit("unavailable");
        reveal_strlit("connecting");
    }
    if same_text(state, "connected") {
        "Connesso".to_string()
    } else if same_text(state, "disconnected") {
        "Scollegato".to_string()
    } else if same_text(state, "unavailable") {
        "Non disponibile".to_string()
    } else if same_text(state, "connecting") {
        "In connessione".to_string()
    } else {
        state.to_string()
    }
}

/// The wired connection's status line.
pub fn get_ethernet_status(stdout: Option<Vec<u8>>) -> (r: String)
    ensures
        r@ == ethernet_label(
            match stdout {
                Some(b) => Some(b@),
                None => None,
            },
        ),
{
    match stdout {
        Some(b) => {
            let t = trim_text(utf8_lossy(b.as_slice()).as_str());
            if t.as_str().unicode_len() > 0 {
                let parts = split_char(t.as_str(), ':');
                if parts.len() >= 3 {
                    let mut r = parts[0].clone();
                    r.append(" - ");
                    let label = state_text(parts[2].as_str());
                    r.append(label.as_str());
                    r
                } else {
                    t
                }
            } else {
                "Scollegato".to_string()
            }
        },
        None => "Scollegato".to_string(),
    }
}

/// The non-empty trimmed lines, in order.
pub open spec fn ssids(ls: Seq<Seq<char>>) -> Seq<Seq<char>>
    decreases ls.len(),
{
    if ls.len() == 0 {
        seq![]
    } else {
        let p = ssids(ls.drop_last());
        let t = trim(ls.last());
        if t.len() > 0 {
            p.push(t)
        } else {
            p
        }
    }
}

/// The networks that the Wi-Fi page lists for `nmcli -t -f SSID dev wifi`:
/// the non-empty trimmed lines of a successful run, otherwise two example
/// names.
pub open spec fn wifi_list(out: Option<CommandOutput>) -> Seq<Seq<char>> {
    match out {
        Some(o) => if o.success {
            ssids(lines(lossy_text(o.stdout@)))
        } else {
            seq!["Home_5G"@, "Guest"@]
        },
        None => seq!["Home_5G"@, "Guest"@],
    }
}

/// The test that keeps the non-empty lines.
pub open spec fn non_empty() -> spec_fn(Seq<char>) -> bool {
    |t: Seq<char>| t.len() > 0
}

/// The trimmed lines.
pub open spec fn trimmed_lines(ls: Seq<Seq<char>>) -> Seq<Seq<char>> {
    ls.map_values(|l: Seq<char>| trim(l))
}

/// On a successful run the Wi-Fi page lists every line of the output with
/// only its leading and trailing whitespace removed, in order, leaving out
/// the lines that are blank; no inner character of a line is dropped. When
/// the command fails or could not run, it lists the two example names.
pub proof fn law_wifi_lists_trimmed_lines(out: Option<CommandOutput>)
    ensures
        (out matches Some(o) && o.success) ==> wifi_list(out) == trimmed_lines(
            lines(lossy_text(out->0.stdout@)),
        ).filter(non_empty()),
        !(out matches Some(o) && o.success) ==> wifi_list(out) == seq!["Home_5G"@, "Guest"@],
{
    if let Some(o) = out {
        lemma_ssids_filter(lines(lossy_text(o.stdout@)));
    }
}

proof fn lemma_ssids_filter(ls: Seq<Seq<char>>)
    ensures
        ssids(ls) == trimmed_lines(ls).filter(non_empty()),
    decreases ls.len(),
{
    reveal(Seq::filter);
    if ls.len() > 0 {
        lemma_ssids_filter(ls.drop_last());
        assert(trimmed_lines(ls).drop_last() =~= trimmed_lines(ls.drop_last()));
        assert(trimmed_lines(ls).last() == trim(ls.last()));
    }
}

/// The networks listed on the Wi-Fi page.
pub fn wifi_networks(out: Option<CommandOutput>) -> (r: Vec<String>)
    ensures
        views(r@) == wifi_list(out),
{
    let mut networks: Vec<String> = Vec::new();
    match out {
        Some(o) => {
            if o.success {
                let text = utf8_lossy(o.stdout.as_slice());
                let ls = split_lines(text.as_str());
                let mut i: usize = 0;
                assert(views(ls@).take(0) =~= Seq::<Seq<char>>::empty());
                while i < ls.len()
                    invariant
                        i <= ls.len(),
                        views(networks@) == ssids(views(ls@).take(i as int)),
                    decreases ls.len() - i,
                {
                    let ghost before = views(networks@);
                    assert(views(ls@).take(i + 1).drop_last() =~= views(ls@).take(i as int));
                    assert(views(ls@).take(i + 1).last() == ls@[i as int]@);
                    let t = trim_text(ls[i].as_str());
                    if t.as_str().unicode_len() > 0 {
                        networks.push(t);
                        assert(views(networks@) =~= before.push(t@));
                    }
                    i = i + 1;
                }
                assert(views(ls@).take(ls.len() as int) =~= views(ls@));
                return networks;
            }
        },
        None => {},
    }
    networks.push("Home_5G".to_string());
    networks.push("Guest".to_string());
    assert(views(networks@) =~= seq!["Home_5G"@, "Guest"@]);
    networks
}

/// The colour schemes offered on the appearance page.
#[derive(Debug, Clone, Copy, PartialEq, Eq)]
pub enum ColorScheme {
    Light,
    Dark,
    Auto,
}

/// The `dconf` value for a colour scheme.
pub open spec fn scheme_value(s: ColorScheme) -> Seq<char> {
    match s {
        ColorScheme::Light => "'prefer-light'"@,
        ColorScheme::Dark => "'prefer-dark'"@,
        ColorScheme::Auto => "'default'"@,
    }
}

/// The arguments of the `dconf` command that selects a colour scheme.
pub fn color_scheme_args(scheme: ColorScheme) -> (r: Vec<String>)
    ensures
        views(r@) == seq!["write"@, "/org/gnome/desktop/interface/color-scheme"@, scheme_value(scheme)],
{
    let value = match scheme {
        ColorScheme::Light => "'prefer-light'",
        ColorScheme::Dark => "'prefer-dark'",
        ColorScheme::Auto => "'default'",
    };
    let r = vec![
        "write".to_string(),
        "/org/gnome/desktop/interface/color-scheme".to_string(),
        value.to_string(),
    ];
    assert(views(r@) =~= seq!["write"@, "/org/gnome/desktop/interface/color-scheme"@, scheme_value(scheme)]);
    r
}

/// The accent colours offered on the appearance page: label and value.
pub open spec fn accents() -> Seq<(Seq<char>, Seq<char>)> {
    seq![
        ("Blu"@, "blue"@),
        ("Rosso"@, "red"@),
        ("Verde"@, "green"@),
        ("Arancione"@, "orange"@),
        ("Viola"@, "purple"@),
        ("Rosa"@, "pink"@),
    ]
}

/// The accent colours, in the order of their buttons.
pub fn accent_colors() -> (r: Vec<(String, String)>)
    ensures
        r@.map_values(|p: (String, String)| (p.0@, p.1@)) == accents(),
{
    let r = vec![
        ("Blu".to_string(), "blue".to_string()),
        ("Rosso".to_string(), "red".to_string()),
        ("Verde".to_string(), "green".to_string()),
        ("Arancione".to_string(), "orange".to_string()),
        ("Viola".to_string(), "purple".to_string()),
        ("Rosa".to_string(), "pink".to_string()),
    ];
    assert(r@.map_values(|p: (String, String)| (p.0@, p.1@)) =~= accents());
    r
}

/// The arguments of the `gsettings` command that sets the accent colour.
pub fn accent_color_args(value: &str) -> (r: Vec<String>)
    ensures
        views(r@) == seq!["set"@, "org.gnome.desktop.interface"@, "accent-color"@, value@],
{
    let r = vec![
        "set".to_string(),
        "org.gnome.desktop.interface".to_string(),
        "accent-color".to_string(),
        value.to_string(),
    ];
    assert(views(r@) =~= seq!["set"@, "org.gnome.desktop.interface"@, "accent-color"@, value@]);
    r
}

/// The shell command that sets the wallpaper of the button at `index`
/// (counted from zero; the wallpapers are numbered from one).
pub fn wallpaper_command(index: u32) -> (r: String)
    requires
        index < u32::MAX,
    ensures
        r@ == "swww img /path/to/wall_"@ + decimal((index + 1) as nat),
{
    let mut r = "swww img /path/to/wall_".to_string();
    push_decimal(&mut r, index + 1);
    r
}

/// The label of the wallpaper button at `index` (counted from zero).
pub fn wallpaper_label(index: u32) -> (r: String)
    requires
        index < u32::MAX,
    ensures
        r@ == "Wallpaper "@ + decimal((index + 1) as nat),
{
    let mut r = "Wallpaper ".to_string();
    push_decimal(&mut r, index + 1);
    r
}

/// The shell command run when the dock switch turns on or off.
pub fn dock_toggle_command(enabled: bool) -> (r: String)
    ensures
        enabled ==> r@ == "echo 'Spawn dock command here'"@,
        !enabled ==> r@ == "echo 'Kill dock command here'"@,
{
    if enabled {
        "echo 'Spawn dock command here'".to_string()
    } else {
        "echo 'Kill dock command here'".to_string()
    }
}

/// The shell command that adds or removes the rule hiding the top bar over
/// full-screen windows.
pub fn fullscreen_rule_command(enabled: bool) -> (r: String)
    ensures
        enabled ==> r@ == "niri msg window-rule add hide-bar-on-fullscreen || true"@,
        !enabled ==> r@ == "niri msg window-rule remove hide-bar-on-fullscreen || true"@,
{
    if enabled {
        "niri msg window-rule add hide-bar-on-fullscreen || true".to_string()
    } else {
        "niri msg window-rule remove hide-bar-on-fullscreen || true".to_string()
    }
}

pub open spec fn bool_word(b: bool) -> Seq<char> {
    if b {
        "true"@
    } else {
        "false"@
    }
}

/// The `sed` command that sets a touchpad option of niri's configuration.
pub open spec fn touchpad_command(option: Seq<char>, enabled: bool) -> Seq<char> {
    "sed -i 's/"@ + option + ".*/"@ + option + " "@ + bool_word(enabled)
        + "/' ~/.config/niri/config.kdl"@
}

fn touchpad_option(option: &str, enabled: bool) -> (r: String)
    ensures
        r@ == touchpad_command(option@, enabled),
{
    let mut r = "sed -i 's/".to_string();
    r.append(option);
    r.append(".*/");
    r.append(option);
    r.append(" ");
    r.append(if enabled {
        "true"
    } else {
        "false"
    });
    r.append("/' ~/.config/niri/config.kdl");
    r
}

/// The command run by the natural-scrolling switch.
pub fn natural_scroll_command(enabled: bool) -> (r: String)
    ensures
        r@ == touchpad_command("natural-scroll"@, enabled),
{
    touchpad_option("natural-scroll", enabled)
}

/// The command run by the tap-to-click switch.
pub fn tap_to_click_command(enabled: bool) -> (r: String)
    ensures
        r@ == touchpad_command("tap-to-click"@, enabled),
{
    touchpad_option("tap-to-click", enabled)
}

} // verus!
