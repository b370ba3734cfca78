//! The shell's readings of the system: the text fields of the volume,
//! brightness, memory and battery readings, the media player, the network
//! and the battery device.
use vstd::prelude::*;

use vstd::utf8::{decode_utf8, valid_utf8};

use crate::output::{lossy_text, utf8_lossy, utf8_text, CommandOutput};
use crate::text::{
    lines, opt_view, same_text, split_char, split_lines, split_on, split_whitespace, strip_end,
    strip_trailing, trim, trim_text, words,
};

verus! {

/// The volume field of `wpctl get-volume` output: the word after a leading
/// `Volume:`.
pub open spec fn volume_of(stdout: Seq<u8>) -> Option<Seq<char>> {
    if valid_utf8(stdout) {
        let w = words(decode_utf8(stdout));
        if w.len() >= 2 && w[0] == "Volume:"@ {
            Some(w[1])
        } else {
            None
        }
    } else {
        None
    }
}

/// The brightness field of `brightnessctl -m` output: the fourth
/// comma-separated field without its trailing `%` signs.
pub open spec fn brightness_of(stdout: Seq<u8>) -> Option<Seq<char>> {
    if valid_utf8(stdout) {
        let parts = split_on(trim(decode_utf8(stdout)), ',');
        if parts.len() >= 4 {
            Some(strip_end(parts[3], '%'))
        } else {
            None
        }
    } else {
        None
    }
}

/// The total and used fields of the `Mem:` line of `free` output (its second
/// line).
pub open spec fn memory_of(stdout: Seq<u8>) -> Option<(Seq<char>, Seq<char>)> {
    if valid_utf8(stdout) {
        let ls = lines(decode_utf8(stdout));
        if ls.len() >= 2 {
            let w = words(ls[1]);
            if w.len() >= 3 && w[0] == "Mem:"@ {
                Some((w[1], w[2]))
            } else {
                None
            }
        } else {
            None
        }
    } else {
        None
    }
}

/// The memory fields are the second and third words of the second line
/// whenever that line starts with the word `Mem:` and has at least three
/// words, however many columns follow; in every other case there are none.
pub proof fn law_memory_fields_are_total_and_used(stdout: Seq<u8>)
    ensures
        ({
            let ls = lines(decode_utf8(stdout));
            let w = words(ls[1]);
            (valid_utf8(stdout) && ls.len() >= 2 && w.len() >= 3 && w[0] == "Mem:"@)
                ==> memory_of(stdout) == Some((w[1], w[2]))
        }),
        ({
            let ls = lines(decode_utf8(stdout));
            !(valid_utf8(stdout) && ls.len() >= 2 && words(ls[1]).len() >= 3 && words(ls[1])[0]
                == "Mem:"@) ==> memory_of(stdout) is None
        }),
{
}

/// The memory fields depend on nothing but the first three words of the
/// second line: two outputs whose second lines agree there give the same
/// fields, whatever columns follow.
pub proof fn law_memory_fields_ignore_later_columns(a: Seq<u8>, b: Seq<u8>)
    requires
        valid_utf8(a),
        valid_utf8(b),
        lines(decode_utf8(a)).len() >= 2,
        lines(decode_utf8(b)).len() >= 2,
        words(lines(decode_utf8(a))[1]).len() >= 3,
        words(lines(decode_utf8(b))[1]).len() >= 3,
        words(lines(decode_utf8(a))[1]).take(3) == words(lines(decode_utf8(b))[1]).take(3),
    ensures
        memory_of(a) == memory_of(b),
{
    let wa = words(lines(decode_utf8(a))[1]);
    let wb = words(lines(decode_utf8(b))[1]);
    assert(wa[0] == wa.take(3)[0] && wb[0] == wb.take(3)[0]);
    assert(wa[1] == wa.take(3)[1] && wb[1] == wb.take(3)[1]);
    assert(wa[2] == wa.take(3)[2] && wb[2] == wb.take(3)[2]);
}

/// The volume field of what `wpctl get-volume @DEFAULT_AUDIO_SINK@` printed.
pub fn volume_reading(stdout: &[u8]) -> (r: Option<String>)
    ensures
        opt_view(r) == volume_of(stdout@),
{
    proof {
        reveal_strlit("Volume:");
    }
    match utf8_text(stdout) {
        Some(text) => {
            let parts = split_whitespace(text.as_str());
            if parts.len() >= 2 && same_text(parts[0].as_str(), "Volume:") {
                Some(parts[1].clone())
            } else {
                None
            }
        },
        None => None,
    }
}

/// The brightness field of what `brightnessctl -m` printed.
pub fn brightness_reading(stdout: &[u8]) -> (r: Option<String>)
    ensures
        opt_view(r) == brightness_of(stdout@),
{
    match utf8_text(stdout) {
        Some(text) => {
            let t = trim_text(text.as_str());
            let parts = split_char(t.as_str(), ',');
            if parts.len() >= 4 {
                Some(strip_trailing(parts[3].as_str(), '%'))
            } else {
                None
            }
        },
        None => None,
    }
}

/// The total and used memory fields of what `free` printed.
pub fn memory_reading(stdout: &[u8]) -> (r: Option<(String, String)>)
    ensures
        (match r {
            Some((t, u)) => Some((t@, u@)),
            None => None,
        }) == memory_of(stdout@),
{
    proof {
        reveal_strlit("Mem:");
    }
    match utf8_text(stdout) {
        Some(text) => {
            let ls = split_lines(text.as_str());
            if ls.len() >= 2 {
                let parts = split_whitespace(ls[1].as_str());
                if parts.len() >= 3 && same_text(parts[0].as_str(), "Mem:") {
                    Some((parts[1].clone(), parts[2].clone()))
                } else {
                    None
                }
            } else {
                None
            }
        },
        None => None,
    }
}

/// The battery capacity text: the trimmed content of `BAT0/capacity` when it
/// could be read, else that of `BAT1/capacity`.
pub fn battery_reading(bat0: Option<String>, bat1: Option<String>) -> (r: Option<String>)
    ensures
        opt_view(r) == match bat0 {
            Some(b) => Some(trim(b@)),
            None => match bat1 {
                Some(b) => Some(trim(b@)),
                None => None,
            },
        },
{
    match bat0 {
        Some(b) => Some(trim_text(b.as_str())),
        None => match bat1 {
            Some(b) => Some(trim_text(b.as_str())),
            None => None,
        },
    }
}

/// The media player's state.
#[derive(Debug, Clone, PartialEq, Eq)]
pub struct MprisState {
    pub title: String,
    pub artist: String,
    pub status: String,
}

/// Whether `playerctl status` ran and succeeded, so that the metadata is read.
pub fn wants_metadata(status: &Option<CommandOutput>) -> (r: bool)
    ensures
        r == (status matches Some(o) && o.success),
{
    match status {
        Some(o) => o.success,
        None => false,
    }
}

/// The player state from the outputs of `playerctl status`, `playerctl
/// metadata xesam:title` and `playerctl metadata xesam:artist` (`None` when a
/// command could not run): nothing unless the status command succeeded and
/// both metadata commands ran; each field is the command's trimmed output.
pub fn get_mpris_state(
    status: Option<CommandOutput>,
    title: Option<Vec<u8>>,
    artist: Option<Vec<u8>>,
) -> (r: Option<MprisState>)
    ensures
        r is Some <==> (status matches Some(o) && o.success && title is Some && artist is Some),
        r matches Some(m) ==> m.status@ == trim(lossy_text(status->0.stdout@)) && m.title@ == trim(
            lossy_text(title->0@),
        ) && m.artist@ == trim(lossy_text(artist->0@)),
{
    let status = match status {
        Some(o) => o,
        None => return None,
    };
    if !status.success {
        return None;
    }
    let status_text = trim_text(utf8_lossy(status.stdout.as_slice()).as_str());
    let title = match title {
        Some(t) => t,
        None => return None,
    };
    let title_text = trim_text(utf8_lossy(title.as_slice()).as_str());
    let artist = match artist {
        Some(a) => a,
        None => return None,
    };
    let artist_text = trim_text(utf8_lossy(artist.as_slice()).as_str());
    Some(MprisState { title: title_text, artist: artist_text, status: status_text })
}

/// The network indicator (icon, label, state) given whether Wi-Fi is enabled
/// (`None` when NetworkManager could not be asked).
pub fn get_network_status_dbus(wireless_enabled: Option<bool>) -> (r: (String, String, String))
    ensures
        wireless_enabled == Some(true) ==> r.0@ == "\u{f1eb}"@ && r.1@ == "Rete Wi-Fi"@ && r.2@
            == "Connesso"@,
        wireless_enabled != Some(true) ==> r.0@ == "\u{f05aa}"@ && r.1@ == "Rete Wi-Fi"@ && r.2@
            == "Disattivato"@,
{
    if wireless_enabled == Some(true) {
        ("\u{f1eb}".to_string(), "Rete Wi-Fi".to_string(), "Connesso".to_string())
    } else {
        ("\u{f05aa}".to_string(), "Rete Wi-Fi".to_string(), "Disattivato".to_string())
    }
}

/// Whether a UPower device is a battery: its type could be read and is 2.
pub fn is_battery_device(device_type: Option<u32>) -> (r: bool)
    ensures
        r == (device_type == Some(2u32)),
{
    device_type == Some(2u32)
}

/// The state and icon of a battery, with the defaults for readings that
/// failed: state 0 and `battery-missing-symbolic`.
pub fn battery_details(state: Option<u32>, icon: Option<String>) -> (r: (u32, String))
    ensures
        r.0 == (match state {
            Some(s) => s,
            None => 0u32,
        }),
        r.1@ == (match icon {
            Some(i) => i@,
            None => "battery-missing-symbolic"@,
        }),
{
    let s = match state {
        Some(s) => s,
        None => 0,
    };
    let i = match icon {
        Some(i) => i,
        None => "battery-missing-symbolic".to_string(),
    };
    (s, i)
}

} // verus!
