use ermete::output::CommandOutput;
use ermete::system::{
    battery_details, battery_reading, brightness_reading, get_mpris_state, get_network_status_dbus,
    is_battery_device, memory_reading, volume_reading, wants_metadata, MprisState,
};

#[test]
fn volume_field() {
    assert_eq!(volume_reading(b"Volume: 0.40\n"), Some("0.40".to_string()));
    assert_eq!(volume_reading(b"Volume: 0.40 [MUTED]\n"), Some("0.40".to_string()));
    assert_eq!(volume_reading(b"Vol: 0.40"), None);
    assert_eq!(volume_reading(b"Volume:"), None);
    assert_eq!(volume_reading(&[0xff, 0xfe]), None);
}

#[test]
fn brightness_field() {
    assert_eq!(brightness_reading(b"intel_backlight,backlight,1200,50%,2400\n"), Some("50".to_string()));
    assert_eq!(brightness_reading(b"a,b,c"), None);
    assert_eq!(brightness_reading(b"a,b,c,75%%,x"), Some("75".to_string()));
}

#[test]
fn memory_fields() {
    let free = b"               total        used        free\nMem:        16000000     8000000     4000000\nSwap:  0 0 0\n";
    assert_eq!(memory_reading(free), Some(("16000000".to_string(), "8000000".to_string())));
    assert_eq!(memory_reading(b"only one line\n"), None);
    assert_eq!(memory_reading(b"header\nSwap: 1 2\n"), None);
}

#[test]
fn battery_capacity_prefers_bat0() {
    assert_eq!(battery_reading(Some("87\n".to_string()), Some("10".to_string())), Some("87".to_string()));
    assert_eq!(battery_reading(None, Some(" 10 ".to_string())), Some("10".to_string()));
    assert_eq!(battery_reading(None, None), None);
}

#[test]
fn mpris_state_from_outputs() {
    let status = Some(CommandOutput { success: true, stdout: b"Playing\n".to_vec() });
    assert!(wants_metadata(&status));
    let state = get_mpris_state(status, Some(b" Song \n".to_vec()), Some(b"Artist\n".to_vec()));
    assert_eq!(
        state,
        Some(MprisState { title: "Song".to_string(), artist: "Artist".to_string(), status: "Playing".to_string() })
    );
    let failed = Some(CommandOutput { success: false, stdout: b"No players found".to_vec() });
    assert!(!wants_metadata(&failed));
    assert_eq!(get_mpris_state(failed, None, None), None);
    let status = Some(CommandOutput { success: true, stdout: b"Paused".to_vec() });
    assert_eq!(get_mpris_state(status, Some(vec![]), None), None);
}

#[test]
fn network_indicator() {
    let (icon, label, state) = get_network_status_dbus(Some(true));
    assert_eq!((icon.as_str(), label.as_str(), state.as_str()), ("\u{f1eb}", "Rete Wi-Fi", "Connesso"));
    let (icon, _, state) = get_network_status_dbus(Some(false));
    assert_eq!((icon.as_str(), state.as_str()), ("\u{f05aa}", "Disattivato"));
    let (_, _, state) = get_network_status_dbus(None);
    assert_eq!(state, "Disattivato");
}

#[test]
fn battery_device_and_defaults() {
    assert!(is_battery_device(Some(2)));
    assert!(!is_battery_device(Some(1)));
    assert!(!is_battery_device(None));
    assert_eq!(battery_details(None, None), (0, "battery-missing-symbolic".to_string()));
    assert_eq!(battery_details(Some(4), Some("battery-full".to_string())), (4, "battery-full".to_string()));
}
