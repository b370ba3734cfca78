use ermete::output::CommandOutput;
use ermete::settings::{
    accent_color_args, accent_colors, color_scheme_args, dock_toggle_command, fullscreen_rule_command,
    get_ethernet_status, natural_scroll_command, tap_to_click_command, wallpaper_command, wallpaper_label,
    wifi_networks, ColorScheme,
};

#[test]
fn ethernet_status_lines() {
    assert_eq!(get_ethernet_status(Some(b"eth0:802-3-ethernet:connected\n".to_vec())), "eth0 - Connesso");
    assert_eq!(get_ethernet_status(Some(b"enp3s0:ethernet:unavailable".to_vec())), "enp3s0 - Non disponibile");
    assert_eq!(get_ethernet_status(Some(b"enp3s0:ethernet:disconnected".to_vec())), "enp3s0 - Scollegato");
    assert_eq!(get_ethernet_status(Some(b"enp3s0:ethernet:connecting".to_vec())), "enp3s0 - In connessione");
    assert_eq!(get_ethernet_status(Some(b"enp3s0:ethernet:weird".to_vec())), "enp3s0 - weird");
    assert_eq!(get_ethernet_status(Some(b"  eth0:eth  ".to_vec())), "eth0:eth");
    assert_eq!(get_ethernet_status(Some(b"  \n".to_vec())), "Scollegato");
    assert_eq!(get_ethernet_status(None), "Scollegato");
}

#[test]
fn wifi_network_list() {
    let out = Some(CommandOutput { success: true, stdout: b"Home\n\n  Office \r\nCafe".to_vec() });
    assert_eq!(wifi_networks(out), vec!["Home", "Office", "Cafe"]);
    let failed = Some(CommandOutput { success: false, stdout: b"Home".to_vec() });
    assert_eq!(wifi_networks(failed), vec!["Home_5G", "Guest"]);
    assert_eq!(wifi_networks(None), vec!["Home_5G", "Guest"]);
    let empty = Some(CommandOutput { success: true, stdout: vec![] });
    assert!(wifi_networks(empty).is_empty());
}

#[test]
fn appearance_commands() {
    assert_eq!(
        color_scheme_args(ColorScheme::Dark),
        vec!["write", "/org/gnome/desktop/interface/color-scheme", "'prefer-dark'"]
    );
    assert_eq!(color_scheme_args(ColorScheme::Light)[2], "'prefer-light'");
    assert_eq!(color_scheme_args(ColorScheme::Auto)[2], "'default'");
    let accents = accent_colors();
    assert_eq!(accents.len(), 6);
    assert_eq!(accents[0], ("Blu".to_string(), "blue".to_string()));
    assert_eq!(accents[5], ("Rosa".to_string(), "pink".to_string()));
    assert_eq!(accent_color_args("red"), vec!["set", "org.gnome.desktop.interface", "accent-color", "red"]);
}

#[test]
fn desktop_focus_and_mouse_commands() {
    assert_eq!(wallpaper_command(0), "swww img /path/to/wall_1");
    assert_eq!(wallpaper_command(2), "swww img /path/to/wall_3");
    assert_eq!(wallpaper_label(9), "Wallpaper 10");
    assert_eq!(dock_toggle_command(true), "echo 'Spawn dock command here'");
    assert_eq!(dock_toggle_command(false), "echo 'Kill dock command here'");
    assert_eq!(fullscreen_rule_command(true), "niri msg window-rule add hide-bar-on-fullscreen || true");
    assert_eq!(fullscreen_rule_command(false), "niri msg window-rule remove hide-bar-on-fullscreen || true");
    assert_eq!(
        natural_scroll_command(true),
        "sed -i 's/natural-scroll.*/natural-scroll true/' ~/.config/niri/config.kdl"
    );
    assert_eq!(
        tap_to_click_command(false),
        "sed -i 's/tap-to-click.*/tap-to-click false/' ~/.config/niri/config.kdl"
    );
}
