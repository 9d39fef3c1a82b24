use vacs::platform::{hyprland_config, DesktopEnvironment, HostCommand};

fn plain(commands: Vec<HostCommand>) -> Vec<(String, Vec<String>)> {
    commands.into_iter().map(|c| (c.program, c.args)).collect()
}

fn owned(program: &str, args: &[&str]) -> (String, Vec<String>) {
    (program.to_string(), args.iter().map(|a| a.to_string()).collect())
}

#[test]
fn each_desktop_opens_its_own_shortcut_settings() {
    assert_eq!(
        plain(DesktopEnvironment::Kde.shortcut_settings_commands(None, None)),
        vec![owned("systemsettings5", &["kcm_keys"]), owned("systemsettings", &["kcm_keys"])]
    );
    assert_eq!(
        plain(DesktopEnvironment::Gnome.shortcut_settings_commands(None, None)),
        vec![owned("gnome-control-center", &["keyboard"])]
    );
    assert_eq!(
        plain(DesktopEnvironment::Xfce.shortcut_settings_commands(None, None)),
        vec![owned("xfce4-keyboard-settings", &[])]
    );
    assert_eq!(
        plain(DesktopEnvironment::Hyprland.shortcut_settings_commands(None, Some("/home/me"))),
        vec![owned("xdg-open", &["/home/me/.config/hypr/hyprland.conf"])]
    );
    assert_eq!(
        plain(DesktopEnvironment::Unknown.shortcut_settings_commands(None, None)),
        vec![
            owned("xdg-open", &["settings://keyboard"]),
            owned("xdg-settings", &["get", "default-url-scheme-handler", "settings"]),
        ]
    );
}

#[test]
fn hyprland_config_follows_the_xdg_base_directories() {
    assert_eq!(hyprland_config(Some("/cfg"), Some("/home/me")), "/cfg/hypr/hyprland.conf");
    assert_eq!(hyprland_config(None, Some("/home/me")), "/home/me/.config/hypr/hyprland.conf");
    assert_eq!(hyprland_config(None, None), "~/.config/hypr/hyprland.conf");
}
