//! Platform, desktop environment and capability detection from plain environment values.
//!
//! The values are read from the process environment by the caller; detection itself is a
//! pure function of them.

use vstd::prelude::*;
use crate::text::{contains, contains_text, copy_text, lowercase, to_lowercase};

verus! {

/// The operating system the client was built for.
#[derive(Debug, Clone, Copy, PartialEq, Eq, Structural)]
pub enum TargetOs {
    Windows,
    MacOs,
    Linux,
    Other,
}

/// What platform detection reads from the environment.
pub struct PlatformEnv {
    pub os: TargetOs,
    /// `XDG_SESSION_TYPE`, when set to valid Unicode.
    pub xdg_session_type: Option<String>,
    /// Whether `WAYLAND_DISPLAY` is set to valid Unicode.
    pub wayland_display: bool,
    /// Whether `DISPLAY` is set to valid Unicode.
    pub display: bool,
}

#[derive(Debug, Clone, Copy, PartialEq, Eq, Structural)]
pub enum Platform {
    Unknown,
    Windows,
    MacOs,
    LinuxX11,
    LinuxWayland,
    LinuxUnknown,
}

/// On Linux: `XDG_SESSION_TYPE` (lowercased) decides when it names Wayland or X11, then
/// `WAYLAND_DISPLAY`, then `DISPLAY`; otherwise the display server is unknown.
pub open spec fn spec_platform(os: TargetOs, session: Option<Seq<char>>, wayland: bool, display: bool) -> Platform {
    match os {
        TargetOs::Windows => Platform::Windows,
        TargetOs::MacOs => Platform::MacOs,
        TargetOs::Other => Platform::Unknown,
        TargetOs::Linux => if session is Some && lowercase(session->0) == "wayland"@ {
            Platform::LinuxWayland
        } else if session is Some && lowercase(session->0) == "x11"@ {
            Platform::LinuxX11
        } else if wayland {
            Platform::LinuxWayland
        } else if display {
            Platform::LinuxX11
        } else {
            Platform::LinuxUnknown
        },
    }
}

/// Whether `XDG_SESSION_TYPE` is set and names Wayland or X11 (in any case).
pub open spec fn session_names_server(session: Option<Seq<char>>) -> bool {
    session matches Some(s) && (lowercase(s) == "wayland"@ || lowercase(s) == "x11"@)
}

/// The Linux platform the display sockets alone describe: a Wayland socket means Wayland
/// (an X11 socket beside it is XWayland), else an X11 socket means X11.
pub open spec fn display_server_from_sockets(wayland: bool, display: bool) -> Platform {
    if wayland {
        Platform::LinuxWayland
    } else if display {
        Platform::LinuxX11
    } else {
        Platform::LinuxUnknown
    }
}

/// Law: on Linux, when `XDG_SESSION_TYPE` is unset or names neither Wayland nor X11, a set
/// `WAYLAND_DISPLAY` gives Wayland whether or not `DISPLAY` is set; `DISPLAY` gives X11 only
/// when `WAYLAND_DISPLAY` is unset; with neither the display server is unknown.
pub proof fn lemma_wayland_socket_wins(session: Option<Seq<char>>, wayland: bool, display: bool)
    requires
        !session_names_server(session),
    ensures
        wayland ==> spec_platform(TargetOs::Linux, session, wayland, display)
            == Platform::LinuxWayland,
        (!wayland && display) ==> spec_platform(TargetOs::Linux, session, wayland, display)
            == Platform::LinuxX11,
        (!wayland && !display) ==> spec_platform(TargetOs::Linux, session, wayland, display)
            == Platform::LinuxUnknown,
        spec_platform(TargetOs::Linux, session, true, true) == Platform::LinuxWayland,
{
}

/// Law: on Linux an `XDG_SESSION_TYPE` naming Wayland or X11, in any case, decides the
/// display server whatever sockets are set.
pub proof fn lemma_session_type_decides(session: Seq<char>, wayland: bool, display: bool)
    ensures
        lowercase(session) == "wayland"@ ==> spec_platform(
            TargetOs::Linux,
            Some(session),
            wayland,
            display,
        ) == Platform::LinuxWayland,
        lowercase(session) == "x11"@ ==> spec_platform(TargetOs::Linux, Some(session), wayland, display)
            == Platform::LinuxX11,
{
    reveal_strlit("wayland");
    reveal_strlit("x11");
    assert("wayland"@.len() != "x11"@.len());
}

pub open spec fn opt_string_text(o: Option<String>) -> Option<Seq<char>> {
    match o {
        Some(s) => Some(s@),
        None => None,
    }
}

pub open spec fn spec_platform_name(p: Platform) -> Seq<char> {
    match p {
        Platform::Windows => "Windows"@,
        Platform::MacOs => "MacOs"@,
        Platform::LinuxX11 => "LinuxX11"@,
        Platform::LinuxWayland => "LinuxWayland"@,
        Platform::LinuxUnknown => "LinuxUnknown"@,
        Platform::Unknown => "Unknown"@,
    }
}

impl Platform {
    /// The platform the environment describes.
    pub fn get(env: &PlatformEnv) -> (r: Platform)
        ensures
            r == spec_platform(
                env.os,
                opt_string_text(env.xdg_session_type),
                env.wayland_display,
                env.display,
            ),
            (env.os == TargetOs::Linux && !session_names_server(
                opt_string_text(env.xdg_session_type),
            )) ==> r == display_server_from_sockets(env.wayland_display, env.display),
    {
        match env.os {
            TargetOs::Windows => Platform::Windows,
            TargetOs::MacOs => Platform::MacOs,
            TargetOs::Other => Platform::Unknown,
            TargetOs::Linux => {
                if let Some(session) = &env.xdg_session_type {
                    let lower = to_lowercase(session.as_str());
                    if lower == copy_text("wayland") {
                        return Platform::LinuxWayland;
                    }
                    if lower == copy_text("x11") {
                        return Platform::LinuxX11;
                    }
                }
                if env.wayland_display {
                    Platform::LinuxWayland
                } else if env.display {
                    Platform::LinuxX11
                } else {
                    Platform::LinuxUnknown
                }
            },
        }
    }

    pub fn is_linux(&self) -> (r: bool)
        ensures
            r == (*self == Platform::LinuxX11 || *self == Platform::LinuxWayland || *self
                == Platform::LinuxUnknown),
    {
        match self {
            Platform::LinuxX11 | Platform::LinuxWayland | Platform::LinuxUnknown => true,
            _ => false,
        }
    }

    pub fn is_wayland(&self) -> (r: bool)
        ensures
            r == (*self == Platform::LinuxWayland),
    {
        match self {
            Platform::LinuxWayland => true,
            _ => false,
        }
    }

    pub fn as_str(&self) -> (r: &'static str)
        ensures
            r@ == spec_platform_name(*self),
    {
        match self {
            Platform::Windows => "Windows",
            Platform::MacOs => "MacOs",
            Platform::LinuxX11 => "LinuxX11",
            Platform::LinuxWayland => "LinuxWayland",
            Platform::LinuxUnknown => "LinuxUnknown",
            Platform::Unknown => "Unknown",
        }
    }
}

/// Platform capabilities that determine which features are available.
///
/// Windows and macOS have a keybind listener and emitter; Wayland has a listener through the
/// XDG Global Shortcuts portal (when the portal is available) but no emitter and no
/// always-on-top; X11 and unknown Linux sessions have neither.
#[derive(Debug, Clone, Copy, PartialEq, Eq, Structural)]
pub struct Capabilities {
    pub always_on_top: bool,
    pub keybind_listener: bool,
    pub keybind_emitter: bool,
    pub platform: Platform,
}

impl Capabilities {
    /// The capabilities of `platform`; `portal_available` tells whether the Wayland Global
    /// Shortcuts portal answered.
    pub fn get(platform: Platform, portal_available: bool) -> (r: Capabilities)
        ensures
            r.platform == platform,
            r.always_on_top == (platform != Platform::LinuxWayland),
            r.keybind_listener == ((platform == Platform::LinuxWayland && portal_available) || platform
                == Platform::Windows || platform == Platform::MacOs),
            r.keybind_emitter == (platform == Platform::Windows || platform == Platform::MacOs),
    {
        let wayland = platform.is_wayland();
        let desktop = match platform {
            Platform::Windows | Platform::MacOs => true,
            _ => false,
        };
        Capabilities {
            always_on_top: !wayland,
            keybind_listener: (wayland && portal_available) || desktop,
            keybind_emitter: desktop,
            platform,
        }
    }
}

/// Desktop environment detected on Linux.
#[derive(Debug, Clone, Copy, PartialEq, Eq, Structural)]
pub enum DesktopEnvironment {
    Kde,
    Gnome,
    Xfce,
    Hyprland,
    Unknown,
}

/// Decided by `XDG_CURRENT_DESKTOP` (unset reads as empty), lowercased, in this order:
/// KDE or Plasma, GNOME, XFCE, Hyprland.
pub open spec fn spec_desktop(desktop: Seq<char>) -> DesktopEnvironment {
    let d = lowercase(desktop);
    if contains_text(d, "kde"@) || contains_text(d, "plasma"@) {
        DesktopEnvironment::Kde
    } else if contains_text(d, "gnome"@) {
        DesktopEnvironment::Gnome
    } else if contains_text(d, "xfce"@) {
        DesktopEnvironment::Xfce
    } else if contains_text(d, "hyprland"@) {
        DesktopEnvironment::Hyprland
    } else {
        DesktopEnvironment::Unknown
    }
}

pub open spec fn spec_desktop_name(d: DesktopEnvironment) -> Seq<char> {
    match d {
        DesktopEnvironment::Kde => "KDE"@,
        DesktopEnvironment::Gnome => "GNOME"@,
        DesktopEnvironment::Xfce => "XFCE"@,
        DesktopEnvironment::Hyprland => "Hyprland"@,
        DesktopEnvironment::Unknown => "Unknown"@,
    }
}

impl DesktopEnvironment {
    /// The desktop environment `XDG_CURRENT_DESKTOP` names.
    pub fn get(xdg_current_desktop: Option<&str>) -> (r: DesktopEnvironment)
        ensures
            r == spec_desktop(
                match xdg_current_desktop {
                    Some(s) => s@,
                    None => ""@,
                },
            ),
    {
        let desktop = match xdg_current_desktop {
            Some(s) => to_lowercase(s),
            None => to_lowercase(""),
        };
        let d = desktop.as_str();
        if contains(d, "kde") || contains(d, "plasma") {
            DesktopEnvironment::Kde
        } else if contains(d, "gnome") {
            DesktopEnvironment::Gnome
        } else if contains(d, "xfce") {
            DesktopEnvironment::Xfce
        } else if contains(d, "hyprland") {
            DesktopEnvironment::Hyprland
        } else {
            DesktopEnvironment::Unknown
        }
    }

    pub fn as_str(&self) -> (r: &'static str)
        ensures
            r@ == spec_desktop_name(*self),
    {
        match self {
            DesktopEnvironment::Kde => "KDE",
            DesktopEnvironment::Gnome => "GNOME",
            DesktopEnvironment::Xfce => "XFCE",
            DesktopEnvironment::Hyprland => "Hyprland",
            DesktopEnvironment::Unknown => "Unknown",
        }
    }
}


/// A host program to run, with its arguments.
#[derive(Debug)]
pub struct HostCommand {
    pub program: String,
    pub args: Vec<String>,
}

pub open spec fn command_view(c: HostCommand) -> (Seq<char>, Seq<Seq<char>>) {
    (c.program@, c.args@.map_values(|a: String| a@))
}

/// Hyprland's configuration file, by the XDG base directory rules: under `XDG_CONFIG_HOME`,
/// else under `HOME`'s `.config`, else the literal `~` path.
pub open spec fn spec_hyprland_config(xdg_config_home: Option<Seq<char>>, home: Option<Seq<char>>) -> Seq<
    char,
> {
    match xdg_config_home {
        Some(x) => x + "/hypr/hyprland.conf"@,
        None => match home {
            Some(h) => h + "/.config/hypr/hyprland.conf"@,
            None => "~/.config/hypr/hyprland.conf"@,
        },
    }
}

/// The programs that open a desktop's keyboard shortcut settings, to be tried in order until
/// one starts. Hyprland has no settings application: its configuration file is opened.
pub open spec fn spec_settings_commands(
    de: DesktopEnvironment,
    xdg_config_home: Option<Seq<char>>,
    home: Option<Seq<char>>,
) -> Seq<(Seq<char>, Seq<Seq<char>>)> {
    match de {
        DesktopEnvironment::Kde => seq![
            ("systemsettings5"@, seq!["kcm_keys"@]),
            ("systemsettings"@, seq!["kcm_keys"@]),
        ],
        DesktopEnvironment::Gnome => seq![("gnome-control-center"@, seq!["keyboard"@])],
        DesktopEnvironment::Xfce => seq![("xfce4-keyboard-settings"@, Seq::<Seq<char>>::empty())],
        DesktopEnvironment::Hyprland => seq![
            ("xdg-open"@, seq![spec_hyprland_config(xdg_config_home, home)]),
        ],
        DesktopEnvironment::Unknown => seq![
            ("xdg-open"@, seq!["settings://keyboard"@]),
            ("xdg-settings"@, seq!["get"@, "default-url-scheme-handler"@, "settings"@]),
        ],
    }
}

fn command(program: &str, args: Vec<String>) -> (r: HostCommand)
    ensures
        r.program@ == program@,
        r.args == args,
{
    HostCommand { program: copy_text(program), args }
}

fn texts_of(items: &Vec<&str>) -> (r: Vec<String>)
    ensures
        r@.map_values(|a: String| a@) == items@.map_values(|s: &str| s@),
{
    let mut out: Vec<String> = Vec::new();
    let mut i: usize = 0;
    while i < items.len()
        invariant
            i <= items.len(),
            out@.len() == i,
            forall|k: int| 0 <= k < i ==> (#[trigger] out@[k])@ == items@[k]@,
        decreases items.len() - i,
    {
        out.push(copy_text(items[i]));
        i += 1;
    }
    assert(out@.map_values(|a: String| a@) =~= items@.map_values(|s: &str| s@));
    out
}

/// Hyprland's configuration file (see `spec_hyprland_config`).
pub fn hyprland_config(xdg_config_home: Option<&str>, home: Option<&str>) -> (r: String)
    ensures
        r@ == spec_hyprland_config(
            match xdg_config_home {
                Some(x) => Some(x@),
                None => None,
            },
            match home {
                Some(h) => Some(h@),
                None => None,
            },
        ),
{
    match xdg_config_home {
        Some(x) => copy_text(x).concat("/hypr/hyprland.conf"),
        None => match home {
            Some(h) => copy_text(h).concat("/.config/hypr/hyprland.conf"),
            None => copy_text("~/.config/hypr/hyprland.conf"),
        },
    }
}

impl DesktopEnvironment {
    /// The programs that open this desktop's keyboard shortcut settings, in the order they are
    /// tried (see `spec_settings_commands`).
    pub fn shortcut_settings_commands(&self, xdg_config_home: Option<&str>, home: Option<&str>) -> (r:
        Vec<HostCommand>)
        ensures
            r@.map_values(|c: HostCommand| command_view(c)) == spec_settings_commands(
                *self,
                match xdg_config_home {
                    Some(x) => Some(x@),
                    None => None,
                },
                match home {
                    Some(h) => Some(h@),
                    None => None,
                },
            ),
    {
        let mut r: Vec<HostCommand> = Vec::new();
        match self {
            DesktopEnvironment::Kde => {
                r.push(command("systemsettings5", texts_of(&vec!["kcm_keys"])));
                r.push(command("systemsettings", texts_of(&vec!["kcm_keys"])));
            },
            DesktopEnvironment::Gnome => {
                r.push(command("gnome-control-center", texts_of(&vec!["keyboard"])));
            },
            DesktopEnvironment::Xfce => {
                r.push(command("xfce4-keyboard-settings", Vec::new()));
            },
            DesktopEnvironment::Hyprland => {
                let mut args: Vec<String> = Vec::new();
                args.push(hyprland_config(xdg_config_home, home));
                r.push(command("xdg-open", args));
            },
            DesktopEnvironment::Unknown => {
                r.push(command("xdg-open", texts_of(&vec!["settings://keyboard"])));
                r.push(
                    command(
                        "xdg-settings",
                        texts_of(&vec!["get", "default-url-scheme-handler", "settings"]),
                    ),
                );
            },
        }
        assert(r@.map_values(|c: HostCommand| command_view(c)) =~~= spec_settings_commands(
            *self,
            match xdg_config_home {
                Some(x) => Some(x@),
                None => None,
            },
            match home {
                Some(h) => Some(h@),
                None => None,
            },
        ));
        r
    }
}

} // verus!
