//! Backend endpoints, client settings without floats, and the window placement rules.

use vstd::prelude::*;
use vstd::string::*;
use core::time::Duration;
use crate::radio::RadioIntegration;
use crate::text::copy_text;

verus! {

/// The duration `Duration::from_secs` gives for a number of seconds.
pub uninterp spec fn duration_from_secs(secs: u64) -> Duration;

/// A duration of whole seconds; wraps `Duration::from_secs`, which never fails.
#[verifier::external_body]
fn from_secs(secs: u64) -> (r: Duration)
    ensures
        r == duration_from_secs(secs),
{
    Duration::from_secs(secs)
}

/// `to` before every character of `s` and after the last: what replacing the empty pattern gives.
pub open spec fn replaced_empty(s: Seq<char>, to: Seq<char>) -> Seq<char>
    decreases s.len(),
{
    if s.len() == 0 {
        to
    } else {
        to + seq![s[0]] + replaced_empty(s.drop_first(), to)
    }
}

/// The text with every occurrence of `from` replaced by `to`, as `str::replace` gives it:
/// occurrences are found from the left and do not overlap.
pub open spec fn replaced(s: Seq<char>, from: Seq<char>, to: Seq<char>) -> Seq<char>
    decreases s.len(),
{
    if from.len() == 0 {
        replaced_empty(s, to)
    } else if s.len() < from.len() {
        s
    } else if s.subrange(0, from.len() as int) == from {
        to + replaced(s.subrange(from.len() as int, s.len() as int), from, to)
    } else {
        seq![s[0]] + replaced(s.drop_first(), from, to)
    }
}

/// Replaces every occurrence of a pattern; wraps `str::replace`.
#[verifier::external_body]
fn replace_all(s: &str, from: &str, to: &str) -> (r: String)
    ensures
        r@ == replaced(s@, from@, to@),
{
    s.replace(from, to)
}

/// Backend endpoints the client calls.
#[derive(Debug, Clone, Copy, PartialEq, Eq, Structural)]
pub enum BackendEndpoint {
    InitAuth,
    ExchangeCode,
    UserInfo,
    Logout,
    WsToken,
    TerminateWsSession,
    VersionUpdateCheck,
    IceConfig,
}

impl BackendEndpoint {
    /// A request timeout of its own, for the endpoints that have one: exchanging the login
    /// code gets two seconds.
    pub fn timeout(&self) -> (r: Option<Duration>)
        ensures
            r is Some <==> *self == BackendEndpoint::ExchangeCode,
            r matches Some(d) ==> d == duration_from_secs(2),
    {
        match self {
            BackendEndpoint::ExchangeCode => Some(from_secs(2)),
            _ => None,
        }
    }
}

/// Paths of the backend endpoints, relative to the base URL.
#[derive(Debug)]
pub struct BackendEndpointsConfigs {
    pub init_auth: String,
    pub exchange_code: String,
    pub user_info: String,
    pub logout: String,
    pub ws_token: String,
    pub terminate_ws_session: String,
    pub version_update_check: String,
    pub ice_config: String,
}

pub open spec fn update_check_path() -> Seq<char> {
    "/version/update?version={{current_version}}&target={{target}}&arch={{arch}}&bundle_type={{bundle_type}}&channel={{channel}}"@
}

impl Default for BackendEndpointsConfigs {
    fn default() -> (r: BackendEndpointsConfigs)
        ensures
            r.init_auth@ == "/auth/vatsim"@,
            r.exchange_code@ == "/auth/vatsim/callback"@,
            r.user_info@ == "/auth/user"@,
            r.logout@ == "/auth/logout"@,
            r.ws_token@ == "/ws/token"@,
            r.terminate_ws_session@ == "/ws"@,
            r.version_update_check@ == update_check_path(),
            r.ice_config@ == "/webrtc/ice-config"@,
    {
        BackendEndpointsConfigs {
            init_auth: copy_text("/auth/vatsim"),
            exchange_code: copy_text("/auth/vatsim/callback"),
            user_info: copy_text("/auth/user"),
            logout: copy_text("/auth/logout"),
            ws_token: copy_text("/ws/token"),
            terminate_ws_session: copy_text("/ws"),
            version_update_check: copy_text(
                "/version/update?version={{current_version}}&target={{target}}&arch={{arch}}&bundle_type={{bundle_type}}&channel={{channel}}",
            ),
            ice_config: copy_text("/webrtc/ice-config"),
        }
    }
}

pub open spec fn endpoint_path(e: BackendEndpointsConfigs, endpoint: BackendEndpoint) -> Seq<char> {
    match endpoint {
        BackendEndpoint::InitAuth => e.init_auth@,
        BackendEndpoint::ExchangeCode => e.exchange_code@,
        BackendEndpoint::UserInfo => e.user_info@,
        BackendEndpoint::Logout => e.logout@,
        BackendEndpoint::WsToken => e.ws_token@,
        BackendEndpoint::TerminateWsSession => e.terminate_ws_session@,
        BackendEndpoint::VersionUpdateCheck => e.version_update_check@,
        BackendEndpoint::IceConfig => e.ice_config@,
    }
}

/// Which backend a build talks to.
#[derive(Debug, Clone, Copy, PartialEq, Eq, Structural)]
pub enum BuildProfile {
    /// End-to-end tests against a local backend.
    EndToEnd,
    /// Debug and release-candidate builds, against the development backend.
    Development,
    Release,
}

/// Where the backend is and how long requests may take.
#[derive(Debug)]
pub struct BackendConfig {
    pub base_url: String,
    pub ws_url: String,
    pub endpoints: BackendEndpointsConfigs,
    pub timeout_ms: u64,
    pub dev_position_id: Option<String>,
}

pub open spec fn base_url_of(p: BuildProfile) -> Seq<char> {
    match p {
        BuildProfile::EndToEnd => "http://127.0.0.1:4568"@,
        BuildProfile::Development => "https://dev.vacs.network"@,
        BuildProfile::Release => "https://vacs.network"@,
    }
}

pub open spec fn ws_url_of(p: BuildProfile) -> Seq<char> {
    match p {
        BuildProfile::EndToEnd => "ws://127.0.0.1:4568/ws"@,
        BuildProfile::Development => "wss://dev.vacs.network/ws"@,
        BuildProfile::Release => "wss://vacs.network/ws"@,
    }
}

impl BackendConfig {
    /// The default backend of a build profile, with a two-second request timeout.
    pub fn default_for(profile: BuildProfile) -> (r: BackendConfig)
        ensures
            r.base_url@ == base_url_of(profile),
            r.ws_url@ == ws_url_of(profile),
            r.timeout_ms == 2000,
            r.dev_position_id is None,
            r.endpoints.version_update_check@ == update_check_path(),
            r.endpoints.ice_config@ == "/webrtc/ice-config"@,
    {
        let (base_url, ws_url) = match profile {
            BuildProfile::EndToEnd => (
                copy_text("http://127.0.0.1:4568"),
                copy_text("ws://127.0.0.1:4568/ws"),
            ),
            BuildProfile::Development => (
                copy_text("https://dev.vacs.network"),
                copy_text("wss://dev.vacs.network/ws"),
            ),
            BuildProfile::Release => (
                copy_text("https://vacs.network"),
                copy_text("wss://vacs.network/ws"),
            ),
        };
        BackendConfig {
            base_url,
            ws_url,
            endpoints: BackendEndpointsConfigs::default(),
            timeout_ms: 2000,
            dev_position_id: None,
        }
    }

    /// The full URL of an endpoint: the base URL followed by the endpoint's path.
    pub fn endpoint_url(&self, endpoint: &BackendEndpoint) -> (r: String)
        ensures
            r@ == self.base_url@ + endpoint_path(self.endpoints, *endpoint),
    {
        let path = match endpoint {
            BackendEndpoint::InitAuth => &self.endpoints.init_auth,
            BackendEndpoint::ExchangeCode => &self.endpoints.exchange_code,
            BackendEndpoint::UserInfo => &self.endpoints.user_info,
            BackendEndpoint::Logout => &self.endpoints.logout,
            BackendEndpoint::WsToken => &self.endpoints.ws_token,
            BackendEndpoint::TerminateWsSession => &self.endpoints.terminate_ws_session,
            BackendEndpoint::VersionUpdateCheck => &self.endpoints.version_update_check,
            BackendEndpoint::IceConfig => &self.endpoints.ice_config,
        };
        self.base_url.clone().concat(path.as_str())
    }

    /// The update check URL for a release channel: the channel placeholder filled in.
    pub fn update_url(&self, channel: &str) -> (r: String)
        ensures
            r@ == replaced(
                self.base_url@ + self.endpoints.version_update_check@,
                "{{channel}}"@,
                channel@,
            ),
    {
        let url = self.endpoint_url(&BackendEndpoint::VersionUpdateCheck);
        replace_all(url.as_str(), "{{channel}}", channel)
    }
}

/// Migrates the old transmit mode: a configuration that had a mode other than radio
/// integration had no radio integration, so a radio integration set anyway is dropped.
pub fn migrate_radio_integration(
    was_radio_integration: Option<bool>,
    integration: Option<RadioIntegration>,
) -> (r: Option<RadioIntegration>)
    ensures
        r == (if was_radio_integration == Some(false) {
            None
        } else {
            integration
        }),
{
    match was_radio_integration {
        Some(false) => None,
        _ => integration,
    }
}

/// How many times the signaling connection is re-established before giving up.
pub fn max_signaling_reconnect_attempts(signaling_auto_reconnect: bool) -> (r: u8)
    ensures
        r == (if signaling_auto_reconnect {
            8u8
        } else {
            0u8
        }),
{
    if signaling_auto_reconnect {
        8
    } else {
        0
    }
}

/// Various settings regarding calls.
#[derive(Debug, Clone, Copy, PartialEq, Eq, Structural)]
pub struct CallConfig {
    /// Highlight the target key of an incoming call.
    pub highlight_incoming_call_target: bool,
    /// Ring and highlight priority calls differently.
    pub enable_priority_calls: bool,
    /// Play a sound when a call is established.
    pub enable_call_start_sound: bool,
    /// Play a sound when a call ends.
    pub enable_call_end_sound: bool,
    /// Select the default call source from the dataset position.
    pub use_default_call_sources: bool,
    /// Always relay call audio through a TURN server.
    pub force_relay: bool,
}

impl Default for CallConfig {
    fn default() -> (r: CallConfig)
        ensures
            r == (CallConfig {
                highlight_incoming_call_target: true,
                enable_priority_calls: true,
                enable_call_start_sound: true,
                enable_call_end_sound: true,
                use_default_call_sources: true,
                force_relay: false,
            }),
    {
        CallConfig {
            highlight_incoming_call_target: true,
            enable_priority_calls: true,
            enable_call_start_sound: true,
            enable_call_end_sound: true,
            use_default_call_sources: true,
            force_relay: false,
        }
    }
}

/// The sound previewed when a call setting is switched on: the call start sound when it was
/// just enabled, else the call end sound when that was just enabled.
pub fn call_sound_preview(old: &CallConfig, new: &CallConfig) -> (r: Option<crate::audio::SourceType>)
    ensures
        r == (if new.enable_call_start_sound && !old.enable_call_start_sound {
            Some(crate::audio::SourceType::CallStart)
        } else if new.enable_call_end_sound && !old.enable_call_end_sound {
            Some(crate::audio::SourceType::CallEnd)
        } else {
            None
        }),
{
    if new.enable_call_start_sound && !old.enable_call_start_sound {
        Some(crate::audio::SourceType::CallStart)
    } else if new.enable_call_end_sound && !old.enable_call_end_sound {
        Some(crate::audio::SourceType::CallEnd)
    } else {
        None
    }
}

/// How the clock is shown.
#[derive(Debug, Clone, Copy, PartialEq, Eq, Structural)]
pub enum ClockMode {
    Realtime,
    Relaxed,
    Day,
}

impl Default for ClockMode {
    fn default() -> (r: ClockMode)
        ensures
            r == ClockMode::Realtime,
    {
        ClockMode::Realtime
    }
}

/// How the client page behaves.
#[derive(Debug, Clone, Copy, PartialEq, Eq, Structural)]
pub enum CplMode {
    Original,
    Fast,
}

impl Default for CplMode {
    fn default() -> (r: CplMode)
        ensures
            r == CplMode::Original,
    {
        CplMode::Original
    }
}

/// The application folders a user can open.
#[derive(Debug, Clone, Copy, PartialEq, Eq, Structural)]
pub enum AppFolder {
    Config,
    Logs,
}

/// State of the signaling connection.
#[derive(Debug, Clone, Copy, PartialEq, Eq, Structural)]
pub enum ConnectionState {
    Disconnected,
    Connecting,
    Connected,
    Test,
}

impl Default for ConnectionState {
    fn default() -> (r: ConnectionState)
        ensures
            r == ConnectionState::Disconnected,
    {
        ConnectionState::Disconnected
    }
}

/// An available update, as the frontend is told about it.
#[derive(Debug)]
pub struct UpdateInfo {
    pub current_version: String,
    pub new_version: Option<String>,
    pub required: bool,
}

/// What the frontend is told about updates: a debug build never updates; otherwise an
/// available update is reported with its version, and is required unless its release notes
/// say otherwise.
pub fn update_info(
    current_version: String,
    debug_build: bool,
    available: Option<(String, Option<bool>)>,
) -> (r: UpdateInfo)
    ensures
        r.current_version == current_version,
        debug_build ==> r.new_version is None && !r.required,
        !debug_build ==> match available {
            Some((version, required)) => r.new_version == Some(version) && r.required == match required {
                Some(b) => b,
                None => true,
            },
            None => r.new_version is None && !r.required,
        },
{
    if debug_build {
        return UpdateInfo { current_version, new_version: None, required: false };
    }
    match available {
        Some((version, required)) => UpdateInfo {
            current_version,
            new_version: Some(version),
            required: match required {
                Some(b) => b,
                None => true,
            },
        },
        None => UpdateInfo { current_version, new_version: None, required: false },
    }
}

/// The download progress reported while an update installs, as the updater computes it: the
/// quotient of the downloaded and the announced length, times 100, capped at 100 (so it is 0
/// until the whole length has arrived).
pub fn update_progress(downloaded: usize, content_length: usize) -> (r: usize)
    requires
        content_length > 0,
    ensures
        r == (if (downloaded / content_length) * 100 > 100 {
            100
        } else {
            (downloaded / content_length) * 100
        }),
{
    let share = downloaded / content_length;
    if share > 1 {
        100
    } else {
        share * 100
    }
}

/// A window position in physical pixels.
#[derive(Debug, Clone, Copy, PartialEq, Eq, Structural)]
pub struct WindowPosition {
    pub x: i32,
    pub y: i32,
}

/// A window or monitor size in physical pixels.
#[derive(Debug, Clone, Copy, PartialEq, Eq, Structural)]
pub struct WindowSize {
    pub width: u32,
    pub height: u32,
}

/// A monitor's area in physical pixels.
#[derive(Debug, Clone, Copy, PartialEq, Eq, Structural)]
pub struct Monitor {
    pub position: WindowPosition,
    pub size: WindowSize,
}

/// A point lies on a monitor: left and top edges included, right and bottom excluded.
pub open spec fn on_monitor(m: Monitor, x: int, y: int) -> bool {
    m.position.x <= x < m.position.x + m.size.width && m.position.y <= y < m.position.y
        + m.size.height
}

/// A window placed at `p` with size `s` shows a corner on the monitor.
pub open spec fn corner_on_monitor(m: Monitor, p: WindowPosition, s: WindowSize) -> bool {
    ||| on_monitor(m, p.x as int, p.y as int)
    ||| on_monitor(m, p.x + s.width, p.y as int)
    ||| on_monitor(m, p.x as int, p.y + s.height)
    ||| on_monitor(m, p.x + s.width, p.y + s.height)
}

fn point_on_monitor(m: &Monitor, x: i64, y: i64) -> (r: bool)
    ensures
        r == on_monitor(*m, x as int, y as int),
{
    let left = m.position.x as i64;
    let right = m.position.x as i64 + m.size.width as i64;
    let top = m.position.y as i64;
    let bottom = m.position.y as i64 + m.size.height as i64;
    x >= left && x < right && y >= top && y < bottom
}

/// Whether a window placed at `position` with `size` shows a corner on the monitor.
pub fn window_on_monitor(monitor: &Monitor, position: WindowPosition, size: WindowSize) -> (r: bool)
    ensures
        r == corner_on_monitor(*monitor, position, size),
{
    let x = position.x as i64;
    let y = position.y as i64;
    let w = size.width as i64;
    let h = size.height as i64;
    point_on_monitor(monitor, x, y) || point_on_monitor(monitor, x + w, y) || point_on_monitor(
        monitor,
        x,
        y + h,
    ) || point_on_monitor(monitor, x + w, y + h)
}

/// The first monitor a saved window shows a corner on, if any.
pub open spec fn saved_position_visible(
    monitors: Seq<Monitor>,
    p: WindowPosition,
    s: WindowSize,
) -> bool {
    exists|i: int| 0 <= i < monitors.len() && corner_on_monitor(#[trigger] monitors[i], p, s)
}

/// Whether a window placed at `p` with size `s` shows a corner on some monitor.
fn visible_on_any(monitors: &Vec<Monitor>, p: WindowPosition, s: WindowSize) -> (r: bool)
    ensures
        r == saved_position_visible(monitors@, p, s),
{
    let mut i: usize = 0;
    while i < monitors.len()
        invariant
            i <= monitors.len(),
            forall|k: int| 0 <= k < i ==> !corner_on_monitor(#[trigger] monitors@[k], p, s),
        decreases monitors.len() - i,
    {
        if window_on_monitor(&monitors[i], p, s) {
            return true;
        }
        i += 1;
    }
    false
}

/// What restoring a saved window does: the saved position is restored only when the window
/// would show a corner on some monitor (the saved size, or the default size, decides); the
/// saved size is restored, a zero size replaced by the default.
pub fn restore_plan(
    position: Option<WindowPosition>,
    size: Option<WindowSize>,
    monitors: &Vec<Monitor>,
    default_size: WindowSize,
) -> (r: (Option<WindowPosition>, Option<WindowSize>))
    ensures
        r.0 == (match position {
            Some(p) => if saved_position_visible(
                monitors@,
                p,
                match size {
                    Some(s) => s,
                    None => default_size,
                },
            ) {
                Some(p)
            } else {
                None
            },
            None => None,
        }),
        r.1 == (match size {
            Some(s) => if s.width == 0 || s.height == 0 {
                Some(default_size)
            } else {
                Some(s)
            },
            None => None,
        }),
{
    let set_position = match position {
        Some(p) => {
            let s = match size {
                Some(s) => s,
                None => default_size,
            };
            if visible_on_any(monitors, p, s) {
                Some(p)
            } else {
                None
            }
        },
        None => None,
    };
    let set_size = match size {
        Some(s) => if s.width == 0 || s.height == 0 {
            Some(default_size)
        } else {
            Some(s)
        },
        None => None,
    };
    (set_position, set_size)
}

/// Whether the window's current placement is worth saving: not while minimized or
/// maximized, and not with a zero size.
pub fn should_record_window_state(minimized: bool, maximized: bool, size: WindowSize) -> (r: bool)
    ensures
        r == (!minimized && !maximized && size.width != 0 && size.height != 0),
{
    !(minimized || maximized) && size.width != 0 && size.height != 0
}

/// The size to set again when window decorations grew the window beyond the requested size:
/// the requested size shrunk by the growth (never below zero); none when it did not grow.
pub fn decoration_correction(requested: WindowSize, actual: WindowSize) -> (r: Option<WindowSize>)
    ensures
        ({
            let dw = if actual.width > requested.width {
                actual.width - requested.width
            } else {
                0
            };
            let dh = if actual.height > requested.height {
                actual.height - requested.height
            } else {
                0
            };
            r == if dw > 0 || dh > 0 {
                Some(
                    WindowSize {
                        width: (if requested.width > dw {
                            requested.width - dw
                        } else {
                            0
                        }) as u32,
                        height: (if requested.height > dh {
                            requested.height - dh
                        } else {
                            0
                        }) as u32,
                    },
                )
            } else {
                None
            }
        }),
{
    let dw = actual.width.saturating_sub(requested.width);
    let dh = actual.height.saturating_sub(requested.height);
    if dw > 0 || dh > 0 {
        Some(
            WindowSize {
                width: requested.width.saturating_sub(dw),
                height: requested.height.saturating_sub(dh),
            },
        )
    } else {
        None
    }
}

} // verus!
