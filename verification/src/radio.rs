//! Radio integration vocabulary: integrations, transmission and connection states, stations.

use vstd::prelude::*;
use vstd::string::*;
use crate::keybinds::KeyState;
use crate::platform::Capabilities;
use crate::text::copy_text;

verus! {

/// Errors of a radio integration.
#[derive(Debug)]
pub enum RadioError {
    Integration(String),
    Transmit(String),
    NotSupported,
}

pub open spec fn radio_error_text(e: RadioError) -> Seq<char> {
    match e {
        RadioError::Integration(m) => "Radio integration error: "@ + m@,
        RadioError::Transmit(m) => "Radio transmit error: "@ + m@,
        RadioError::NotSupported => "Operation not supported by this radio integration"@,
    }
}

impl RadioError {
    /// The user-facing message of this error.
    pub fn message(&self) -> (r: String)
        ensures
            r@ == radio_error_text(*self),
    {
        match self {
            RadioError::Integration(m) => copy_text("Radio integration error: ").concat(m.as_str()),
            RadioError::Transmit(m) => copy_text("Radio transmit error: ").concat(m.as_str()),
            RadioError::NotSupported => copy_text(
                "Operation not supported by this radio integration",
            ),
        }
    }

    pub fn duplicate(&self) -> (r: RadioError)
        ensures
            r == *self,
    {
        match self {
            RadioError::Integration(m) => RadioError::Integration(m.clone()),
            RadioError::Transmit(m) => RadioError::Transmit(m.clone()),
            RadioError::NotSupported => RadioError::NotSupported,
        }
    }
}

/// The radio client that radio TX is keyed through.
#[derive(Debug, Clone, Copy, PartialEq, Eq, Structural)]
pub enum RadioIntegration {
    AudioForVatsim,
    TrackAudio,
}

impl RadioIntegration {
    /// The default integration: Audio for VATSIM where keys can be emitted to it, TrackAudio
    /// (driven over its network API) elsewhere.
    pub fn default_for(capabilities: &Capabilities) -> (r: RadioIntegration)
        ensures
            r == (if capabilities.keybind_emitter {
                RadioIntegration::AudioForVatsim
            } else {
                RadioIntegration::TrackAudio
            }),
    {
        if capabilities.keybind_emitter {
            RadioIntegration::AudioForVatsim
        } else {
            RadioIntegration::TrackAudio
        }
    }
}

/// Whether the radio is keyed.
#[derive(Debug, Clone, Copy, PartialEq, Eq, Structural)]
pub enum TransmissionState {
    Active,
    Inactive,
}

pub open spec fn transmission_of(k: KeyState) -> TransmissionState {
    match k {
        KeyState::Down => TransmissionState::Active,
        KeyState::Up => TransmissionState::Inactive,
    }
}

pub open spec fn key_state_of(t: TransmissionState) -> KeyState {
    match t {
        TransmissionState::Active => KeyState::Down,
        TransmissionState::Inactive => KeyState::Up,
    }
}

impl From<KeyState> for TransmissionState {
    fn from(value: KeyState) -> (r: TransmissionState) {
        match value {
            KeyState::Down => TransmissionState::Active,
            KeyState::Up => TransmissionState::Inactive,
        }
    }
}

impl vstd::std_specs::convert::FromSpecImpl<KeyState> for TransmissionState {
    open spec fn obeys_from_spec() -> bool {
        true
    }

    open spec fn from_spec(value: KeyState) -> TransmissionState {
        transmission_of(value)
    }
}

impl From<TransmissionState> for KeyState {
    fn from(value: TransmissionState) -> (r: KeyState) {
        match value {
            TransmissionState::Active => KeyState::Down,
            TransmissionState::Inactive => KeyState::Up,
        }
    }
}

impl vstd::std_specs::convert::FromSpecImpl<TransmissionState> for KeyState {
    open spec fn obeys_from_spec() -> bool {
        true
    }

    open spec fn from_spec(value: TransmissionState) -> KeyState {
        key_state_of(value)
    }
}

/// Law: converting a key state to a transmission state and back gives the key state again,
/// and the other way round.
pub proof fn lemma_transmission_round_trip(k: KeyState, t: TransmissionState)
    ensures
        key_state_of(transmission_of(k)) == k,
        transmission_of(key_state_of(t)) == t,
{
}

/// Operational status of the chosen radio integration.
#[derive(Debug, Clone, Copy, PartialEq, Eq, Structural)]
pub enum RadioState {
    /// No radio integration configured.
    NotConfigured,
    /// Configured but not connected to the backend (connecting, reconnecting, disconnected).
    Disconnected,
    /// Connected to the backend, which is not connected to the voice server.
    Connected,
    /// Connected to the backend, which is connected to the voice server.
    VoiceConnected,
    /// Monitoring at least one frequency.
    RxIdle,
    /// Receiving a transmission from others.
    RxActive,
    /// Transmitting (takes priority over receiving).
    TxActive,
    /// Fatal connection or client error.
    Error,
}

impl Default for RadioState {
    fn default() -> (r: RadioState)
        ensures
            r == RadioState::NotConfigured,
    {
        RadioState::NotConfigured
    }
}

/// A radio station with its current state. The frequency is in hertz.
#[derive(Debug)]
pub struct RadioStation {
    pub callsign: Option<String>,
    pub frequency: u64,
    pub rx: bool,
    pub tx: bool,
    /// Cross-coupling computed by the radio backend; read-only.
    pub xc: bool,
    /// User-controllable cross-couple-across mode.
    pub xca: bool,
    pub headset: bool,
    pub output_muted: bool,
    pub is_available: bool,
}

/// Partial update of a station's state: only the given fields change.
#[derive(Debug, Clone, Copy, PartialEq, Eq, Structural)]
pub struct StationStateUpdate {
    pub rx: Option<bool>,
    pub tx: Option<bool>,
    pub xca: Option<bool>,
    pub headset: Option<bool>,
    pub output_muted: Option<bool>,
}

impl Default for StationStateUpdate {
    fn default() -> (r: StationStateUpdate)
        ensures
            r.rx is None && r.tx is None && r.xca is None && r.headset is None && r.output_muted is None,
    {
        StationStateUpdate { rx: None, tx: None, xca: None, headset: None, output_muted: None }
    }
}

impl RadioStation {
    pub fn duplicate(&self) -> (r: RadioStation)
        ensures
            r == *self,
    {
        RadioStation {
            callsign: crate::keybinds::copy_opt_string(&self.callsign),
            frequency: self.frequency,
            rx: self.rx,
            tx: self.tx,
            xc: self.xc,
            xca: self.xca,
            headset: self.headset,
            output_muted: self.output_muted,
            is_available: self.is_available,
        }
    }
}

} // verus!
