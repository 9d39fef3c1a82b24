//! Bookkeeping of a call's peer connections and the decisions taken on their events: ICE
//! config expiry, relay reconnects, and the sounds played when peers go away.

use vstd::prelude::*;
use crate::calls::CallId;
use crate::text::copy_text;

verus! {

/// The text `serde_json` writes for a JSON object document `text` after setting its field `key`
/// to `true`, as `Value::to_string` serializes it; `None` when `text` is not a JSON object.
pub uninterp spec fn json_inserted(text: Seq<char>, key: Seq<char>) -> Option<Seq<char>>;

/// The boolean `serde_json` finds under `key` in the JSON document `text` (`Value::get` then
/// `Value::as_bool`); `None` when `text` is not JSON or holds no boolean there.
pub uninterp spec fn json_bool_at(text: Seq<char>, key: Seq<char>) -> Option<bool>;

/// Parses `text` with `serde_json::from_str::<Value>`, sets field `key` of the object to `true`
/// and serializes it with `Value::to_string`; `None` for a text that is not a JSON object. The
/// map is serde_json's ordered one, so the result is a function of the two texts.
#[verifier::external_body]
fn json_with_true_field(text: &str, key: &str) -> (r: Option<String>)
    ensures
        match r {
            Some(t) => json_inserted(text@, key@) == Some(t@),
            None => json_inserted(text@, key@) is None,
        },
{
    match serde_json::from_str::<serde_json::Value>(text) {
        Ok(serde_json::Value::Object(mut map)) => {
            map.insert(key.to_string(), serde_json::Value::Bool(true));
            Some(serde_json::Value::Object(map).to_string())
        },
        _ => None,
    }
}

/// Parses `text` with `serde_json::from_str::<Value>` and reads the boolean under `key` with
/// `Value::get` and `Value::as_bool`.
#[verifier::external_body]
fn json_bool_field(text: &str, key: &str) -> (r: Option<bool>)
    ensures
        r == json_bool_at(text@, key@),
{
    serde_json::from_str::<serde_json::Value>(text)
        .ok()
        .and_then(|v| v.get(key).and_then(serde_json::Value::as_bool))
}

/// Field added to the JSON session descriptions this client signals, advertising that it can
/// replace the peer connection of an active call; older clients ignore unknown fields.
pub const SDP_RECONNECT_CAPABILITY_KEY: &'static str = "vacsSupportsReconnect";

/// Marks a signaled session description as coming from a client that can reconnect: the field
/// is set on a JSON object; any other text is returned unchanged.
pub fn tag_reconnect_capability(sdp: &str) -> (r: String)
    ensures
        r@ == match json_inserted(sdp@, SDP_RECONNECT_CAPABILITY_KEY@) {
            Some(t) => t,
            None => sdp@,
        },
{
    match json_with_true_field(sdp, SDP_RECONNECT_CAPABILITY_KEY) {
        Some(t) => t,
        None => copy_text(sdp),
    }
}

/// Whether a signaled session description carries the reconnect field set to `true`.
pub fn has_reconnect_capability(sdp: &str) -> (r: bool)
    ensures
        r == (json_bool_at(sdp@, SDP_RECONNECT_CAPABILITY_KEY@) == Some(true)),
{
    match json_bool_field(sdp, SDP_RECONNECT_CAPABILITY_KEY) {
        Some(b) => b,
        None => false,
    }
}

/// An ICE configuration is refreshed this many seconds before it expires.
pub const ICE_CONFIG_EXPIRY_LEEWAY_SECS: u64 = 900;

/// Whether a non-default ICE configuration with an expiry is expired, or about to within the
/// leeway, at `now_secs` (seconds since the Unix epoch).
pub fn is_ice_config_expired(is_default: bool, expires_at: Option<u64>, now_secs: u64) -> (r: bool)
    ensures
        r == (!is_default && match expires_at {
            Some(e) => now_secs + ICE_CONFIG_EXPIRY_LEEWAY_SECS >= e,
            None => false,
        }),
{
    if is_default {
        return false;
    }
    match expires_at {
        None => false,
        Some(e) => now_secs >= e.saturating_sub(ICE_CONFIG_EXPIRY_LEEWAY_SECS),
    }
}

/// What the client keeps about a peer connection.
#[derive(Debug, Clone, PartialEq, Eq)]
pub struct PeerState {
    pub peer_id: String,
    /// Whether the link ever carried media (a replacement inherits it).
    pub connected: bool,
    /// Whether this connection replaced another during the call.
    pub reconnected: bool,
    /// Whether the peer advertised support for reconnects during a call.
    pub supports_reconnect: bool,
    /// Whether the peer's audio is playing.
    pub has_audio: bool,
}

impl PeerState {
    /// A fresh peer connection.
    pub fn new(peer_id: String, supports_reconnect: bool) -> (r: PeerState)
        ensures
            r == (PeerState {
                peer_id,
                connected: false,
                reconnected: false,
                supports_reconnect,
                has_audio: false,
            }),
    {
        PeerState { peer_id, connected: false, reconnected: false, supports_reconnect, has_audio: false }
    }

    /// A replacement connection: the call was live before the swap.
    pub fn with_reconnect(self) -> (r: PeerState)
        ensures
            r == (PeerState { connected: true, reconnected: true, ..self }),
    {
        PeerState { connected: true, reconnected: true, ..self }
    }
}

/// What to do when a peer reports no inbound media.
#[derive(Debug, Clone, Copy, PartialEq, Eq, Structural)]
pub enum RelayDecision {
    /// The peer is gone.
    NoPeer,
    /// Already relayed, or the peer cannot reconnect: the call is reported degraded.
    Degraded,
    /// Renegotiate the connection through a relay.
    Reconnect,
}

/// A connection that is already a relayed replacement (or always relayed) is not reconnected
/// again, nor one to a peer without reconnect support.
pub fn relay_decision(peer: Option<&PeerState>, force_relay: bool) -> (r: RelayDecision)
    ensures
        r == (match peer {
            None => RelayDecision::NoPeer,
            Some(p) => if p.reconnected || force_relay || !p.supports_reconnect {
                RelayDecision::Degraded
            } else {
                RelayDecision::Reconnect
            },
        }),
{
    match peer {
        None => RelayDecision::NoPeer,
        Some(p) => if p.reconnected || force_relay {
            RelayDecision::Degraded
        } else if !p.supports_reconnect {
            RelayDecision::Degraded
        } else {
            RelayDecision::Reconnect
        },
    }
}

/// Why a peer connection cannot be negotiated.
#[derive(Debug, Clone, Copy, PartialEq, Eq, Structural)]
pub enum NegotiationError {
    /// Another call is the current one.
    CallActive,
    /// There is no current call.
    NoCallActive,
}

/// How a peer connection is negotiated.
#[derive(Debug, Clone, Copy, PartialEq, Eq, Structural)]
pub struct Negotiation {
    /// A connection to this peer exists and is replaced.
    pub replacing: bool,
    /// The new connection goes through a relay only.
    pub force_relay: bool,
}

/// Negotiating with a peer of call `call_id` while `current_call` is the current call, where
/// `has_peer` says whether a connection to the peer exists and `has_offer` whether the peer
/// sent an offer. A connection this client renews on its own (no offer) goes through a relay,
/// as do all connections where the settings force relaying.
pub fn plan_negotiation(
    current_call: Option<CallId>,
    call_id: CallId,
    has_peer: bool,
    has_offer: bool,
    settings_force_relay: bool,
) -> (r: Result<Negotiation, NegotiationError>)
    ensures
        match current_call {
            None => r == Err::<Negotiation, NegotiationError>(NegotiationError::NoCallActive),
            Some(id) => if id != call_id {
                r == Err::<Negotiation, NegotiationError>(NegotiationError::CallActive)
            } else {
                r == Ok::<Negotiation, NegotiationError>(
                    Negotiation {
                        replacing: has_peer,
                        force_relay: settings_force_relay || (has_peer && !has_offer),
                    },
                )
            },
        },
{
    match current_call {
        None => Err(NegotiationError::NoCallActive),
        Some(id) => {
            if id != call_id {
                Err(NegotiationError::CallActive)
            } else {
                Ok(
                    Negotiation {
                        replacing: has_peer,
                        force_relay: settings_force_relay || (has_peer && !has_offer),
                    },
                )
            }
        },
    }
}

/// What leaving a call's last peer does to the audio.
#[derive(Debug, Clone, Copy, PartialEq, Eq, Structural)]
pub struct TeardownSounds {
    /// Play the call end sound.
    pub play_call_end: bool,
    /// Detach the microphone.
    pub detach_input: bool,
}

/// A peer that disconnected: when it was the call's only peer, the end sound plays (if enabled
/// and a microphone is attached) and the microphone is detached.
pub fn disconnect_sounds(only_peer: bool, enable_call_end_sound: bool, input_attached: bool) -> (r:
    TeardownSounds)
    ensures
        r == (TeardownSounds {
            play_call_end: only_peer && enable_call_end_sound && input_attached,
            detach_input: only_peer,
        }),
{
    TeardownSounds {
        play_call_end: only_peer && enable_call_end_sound && input_attached,
        detach_input: only_peer,
    }
}

/// A peer that was cleaned up: when it was the last one and its audio was playing, the end
/// sound plays (if enabled and the link ever carried media) and the microphone is detached.
pub fn cleanup_sounds(last: bool, peer: &PeerState, enable_call_end_sound: bool) -> (r: TeardownSounds)
    ensures
        r == (TeardownSounds {
            play_call_end: last && peer.has_audio && enable_call_end_sound && peer.connected,
            detach_input: last && peer.has_audio,
        }),
{
    TeardownSounds {
        play_call_end: last && peer.has_audio && enable_call_end_sound && peer.connected,
        detach_input: last && peer.has_audio,
    }
}

/// No two peers share an id.
pub open spec fn distinct_peers(p: Seq<PeerState>) -> bool {
    forall|i: int, j: int|
        0 <= i < p.len() && 0 <= j < p.len() && i != j ==> (#[trigger] p[i]).peer_id@ != (
        #[trigger] p[j]).peer_id@
}

pub open spec fn has_peer_id(p: Seq<PeerState>, id: Seq<char>) -> bool {
    exists|i: int| 0 <= i < p.len() && (#[trigger] p[i]).peer_id@ == id
}

/// A call's peer connections, one per peer.
#[derive(Debug)]
pub struct WebrtcCallState {
    pub call_id: CallId,
    pub peers: Vec<PeerState>,
}

fn find_peer(peers: &Vec<PeerState>, peer_id: &String) -> (r: Option<usize>)
    ensures
        match r {
            Some(i) => i < peers@.len() && peers@[i as int].peer_id@ == peer_id@,
            None => !has_peer_id(peers@, peer_id@),
        },
{
    let mut i: usize = 0;
    while i < peers.len()
        invariant
            i <= peers.len(),
            forall|k: int| 0 <= k < i ==> (#[trigger] peers@[k]).peer_id@ != peer_id@,
        decreases peers.len() - i,
    {
        if peers[i].peer_id == *peer_id {
            return Some(i);
        }
        i += 1;
    }
    None
}

impl WebrtcCallState {
    pub fn new(call_id: CallId) -> (r: WebrtcCallState)
        ensures
            r.call_id == call_id,
            r.peers@.len() == 0,
    {
        WebrtcCallState { call_id, peers: Vec::new() }
    }

    pub fn has_peer(&self, peer_id: &String) -> (r: bool)
        ensures
            r == has_peer_id(self.peers@, peer_id@),
    {
        find_peer(&self.peers, peer_id).is_some()
    }

    /// Adds a peer; a peer with the same id is kept and the new one handed back.
    pub fn add_peer(&mut self, peer: PeerState) -> (r: Result<(), PeerState>)
        requires
            distinct_peers(old(self).peers@),
        ensures
            distinct_peers(final(self).peers@),
            final(self).call_id == old(self).call_id,
            has_peer_id(old(self).peers@, peer.peer_id@) ==> r == Err::<(), PeerState>(peer)
                && final(self).peers == old(self).peers,
            !has_peer_id(old(self).peers@, peer.peer_id@) ==> r is Ok && final(self).peers@
                == old(self).peers@.push(peer),
    {
        if find_peer(&self.peers, &peer.peer_id).is_some() {
            return Err(peer);
        }
        let ghost pre = self.peers@;
        self.peers.push(peer);
        proof {
            let post = self.peers@;
            assert forall|i: int, j: int|
                0 <= i < post.len() && 0 <= j < post.len() && i != j implies (
                #[trigger] post[i]).peer_id@ != (#[trigger] post[j]).peer_id@ by {
                if i < pre.len() && j < pre.len() {
                    assert(post[i] == pre[i] && post[j] == pre[j]);
                } else if i < pre.len() {
                    assert(post[i] == pre[i]);
                } else {
                    assert(post[j] == pre[j]);
                }
            }
        }
        Ok(())
    }

    /// Removes and returns the peer with the given id.
    pub fn remove_peer(&mut self, peer_id: &String) -> (r: Option<PeerState>)
        requires
            distinct_peers(old(self).peers@),
        ensures
            distinct_peers(final(self).peers@),
            final(self).call_id == old(self).call_id,
            !has_peer_id(final(self).peers@, peer_id@),
            has_peer_id(old(self).peers@, peer_id@) == r is Some,
            r matches Some(p) ==> p.peer_id@ == peer_id@ && old(self).peers@.contains(p),
            r is None ==> final(self).peers@ == old(self).peers@,
            r matches Some(p) ==> exists|i: int|
                0 <= i < old(self).peers@.len() && old(self).peers@[i] == p && final(self).peers@
                    == old(self).peers@.remove(i),
            forall|id: Seq<char>|
                id != peer_id@ ==> (has_peer_id(final(self).peers@, id) == has_peer_id(
                    old(self).peers@,
                    id,
                )),
            final(self).peers@.len() + (if r is Some {
                1int
            } else {
                0int
            }) == old(self).peers@.len(),
    {
        match find_peer(&self.peers, peer_id) {
            None => None,
            Some(i) => {
                let ghost pre = self.peers@;
                let p = self.peers.remove(i);
                proof {
                    let post = self.peers@;
                    assert(pre[i as int] == p && post == pre.remove(i as int));
                    assert forall|k: int| 0 <= k < post.len() implies #[trigger] post[k] == (if k
                        < i {
                        pre[k]
                    } else {
                        pre[k + 1]
                    }) by {}
                    assert forall|a: int, b: int|
                        0 <= a < post.len() && 0 <= b < post.len() && a != b implies (
                        #[trigger] post[a]).peer_id@ != (#[trigger] post[b]).peer_id@ by {
                        let a2 = if a < i {
                            a
                        } else {
                            a + 1
                        };
                        let b2 = if b < i {
                            b
                        } else {
                            b + 1
                        };
                        assert(post[a] == pre[a2] && post[b] == pre[b2]);
                    }
                    assert forall|id: Seq<char>| id != peer_id@ implies (has_peer_id(post, id)
                        == has_peer_id(pre, id)) by {
                        if has_peer_id(pre, id) {
                            let k = choose|k: int| 0 <= k < pre.len() && (#[trigger] pre[k]).peer_id@
                                == id;
                            assert(k != i);
                            let k2 = if k < i {
                                k
                            } else {
                                k - 1
                            };
                            assert(post[k2] == pre[k]);
                        }
                        if has_peer_id(post, id) {
                            let k = choose|k: int| 0 <= k < post.len() && (
                            #[trigger] post[k]).peer_id@ == id;
                            let k2 = if k < i {
                                k
                            } else {
                                k + 1
                            };
                            assert(post[k] == pre[k2]);
                        }
                    }
                    if has_peer_id(post, peer_id@) {
                        let k = choose|k: int| 0 <= k < post.len() && (#[trigger] post[k]).peer_id@
                            == peer_id@;
                        let k2 = if k < i {
                            k
                        } else {
                            k + 1
                        };
                        assert(post[k] == pre[k2]);
                        assert(k2 != i);
                    }
                    assert(pre[i as int] == p);
                }
                Some(p)
            },
        }
    }

    /// Whether any peer link ever carried media.
    pub fn was_connected(&self) -> (r: bool)
        ensures
            r == exists|i: int| 0 <= i < self.peers@.len() && (#[trigger] self.peers@[i]).connected,
    {
        let mut i: usize = 0;
        while i < self.peers.len()
            invariant
                i <= self.peers.len(),
                forall|k: int| 0 <= k < i ==> !(#[trigger] self.peers@[k]).connected,
            decreases self.peers.len() - i,
        {
            if self.peers[i].connected {
                return true;
            }
            i += 1;
        }
        false
    }

    pub fn is_empty(&self) -> (r: bool)
        ensures
            r == (self.peers@.len() == 0),
    {
        self.peers.len() == 0
    }

    /// Whether the call has peers and all of them are the given one.
    pub fn is_only_peer(&self, peer_id: &String) -> (r: bool)
        ensures
            r == (self.peers@.len() > 0 && forall|i: int|
                0 <= i < self.peers@.len() ==> (#[trigger] self.peers@[i]).peer_id@ == peer_id@),
    {
        if self.peers.len() == 0 {
            return false;
        }
        let mut i: usize = 0;
        while i < self.peers.len()
            invariant
                i <= self.peers.len(),
                self.peers@.len() > 0,
                forall|k: int| 0 <= k < i ==> (#[trigger] self.peers@[k]).peer_id@ == peer_id@,
            decreases self.peers.len() - i,
        {
            if self.peers[i].peer_id != *peer_id {
                return false;
            }
            i += 1;
        }
        true
    }
}

} // verus!
