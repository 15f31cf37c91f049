//! The relay's configuration and the choice of a backend for a tag.

use vstd::prelude::*;
use crate::args::same_text;
use crate::bytes::has_prefix;
use crate::sniff::{classify_spec, sniff_spec, ssh_marker, Peek, ProtocolTag};

verus! {

/// Which handshake is played before the payload is looked at.
#[derive(Clone, Copy, Debug, PartialEq, Eq, Structural)]
pub enum HandshakeMode {
    /// None: the first bytes are already the payload.
    Skip,
    /// A decorative status line, with or without a second one after the
    /// client's first read.
    Cosmetic { follow_up: bool },
    /// A WebSocket opening handshake with a computed accept value.
    WebSocket,
}

/// The handshake that a name stands for: `cosmetic` for one decorative
/// line, `cosmetic-twice` for two, `websocket` for the opening handshake; any
/// other name stands for none.
pub open spec fn mode_spec(name: Seq<char>) -> HandshakeMode {
    if name == "cosmetic"@ {
        HandshakeMode::Cosmetic { follow_up: false }
    } else if name == "cosmetic-twice"@ {
        HandshakeMode::Cosmetic { follow_up: true }
    } else if name == "websocket"@ {
        HandshakeMode::WebSocket
    } else {
        HandshakeMode::Skip
    }
}

impl HandshakeMode {
    /// The handshake that `name` stands for.
    pub fn from_name(name: &str) -> (mode: HandshakeMode)
        ensures
            mode == mode_spec(name@),
    {
        if same_text(name, "cosmetic") {
            HandshakeMode::Cosmetic { follow_up: false }
        } else if same_text(name, "cosmetic-twice") {
            HandshakeMode::Cosmetic { follow_up: true }
        } else if same_text(name, "websocket") {
            HandshakeMode::WebSocket
        } else {
            HandshakeMode::Skip
        }
    }
}

/// What the relay is started with. It is read and never changed.
#[derive(Debug)]
pub struct Configuration {
    pub listen_port: u16,
    pub status_banner: String,
    pub ssh_backend: String,
    pub vpn_backend: String,
    pub multiplex_listen_port: u16,
    /// Where connections tagged as WebSocket upgrades go, if not to the
    /// default backend.
    pub websocket_backend: Option<String>,
    pub handshake: HandshakeMode,
    /// How many of the first bytes are looked at.
    pub sniff_window: usize,
    /// How long the first bytes are waited for, in milliseconds.
    pub sniff_timeout_millis: u64,
}

/// The backend of a tag: the SSH backend for `Ssh` and, failing open, for
/// `Unknown`; the VPN backend for `OpenVpn`; for `WebSocketUpgrade` the
/// alternate backend where one is configured, else the SSH backend.
pub open spec fn select_spec(tag: ProtocolTag, configuration: Configuration) -> String {
    match tag {
        ProtocolTag::Ssh => configuration.ssh_backend,
        ProtocolTag::Unknown => configuration.ssh_backend,
        ProtocolTag::OpenVpn => configuration.vpn_backend,
        ProtocolTag::WebSocketUpgrade => match configuration.websocket_backend {
            Some(address) => address,
            None => configuration.ssh_backend,
        },
    }
}

/// Picks the backend address for a tag.
pub fn select(tag: ProtocolTag, configuration: &Configuration) -> (address: &String)
    ensures
        *address == select_spec(tag, *configuration),
{
    match tag {
        ProtocolTag::Ssh => &configuration.ssh_backend,
        ProtocolTag::Unknown => &configuration.ssh_backend,
        ProtocolTag::OpenVpn => &configuration.vpn_backend,
        ProtocolTag::WebSocketUpgrade => match &configuration.websocket_backend {
            Some(address) => address,
            None => &configuration.ssh_backend,
        },
    }
}

/// A payload that opens with the SSH banner goes to the SSH backend.
pub proof fn ssh_banner_routes_to_ssh(payload: Seq<u8>, configuration: Configuration)
    requires
        has_prefix(payload, ssh_marker()),
    ensures
        classify_spec(payload) == ProtocolTag::Ssh,
        select_spec(classify_spec(payload), configuration) == configuration.ssh_backend,
{
}

/// `Unknown` goes where `Ssh` goes.
pub proof fn unknown_routes_as_ssh(configuration: Configuration)
    ensures
        select_spec(ProtocolTag::Unknown, configuration) == select_spec(
            ProtocolTag::Ssh,
            configuration,
        ),
{
}

/// A wait that ran out or a failed read sends the connection to the SSH
/// backend.
pub proof fn silent_client_routes_to_ssh(peek: Peek, window: nat, configuration: Configuration)
    requires
        peek is TimedOut || peek is Failed,
    ensures
        select_spec(sniff_spec(peek, window), configuration) == configuration.ssh_backend,
{
}

} // verus!
