//! Classifying the first bytes of a connection.

use vstd::prelude::*;
use crate::bytes::{contains, contains_bytes, has_prefix, occurs_at, starts_with};

verus! {

/// What the first bytes of a connection look like.
#[derive(Clone, Copy, Debug, PartialEq, Eq, Structural)]
pub enum ProtocolTag {
    Ssh,
    OpenVpn,
    WebSocketUpgrade,
    Unknown,
}

/// How a bounded, non-consuming read of the first bytes ended.
#[derive(Debug)]
pub enum Peek {
    /// The bytes that were available; they stay readable on the connection.
    Data(Vec<u8>),
    /// Nothing arrived within the wait.
    TimedOut,
    /// The read failed.
    Failed,
}

/// The bytes `SSH-`.
pub open spec fn ssh_marker() -> Seq<u8> {
    seq![0x53u8, 0x53u8, 0x48u8, 0x2du8]
}

/// The bytes `Upgrade: websocket`.
pub open spec fn upgrade_marker() -> Seq<u8> {
    seq![
        0x55u8, 0x70u8, 0x67u8, 0x72u8, 0x61u8, 0x64u8, 0x65u8, 0x3au8, 0x20u8,
        0x77u8, 0x65u8, 0x62u8, 0x73u8, 0x6fu8, 0x63u8, 0x6bu8, 0x65u8, 0x74u8,
    ]
}

/// The bytes `GET`.
pub open spec fn get_marker() -> Seq<u8> {
    seq![0x47u8, 0x45u8, 0x54u8]
}

/// The tag of a payload, by priority: the SSH banner first, then the marks of
/// an HTTP upgrade request, then any other bytes, then nothing at all.
pub open spec fn classify_spec(payload: Seq<u8>) -> ProtocolTag {
    if has_prefix(payload, ssh_marker()) {
        ProtocolTag::Ssh
    } else if contains_bytes(payload, upgrade_marker()) || contains_bytes(payload, get_marker()) {
        ProtocolTag::WebSocketUpgrade
    } else if payload.len() > 0 {
        ProtocolTag::OpenVpn
    } else {
        ProtocolTag::Unknown
    }
}

/// The part of a peek that is looked at: its first `window` bytes.
pub open spec fn window_of(data: Seq<u8>, window: nat) -> Seq<u8> {
    if data.len() <= window {
        data
    } else {
        data.take(window as int)
    }
}

/// The tag that a peek gives: that of its first `window` bytes, and
/// `Unknown` where the wait ran out or the read failed.
pub open spec fn sniff_spec(peek: Peek, window: nat) -> ProtocolTag {
    match peek {
        Peek::Data(data) => classify_spec(window_of(data@, window)),
        Peek::TimedOut => ProtocolTag::Unknown,
        Peek::Failed => ProtocolTag::Unknown,
    }
}

/// Classifies a payload.
pub fn classify(payload: &[u8]) -> (tag: ProtocolTag)
    ensures
        tag == classify_spec(payload@),
{
    let ssh: [u8; 4] = [0x53, 0x53, 0x48, 0x2d];
    let upgrade: [u8; 18] = [
        0x55, 0x70, 0x67, 0x72, 0x61, 0x64, 0x65, 0x3a, 0x20,
        0x77, 0x65, 0x62, 0x73, 0x6f, 0x63, 0x6b, 0x65, 0x74,
    ];
    let get: [u8; 3] = [0x47, 0x45, 0x54];
    assert(ssh@ =~= ssh_marker());
    assert(upgrade@ =~= upgrade_marker());
    assert(get@ =~= get_marker());
    if starts_with(payload, ssh.as_slice()) {
        ProtocolTag::Ssh
    } else if contains(payload, upgrade.as_slice()) || contains(payload, get.as_slice()) {
        ProtocolTag::WebSocketUpgrade
    } else if payload.len() > 0 {
        ProtocolTag::OpenVpn
    } else {
        ProtocolTag::Unknown
    }
}

/// Classifies what a bounded peek brought, looking at no more than `window`
/// bytes of it.
pub fn sniff(peek: &Peek, window: usize) -> (tag: ProtocolTag)
    ensures
        tag == sniff_spec(*peek, window as nat),
{
    match peek {
        Peek::Data(data) => {
            if data.len() <= window {
                classify(data.as_slice())
            } else {
                let head = vstd::slice::slice_subrange(data.as_slice(), 0, window);
                assert(head@ =~= data@.take(window as int));
                classify(head)
            }
        },
        Peek::TimedOut => ProtocolTag::Unknown,
        Peek::Failed => ProtocolTag::Unknown,
    }
}

/// A payload that opens with the SSH banner is tagged `Ssh`, whatever follows.
pub proof fn ssh_banner_is_ssh(payload: Seq<u8>)
    requires
        has_prefix(payload, ssh_marker()),
    ensures
        classify_spec(payload) == ProtocolTag::Ssh,
{
}

/// A payload that is not empty, does not open with the SSH banner and holds
/// neither mark of an HTTP upgrade request is tagged `OpenVpn`.
pub proof fn other_bytes_are_openvpn(payload: Seq<u8>)
    requires
        payload.len() > 0,
        !has_prefix(payload, ssh_marker()),
        !contains_bytes(payload, upgrade_marker()),
        !contains_bytes(payload, get_marker()),
    ensures
        classify_spec(payload) == ProtocolTag::OpenVpn,
{
}

/// A payload that does not open with the SSH banner and holds a mark of an
/// HTTP upgrade request is tagged `WebSocketUpgrade`.
pub proof fn upgrade_marks_are_websocket(payload: Seq<u8>)
    requires
        !has_prefix(payload, ssh_marker()),
        contains_bytes(payload, upgrade_marker()) || contains_bytes(payload, get_marker()),
    ensures
        classify_spec(payload) == ProtocolTag::WebSocketUpgrade,
{
}

/// Only an empty payload is tagged `Unknown`.
pub proof fn unknown_means_empty(payload: Seq<u8>)
    ensures
        classify_spec(payload) == ProtocolTag::Unknown <==> payload.len() == 0,
{
    if payload.len() == 0 {
        assert(!has_prefix(payload, ssh_marker()));
        assert forall|at: int| !occurs_at(payload, upgrade_marker(), at) by {}
        assert forall|at: int| !occurs_at(payload, get_marker(), at) by {}
    }
}

/// An empty peek, a wait that ran out and a failed read are all tagged
/// `Unknown`.
pub proof fn nothing_seen_is_unknown(peek: Peek, window: nat)
    requires
        match peek {
            Peek::Data(data) => data@.len() == 0,
            Peek::TimedOut => true,
            Peek::Failed => true,
        },
    ensures
        sniff_spec(peek, window) == ProtocolTag::Unknown,
{
    match peek {
        Peek::Data(data) => {
            assert(window_of(data@, window) =~= data@);
            assert(!has_prefix(data@, ssh_marker()));
            assert forall|at: int| !occurs_at(data@, upgrade_marker(), at) by {}
            assert forall|at: int| !occurs_at(data@, get_marker(), at) by {}
        },
        _ => {},
    }
}

} // verus!
