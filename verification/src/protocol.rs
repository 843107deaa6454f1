//! The messages exchanged between event sources and event targets.
use vstd::prelude::*;

use crate::event::PointerEvent;

verus! {

/// Any message to be sent between event sources and targets.
#[derive(Debug, Clone, Copy, PartialEq, Eq, Structural)]
pub enum Message {
    /// Message sent by an event source to connect to an event target.
    SourceConnectTarget,
    /// Message sent by a target back to the source to acknowledge connection.
    ///
    /// Sources should not send other messages until and unless they receive
    /// a `TargetAcknowledgeSource`.
    TargetAcknowledgeSource,
    /// Message sent by an event source to report a pointer event occurring.
    SourcePointerEvent(PointerEvent),
}

/// An on-the-wire packet.
#[derive(Debug, Clone, Copy, PartialEq, Eq, Structural)]
pub enum Packet {
    /// A pointer event.
    PointerEvent(PointerEvent),
}

/// The address of a peer: an IP address (its bits, most significant first)
/// and a port.
#[derive(Debug, Clone, Copy, PartialEq, Eq, Structural)]
pub enum PeerAddr {
    /// An IPv4 socket address.
    V4 { ip: u32, port: u16 },
    /// An IPv6 socket address, with its flow label and scope.
    V6 { ip6: u128, port: u16, flowinfo: u32, scope_id: u32 },
}

impl PeerAddr {
    /// Whether this is an IPv4 address.
    pub fn is_ipv4(&self) -> (r: bool)
        ensures
            r <==> self is V4,
    {
        match self {
            PeerAddr::V4 { .. } => true,
            PeerAddr::V6 { .. } => false,
        }
    }

    /// Whether this is an IPv6 address.
    pub fn is_ipv6(&self) -> (r: bool)
        ensures
            r <==> self is V6,
    {
        match self {
            PeerAddr::V4 { .. } => false,
            PeerAddr::V6 { .. } => true,
        }
    }

    /// Whether `other` names the same host and port (for IPv6, whatever the
    /// flow label and scope).
    pub fn same_endpoint(&self, other: &PeerAddr) -> (r: bool)
        ensures
            r == same_endpoint(*self, *other),
    {
        match (self, other) {
            (PeerAddr::V4 { ip: a, port: p }, PeerAddr::V4 { ip: b, port: q }) => *a == *b && *p
                == *q,
            (PeerAddr::V6 { ip6: a, port: p, .. }, PeerAddr::V6 { ip6: b, port: q, .. }) => *a
                == *b && *p == *q,
            _ => false,
        }
    }
}

/// Whether two addresses name the same host and port: both IPv4 with equal
/// address and port, or both IPv6 with equal address and port.
pub open spec fn same_endpoint(a: PeerAddr, b: PeerAddr) -> bool {
    match (a, b) {
        (PeerAddr::V4 { ip: x, port: p }, PeerAddr::V4 { ip: y, port: q }) => x == y && p == q,
        (PeerAddr::V6 { ip6: x, port: p, .. }, PeerAddr::V6 { ip6: y, port: q, .. }) => x == y
            && p == q,
        _ => false,
    }
}

/// Which of a process's two sockets a message goes out on.
#[derive(Debug, Clone, Copy, PartialEq, Eq, Structural)]
pub enum SocketFamily {
    /// The IPv4 socket.
    V4,
    /// The IPv6 socket.
    V6,
}

/// A message to send, and to whom.
#[derive(Debug, Clone, Copy, PartialEq, Eq, Structural)]
pub struct Outgoing {
    /// The peer the message goes to.
    pub to: PeerAddr,
    /// The message.
    pub message: Message,
}

impl Outgoing {
    /// The socket the message goes out on: the IPv6 socket where `to` is an
    /// IPv6 address, else the IPv4 socket.
    pub fn socket(&self) -> (f: SocketFamily)
        ensures
            f == (if self.to is V6 {
                SocketFamily::V6
            } else {
                SocketFamily::V4
            }),
    {
        if self.to.is_ipv6() {
            SocketFamily::V6
        } else {
            SocketFamily::V4
        }
    }
}

/// What a socket reports to its owner.
#[derive(Debug, Clone, Copy, PartialEq, Eq, Structural)]
pub enum SocketEvent {
    /// A packet arrived from `from`, holding `message`.
    Packet { from: PeerAddr, message: Message },
    /// A new peer connected.
    Connect(PeerAddr),
    /// A peer timed out.
    Timeout(PeerAddr),
    /// A peer disconnected.
    Disconnect(PeerAddr),
}

} // verus!
