//! The event target's side of the protocol.
use vstd::prelude::*;

use crate::error::Error;
use crate::event::PointerEvent;
use crate::protocol::{Message, Outgoing, PeerAddr, SocketEvent};
use crate::source::{command_step, packet_step, SourceCommand, SourceSession};

verus! {

/// What the event target does about a socket event.
#[derive(Debug, Clone, Copy, PartialEq, Eq, Structural)]
pub enum TargetAction {
    /// Send a message back (on the socket of the address's family).
    Reply(Outgoing),
    /// Hand a pointer event to the application.
    Deliver(PointerEvent),
    /// Nothing to do.
    Ignore,
}

/// What the event target does about a message from `from`: acknowledge a
/// connecting source, deliver a reported pointer event, and refuse an
/// acknowledgement, which only targets send.
pub open spec fn target_message_step(from: PeerAddr, message: Message) -> Result<TargetAction, Error> {
    match message {
        Message::SourceConnectTarget => Ok(
            TargetAction::Reply(Outgoing { to: from, message: Message::TargetAcknowledgeSource }),
        ),
        Message::SourcePointerEvent(e) => Ok(TargetAction::Deliver(e)),
        Message::TargetAcknowledgeSource => Err(Error::ProtocolRole),
    }
}

/// What the event target does about a socket event: packets as
/// `target_message_step` says; connections, timeouts and disconnections are
/// ignored.
pub open spec fn target_step(event: SocketEvent) -> Result<TargetAction, Error> {
    match event {
        SocketEvent::Packet { from, message } => target_message_step(from, message),
        _ => Ok(TargetAction::Ignore),
    }
}

/// Processes an incoming socket event in the target process.
pub fn target_packet(event: SocketEvent) -> (r: Result<TargetAction, Error>)
    ensures
        r == target_step(event),
        !(event is Packet) ==> r == Ok::<TargetAction, Error>(TargetAction::Ignore),
        r is Err <==> (event matches SocketEvent::Packet { message, .. } && message
            == Message::TargetAcknowledgeSource),
{
    match event {
        SocketEvent::Packet { from, message } => match message {
            Message::SourceConnectTarget => Ok(
                TargetAction::Reply(
                    Outgoing { to: from, message: Message::TargetAcknowledgeSource },
                ),
            ),
            Message::SourcePointerEvent(ptr_evt) => Ok(TargetAction::Deliver(ptr_evt)),
            Message::TargetAcknowledgeSource => Err(Error::ProtocolRole),
        },
        _ => Ok(TargetAction::Ignore),
    }
}

/// The handshake carries pointer events end to end: whatever state a source
/// is in, after it connects to a target, the target answers its
/// `SourceConnectTarget` with a `TargetAcknowledgeSource` sent back to the
/// source's address; once that answer arrives from the target, the source's
/// next pointer event goes to the target, and the target delivers it unchanged.
pub proof fn lemma_handshake_delivers(
    s: SourceSession,
    target_addr: PeerAddr,
    source_addr: PeerAddr,
    e: PointerEvent,
)
    ensures
        ({
            let (s1, hello) = command_step(s, SourceCommand::Connect(target_addr));
            let answer = target_step(
                SocketEvent::Packet { from: source_addr, message: Message::SourceConnectTarget },
            );
            let s2 = packet_step(
                s1,
                SocketEvent::Packet {
                    from: target_addr,
                    message: Message::TargetAcknowledgeSource,
                },
            );
            let (s3, sent) = command_step(s2, SourceCommand::Pointer(e));
            &&& hello == Some(
                Outgoing { to: target_addr, message: Message::SourceConnectTarget },
            )
            &&& answer == Ok::<TargetAction, Error>(
                TargetAction::Reply(
                    Outgoing { to: source_addr, message: Message::TargetAcknowledgeSource },
                ),
            )
            &&& s2.target == Some(target_addr) && s2.acknowledged
            &&& s3 == s2
            &&& sent == Some(Outgoing { to: target_addr, message: Message::SourcePointerEvent(e) })
            &&& target_step(
                SocketEvent::Packet {
                    from: source_addr,
                    message: Message::SourcePointerEvent(e),
                },
            ) == Ok::<TargetAction, Error>(TargetAction::Deliver(e))
        }),
{
}

/// A target answers every message addressed to a target and refuses the one
/// meant for sources: a connection request is acknowledged to its sender, a
/// pointer event is delivered, and an acknowledgement is a role error.
pub proof fn lemma_target_roles(from: PeerAddr, message: Message)
    ensures
        (target_message_step(from, message) is Err) <==> message
            == Message::TargetAcknowledgeSource,
        target_message_step(from, message) matches Ok(TargetAction::Reply(out)) ==> out.to == from
            && out.message == Message::TargetAcknowledgeSource,
        target_message_step(from, message) is Ok ==> !(target_message_step(from, message)
            == Ok::<TargetAction, Error>(TargetAction::Ignore)),
{
}

/// A target ignores every socket event that is not a packet, whatever the
/// peer's address family, and fails only on a packet holding an
/// acknowledgement.
pub proof fn lemma_target_ignores_connection_events(event: SocketEvent)
    ensures
        forall|a: PeerAddr|
            #![trigger target_step(SocketEvent::Connect(a))]
            #![trigger target_step(SocketEvent::Timeout(a))]
            #![trigger target_step(SocketEvent::Disconnect(a))]
            target_step(SocketEvent::Connect(a)) == Ok::<TargetAction, Error>(TargetAction::Ignore)
                && target_step(SocketEvent::Timeout(a)) == Ok::<TargetAction, Error>(
                TargetAction::Ignore,
            ) && target_step(SocketEvent::Disconnect(a)) == Ok::<TargetAction, Error>(
                TargetAction::Ignore,
            ),
        target_step(event) is Err ==> (event matches SocketEvent::Packet { message, .. }
            && message == Message::TargetAcknowledgeSource),
        target_step(event) is Err ==> target_step(event) == Err::<TargetAction, Error>(
            Error::ProtocolRole,
        ),
{
}

} // verus!
