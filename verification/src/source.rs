//! The event source's side of the protocol.
use vstd::prelude::*;

use crate::event::PointerEvent;
use crate::protocol::{same_endpoint, Message, Outgoing, PeerAddr, SocketEvent};

verus! {

/// A command sent to control the source process.
#[derive(Debug, Clone, Copy, PartialEq, Eq, Structural)]
pub enum SourceCommand {
    /// Connect to a new event target.
    Connect(PeerAddr),
    /// Send a pointer event to the target.
    Pointer(PointerEvent),
}

/// What an event source knows of its target: which one it connected to last,
/// and whether that target has acknowledged the connection since.
#[derive(Debug, Clone, Copy, PartialEq, Eq, Structural)]
pub struct SourceSession {
    /// The target of the last `Connect` command, if any.
    pub target: Option<PeerAddr>,
    /// Whether `target` sent `TargetAcknowledgeSource` since the last `Connect`.
    pub acknowledged: bool,
}

/// The session after a command, and what to send.
///
/// `Connect(addr)` makes `addr` the (unacknowledged) target and sends it
/// `SourceConnectTarget`. `Pointer(e)` sends `e` to the target once the target
/// has acknowledged; before that, or with no target, it sends nothing.
pub open spec fn command_step(s: SourceSession, cmd: SourceCommand) -> (
    SourceSession,
    Option<Outgoing>,
) {
    match cmd {
        SourceCommand::Connect(addr) => (
            SourceSession { target: Some(addr), acknowledged: false },
            Some(Outgoing { to: addr, message: Message::SourceConnectTarget }),
        ),
        SourceCommand::Pointer(e) => match s.target {
            Some(to) => if s.acknowledged {
                (s, Some(Outgoing { to, message: Message::SourcePointerEvent(e) }))
            } else {
                (s, None)
            },
            None => (s, None),
        },
    }
}

/// The session after a socket event: an acknowledgement that comes from the
/// current target's host and port marks it acknowledged; every other event
/// changes nothing.
pub open spec fn packet_step(s: SourceSession, event: SocketEvent) -> SourceSession {
    match event {
        SocketEvent::Packet { from, message } => if message == Message::TargetAcknowledgeSource
            && (s.target matches Some(t) && same_endpoint(t, from)) {
            SourceSession { target: s.target, acknowledged: true }
        } else {
            s
        },
        _ => s,
    }
}

impl SourceSession {
    /// A source that has not connected yet.
    pub fn new() -> (s: SourceSession)
        ensures
            s.target is None,
            !s.acknowledged,
    {
        SourceSession { target: None, acknowledged: false }
    }

    /// Processes an incoming command in the source process: what to send, if
    /// anything (see `command_step`).
    pub fn source_command(&mut self, cmd: SourceCommand) -> (r: Option<Outgoing>)
        ensures
            (*final(self), r) == command_step(*old(self), cmd),
    {
        match cmd {
            SourceCommand::Connect(addr) => {
                self.target = Some(addr);
                self.acknowledged = false;
                Some(Outgoing { to: addr, message: Message::SourceConnectTarget })
            },
            SourceCommand::Pointer(event) => {
                match self.target {
                    Some(addr) => {
                        if self.acknowledged {
                            Some(Outgoing { to: addr, message: Message::SourcePointerEvent(event) })
                        } else {
                            None
                        }
                    },
                    None => None,
                }
            },
        }
    }

    /// Processes an incoming socket event in the source process (see
    /// `packet_step`).
    pub fn source_packet(&mut self, event: SocketEvent)
        ensures
            *final(self) == packet_step(*old(self), event),
            final(self).target == old(self).target,
            old(self).acknowledged ==> final(self).acknowledged,
            !(event is Packet) ==> *final(self) == *old(self),
    {
        match event {
            SocketEvent::Packet { from, message } => {
                let is_ack = match message {
                    Message::TargetAcknowledgeSource => true,
                    _ => false,
                };
                let from_target = match self.target {
                    Some(t) => t.same_endpoint(&from),
                    None => false,
                };
                if is_ack && from_target {
                    self.acknowledged = true;
                }
            },
            _ => {},
        }
    }
}

/// One input of an event source: a command from the application or an event
/// from a socket.
#[derive(Debug, Clone, Copy, PartialEq, Eq, Structural)]
pub enum SourceInput {
    /// A command from the application.
    Command(SourceCommand),
    /// An event from a socket.
    Socket(SocketEvent),
}

/// The session after an input, and what to send.
pub open spec fn input_step(s: SourceSession, input: SourceInput) -> (
    SourceSession,
    Option<Outgoing>,
) {
    match input {
        SourceInput::Command(cmd) => command_step(s, cmd),
        SourceInput::Socket(event) => (packet_step(s, event), None),
    }
}

/// The session after the first `n` inputs.
pub open spec fn session_after(s: SourceSession, inputs: Seq<SourceInput>, n: nat) -> SourceSession
    decreases n,
{
    if n == 0 || n > inputs.len() {
        s
    } else {
        input_step(session_after(s, inputs, (n - 1) as nat), inputs[n - 1]).0
    }
}

/// What the source sends on input `i`.
pub open spec fn sent_at(s: SourceSession, inputs: Seq<SourceInput>, i: nat) -> Option<Outgoing> {
    input_step(session_after(s, inputs, i), inputs[i as int]).1
}

/// Whether input `i` is a `Connect` command.
pub open spec fn is_connect(inputs: Seq<SourceInput>, i: int) -> bool {
    inputs[i] matches SourceInput::Command(SourceCommand::Connect(_))
}

/// Whether no input strictly between `lo` and `hi` is a `Connect` command.
pub open spec fn no_connect_between(inputs: Seq<SourceInput>, lo: int, hi: int) -> bool {
    forall|k: int| lo < k < hi ==> !#[trigger] is_connect(inputs, k)
}

/// Whether, before input `n`, the source was last told to connect to `t`.
pub open spec fn connected_before(inputs: Seq<SourceInput>, t: PeerAddr, n: int) -> bool {
    exists|c: int|
        0 <= c < n && #[trigger] inputs[c] == SourceInput::Command(SourceCommand::Connect(t))
            && no_connect_between(inputs, c, n)
}

/// Whether an input is a `TargetAcknowledgeSource` from the host and port of `t`.
pub open spec fn is_acknowledgement_from(input: SourceInput, t: PeerAddr) -> bool {
    input matches SourceInput::Socket(SocketEvent::Packet { from, message }) && message
        == Message::TargetAcknowledgeSource && same_endpoint(t, from)
}

/// Whether, before input `n`, the source was last told to connect to `t` and
/// then received `TargetAcknowledgeSource` from `t`'s host and port.
pub open spec fn acknowledged_before(inputs: Seq<SourceInput>, t: PeerAddr, n: int) -> bool {
    exists|c: int, j: int|
        0 <= c < j < n && #[trigger] inputs[c] == SourceInput::Command(SourceCommand::Connect(t))
            && is_acknowledgement_from(#[trigger] inputs[j], t) && no_connect_between(
            inputs,
            c,
            n,
        )
}

proof fn lemma_session_history(inputs: Seq<SourceInput>, n: nat)
    requires
        n <= inputs.len(),
    ensures
        ({
            let s = session_after(SourceSession { target: None, acknowledged: false }, inputs, n);
            &&& s.acknowledged ==> s.target is Some
            &&& s.target matches Some(t) ==> connected_before(inputs, t, n as int)
            &&& s.target matches Some(t) ==> (s.acknowledged ==> acknowledged_before(
                inputs,
                t,
                n as int,
            ))
        }),
    decreases n,
{
    let s0 = SourceSession { target: None, acknowledged: false };
    if n > 0 {
        let m = (n - 1) as nat;
        lemma_session_history(inputs, m);
        let prev = session_after(s0, inputs, m);
        let cur = session_after(s0, inputs, n);
        let x = inputs[m as int];
        assert(cur == input_step(prev, x).0);
        if is_connect(inputs, m as int) {
            let t = cur.target.unwrap();
            assert(inputs[m as int] == SourceInput::Command(SourceCommand::Connect(t)));
            assert(no_connect_between(inputs, m as int, n as int));
            assert(connected_before(inputs, t, n as int));
        } else {
            match prev.target {
                Some(t) => {
                    let c = choose|c: int|
                        0 <= c < m && #[trigger] inputs[c] == SourceInput::Command(
                            SourceCommand::Connect(t),
                        ) && no_connect_between(inputs, c, m as int);
                    assert(no_connect_between(inputs, c, n as int)) by {
                        assert forall|k: int| c < k < n implies !#[trigger] is_connect(
                            inputs,
                            k,
                        ) by {
                            if k < m {
                                assert(!is_connect(inputs, k));
                            }
                        }
                    }
                    assert(cur.target == Some(t));
                    assert(connected_before(inputs, t, n as int));
                    if cur.acknowledged {
                        if prev.acknowledged {
                            let (c2, j2) = choose|c2: int, j2: int|
                                0 <= c2 < j2 < m && #[trigger] inputs[c2]
                                    == SourceInput::Command(SourceCommand::Connect(t))
                                    && is_acknowledgement_from(#[trigger] inputs[j2], t)
                                    && no_connect_between(inputs, c2, m as int);
                            assert(no_connect_between(inputs, c2, n as int)) by {
                                assert forall|k: int| c2 < k < n implies !#[trigger] is_connect(
                                    inputs,
                                    k,
                                ) by {
                                    if k < m {
                                        assert(!is_connect(inputs, k));
                                    }
                                }
                            }
                            assert(acknowledged_before(inputs, t, n as int));
                        } else {
                            assert(inputs[c] == SourceInput::Command(SourceCommand::Connect(t)));
                            assert(is_acknowledgement_from(inputs[m as int], t));
                            assert(acknowledged_before(inputs, t, n as int));
                        }
                    }
                },
                None => {
                    assert(cur == prev);
                },
            }
        }
    }
}

/// A source sends no pointer event before it is acknowledged: in any run of
/// a new source, each pointer event it sends goes to the target of the last
/// `Connect` command before it, and a `TargetAcknowledgeSource` from that
/// target's host and port arrived between that command and the event.
pub proof fn lemma_no_pointer_event_before_acknowledgement(
    inputs: Seq<SourceInput>,
    i: nat,
    to: PeerAddr,
    e: PointerEvent,
)
    requires
        i < inputs.len(),
        sent_at(SourceSession { target: None, acknowledged: false }, inputs, i) == Some(
            Outgoing { to, message: Message::SourcePointerEvent(e) },
        ),
    ensures
        acknowledged_before(inputs, to, i as int),
{
    let s = session_after(SourceSession { target: None, acknowledged: false }, inputs, i);
    lemma_session_history(inputs, i);
    assert(s.target == Some(to) && s.acknowledged);
}

/// The only message a source sends to a target before that target
/// acknowledges it is the `SourceConnectTarget` that a `Connect` command sends.
pub proof fn lemma_unacknowledged_source_only_connects(s: SourceSession, cmd: SourceCommand)
    requires
        !s.acknowledged,
    ensures
        command_step(s, cmd).1 matches Some(out) ==> out.message == Message::SourceConnectTarget
            && cmd == SourceCommand::Connect(out.to),
{
}

/// Socket events never move a source to another target nor take an
/// acknowledgement back: only a packet can change the session, and then only
/// by marking its target acknowledged. Connections, timeouts and
/// disconnections change nothing.
pub proof fn lemma_socket_events_keep_session(s: SourceSession, event: SocketEvent)
    ensures
        packet_step(s, event).target == s.target,
        s.acknowledged ==> packet_step(s, event).acknowledged,
        packet_step(s, event) != s ==> !s.acknowledged && packet_step(s, event).acknowledged,
        forall|a: PeerAddr|
            #![trigger packet_step(s, SocketEvent::Connect(a))]
            #![trigger packet_step(s, SocketEvent::Timeout(a))]
            #![trigger packet_step(s, SocketEvent::Disconnect(a))]
            packet_step(s, SocketEvent::Connect(a)) == s && packet_step(
                s,
                SocketEvent::Timeout(a),
            ) == s && packet_step(s, SocketEvent::Disconnect(a)) == s,
{
}

} // verus!
