use libremotestylus::{
    target_packet, Error, Message, MouseButtons, Outgoing, Packet, PeerAddr, Point, PointerData,
    PointerEvent, SocketEvent, SocketFamily, SourceCommand, SourceSession, StreamAction,
    TargetAction,
};

fn target_addr() -> PeerAddr {
    PeerAddr::V4 { ip: 0xC0A8_0001, port: 8192 }
}

fn source_addr() -> PeerAddr {
    PeerAddr::V6 { ip6: 1, port: 40000, flowinfo: 0, scope_id: 0 }
}

fn event() -> PointerEvent {
    PointerEvent {
        stream_action: StreamAction::Update,
        stream: 2,
        location: Point(640, 480),
        data: PointerData::Mouse { buttons: MouseButtons::context() },
    }
}

fn ack_from(from: PeerAddr) -> SocketEvent {
    SocketEvent::Packet { from, message: Message::TargetAcknowledgeSource }
}

#[test]
fn address_families() {
    assert!(target_addr().is_ipv4());
    assert!(!target_addr().is_ipv6());
    assert!(source_addr().is_ipv6());
    assert!(!source_addr().is_ipv4());
}

#[test]
fn packet_wraps_event() {
    assert_eq!(Packet::PointerEvent(event()), Packet::PointerEvent(event()));
}

#[test]
fn unconnected_source_sends_nothing() {
    let mut s = SourceSession::new();
    assert_eq!(s.source_command(SourceCommand::Pointer(event())), None);
    assert_eq!(s, SourceSession::new());
}

#[test]
fn connect_sends_connect_message() {
    let mut s = SourceSession::new();
    assert_eq!(
        s.source_command(SourceCommand::Connect(target_addr())),
        Some(Outgoing { to: target_addr(), message: Message::SourceConnectTarget })
    );
    assert_eq!(s.target, Some(target_addr()));
    assert!(!s.acknowledged);
    // Not acknowledged yet: pointer events are held back.
    assert_eq!(s.source_command(SourceCommand::Pointer(event())), None);
}

#[test]
fn acknowledgement_from_elsewhere_is_ignored() {
    let mut s = SourceSession::new();
    s.source_command(SourceCommand::Connect(target_addr()));
    s.source_packet(ack_from(source_addr()));
    assert!(!s.acknowledged);
    s.source_packet(SocketEvent::Packet { from: target_addr(), message: Message::SourceConnectTarget });
    assert!(!s.acknowledged);
    s.source_packet(SocketEvent::Connect(target_addr()));
    assert!(!s.acknowledged);
    assert_eq!(s.source_command(SourceCommand::Pointer(event())), None);
}

#[test]
fn acknowledged_source_sends_pointer_events() {
    let mut s = SourceSession::new();
    s.source_command(SourceCommand::Connect(target_addr()));
    s.source_packet(ack_from(target_addr()));
    assert!(s.acknowledged);
    assert_eq!(
        s.source_command(SourceCommand::Pointer(event())),
        Some(Outgoing { to: target_addr(), message: Message::SourcePointerEvent(event()) })
    );
}

#[test]
fn reconnecting_needs_a_new_acknowledgement() {
    let mut s = SourceSession::new();
    s.source_command(SourceCommand::Connect(target_addr()));
    s.source_packet(ack_from(target_addr()));
    assert_eq!(
        s.source_command(SourceCommand::Connect(source_addr())),
        Some(Outgoing { to: source_addr(), message: Message::SourceConnectTarget })
    );
    assert_eq!(s.source_command(SourceCommand::Pointer(event())), None);
    s.source_packet(ack_from(target_addr()));
    assert_eq!(s.source_command(SourceCommand::Pointer(event())), None);
    s.source_packet(ack_from(source_addr()));
    assert_eq!(
        s.source_command(SourceCommand::Pointer(event())),
        Some(Outgoing { to: source_addr(), message: Message::SourcePointerEvent(event()) })
    );
}

#[test]
fn target_acknowledges_connection_to_sender() {
    assert_eq!(
        target_packet(SocketEvent::Packet { from: source_addr(), message: Message::SourceConnectTarget }),
        Ok(TargetAction::Reply(Outgoing { to: source_addr(), message: Message::TargetAcknowledgeSource }))
    );
}

#[test]
fn target_delivers_pointer_event() {
    assert_eq!(
        target_packet(SocketEvent::Packet {
            from: source_addr(),
            message: Message::SourcePointerEvent(event())
        }),
        Ok(TargetAction::Deliver(event()))
    );
}

#[test]
fn target_refuses_acknowledgement() {
    assert_eq!(target_packet(ack_from(source_addr())), Err(Error::ProtocolRole));
}

#[test]
fn target_ignores_connection_events() {
    assert_eq!(target_packet(SocketEvent::Connect(source_addr())), Ok(TargetAction::Ignore));
    assert_eq!(target_packet(SocketEvent::Timeout(source_addr())), Ok(TargetAction::Ignore));
    assert_eq!(target_packet(SocketEvent::Disconnect(source_addr())), Ok(TargetAction::Ignore));
}

#[test]
fn handshake_end_to_end() {
    let mut source = SourceSession::new();
    let hello = source.source_command(SourceCommand::Connect(target_addr())).unwrap();
    assert_eq!(hello.to, target_addr());
    let answer = target_packet(SocketEvent::Packet { from: source_addr(), message: hello.message });
    let reply = match answer {
        Ok(TargetAction::Reply(out)) => out,
        other => panic!("unexpected {:?}", other),
    };
    assert_eq!(reply.to, source_addr());
    source.source_packet(SocketEvent::Packet { from: target_addr(), message: reply.message });
    let sent = source.source_command(SourceCommand::Pointer(event())).unwrap();
    assert_eq!(sent.to, target_addr());
    assert_eq!(
        target_packet(SocketEvent::Packet { from: source_addr(), message: sent.message }),
        Ok(TargetAction::Deliver(event()))
    );
}

#[test]
fn acknowledgement_matches_host_and_port_only() {
    let target = PeerAddr::V6 { ip6: 0x2001_0db8 << 96, port: 8192, flowinfo: 0, scope_id: 0 };
    let same_host = PeerAddr::V6 { ip6: 0x2001_0db8 << 96, port: 8192, flowinfo: 7, scope_id: 3 };
    let other_port = PeerAddr::V6 { ip6: 0x2001_0db8 << 96, port: 8193, flowinfo: 0, scope_id: 0 };
    assert!(target.same_endpoint(&same_host));
    assert!(!target.same_endpoint(&other_port));
    assert!(!target_addr().same_endpoint(&target));
    let mut s = SourceSession::new();
    s.source_command(SourceCommand::Connect(target));
    s.source_packet(ack_from(other_port));
    assert!(!s.acknowledged);
    s.source_packet(ack_from(same_host));
    assert!(s.acknowledged);
    assert_eq!(
        s.source_command(SourceCommand::Pointer(event())),
        Some(Outgoing { to: target, message: Message::SourcePointerEvent(event()) })
    );
}

#[test]
fn outgoing_socket_follows_address_family() {
    let v4 = Outgoing { to: target_addr(), message: Message::SourceConnectTarget };
    let v6 = Outgoing { to: source_addr(), message: Message::TargetAcknowledgeSource };
    assert_eq!(v4.socket(), SocketFamily::V4);
    assert_eq!(v6.socket(), SocketFamily::V6);
}
