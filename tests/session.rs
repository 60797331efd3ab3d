use tunnel::{
    create_session, pipes, IpAddress, Metadata, Pipe, ReadOutcome, SessionSetup, SetupEvent,
    SetupStep, SocketAddress, SpliceAction, Splicer, WriteOutcome,
};

fn addr(a: u8, port: u16) -> SocketAddress {
    SocketAddress { ip: IpAddress::V4(127, 0, 0, a), port }
}

#[test]
fn pipes_keep_their_directions() {
    let (inbound, outbound) = pipes(("up-read", "up-write"), ("down-read", "down-write"));
    assert_eq!(inbound.into_parts(), ("up-read", "down-write"));
    assert_eq!(outbound.into_parts(), ("down-read", "up-write"));
}

#[test]
fn session_captures_peer() {
    let peer = addr(1, 51000);
    let (meta, (inbound, outbound)) = create_session(peer, (1u8, 2u16), (3u32, 4u64));
    assert_eq!(meta.get_peer_addr(), peer);
    assert_eq!(inbound.into_parts(), (1u8, 4u64));
    assert_eq!(outbound.into_parts(), (3u32, 2u16));
}

#[test]
fn metadata_and_pipe_constructors() {
    let v6 = SocketAddress { ip: IpAddress::V6(0, 0, 0, 0, 0, 0, 0, 1), port: 9000 };
    assert_eq!(Metadata::new(v6).get_peer_addr(), v6);
    assert_eq!(Pipe::new('r', 'w').into_parts(), ('r', 'w'));
}

#[test]
fn ping_through_established_session() {
    let client = addr(9, 52000);
    let mut setup = SessionSetup::new();
    setup.on_event(SetupEvent::Accepted(client), "svc.internal");
    setup.on_event(SetupEvent::Connected, "svc.internal");
    setup.on_event(SetupEvent::HandshakeDone, "svc.internal");
    assert_eq!(setup.step(), SetupStep::Established);

    let (meta, (_inbound, outbound)) =
        create_session(client, ("tls-read", "tls-write"), ("tcp-read", "tcp-write"));
    assert_eq!(meta.get_peer_addr(), client);
    assert_eq!(outbound.into_parts(), ("tcp-read", "tls-write"));

    let mut upstream_received = Vec::new();
    let mut s = Splicer::new();
    s.on_read(ReadOutcome::Data(b"ping".to_vec()));
    upstream_received.extend_from_slice(s.unwritten_bytes());
    s.on_write(WriteOutcome::Wrote(4));
    s.on_read(ReadOutcome::Eof);
    assert_eq!(upstream_received, b"ping");
    assert_eq!(s.next_action(), SpliceAction::Done(4));
}
