use vstd::prelude::*;

verus! {

/// An IP address as plain values.
#[derive(PartialEq, Eq, Structural, Clone, Copy, Debug)]
pub enum IpAddress {
    V4(u8, u8, u8, u8),
    V6(u16, u16, u16, u16, u16, u16, u16, u16),
}

/// A transport address: an IP address and a port.
#[derive(PartialEq, Eq, Structural, Clone, Copy, Debug)]
pub struct SocketAddress {
    pub ip: IpAddress,
    pub port: u16,
}

/// What is known of the peer of a tunneled connection, captured once when the
/// connection is accepted.
#[derive(PartialEq, Eq, Structural, Clone, Copy, Debug)]
pub struct Metadata {
    peer_addr: SocketAddress,
}

impl Metadata {
    pub closed spec fn peer_spec(&self) -> SocketAddress {
        self.peer_addr
    }

    pub fn new(peer_addr: SocketAddress) -> (r: Metadata)
        ensures
            r.peer_spec() == peer_addr,
    {
        Metadata { peer_addr }
    }

    /// The address the plaintext connection came from.
    pub fn get_peer_addr(&self) -> (r: SocketAddress)
        ensures
            r == self.peer_spec(),
    {
        self.peer_addr
    }
}

/// One direction of a session: bytes read from `reader` go to `writer`.
pub struct Pipe<R, W> {
    reader: R,
    writer: W,
}

impl<R, W> Pipe<R, W> {
    pub closed spec fn reader_spec(&self) -> R {
        self.reader
    }

    pub closed spec fn writer_spec(&self) -> W {
        self.writer
    }

    pub fn new(reader: R, writer: W) -> (r: Pipe<R, W>)
        ensures
            r.reader_spec() == reader,
            r.writer_spec() == writer,
    {
        Pipe { reader, writer }
    }

    /// Hands the two halves to whoever runs the forwarding loop.
    pub fn into_parts(self) -> (r: (R, W))
        ensures
            r == (self.reader_spec(), self.writer_spec()),
    {
        (self.reader, self.writer)
    }
}

/// The two directions of a session: upstream to downstream, then downstream to
/// upstream.
pub type Pipes<UR, UW, DR, DW> = (Pipe<UR, DW>, Pipe<DR, UW>);

/// A tunneled connection: the peer's metadata and its two directions.
pub type Session<UR, UW, DR, DW> = (Metadata, Pipes<UR, UW, DR, DW>);

/// Pairs the halves of the secure (upstream) and plaintext (downstream) streams
/// into two directions: upstream read half to downstream write half, and
/// downstream read half to upstream write half. No half is used twice and the
/// directions are never swapped.
pub fn pipes<UR, UW, DR, DW>(upstream: (UR, UW), downstream: (DR, DW)) -> (r: Pipes<
    UR,
    UW,
    DR,
    DW,
>)
    ensures
        r.0.reader_spec() == upstream.0,
        r.0.writer_spec() == downstream.1,
        r.1.reader_spec() == downstream.0,
        r.1.writer_spec() == upstream.1,
{
    let (upstream_read, upstream_write) = upstream;
    let (downstream_read, downstream_write) = downstream;
    (Pipe::new(upstream_read, downstream_write), Pipe::new(downstream_read, upstream_write))
}

/// Builds the session for a connection accepted from `peer_addr`.
pub fn create_session<UR, UW, DR, DW>(
    peer_addr: SocketAddress,
    upstream: (UR, UW),
    downstream: (DR, DW),
) -> (r: Session<UR, UW, DR, DW>)
    ensures
        r.0.peer_spec() == peer_addr,
        r.1.0.reader_spec() == upstream.0,
        r.1.0.writer_spec() == downstream.1,
        r.1.1.reader_spec() == downstream.0,
        r.1.1.writer_spec() == upstream.1,
{
    (Metadata::new(peer_addr), pipes(upstream, downstream))
}

} // verus!
