use vstd::prelude::*;

use crate::session::{Metadata, SocketAddress};

verus! {

/// Why one attempt to establish a session failed. Each is confined to that
/// attempt.
#[derive(PartialEq, Eq, Structural, Clone, Copy, Debug)]
pub enum SessionError {
    /// Accepting a plaintext connection failed.
    Accept,
    /// Dialling the upstream failed.
    UpstreamConnect,
    /// The configured identity is neither a DNS name nor an IP address.
    InvalidServerName,
    /// The security handshake failed or the certificate was rejected.
    TlsHandshake,
}

/// The steps of one session establishment.
#[derive(PartialEq, Eq, Structural, Clone, Copy, Debug)]
pub enum SetupStep {
    Accepting,
    Connecting,
    Handshaking,
    Established,
    Failed(SessionError),
}

/// What the outside work of the current step gave.
#[derive(PartialEq, Eq, Structural, Clone, Copy, Debug)]
pub enum SetupEvent {
    Accepted(SocketAddress),
    AcceptFailed,
    Connected,
    ConnectFailed,
    HandshakeDone,
    HandshakeFailed,
}

/// Whether an event is an outcome of the work that a step asks for.
pub open spec fn fits(step: SetupStep, event: SetupEvent) -> bool {
    match step {
        SetupStep::Accepting => event is Accepted || event is AcceptFailed,
        SetupStep::Connecting => event is Connected || event is ConnectFailed,
        SetupStep::Handshaking => event is HandshakeDone || event is HandshakeFailed,
        _ => false,
    }
}

/// The step that follows `step` on `event`; `name_ok` tells whether the
/// identity to present is a valid server name.
pub open spec fn next_step(step: SetupStep, event: SetupEvent, name_ok: bool) -> SetupStep {
    match event {
        SetupEvent::Accepted(_) => SetupStep::Connecting,
        SetupEvent::AcceptFailed => SetupStep::Failed(SessionError::Accept),
        SetupEvent::Connected => if name_ok {
            SetupStep::Handshaking
        } else {
            SetupStep::Failed(SessionError::InvalidServerName)
        },
        SetupEvent::ConnectFailed => SetupStep::Failed(SessionError::UpstreamConnect),
        SetupEvent::HandshakeDone => SetupStep::Established,
        SetupEvent::HandshakeFailed => SetupStep::Failed(SessionError::TlsHandshake),
    }
}

/// The step reached from the start by a run of events.
pub open spec fn run_setup(events: Seq<SetupEvent>, name_ok: bool) -> SetupStep
    decreases events.len(),
{
    if events.len() == 0 {
        SetupStep::Accepting
    } else {
        next_step(run_setup(events.drop_last(), name_ok), events.last(), name_ok)
    }
}

/// Whether a string is accepted as a server name for the handshake.
pub uninterp spec fn is_server_name(s: Seq<char>) -> bool;

/// Relies on rustls-pki-types' `ServerName::try_from(&str)`: it succeeds
/// exactly when the text is a valid DNS name or an IP address, which depends
/// on the text alone.
#[verifier::external_body]
fn server_name_ok(s: &str) -> (r: bool)
    ensures
        r == is_server_name(s@),
{
    tokio_rustls::rustls::pki_types::ServerName::try_from(s).is_ok()
}

/// One establishment of a session: accept a plaintext connection, dial the
/// upstream, check the identity, negotiate security. Each attempt starts from
/// a fresh value, so a failed attempt leaves nothing behind for the next.
pub struct SessionSetup {
    step: SetupStep,
    peer: Option<SocketAddress>,
}

impl SessionSetup {
    pub closed spec fn step_spec(&self) -> SetupStep {
        self.step
    }

    pub closed spec fn peer_spec(&self) -> Option<SocketAddress> {
        self.peer
    }

    /// A peer is known from the moment a connection was accepted.
    pub closed spec fn wf(&self) -> bool {
        match self.step {
            SetupStep::Accepting => self.peer is None,
            SetupStep::Connecting | SetupStep::Handshaking | SetupStep::Established => self.peer is Some,
            SetupStep::Failed(e) => e == SessionError::Accept || self.peer is Some,
        }
    }

    pub fn new() -> (r: SessionSetup)
        ensures
            r.wf(),
            r.step_spec() == SetupStep::Accepting,
            r.peer_spec() is None,
    {
        SessionSetup { step: SetupStep::Accepting, peer: None }
    }

    pub fn step(&self) -> (r: SetupStep)
        ensures
            r == self.step_spec(),
    {
        self.step
    }

    /// Moves on by `event`, given whether the identity is a valid server name.
    pub fn advance(&mut self, event: SetupEvent, name_ok: bool)
        requires
            old(self).wf(),
            fits(old(self).step_spec(), event),
        ensures
            final(self).wf(),
            final(self).step_spec() == next_step(old(self).step_spec(), event, name_ok),
            final(self).peer_spec() == match event {
                SetupEvent::Accepted(p) => Some(p),
                _ => old(self).peer_spec(),
            },
    {
        match event {
            SetupEvent::Accepted(p) => {
                self.peer = Some(p);
                self.step = SetupStep::Connecting;
            },
            SetupEvent::AcceptFailed => {
                self.step = SetupStep::Failed(SessionError::Accept);
            },
            SetupEvent::Connected => {
                if name_ok {
                    self.step = SetupStep::Handshaking;
                } else {
                    self.step = SetupStep::Failed(SessionError::InvalidServerName);
                }
            },
            SetupEvent::ConnectFailed => {
                self.step = SetupStep::Failed(SessionError::UpstreamConnect);
            },
            SetupEvent::HandshakeDone => {
                self.step = SetupStep::Established;
            },
            SetupEvent::HandshakeFailed => {
                self.step = SetupStep::Failed(SessionError::TlsHandshake);
            },
        }
    }

    /// Moves on by `event`; after the upstream connection the identity
    /// `hostname` is checked as a server name.
    pub fn on_event(&mut self, event: SetupEvent, hostname: &str)
        requires
            old(self).wf(),
            fits(old(self).step_spec(), event),
        ensures
            final(self).wf(),
            final(self).step_spec() == next_step(
                old(self).step_spec(),
                event,
                is_server_name(hostname@),
            ),
            final(self).peer_spec() == match event {
                SetupEvent::Accepted(p) => Some(p),
                _ => old(self).peer_spec(),
            },
    {
        let name_ok = match event {
            SetupEvent::Connected => server_name_ok(hostname),
            _ => true,
        };
        proof {
            if !(event is Connected) {
                assert(next_step(self.step, event, name_ok) == next_step(
                    self.step,
                    event,
                    is_server_name(hostname@),
                ));
            }
        }
        self.advance(event, name_ok);
    }

    /// The outcome of the attempt once it has ended: the peer's metadata, or
    /// the error that ended it.
    pub fn outcome(&self) -> (r: Option<Result<Metadata, SessionError>>)
        requires
            self.wf(),
        ensures
            match self.step_spec() {
                SetupStep::Established => r matches Some(Ok(m)) && Some(m.peer_spec())
                    == self.peer_spec(),
                SetupStep::Failed(e) => r == Some(Err::<Metadata, SessionError>(e)),
                _ => r is None,
            },
    {
        match self.step {
            SetupStep::Established => match self.peer {
                Some(p) => Some(Ok(Metadata::new(p))),
                None => None,
            },
            SetupStep::Failed(e) => Some(Err(e)),
            _ => None,
        }
    }
}

} // verus!
