//! A secure tunnel client: plaintext connections accepted locally are paired
//! with an encrypted connection to one fixed upstream, and bytes are forwarded
//! unchanged in both directions.
//!
//! The library holds the decisions of the tunnel: the byte-forwarding engine of
//! each direction, the pairing of stream halves into a session, the steps of
//! session establishment, the certificate policies and the accept-loop policy.
//! The sockets, the handshake and the scheduling are driven around it.

pub mod serve;
pub mod session;
pub mod setup;
pub mod splice;
pub mod trust;

pub use serve::{after_attempt, LoopAction, LoopPolicy};
pub use session::{
    create_session, pipes, IpAddress, Metadata, Pipe, Pipes, Session, SocketAddress,
};
pub use setup::{SessionError, SessionSetup, SetupEvent, SetupStep};
pub use splice::{ReadOutcome, SpliceAction, SpliceStatus, Splicer, WriteOutcome};
pub use trust::{SignatureScheme, Verifier, VerifierPolicy};
