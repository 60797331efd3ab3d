use vstd::prelude::*;

use crate::session::SocketAddress;
use crate::setup::{run_setup, SessionError, SetupEvent, SetupStep};
use crate::trust::{Verifier, VerifierPolicy};

verus! {

/// What the accept loop does when an attempt to establish a session fails.
#[derive(PartialEq, Eq, Structural, Clone, Copy, Debug)]
pub enum LoopPolicy {
    /// Report the failure and wait for the next connection.
    ContinueOnError,
    /// Stop serving at the first failure.
    StopOnError,
}

/// What the accept loop does after one attempt.
#[derive(PartialEq, Eq, Structural, Clone, Copy, Debug)]
pub enum LoopAction {
    /// Hand the two directions of the new session off to run on their own.
    Spawn,
    /// Report the failure and go on accepting.
    Retry,
    /// Stop serving.
    Stop,
}

pub open spec fn action_after(policy: LoopPolicy, established: bool) -> LoopAction {
    if established {
        LoopAction::Spawn
    } else if policy == LoopPolicy::ContinueOnError {
        LoopAction::Retry
    } else {
        LoopAction::Stop
    }
}

/// The decision of the accept loop after an attempt that did or did not
/// establish a session.
pub fn after_attempt(policy: LoopPolicy, established: bool) -> (r: LoopAction)
    ensures
        r == action_after(policy, established),
{
    if established {
        LoopAction::Spawn
    } else {
        match policy {
            LoopPolicy::ContinueOnError => LoopAction::Retry,
            LoopPolicy::StopOnError => LoopAction::Stop,
        }
    }
}

/// The loop's decisions over a run of attempts, each given by its events.
pub open spec fn loop_actions(
    policy: LoopPolicy,
    attempts: Seq<Seq<SetupEvent>>,
    name_ok: bool,
) -> Seq<LoopAction> {
    attempts.map_values(
        |a: Seq<SetupEvent>| action_after(policy, run_setup(a, name_ok) == SetupStep::Established),
    )
}

/// An attempt whose dial of the upstream is refused.
pub open spec fn refused_attempt(peer: SocketAddress) -> Seq<SetupEvent> {
    seq![SetupEvent::Accepted(peer), SetupEvent::ConnectFailed]
}

/// An attempt that goes through, or fails in the handshake, as `handshake_ok` says.
pub open spec fn dialled_attempt(peer: SocketAddress, handshake_ok: bool) -> Seq<SetupEvent> {
    seq![
        SetupEvent::Accepted(peer),
        SetupEvent::Connected,
        if handshake_ok {
            SetupEvent::HandshakeDone
        } else {
            SetupEvent::HandshakeFailed
        },
    ]
}

/// Under the continue-on-error policy the loop never stops, whatever the
/// attempts give.
pub proof fn lemma_failures_never_stop_the_loop(attempts: Seq<Seq<SetupEvent>>, name_ok: bool)
    ensures
        forall|i: int|
            0 <= i < attempts.len() ==> loop_actions(LoopPolicy::ContinueOnError, attempts, name_ok)[i]
                != LoopAction::Stop,
{
}

/// When the upstream refuses `n` connections and then accepts one, each of the
/// first `n` attempts ends with an upstream-connect error and the loop goes on,
/// and the next attempt establishes a session that the loop hands off.
pub proof fn lemma_refusals_then_success(peers: Seq<SocketAddress>, n: nat)
    requires
        peers.len() == n + 1,
    ensures
        ({
            let attempts = Seq::new(
                n + 1,
                |i: int|
                    if i < n {
                        refused_attempt(peers[i])
                    } else {
                        dialled_attempt(peers[i], true)
                    },
            );
            let actions = loop_actions(LoopPolicy::ContinueOnError, attempts, true);
            &&& actions.len() == n + 1
            &&& forall|i: int|
                0 <= i < n ==> run_setup(#[trigger] attempts[i], true) == SetupStep::Failed(
                    SessionError::UpstreamConnect,
                ) && actions[i] == LoopAction::Retry
            &&& run_setup(attempts[n as int], true) == SetupStep::Established
            &&& actions[n as int] == LoopAction::Spawn
        }),
{
    let attempts = Seq::new(
        n + 1,
        |i: int|
            if i < n {
                refused_attempt(peers[i])
            } else {
                dialled_attempt(peers[i], true)
            },
    );
    assert forall|i: int| 0 <= i < n implies run_setup(#[trigger] attempts[i], true)
        == SetupStep::Failed(SessionError::UpstreamConnect) by {
        let a = attempts[i];
        assert(a.drop_last().drop_last().len() == 0);
        assert(a.drop_last().last() == SetupEvent::Accepted(peers[i]));
    }
    let a = attempts[n as int];
    assert(a.drop_last().drop_last().drop_last().len() == 0);
    assert(a.drop_last().drop_last().last() == SetupEvent::Accepted(peers[n as int]));
    assert(a.drop_last().last() == SetupEvent::Connected);
}

/// A certificate the trust store rejects ends the attempt with a handshake
/// error under the strict policy, before any session exists; under the
/// permissive policy the same certificate is accepted and the session is
/// established. The handshake goes through exactly when the verifier accepts
/// the certificate.
pub proof fn lemma_certificate_policy(v: Verifier, peer: SocketAddress, trust_store_accepts: bool)
    ensures
        ({
            let accepted = v.accepts_certificate(trust_store_accepts);
            let end = run_setup(dialled_attempt(peer, accepted), true);
            &&& v.policy == VerifierPolicy::Strict && !trust_store_accepts ==> end
                == SetupStep::Failed(SessionError::TlsHandshake)
            &&& v.policy == VerifierPolicy::Permissive ==> end == SetupStep::Established
        }),
{
    let accepted = v.accepts_certificate(trust_store_accepts);
    let a = dialled_attempt(peer, accepted);
    assert(a.drop_last().drop_last().drop_last().len() == 0);
    assert(a.drop_last().drop_last().last() == SetupEvent::Accepted(peer));
    assert(a.drop_last().last() == SetupEvent::Connected);
}

} // verus!
