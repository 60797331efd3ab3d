use vstd::prelude::*;

verus! {

/// How server certificates and handshake signatures are judged.
#[derive(PartialEq, Eq, Structural, Clone, Copy, Debug)]
pub enum VerifierPolicy {
    /// Defer to the platform's trust store; reject whatever it rejects.
    Strict,
    /// Accept every certificate and every signature. Only for callers that
    /// asked for no verification (tests, peers pinned by other means).
    Permissive,
}

/// The signature schemes a verifier can announce.
#[derive(PartialEq, Eq, Structural, Clone, Copy, Debug)]
pub enum SignatureScheme {
    Ed25519,
    RsaPssSha256,
    RsaPssSha384,
    RsaPssSha512,
    EcdsaNistp256Sha256,
    EcdsaNistp384Sha384,
    EcdsaNistp521Sha512,
}

/// The schemes announced by the permissive policy.
pub open spec fn permissive_schemes() -> Seq<SignatureScheme> {
    seq![
        SignatureScheme::Ed25519,
        SignatureScheme::RsaPssSha256,
        SignatureScheme::RsaPssSha384,
        SignatureScheme::RsaPssSha512,
        SignatureScheme::EcdsaNistp256Sha256,
        SignatureScheme::EcdsaNistp384Sha384,
        SignatureScheme::EcdsaNistp521Sha512,
    ]
}

/// A certificate verifier, chosen explicitly by configuration: there is no
/// default policy.
#[derive(PartialEq, Eq, Structural, Clone, Copy, Debug)]
pub struct Verifier {
    pub policy: VerifierPolicy,
}

impl Verifier {
    /// The verdict on a certificate chain, given the trust store's own.
    pub open spec fn accepts_certificate(&self, trust_store_accepts: bool) -> bool {
        self.policy == VerifierPolicy::Permissive || trust_store_accepts
    }

    pub fn strict() -> (r: Verifier)
        ensures
            r.policy == VerifierPolicy::Strict,
    {
        Verifier { policy: VerifierPolicy::Strict }
    }

    pub fn permissive() -> (r: Verifier)
        ensures
            r.policy == VerifierPolicy::Permissive,
    {
        Verifier { policy: VerifierPolicy::Permissive }
    }

    /// Whether a judgement of the trust store is needed at all.
    pub fn consults_trust_store(&self) -> (r: bool)
        ensures
            r == (self.policy == VerifierPolicy::Strict),
    {
        match self.policy {
            VerifierPolicy::Strict => true,
            VerifierPolicy::Permissive => false,
        }
    }

    /// Accepts the server's certificate chain for the claimed identity.
    /// `trust_store_accepts` is what the platform's trust store made of it.
    pub fn verify_server_cert(&self, trust_store_accepts: bool) -> (r: bool)
        ensures
            r == self.accepts_certificate(trust_store_accepts),
    {
        match self.policy {
            VerifierPolicy::Strict => trust_store_accepts,
            VerifierPolicy::Permissive => true,
        }
    }

    /// Accepts a handshake signature of protocol version 1.2.
    /// `signature_valid` is what the platform's check of the signature gave.
    pub fn verify_tls12_signature(&self, signature_valid: bool) -> (r: bool)
        ensures
            r == (self.policy == VerifierPolicy::Permissive || signature_valid),
    {
        match self.policy {
            VerifierPolicy::Strict => signature_valid,
            VerifierPolicy::Permissive => true,
        }
    }

    /// Accepts a handshake signature of protocol version 1.3.
    /// `signature_valid` is what the platform's check of the signature gave.
    pub fn verify_tls13_signature(&self, signature_valid: bool) -> (r: bool)
        ensures
            r == (self.policy == VerifierPolicy::Permissive || signature_valid),
    {
        match self.policy {
            VerifierPolicy::Strict => signature_valid,
            VerifierPolicy::Permissive => true,
        }
    }

    /// The signature schemes this verifier announces: the fixed list of the
    /// permissive policy, or `None` where the trust store's verifier decides.
    pub fn supported_verify_schemes(&self) -> (r: Option<Vec<SignatureScheme>>)
        ensures
            self.policy == VerifierPolicy::Strict ==> r is None,
            self.policy == VerifierPolicy::Permissive ==> (r matches Some(v) && v@
                == permissive_schemes()),
    {
        match self.policy {
            VerifierPolicy::Strict => None,
            VerifierPolicy::Permissive => {
                let v = vec![
                    SignatureScheme::Ed25519,
                    SignatureScheme::RsaPssSha256,
                    SignatureScheme::RsaPssSha384,
                    SignatureScheme::RsaPssSha512,
                    SignatureScheme::EcdsaNistp256Sha256,
                    SignatureScheme::EcdsaNistp384Sha384,
                    SignatureScheme::EcdsaNistp521Sha512,
                ];
                assert(v@ =~= permissive_schemes());
                Some(v)
            },
        }
    }
}

} // verus!
