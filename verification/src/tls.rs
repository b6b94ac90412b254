//! The trust policy for the outbound TLS leg: either standard certificate
//! validation, or an accept-all verifier that still advertises a fixed list
//! of signature schemes so any handshake can proceed. Inbound connections
//! never involve TLS, so the policy concerns only the dial to the backend.

use vstd::prelude::*;

verus! {

/// The certificate-verification strategy used when dialing the backend.
#[derive(Debug, Clone, Copy, PartialEq, Eq, Structural)]
pub enum TrustPolicy {
    /// Standard chain and hostname validation.
    Strict,
    /// Accept any certificate chain and any signature.
    AcceptAll,
}

/// The policy selected once at client-construction time from the
/// `bypass_tls_validation` flag.
pub fn trust_policy_for(bypass_tls_validation: bool) -> (r: TrustPolicy)
    ensures
        r == (if bypass_tls_validation {
            TrustPolicy::AcceptAll
        } else {
            TrustPolicy::Strict
        }),
{
    if bypass_tls_validation {
        TrustPolicy::AcceptAll
    } else {
        TrustPolicy::Strict
    }
}

/// A signature scheme the accept-all verifier advertises.
#[derive(Debug, Clone, Copy, PartialEq, Eq, Structural)]
pub enum SignatureSchemeKind {
    RsaPkcs1Sha256,
    RsaPkcs1Sha384,
    RsaPkcs1Sha512,
    EcdsaNistp256Sha256,
    EcdsaNistp384Sha384,
    RsaPssSha256,
    RsaPssSha384,
    RsaPssSha512,
    Ed25519,
}

/// The fixed scheme list the accept-all verifier advertises.
pub open spec fn accept_all_scheme_list() -> Seq<SignatureSchemeKind> {
    seq![
        SignatureSchemeKind::RsaPkcs1Sha256,
        SignatureSchemeKind::RsaPkcs1Sha384,
        SignatureSchemeKind::RsaPkcs1Sha512,
        SignatureSchemeKind::EcdsaNistp256Sha256,
        SignatureSchemeKind::EcdsaNistp384Sha384,
        SignatureSchemeKind::RsaPssSha256,
        SignatureSchemeKind::RsaPssSha384,
        SignatureSchemeKind::RsaPssSha512,
        SignatureSchemeKind::Ed25519,
    ]
}

/// The schemes the accept-all verifier reports as supported, in their fixed
/// order.
pub fn accept_all_schemes() -> (r: Vec<SignatureSchemeKind>)
    ensures
        r@ == accept_all_scheme_list(),
{
    let mut v: Vec<SignatureSchemeKind> = Vec::new();
    v.push(SignatureSchemeKind::RsaPkcs1Sha256);
    v.push(SignatureSchemeKind::RsaPkcs1Sha384);
    v.push(SignatureSchemeKind::RsaPkcs1Sha512);
    v.push(SignatureSchemeKind::EcdsaNistp256Sha256);
    v.push(SignatureSchemeKind::EcdsaNistp384Sha384);
    v.push(SignatureSchemeKind::RsaPssSha256);
    v.push(SignatureSchemeKind::RsaPssSha384);
    v.push(SignatureSchemeKind::RsaPssSha512);
    v.push(SignatureSchemeKind::Ed25519);
    proof {
        assert(v@ =~= accept_all_scheme_list());
    }
    v
}

} // verus!
