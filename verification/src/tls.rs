//! How a certificate check that failed is treated while a server is
//! probed for its certificates.

use vstd::prelude::*;

verus! {

/// What the certificate verifier found. Of the ways in which a certificate
/// can be invalid, two are told apart.
#[derive(Clone, Copy, Debug, PartialEq, Eq, Structural)]
pub enum CertificateCheck {
    /// The chain verified.
    Verified,
    /// The chain leads to no trusted root.
    UnknownIssuer,
    /// The certificate's validity starts in the future.
    NotValidYet,
    /// The certificate is invalid for another reason.
    OtherInvalid,
    /// The check failed for a reason that is not the certificate's.
    Failed,
}

/// Text shown to the user on top of the verifier's own message.
#[derive(Clone, Copy, Debug, PartialEq, Eq, Structural)]
pub enum Help {
    /// How to trust the issuer.
    UnknownIssuer,
    /// That the clock may be wrong.
    NotValidYet,
}

/// What to do with the connection and what to show.
#[derive(Clone, Copy, Debug, PartialEq, Eq, Structural)]
pub struct Verdict {
    /// Go on with the connection as if the certificate had verified.
    pub accept: bool,
    /// Show the verifier's message that the certificate is invalid.
    pub notify_invalid: bool,
    /// Show this help after it.
    pub help: Option<Help>,
}

/// The verdict on a check: of all failures only the unknown issuer is
/// overridden, so that the certificates of a server whose root is not yet
/// trusted can be fetched and shown; every invalid certificate is
/// reported to the user.
pub open spec fn spec_stifled_verdict(check: CertificateCheck) -> Verdict {
    match check {
        CertificateCheck::Verified => Verdict { accept: true, notify_invalid: false, help: None },
        CertificateCheck::UnknownIssuer => Verdict {
            accept: true,
            notify_invalid: true,
            help: Some(Help::UnknownIssuer),
        },
        CertificateCheck::NotValidYet => Verdict {
            accept: false,
            notify_invalid: true,
            help: Some(Help::NotValidYet),
        },
        CertificateCheck::OtherInvalid => Verdict {
            accept: false,
            notify_invalid: true,
            help: None,
        },
        CertificateCheck::Failed => Verdict { accept: false, notify_invalid: false, help: None },
    }
}

/// The verdict on a check of a server's certificate.
pub fn verify_server_cert(check: CertificateCheck) -> (verdict: Verdict)
    ensures
        verdict == spec_stifled_verdict(check),
        verdict.accept <==> check is Verified || check is UnknownIssuer,
{
    match check {
        CertificateCheck::Verified => Verdict { accept: true, notify_invalid: false, help: None },
        CertificateCheck::UnknownIssuer => Verdict {
            accept: true,
            notify_invalid: true,
            help: Some(Help::UnknownIssuer),
        },
        CertificateCheck::NotValidYet => Verdict {
            accept: false,
            notify_invalid: true,
            help: Some(Help::NotValidYet),
        },
        CertificateCheck::OtherInvalid => Verdict {
            accept: false,
            notify_invalid: true,
            help: None,
        },
        CertificateCheck::Failed => Verdict { accept: false, notify_invalid: false, help: None },
    }
}

} // verus!
