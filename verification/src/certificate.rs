//! The certificate under which a device shows its key to the endpoint.
//!
//! The work on the certificate is done outside; here is decided what is to be
//! done next, with which parameters, and how a failure is reported.
use crate::keys::KeyRole;
use crate::report::{complete_walk_is_all, follows, walks, Report};
use vstd::prelude::*;

verus! {

/// The steps in which the certificate is made.
#[derive(Debug, Clone, Copy, PartialEq, Eq, Structural)]
pub enum CertificateStep {
    /// An empty certificate is to be begun.
    Begin,
    /// The time from which the certificate holds is to be computed.
    StartTime,
    /// That time is to be entered.
    SetNotBefore,
    /// The time up to which the certificate holds is to be computed.
    EndTime,
    /// That time is to be entered.
    SetNotAfter,
    /// The public key of the device is to be entered.
    SetPublicKey,
    /// The certificate is to be signed with the private key of the device.
    Sign,
    /// The certificate is complete.
    Finished,
}

/// The digest of a signature.
#[derive(Debug, Clone, Copy, PartialEq, Eq, Structural)]
pub enum SignatureDigest {
    Sha256,
}

/// What is done in a step, and with what.
#[derive(Debug, Clone, Copy, PartialEq, Eq, Structural)]
pub enum CertificateAction {
    /// Begin an empty certificate.
    Begin,
    /// Compute the time that lies this many days from now.
    ComputeTime { days: u32 },
    /// Enter the computed time as the start of the validity.
    SetNotBefore,
    /// Enter the computed time as the end of the validity.
    SetNotAfter,
    /// Enter the public half of this key.
    SetPublicKey { key: KeyRole },
    /// Sign with the private half of this key, over this digest.
    Sign { key: KeyRole, digest: SignatureDigest },
    /// Nothing is left to do.
    Nothing,
}

/// The order of the steps.
pub open spec fn certificate_steps() -> Seq<CertificateStep> {
    seq![
        CertificateStep::Begin,
        CertificateStep::StartTime,
        CertificateStep::SetNotBefore,
        CertificateStep::EndTime,
        CertificateStep::SetNotAfter,
        CertificateStep::SetPublicKey,
        CertificateStep::Sign,
        CertificateStep::Finished,
    ]
}

impl CertificateStep {
    /// The place of the step in their order.
    pub open spec fn position(self) -> int {
        match self {
            CertificateStep::Begin => 0,
            CertificateStep::StartTime => 1,
            CertificateStep::SetNotBefore => 2,
            CertificateStep::EndTime => 3,
            CertificateStep::SetNotAfter => 4,
            CertificateStep::SetPublicKey => 5,
            CertificateStep::Sign => 6,
            CertificateStep::Finished => 7,
        }
    }

    /// The first step.
    pub fn start() -> (first: CertificateStep)
        ensures
            first == certificate_steps().first(),
    {
        CertificateStep::Begin
    }

    /// What comes after the step: the next one where it was done, else its
    /// failure.
    pub fn advance(self, done: bool) -> (next: Result<CertificateStep, CertificateStep>)
        requires
            self != CertificateStep::Finished,
        ensures
            match next {
                Ok(next) => done && follows(certificate_steps(), self, next),
                Err(failed) => !done && failed == self,
            },
    {
        if !done {
            return Err(self);
        }
        assert(certificate_steps()[self.position()] == self);
        Ok(
            match self {
                CertificateStep::Begin => CertificateStep::StartTime,
                CertificateStep::StartTime => CertificateStep::SetNotBefore,
                CertificateStep::SetNotBefore => CertificateStep::EndTime,
                CertificateStep::EndTime => CertificateStep::SetNotAfter,
                CertificateStep::SetNotAfter => CertificateStep::SetPublicKey,
                CertificateStep::SetPublicKey => CertificateStep::Sign,
                _ => CertificateStep::Finished,
            },
        )
    }

    /// What is done in the step: the certificate holds from now on, for one day,
    /// has the public key of the device, and is signed with the device's own key.
    pub open spec fn does(self) -> CertificateAction {
        match self {
            CertificateStep::Begin => CertificateAction::Begin,
            CertificateStep::StartTime => CertificateAction::ComputeTime { days: 0 },
            CertificateStep::SetNotBefore => CertificateAction::SetNotBefore,
            CertificateStep::EndTime => CertificateAction::ComputeTime { days: 1 },
            CertificateStep::SetNotAfter => CertificateAction::SetNotAfter,
            CertificateStep::SetPublicKey => CertificateAction::SetPublicKey {
                key: KeyRole::Device,
            },
            CertificateStep::Sign => CertificateAction::Sign {
                key: KeyRole::Device,
                digest: SignatureDigest::Sha256,
            },
            CertificateStep::Finished => CertificateAction::Nothing,
        }
    }

    /// What is done in the step.
    pub fn action(self) -> (action: CertificateAction)
        ensures
            action == self.does(),
    {
        match self {
            CertificateStep::Begin => CertificateAction::Begin,
            CertificateStep::StartTime => CertificateAction::ComputeTime { days: 0 },
            CertificateStep::SetNotBefore => CertificateAction::SetNotBefore,
            CertificateStep::EndTime => CertificateAction::ComputeTime { days: 1 },
            CertificateStep::SetNotAfter => CertificateAction::SetNotAfter,
            CertificateStep::SetPublicKey => CertificateAction::SetPublicKey {
                key: KeyRole::Device,
            },
            CertificateStep::Sign => CertificateAction::Sign {
                key: KeyRole::Device,
                digest: SignatureDigest::Sha256,
            },
            CertificateStep::Finished => CertificateAction::Nothing,
        }
    }

    /// How the failure of the step is reported.
    pub fn report(self) -> (report: Report)
        requires
            self != CertificateStep::Finished,
        ensures
            match self {
                CertificateStep::Begin => report matches Report::Prefixed(what) && what@
                    == "x509 builder"@,
                CertificateStep::SetNotBefore => report matches Report::Prefixed(what) && what@
                    == "set not before"@,
                CertificateStep::SetNotAfter => report matches Report::Prefixed(what) && what@
                    == "set not after"@,
                CertificateStep::SetPublicKey => report matches Report::Prefixed(what) && what@
                    == "set pubkey"@,
                CertificateStep::Sign => report matches Report::Prefixed(what) && what@
                    == "sign certificate"@,
                _ => report is Plain,
            },
    {
        match self {
            CertificateStep::Begin => Report::Prefixed("x509 builder"),
            CertificateStep::SetNotBefore => Report::Prefixed("set not before"),
            CertificateStep::SetNotAfter => Report::Prefixed("set not after"),
            CertificateStep::SetPublicKey => Report::Prefixed("set pubkey"),
            CertificateStep::Sign => Report::Prefixed("sign certificate"),
            _ => Report::Plain,
        }
    }
}

/// What a certificate holds while it is being made.
pub struct CertificateContents {
    /// The computed time that was not entered yet, in days from now.
    pub time: Option<u32>,
    /// The start of the validity, in days from now.
    pub not_before: Option<u32>,
    /// The end of the validity, in days from now.
    pub not_after: Option<u32>,
    /// Whose public key it holds.
    pub public_key: Option<KeyRole>,
    /// Whose key it was signed with, and over which digest.
    pub signature: Option<(KeyRole, SignatureDigest)>,
}

impl CertificateContents {
    /// An empty certificate.
    pub open spec fn blank() -> CertificateContents {
        CertificateContents {
            time: None,
            not_before: None,
            not_after: None,
            public_key: None,
            signature: None,
        }
    }

    /// The certificate after one more action.
    pub open spec fn after(self, action: CertificateAction) -> CertificateContents {
        match action {
            CertificateAction::Begin => CertificateContents::blank(),
            CertificateAction::ComputeTime { days } => CertificateContents {
                time: Some(days),
                ..self
            },
            CertificateAction::SetNotBefore => CertificateContents {
                not_before: self.time,
                time: None,
                ..self
            },
            CertificateAction::SetNotAfter => CertificateContents {
                not_after: self.time,
                time: None,
                ..self
            },
            CertificateAction::SetPublicKey { key } => CertificateContents {
                public_key: Some(key),
                ..self
            },
            CertificateAction::Sign { key, digest } => CertificateContents {
                signature: Some((key, digest)),
                ..self
            },
            CertificateAction::Nothing => self,
        }
    }

    /// The certificate that these steps make.
    pub open spec fn made_by(steps: Seq<CertificateStep>) -> CertificateContents
        decreases steps.len(),
    {
        if steps.len() == 0 {
            CertificateContents::blank()
        } else {
            CertificateContents::made_by(steps.drop_last()).after(steps.last().does())
        }
    }

    /// The certificate of the device: valid from now on, for one day, with the
    /// public key of the device, signed with the device's key over SHA-256.
    pub open spec fn of_device() -> CertificateContents {
        CertificateContents {
            time: None,
            not_before: Some(0),
            not_after: Some(1),
            public_key: Some(KeyRole::Device),
            signature: Some((KeyRole::Device, SignatureDigest::Sha256)),
        }
    }
}

/// A certificate is complete only when every step was done, each once and in
/// the order of `certificate_steps`, and then it is the certificate of the device:
/// it never holds the endpoint's key.
pub proof fn complete_certificate_is_the_devices(visited: Seq<CertificateStep>)
    requires
        walks(certificate_steps(), visited),
        visited.last() == CertificateStep::Finished,
    ensures
        visited == certificate_steps(),
        CertificateContents::made_by(visited) == CertificateContents::of_device(),
{
    complete_walk_is_all(certificate_steps(), visited);
    reveal_with_fuel(CertificateContents::made_by, 9);
}

/// The making of the certificate goes on exactly where the step was done; a step
/// that failed ends it and is the one that is reported.
pub proof fn only_done_steps_go_on(
    step: CertificateStep,
    done: bool,
    next: Result<CertificateStep, CertificateStep>,
)
    requires
        step !is Finished,
        call_ensures(CertificateStep::advance, (step, done), next),
    ensures
        call_requires(CertificateStep::advance, (step, done)),
        next is Ok <==> done,
        next matches Ok(next) ==> next.position() == step.position() + 1,
        next matches Err(failed) ==> failed == step,
{
    if let Ok(next) = next {
        let i = choose|i: int|
            0 <= i < certificate_steps().len() - 1 && #[trigger] certificate_steps()[i] == step
                && certificate_steps()[i + 1] == next;
        assert(certificate_steps()[i].position() == i);
        assert(certificate_steps()[i + 1].position() == i + 1);
    }
}

/// Whatever the step, the only key that goes into a certificate or signs it is the
/// device's, the only digest is SHA-256, and no time but the present and the one a day
/// later is computed; each of these is done in one step alone.
pub proof fn certificate_uses_the_devices_key_alone(
    step: CertificateStep,
    action: CertificateAction,
)
    requires
        call_ensures(CertificateStep::action, (step,), action),
    ensures
        action matches CertificateAction::SetPublicKey { key } ==> key is Device,
        action matches CertificateAction::Sign { key, digest } ==> key is Device
            && digest is Sha256,
        action matches CertificateAction::ComputeTime { days } ==> days <= 1 && (days == 0
            <==> step is StartTime),
        action is Begin <==> step is Begin,
        action is ComputeTime <==> step is StartTime || step is EndTime,
        action is SetNotBefore <==> step is SetNotBefore,
        action is SetNotAfter <==> step is SetNotAfter,
        action is SetPublicKey <==> step is SetPublicKey,
        action is Sign <==> step is Sign,
        action is Nothing <==> step is Finished,
{
}

} // verus!
