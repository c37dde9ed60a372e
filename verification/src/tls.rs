//! The TLS configuration of the tunnel: how it is set up, and which certificates
//! of the endpoint are accepted.
//!
//! The work on keys, certificates and contexts is done outside; here is decided
//! what is to be done next, with which parameters, and how a failure is
//! reported.
use crate::certificate::CertificateContents;
use crate::keys::KeyRole;
use crate::report::{complete_walk_is_all, follows, walks, Report};
use vstd::prelude::*;

verus! {

/// The steps in which the configuration is made.
#[derive(Debug, Clone, Copy, PartialEq, Eq, Structural)]
pub enum SetupStep {
    /// The public key of the endpoint is to be read from its DER.
    ParsePeerKey,
    /// The private key of the device is to be read from its DER.
    ParsePrivateKey,
    /// The certificate of the device is to be made.
    MakeCertificate,
    /// A TLS context is to be begun.
    NewContext,
    /// The list of groups for the key exchange is to be entered.
    SetCurves,
    /// The private key of the device is to be entered.
    SetPrivateKey,
    /// The certificate of the device is to be entered.
    SetCertificate,
    /// The check of the endpoint's certificate is to be entered, with the public
    /// key of the endpoint; the endpoint has to show a certificate.
    SetVerifier,
    /// The QUIC configuration is to be made from the context.
    BuildConfig,
    /// The configuration is complete.
    Finished,
}

/// Whether the endpoint has to show a certificate.
#[derive(Debug, Clone, Copy, PartialEq, Eq, Structural)]
pub enum VerifyMode {
    /// It need not show one.
    NotAsked,
    /// It has to, and the certificate is checked.
    Peer,
}

/// The version of QUIC that the tunnel speaks.
#[derive(Debug, Clone, Copy, PartialEq, Eq, Structural)]
pub enum QuicVersion {
    /// The one that quiche gives as its own, `quiche::PROTOCOL_VERSION`.
    Quiche,
}

/// What is done in a step, and with what.
#[derive(Debug, Clone, Copy, PartialEq, Eq, Structural)]
pub enum SetupAction {
    /// Read this public key from its DER.
    ParsePublicKey { key: KeyRole },
    /// Read this private key from its DER.
    ParsePrivateKey { key: KeyRole },
    /// Make the certificate of the device.
    MakeCertificate,
    /// Begin a TLS context.
    NewContext,
    /// Enter the list of groups for the key exchange.
    SetCurves { disable_pq: bool },
    /// Enter this private key.
    SetPrivateKey { key: KeyRole },
    /// Enter the certificate that was made.
    SetCertificate,
    /// Enter the check of the endpoint's certificate, which has to hold the pinned
    /// key.
    SetVerifier { mode: VerifyMode, pinned: KeyRole },
    /// Make the QUIC configuration from the context.
    BuildConfig { version: QuicVersion },
    /// Nothing is left to do.
    Nothing,
}

/// The order of the steps.
pub open spec fn setup_steps() -> Seq<SetupStep> {
    seq![
        SetupStep::ParsePeerKey,
        SetupStep::ParsePrivateKey,
        SetupStep::MakeCertificate,
        SetupStep::NewContext,
        SetupStep::SetCurves,
        SetupStep::SetPrivateKey,
        SetupStep::SetCertificate,
        SetupStep::SetVerifier,
        SetupStep::BuildConfig,
        SetupStep::Finished,
    ]
}

impl SetupStep {
    /// The place of the step in their order.
    pub open spec fn position(self) -> int {
        match self {
            SetupStep::ParsePeerKey => 0,
            SetupStep::ParsePrivateKey => 1,
            SetupStep::MakeCertificate => 2,
            SetupStep::NewContext => 3,
            SetupStep::SetCurves => 4,
            SetupStep::SetPrivateKey => 5,
            SetupStep::SetCertificate => 6,
            SetupStep::SetVerifier => 7,
            SetupStep::BuildConfig => 8,
            SetupStep::Finished => 9,
        }
    }

    /// The first step.
    pub fn start() -> (first: SetupStep)
        ensures
            first == setup_steps().first(),
    {
        SetupStep::ParsePeerKey
    }

    /// What comes after the step: the next one where it was done, else its
    /// failure.
    pub fn advance(self, done: bool) -> (next: Result<SetupStep, SetupStep>)
        requires
            self != SetupStep::Finished,
        ensures
            match next {
                Ok(next) => done && follows(setup_steps(), self, next),
                Err(failed) => !done && failed == self,
            },
    {
        if !done {
            return Err(self);
        }
        assert(setup_steps()[self.position()] == self);
        Ok(
            match self {
                SetupStep::ParsePeerKey => SetupStep::ParsePrivateKey,
                SetupStep::ParsePrivateKey => SetupStep::MakeCertificate,
                SetupStep::MakeCertificate => SetupStep::NewContext,
                SetupStep::NewContext => SetupStep::SetCurves,
                SetupStep::SetCurves => SetupStep::SetPrivateKey,
                SetupStep::SetPrivateKey => SetupStep::SetCertificate,
                SetupStep::SetCertificate => SetupStep::SetVerifier,
                SetupStep::SetVerifier => SetupStep::BuildConfig,
                _ => SetupStep::Finished,
            },
        )
    }

    /// What is done in the step: the device shows its own key, the endpoint has to
    /// show a certificate with the endpoint's key.
    pub open spec fn does(self, disable_pq: bool) -> SetupAction {
        match self {
            SetupStep::ParsePeerKey => SetupAction::ParsePublicKey { key: KeyRole::Endpoint },
            SetupStep::ParsePrivateKey => SetupAction::ParsePrivateKey { key: KeyRole::Device },
            SetupStep::MakeCertificate => SetupAction::MakeCertificate,
            SetupStep::NewContext => SetupAction::NewContext,
            SetupStep::SetCurves => SetupAction::SetCurves { disable_pq },
            SetupStep::SetPrivateKey => SetupAction::SetPrivateKey { key: KeyRole::Device },
            SetupStep::SetCertificate => SetupAction::SetCertificate,
            SetupStep::SetVerifier => SetupAction::SetVerifier {
                mode: VerifyMode::Peer,
                pinned: KeyRole::Endpoint,
            },
            SetupStep::BuildConfig => SetupAction::BuildConfig { version: QuicVersion::Quiche },
            SetupStep::Finished => SetupAction::Nothing,
        }
    }

    /// What is done in the step.
    pub fn action(self, disable_pq: bool) -> (action: SetupAction)
        ensures
            action == self.does(disable_pq),
    {
        match self {
            SetupStep::ParsePeerKey => SetupAction::ParsePublicKey { key: KeyRole::Endpoint },
            SetupStep::ParsePrivateKey => SetupAction::ParsePrivateKey { key: KeyRole::Device },
            SetupStep::MakeCertificate => SetupAction::MakeCertificate,
            SetupStep::NewContext => SetupAction::NewContext,
            SetupStep::SetCurves => SetupAction::SetCurves { disable_pq },
            SetupStep::SetPrivateKey => SetupAction::SetPrivateKey { key: KeyRole::Device },
            SetupStep::SetCertificate => SetupAction::SetCertificate,
            SetupStep::SetVerifier => SetupAction::SetVerifier {
                mode: VerifyMode::Peer,
                pinned: KeyRole::Endpoint,
            },
            SetupStep::BuildConfig => SetupAction::BuildConfig { version: QuicVersion::Quiche },
            SetupStep::Finished => SetupAction::Nothing,
        }
    }

    /// How the failure of the step is reported.
    pub fn report(self) -> (report: Report)
        requires
            self != SetupStep::Finished,
        ensures
            match self {
                SetupStep::ParsePeerKey => report matches Report::Context(what) && what@
                    == "failed to parse peer public key"@,
                SetupStep::ParsePrivateKey => report matches Report::Context(what) && what@
                    == "failed to parse private key"@,
                SetupStep::NewContext => report matches Report::Prefixed(what) && what@
                    == "ssl context"@,
                SetupStep::SetCurves => report matches Report::Prefixed(what) && what@
                    == "set curves list"@,
                SetupStep::BuildConfig => report matches Report::Prefixed(what) && what@
                    == "quiche config"@,
                _ => report is Plain,
            },
    {
        match self {
            SetupStep::ParsePeerKey => Report::Context("failed to parse peer public key"),
            SetupStep::ParsePrivateKey => Report::Context("failed to parse private key"),
            SetupStep::NewContext => Report::Prefixed("ssl context"),
            SetupStep::SetCurves => Report::Prefixed("set curves list"),
            SetupStep::BuildConfig => Report::Prefixed("quiche config"),
            _ => Report::Plain,
        }
    }
}

/// The groups that are offered for the key exchange, the preferred one first.
pub open spec fn curves(disable_pq: bool) -> Seq<char> {
    if disable_pq {
        "P-256:P-384:P-521"@
    } else {
        "P256Kyber768Draft00:P-256:P-384:P-521"@
    }
}

/// The groups that are offered for the key exchange, the preferred one first.
pub fn curves_list(disable_pq: bool) -> (list: &'static str)
    ensures
        list@ == curves(disable_pq),
{
    if disable_pq {
        "P-256:P-384:P-521"
    } else {
        "P256Kyber768Draft00:P-256:P-384:P-521"
    }
}

/// Post-quantum key exchange only adds a group, in front of the others.
pub proof fn pq_only_adds_a_group()
    ensures
        curves(false) == "P256Kyber768Draft00:"@ + curves(true),
{
    reveal_strlit("P-256:P-384:P-521");
    reveal_strlit("P256Kyber768Draft00:");
    reveal_strlit("P256Kyber768Draft00:P-256:P-384:P-521");
    assert(curves(false) =~= "P256Kyber768Draft00:"@ + curves(true));
}

/// What a TLS context holds while it is being set up.
pub struct ContextContents {
    /// The groups for the key exchange.
    pub groups: Option<Seq<char>>,
    /// Whose private key it has.
    pub private_key: Option<KeyRole>,
    /// The certificate that it shows.
    pub certificate: Option<CertificateContents>,
    /// Whether a certificate is asked of the endpoint, and whose key it has to hold.
    pub verifier: Option<(VerifyMode, KeyRole)>,
}

/// All that the setup has made so far.
pub struct SetupContents {
    /// The public key that was read.
    pub public_key: Option<KeyRole>,
    /// The private key that was read.
    pub private_key: Option<KeyRole>,
    /// The certificate that was made.
    pub certificate: Option<CertificateContents>,
    /// The context that was begun.
    pub context: ContextContents,
    /// The configuration that was made: its version and the context it was made
    /// from.
    pub config: Option<(QuicVersion, ContextContents)>,
}

impl SetupContents {
    /// What there is before the first step.
    pub open spec fn blank() -> SetupContents {
        SetupContents {
            public_key: None,
            private_key: None,
            certificate: None,
            context: ContextContents {
                groups: None,
                private_key: None,
                certificate: None,
                verifier: None,
            },
            config: None,
        }
    }

    /// What there is after one more action. A key goes into the context only where
    /// it was read before.
    pub open spec fn after(self, action: SetupAction) -> SetupContents {
        match action {
            SetupAction::ParsePublicKey { key } => SetupContents { public_key: Some(key), ..self },
            SetupAction::ParsePrivateKey { key } => SetupContents {
                private_key: Some(key),
                ..self
            },
            SetupAction::MakeCertificate => SetupContents {
                certificate: Some(CertificateContents::of_device()),
                ..self
            },
            SetupAction::NewContext => SetupContents {
                context: SetupContents::blank().context,
                ..self
            },
            SetupAction::SetCurves { disable_pq } => SetupContents {
                context: ContextContents { groups: Some(curves(disable_pq)), ..self.context },
                ..self
            },
            SetupAction::SetPrivateKey { key } => SetupContents {
                context: ContextContents {
                    private_key: if self.private_key == Some(key) {
                        Some(key)
                    } else {
                        None
                    },
                    ..self.context
                },
                ..self
            },
            SetupAction::SetCertificate => SetupContents {
                context: ContextContents { certificate: self.certificate, ..self.context },
                ..self
            },
            SetupAction::SetVerifier { mode, pinned } => SetupContents {
                context: ContextContents {
                    verifier: if self.public_key == Some(pinned) {
                        Some((mode, pinned))
                    } else {
                        None
                    },
                    ..self.context
                },
                ..self
            },
            SetupAction::BuildConfig { version } => SetupContents {
                config: Some((version, self.context)),
                ..self
            },
            SetupAction::Nothing => self,
        }
    }

    /// What these steps make.
    pub open spec fn made_by(steps: Seq<SetupStep>, disable_pq: bool) -> SetupContents
        decreases steps.len(),
    {
        if steps.len() == 0 {
            SetupContents::blank()
        } else {
            SetupContents::made_by(steps.drop_last(), disable_pq).after(
                steps.last().does(disable_pq),
            )
        }
    }
}

/// A configuration is complete only when every step was done, each once and in
/// the order of `setup_steps`. It then speaks the version of quiche, has the private
/// key of the device and the certificate of the device, offers the groups that were
/// asked for, and accepts only an endpoint that shows a certificate with the
/// endpoint's key.
pub proof fn complete_setup_is_pinned(visited: Seq<SetupStep>, disable_pq: bool)
    requires
        walks(setup_steps(), visited),
        visited.last() == SetupStep::Finished,
    ensures
        visited == setup_steps(),
        SetupContents::made_by(visited, disable_pq).config matches Some((version, context))
            && version == QuicVersion::Quiche
            && context.groups == Some(curves(disable_pq))
            && context.private_key == Some(KeyRole::Device)
            && context.certificate == Some(CertificateContents::of_device())
            && context.verifier == Some((VerifyMode::Peer, KeyRole::Endpoint)),
{
    complete_walk_is_all(setup_steps(), visited);
    let parsed = SetupContents {
        public_key: Some(KeyRole::Endpoint),
        private_key: Some(KeyRole::Device),
        certificate: Some(CertificateContents::of_device()),
        ..SetupContents::blank()
    };
    assert(SetupContents::made_by(visited.take(4), disable_pq) == parsed) by {
        made_by_one_more(visited, disable_pq, 0);
        made_by_one_more(visited, disable_pq, 1);
        made_by_one_more(visited, disable_pq, 2);
        made_by_one_more(visited, disable_pq, 3);
    }
    let context = ContextContents {
        groups: Some(curves(disable_pq)),
        private_key: Some(KeyRole::Device),
        certificate: Some(CertificateContents::of_device()),
        verifier: Some((VerifyMode::Peer, KeyRole::Endpoint)),
    };
    assert(SetupContents::made_by(visited.take(8), disable_pq) == SetupContents {
        context,
        ..parsed
    }) by {
        made_by_one_more(visited, disable_pq, 4);
        made_by_one_more(visited, disable_pq, 5);
        made_by_one_more(visited, disable_pq, 6);
        made_by_one_more(visited, disable_pq, 7);
    }
    made_by_one_more(visited, disable_pq, 8);
    made_by_one_more(visited, disable_pq, 9);
    assert(visited.take(10) =~= visited);
}

proof fn made_by_one_more(steps: Seq<SetupStep>, disable_pq: bool, n: int)
    requires
        0 <= n < steps.len(),
    ensures
        SetupContents::made_by(steps.take(n + 1), disable_pq) == SetupContents::made_by(
            steps.take(n),
            disable_pq,
        ).after(steps[n].does(disable_pq)),
        n == 0 ==> SetupContents::made_by(steps.take(n), disable_pq) == SetupContents::blank(),
{
    assert(steps.take(n + 1).drop_last() =~= steps.take(n));
}

/// How one time lies to another.
#[derive(Debug, Clone, Copy, PartialEq, Eq, Structural)]
pub enum TimeOrder {
    Earlier,
    Same,
    Later,
}

/// The alert with which the endpoint is refused.
#[derive(Debug, Clone, Copy, PartialEq, Eq, Structural)]
pub enum PeerAlert {
    NoCertificate,
    CertificateExpired,
    BadCertificate,
}

/// What has to be known next of the endpoint's certificate.
#[derive(Debug, Clone, Copy, PartialEq, Eq, Structural)]
pub enum PeerQuestion {
    /// Whether the endpoint showed a certificate.
    Presence,
    /// How the end of its validity lies to the present.
    NotAfter,
    /// How the start of its validity lies to the present.
    NotBefore,
    /// Whether its public key is the key of the endpoint.
    PublicKey,
}

/// What was found out of the endpoint's certificate.
#[derive(Debug, Clone, Copy, PartialEq, Eq, Structural)]
pub enum PeerAnswer {
    Presence(bool),
    NotAfter(TimeOrder),
    NotBefore(TimeOrder),
    PublicKey(bool),
}

/// What to do with the endpoint.
#[derive(Debug, Clone, Copy, PartialEq, Eq, Structural)]
pub enum PeerDecision {
    Ask(PeerQuestion),
    Accept,
    Refuse(PeerAlert),
}

/// What follows from one answer.
pub open spec fn decision(answer: PeerAnswer) -> PeerDecision {
    match answer {
        PeerAnswer::Presence(false) => PeerDecision::Refuse(PeerAlert::NoCertificate),
        PeerAnswer::Presence(true) => PeerDecision::Ask(PeerQuestion::NotAfter),
        PeerAnswer::NotAfter(TimeOrder::Earlier) => PeerDecision::Refuse(
            PeerAlert::CertificateExpired,
        ),
        PeerAnswer::NotAfter(_) => PeerDecision::Ask(PeerQuestion::NotBefore),
        PeerAnswer::NotBefore(TimeOrder::Later) => PeerDecision::Refuse(
            PeerAlert::CertificateExpired,
        ),
        PeerAnswer::NotBefore(_) => PeerDecision::Ask(PeerQuestion::PublicKey),
        PeerAnswer::PublicKey(false) => PeerDecision::Refuse(PeerAlert::BadCertificate),
        PeerAnswer::PublicKey(true) => PeerDecision::Accept,
    }
}

/// The first question about an endpoint.
pub fn first_question() -> (question: PeerQuestion)
    ensures
        question == PeerQuestion::Presence,
{
    PeerQuestion::Presence
}

/// What follows from one answer.
pub fn decide(answer: PeerAnswer) -> (outcome: PeerDecision)
    ensures
        outcome == decision(answer),
{
    match answer {
        PeerAnswer::Presence(present) => if present {
            PeerDecision::Ask(PeerQuestion::NotAfter)
        } else {
            PeerDecision::Refuse(PeerAlert::NoCertificate)
        },
        PeerAnswer::NotAfter(order) => match order {
            TimeOrder::Earlier => PeerDecision::Refuse(PeerAlert::CertificateExpired),
            _ => PeerDecision::Ask(PeerQuestion::NotBefore),
        },
        PeerAnswer::NotBefore(order) => match order {
            TimeOrder::Later => PeerDecision::Refuse(PeerAlert::CertificateExpired),
            _ => PeerDecision::Ask(PeerQuestion::PublicKey),
        },
        PeerAnswer::PublicKey(equal) => if equal {
            PeerDecision::Accept
        } else {
            PeerDecision::Refuse(PeerAlert::BadCertificate)
        },
    }
}

/// All that can be known of the certificate of an endpoint.
pub struct PeerFacts {
    pub present: bool,
    pub not_after: TimeOrder,
    pub not_before: TimeOrder,
    pub key_matches: bool,
}

impl PeerFacts {
    /// The true answer to a question.
    pub open spec fn answer(self, question: PeerQuestion) -> PeerAnswer {
        match question {
            PeerQuestion::Presence => PeerAnswer::Presence(self.present),
            PeerQuestion::NotAfter => PeerAnswer::NotAfter(self.not_after),
            PeerQuestion::NotBefore => PeerAnswer::NotBefore(self.not_before),
            PeerQuestion::PublicKey => PeerAnswer::PublicKey(self.key_matches),
        }
    }

    /// What becomes of the endpoint when questions are asked from `question` on,
    /// at most `limit` of them, and answered truly.
    pub open spec fn outcome(self, question: PeerQuestion, limit: nat) -> PeerDecision
        decreases limit,
    {
        match decision(self.answer(question)) {
            PeerDecision::Ask(next) if limit > 0 => self.outcome(next, (limit - 1) as nat),
            other => other,
        }
    }
}

/// An endpoint is accepted exactly where it shows a certificate that is valid at
/// present and holds the endpoint's own key; else it is refused, and the alert
/// names the first of these that does not hold. Four questions settle it.
pub proof fn only_the_pinned_endpoint_is_accepted(facts: PeerFacts)
    ensures
        facts.outcome(PeerQuestion::Presence, 3) == if !facts.present {
            PeerDecision::Refuse(PeerAlert::NoCertificate)
        } else if facts.not_after == TimeOrder::Earlier || facts.not_before == TimeOrder::Later {
            PeerDecision::Refuse(PeerAlert::CertificateExpired)
        } else if !facts.key_matches {
            PeerDecision::Refuse(PeerAlert::BadCertificate)
        } else {
            PeerDecision::Accept
        },
{
    reveal_with_fuel(PeerFacts::outcome, 5);
}

/// One answer alone accepts an endpoint: that its certificate holds the pinned key.
/// Each alert has the answers of its own, and every other answer leads to the next
/// question, so that the key is asked for only where the certificate is there and
/// valid at present.
pub proof fn answers_lead_to_their_decisions(answer: PeerAnswer, outcome: PeerDecision)
    requires
        call_ensures(decide, (answer,), outcome),
    ensures
        outcome is Accept <==> answer == PeerAnswer::PublicKey(true),
        outcome == PeerDecision::Refuse(PeerAlert::NoCertificate) <==> answer
            == PeerAnswer::Presence(false),
        outcome == PeerDecision::Refuse(PeerAlert::CertificateExpired) <==> answer
            == PeerAnswer::NotAfter(TimeOrder::Earlier) || answer == PeerAnswer::NotBefore(
            TimeOrder::Later,
        ),
        outcome == PeerDecision::Refuse(PeerAlert::BadCertificate) <==> answer
            == PeerAnswer::PublicKey(false),
        outcome != PeerDecision::Ask(PeerQuestion::Presence),
        outcome == PeerDecision::Ask(PeerQuestion::NotAfter) <==> answer == PeerAnswer::Presence(
            true,
        ),
        outcome == PeerDecision::Ask(PeerQuestion::NotBefore) <==> answer is NotAfter && answer
            != PeerAnswer::NotAfter(TimeOrder::Earlier),
        outcome == PeerDecision::Ask(PeerQuestion::PublicKey) <==> answer is NotBefore && answer
            != PeerAnswer::NotBefore(TimeOrder::Later),
{
}

/// The setup goes on exactly where the step was done; a step that failed ends it and
/// is the one that is reported.
pub proof fn only_done_steps_go_on(
    step: SetupStep,
    done: bool,
    next: Result<SetupStep, SetupStep>,
)
    requires
        step !is Finished,
        call_ensures(SetupStep::advance, (step, done), next),
    ensures
        call_requires(SetupStep::advance, (step, done)),
        next is Ok <==> done,
        next matches Ok(next) ==> next.position() == step.position() + 1,
        next matches Err(failed) ==> failed == step,
{
    if let Ok(next) = next {
        let i = choose|i: int|
            0 <= i < setup_steps().len() - 1 && #[trigger] setup_steps()[i] == step
                && setup_steps()[i + 1] == next;
        assert(setup_steps()[i].position() == i);
        assert(setup_steps()[i + 1].position() == i + 1);
    }
}

/// A key that cannot be parsed is reported by what it is, with the error as its
/// cause; a context, a list of groups or a configuration that cannot be made is
/// reported in front of the error; any other error is passed on as it is.
pub proof fn setup_failures_are_told_apart(step: SetupStep, report: Report)
    requires
        step !is Finished,
        call_ensures(SetupStep::report, (step,), report),
    ensures
        call_requires(SetupStep::report, (step,)),
        report is Context <==> step is ParsePeerKey || step is ParsePrivateKey,
        report is Prefixed <==> step is NewContext || step is SetCurves || step is BuildConfig,
        step is ParsePeerKey ==> report->Context_0@ == "failed to parse peer public key"@,
        step is ParsePrivateKey ==> report->Context_0@ == "failed to parse private key"@,
        step is NewContext ==> report->Prefixed_0@ == "ssl context"@,
        step is SetCurves ==> report->Prefixed_0@ == "set curves list"@,
        step is BuildConfig ==> report->Prefixed_0@ == "quiche config"@,
{
}

/// Whatever the step, the private key that is read and entered is the device's, the
/// public key that is read and pinned is the endpoint's, the endpoint always has to
/// show a certificate, and the groups are those that were asked for; each of these is
/// done in one step alone.
pub proof fn setup_uses_each_key_in_its_place(
    step: SetupStep,
    disable_pq: bool,
    action: SetupAction,
)
    requires
        call_ensures(SetupStep::action, (step, disable_pq), action),
    ensures
        action matches SetupAction::ParsePublicKey { key } ==> key is Endpoint,
        action matches SetupAction::ParsePrivateKey { key } ==> key is Device,
        action matches SetupAction::SetPrivateKey { key } ==> key is Device,
        action matches SetupAction::SetVerifier { mode, pinned } ==> mode is Peer
            && pinned is Endpoint,
        action matches SetupAction::SetCurves { disable_pq: asked } ==> asked == disable_pq,
        action matches SetupAction::BuildConfig { version } ==> version is Quiche,
        action is ParsePublicKey <==> step is ParsePeerKey,
        action is ParsePrivateKey <==> step is ParsePrivateKey,
        action is MakeCertificate <==> step is MakeCertificate,
        action is NewContext <==> step is NewContext,
        action is SetCurves <==> step is SetCurves,
        action is SetPrivateKey <==> step is SetPrivateKey,
        action is SetCertificate <==> step is SetCertificate,
        action is SetVerifier <==> step is SetVerifier,
        action is BuildConfig <==> step is BuildConfig,
        action is Nothing <==> step is Finished,
{
}

/// The groups that are offered without the post-quantum one are all offered with it
/// too, in the same order and behind it.
pub proof fn lists_differ_by_the_post_quantum_group(with: &'static str, without: &'static str)
    requires
        call_ensures(curves_list, (false,), with),
        call_ensures(curves_list, (true,), without),
    ensures
        without@ == "P-256:P-384:P-521"@,
        with@ == "P256Kyber768Draft00:"@ + without@,
{
    pq_only_adds_a_group();
}

} // verus!
