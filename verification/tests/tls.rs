use usque_rs::certificate::{CertificateAction, CertificateStep, SignatureDigest};
use usque_rs::keypair::{Keygen, KeygenEvent, KeygenFailure, NamedCurve};
use usque_rs::keys::{configured_keys, KeyRole};
use usque_rs::tls::{
    curves_list, decide, first_question, PeerAlert, PeerAnswer, PeerDecision, PeerQuestion,
    QuicVersion, SetupAction, SetupStep, TimeOrder, VerifyMode,
};

#[test]
fn key_pair_is_what_was_encoded() {
    let mut step = Keygen::start();
    assert!(matches!(
        step,
        Keygen::LoadGroup {
            curve: NamedCurve::Prime256V1
        }
    ));
    for _ in 0..3 {
        step = step.advance(KeygenEvent::Done).unwrap();
    }
    assert!(matches!(step, Keygen::EncodePrivate));
    step = step.advance(KeygenEvent::Encoded(vec![1, 2])).unwrap();
    step = step.advance(KeygenEvent::Encoded(vec![3])).unwrap();
    match step {
        Keygen::Finished {
            private_der,
            public_der,
        } => {
            assert_eq!(private_der, vec![1, 2]);
            assert_eq!(public_der, vec![3]);
        }
        _ => panic!("not finished"),
    }
}

#[test]
fn key_generation_reports_the_step_that_failed() {
    let steps = [
        (
            Keygen::start(),
            KeygenFailure::Group,
            "cause",
        ),
        (
            Keygen::Generate,
            KeygenFailure::Generation,
            "failed to generate EC key",
        ),
        (
            Keygen::Wrap,
            KeygenFailure::Wrapping,
            "failed to create PKey",
        ),
        (
            Keygen::EncodePrivate,
            KeygenFailure::PrivateEncoding,
            "failed to encode private key to DER",
        ),
        (
            Keygen::EncodePublic {
                private_der: vec![],
            },
            KeygenFailure::PublicEncoding,
            "failed to encode public key to DER",
        ),
    ];
    for (step, failure, message) in steps {
        let failed = step.advance(KeygenEvent::Failed).unwrap_err();
        assert_eq!(failed, failure);
        assert_eq!(failed.report().message("cause"), message);
    }
}

#[test]
fn certificate_takes_its_steps_in_order() {
    let mut visited = vec![CertificateStep::start()];
    while *visited.last().unwrap() != CertificateStep::Finished {
        visited.push(visited.last().unwrap().advance(true).unwrap());
    }
    assert_eq!(
        visited,
        vec![
            CertificateStep::Begin,
            CertificateStep::StartTime,
            CertificateStep::SetNotBefore,
            CertificateStep::EndTime,
            CertificateStep::SetNotAfter,
            CertificateStep::SetPublicKey,
            CertificateStep::Sign,
            CertificateStep::Finished,
        ]
    );
}

#[test]
fn certificate_is_the_devices_and_holds_for_one_day() {
    let mut actions = Vec::new();
    let mut step = CertificateStep::start();
    while step != CertificateStep::Finished {
        actions.push(step.action());
        step = step.advance(true).unwrap();
    }
    assert_eq!(
        actions,
        vec![
            CertificateAction::Begin,
            CertificateAction::ComputeTime { days: 0 },
            CertificateAction::SetNotBefore,
            CertificateAction::ComputeTime { days: 1 },
            CertificateAction::SetNotAfter,
            CertificateAction::SetPublicKey {
                key: KeyRole::Device
            },
            CertificateAction::Sign {
                key: KeyRole::Device,
                digest: SignatureDigest::Sha256
            },
        ]
    );
    assert_eq!(step.action(), CertificateAction::Nothing);
}

#[test]
fn event_of_another_step_counts_as_a_failure() {
    assert_eq!(
        Keygen::Wrap
            .advance(KeygenEvent::Encoded(vec![1]))
            .unwrap_err(),
        KeygenFailure::Wrapping
    );
    assert_eq!(
        Keygen::EncodePrivate.advance(KeygenEvent::Done).unwrap_err(),
        KeygenFailure::PrivateEncoding
    );
}

#[test]
fn certificate_reports_the_step_that_failed() {
    let steps = [
        (CertificateStep::Begin, "x509 builder: e"),
        (CertificateStep::StartTime, "e"),
        (CertificateStep::SetNotBefore, "set not before: e"),
        (CertificateStep::EndTime, "e"),
        (CertificateStep::SetNotAfter, "set not after: e"),
        (CertificateStep::SetPublicKey, "set pubkey: e"),
        (CertificateStep::Sign, "sign certificate: e"),
    ];
    for (step, message) in steps {
        let failed = step.advance(false).unwrap_err();
        assert_eq!(failed, step);
        assert_eq!(failed.report().message("e"), message);
    }
}

#[test]
fn setup_takes_its_steps_in_order() {
    let mut visited = vec![SetupStep::start()];
    while *visited.last().unwrap() != SetupStep::Finished {
        visited.push(visited.last().unwrap().advance(true).unwrap());
    }
    assert_eq!(
        visited,
        vec![
            SetupStep::ParsePeerKey,
            SetupStep::ParsePrivateKey,
            SetupStep::MakeCertificate,
            SetupStep::NewContext,
            SetupStep::SetCurves,
            SetupStep::SetPrivateKey,
            SetupStep::SetCertificate,
            SetupStep::SetVerifier,
            SetupStep::BuildConfig,
            SetupStep::Finished,
        ]
    );
}

#[test]
fn setup_enters_the_devices_key_and_pins_the_endpoints() {
    for disable_pq in [false, true] {
        let mut actions = Vec::new();
        let mut step = SetupStep::start();
        while step != SetupStep::Finished {
            actions.push(step.action(disable_pq));
            step = step.advance(true).unwrap();
        }
        assert_eq!(
            actions,
            vec![
                SetupAction::ParsePublicKey {
                    key: KeyRole::Endpoint
                },
                SetupAction::ParsePrivateKey {
                    key: KeyRole::Device
                },
                SetupAction::MakeCertificate,
                SetupAction::NewContext,
                SetupAction::SetCurves { disable_pq },
                SetupAction::SetPrivateKey {
                    key: KeyRole::Device
                },
                SetupAction::SetCertificate,
                SetupAction::SetVerifier {
                    mode: VerifyMode::Peer,
                    pinned: KeyRole::Endpoint
                },
                SetupAction::BuildConfig {
                    version: QuicVersion::Quiche
                },
            ]
        );
        assert_eq!(step.action(disable_pq), SetupAction::Nothing);
    }
}

#[test]
fn configured_keys_are_told_apart() {
    let keys = configured_keys::<&str>(Ok(vec![1, 2]), Ok(vec![3])).unwrap();
    assert_eq!(keys.der(KeyRole::Endpoint), [1, 2]);
    assert_eq!(keys.der(KeyRole::Device), [3]);
}

#[test]
fn error_of_the_endpoints_key_comes_first() {
    let keys = configured_keys(Err("endpoint"), Err("device"));
    assert_eq!(keys.unwrap_err(), "endpoint");
    let keys = configured_keys(Err("endpoint"), Ok(vec![3]));
    assert_eq!(keys.unwrap_err(), "endpoint");
    let keys = configured_keys(Ok(vec![1]), Err("device"));
    assert_eq!(keys.unwrap_err(), "device");
}

#[test]
fn setup_reports_the_step_that_failed() {
    let steps = [
        (SetupStep::ParsePeerKey, "failed to parse peer public key"),
        (SetupStep::ParsePrivateKey, "failed to parse private key"),
        (SetupStep::MakeCertificate, "e"),
        (SetupStep::NewContext, "ssl context: e"),
        (SetupStep::SetCurves, "set curves list: e"),
        (SetupStep::SetPrivateKey, "e"),
        (SetupStep::SetCertificate, "e"),
        (SetupStep::BuildConfig, "quiche config: e"),
    ];
    for (step, message) in steps {
        let failed = step.advance(false).unwrap_err();
        assert_eq!(failed, step);
        assert_eq!(failed.report().message("e"), message);
    }
}

#[test]
fn curves_are_led_by_the_post_quantum_group_unless_disabled() {
    assert_eq!(curves_list(true), "P-256:P-384:P-521");
    assert_eq!(
        curves_list(false),
        "P256Kyber768Draft00:P-256:P-384:P-521"
    );
}

fn verdict(present: bool, not_after: TimeOrder, not_before: TimeOrder, key: bool) -> PeerDecision {
    let mut question = first_question();
    loop {
        let decision = decide(match question {
            PeerQuestion::Presence => PeerAnswer::Presence(present),
            PeerQuestion::NotAfter => PeerAnswer::NotAfter(not_after),
            PeerQuestion::NotBefore => PeerAnswer::NotBefore(not_before),
            PeerQuestion::PublicKey => PeerAnswer::PublicKey(key),
        });
        match decision {
            PeerDecision::Ask(next) => question = next,
            other => return other,
        }
    }
}

#[test]
fn endpoint_with_a_valid_certificate_and_its_key_is_accepted() {
    for not_after in [TimeOrder::Same, TimeOrder::Later] {
        for not_before in [TimeOrder::Same, TimeOrder::Earlier] {
            assert_eq!(
                verdict(true, not_after, not_before, true),
                PeerDecision::Accept
            );
        }
    }
}

#[test]
fn endpoint_is_refused_for_the_first_thing_that_is_wrong() {
    let (earlier, later) = (TimeOrder::Earlier, TimeOrder::Later);
    assert_eq!(
        verdict(false, earlier, later, false),
        PeerDecision::Refuse(PeerAlert::NoCertificate)
    );
    assert_eq!(
        verdict(true, earlier, earlier, false),
        PeerDecision::Refuse(PeerAlert::CertificateExpired)
    );
    assert_eq!(
        verdict(true, later, later, false),
        PeerDecision::Refuse(PeerAlert::CertificateExpired)
    );
    assert_eq!(
        verdict(true, later, earlier, false),
        PeerDecision::Refuse(PeerAlert::BadCertificate)
    );
}
