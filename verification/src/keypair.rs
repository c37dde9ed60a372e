//! Generation of the key pair that a device enrolls.
//!
//! The work on the keys is done outside; here is decided what is to be done
//! next, what the outcome is, and how a failure is reported.
use crate::report::Report;
use vstd::prelude::*;

verus! {

/// The curve of the key pair.
#[derive(Debug, Clone, Copy, PartialEq, Eq, Structural)]
pub enum NamedCurve {
    Prime256V1,
}

/// How far the generation of a key pair has come.
#[derive(Debug)]
pub enum Keygen {
    /// The group of the curve is to be looked up.
    LoadGroup { curve: NamedCurve },
    /// A key of the group is to be generated.
    Generate,
    /// The key is to be made a private key of the general kind.
    Wrap,
    /// The private key is to be encoded, as PKCS #8 in DER.
    EncodePrivate,
    /// The public key is to be encoded, in DER.
    EncodePublic { private_der: Vec<u8> },
    /// Both keys are encoded.
    Finished { private_der: Vec<u8>, public_der: Vec<u8> },
}

/// What came of the step that was to be done.
#[derive(Debug)]
pub enum KeygenEvent {
    Done,
    Encoded(Vec<u8>),
    Failed,
}

/// The step that failed.
#[derive(Debug, Clone, Copy, PartialEq, Eq, Structural)]
pub enum KeygenFailure {
    Group,
    Generation,
    Wrapping,
    PrivateEncoding,
    PublicEncoding,
}

impl Keygen {
    /// The failure of the step.
    pub open spec fn failure(self) -> KeygenFailure {
        match self {
            Keygen::LoadGroup { .. } => KeygenFailure::Group,
            Keygen::Generate => KeygenFailure::Generation,
            Keygen::Wrap => KeygenFailure::Wrapping,
            Keygen::EncodePrivate => KeygenFailure::PrivateEncoding,
            _ => KeygenFailure::PublicEncoding,
        }
    }

    /// What comes after the step, given what came of it. An event that is not one of
    /// the step's own counts as its failure.
    pub open spec fn after(self, event: KeygenEvent) -> Result<Keygen, KeygenFailure> {
        match (self, event) {
            (Keygen::LoadGroup { .. }, KeygenEvent::Done) => Ok(Keygen::Generate),
            (Keygen::Generate, KeygenEvent::Done) => Ok(Keygen::Wrap),
            (Keygen::Wrap, KeygenEvent::Done) => Ok(Keygen::EncodePrivate),
            (Keygen::EncodePrivate, KeygenEvent::Encoded(private_der)) => Ok(
                Keygen::EncodePublic { private_der },
            ),
            (Keygen::EncodePublic { private_der }, KeygenEvent::Encoded(public_der)) => Ok(
                Keygen::Finished { private_der, public_der },
            ),
            _ => Err(self.failure()),
        }
    }

    /// Where the events lead, one after the other.
    pub open spec fn run(self, events: Seq<KeygenEvent>) -> Result<Keygen, KeygenFailure>
        decreases events.len(),
    {
        if events.len() == 0 {
            Ok(self)
        } else {
            match self.after(events[0]) {
                Ok(next) => next.run(events.drop_first()),
                Err(failure) => Err(failure),
            }
        }
    }

    /// The first step: the curve of the keys is P-256.
    pub fn start() -> (first: Keygen)
        ensures
            first == (Keygen::LoadGroup { curve: NamedCurve::Prime256V1 }),
    {
        Keygen::LoadGroup { curve: NamedCurve::Prime256V1 }
    }

    /// What comes after the step, given what came of it.
    pub fn advance(self, event: KeygenEvent) -> (next: Result<Keygen, KeygenFailure>)
        ensures
            next == self.after(event),
    {
        match (self, event) {
            (Keygen::LoadGroup { .. }, KeygenEvent::Done) => Ok(Keygen::Generate),
            (Keygen::LoadGroup { .. }, _) => Err(KeygenFailure::Group),
            (Keygen::Generate, KeygenEvent::Done) => Ok(Keygen::Wrap),
            (Keygen::Generate, _) => Err(KeygenFailure::Generation),
            (Keygen::Wrap, KeygenEvent::Done) => Ok(Keygen::EncodePrivate),
            (Keygen::Wrap, _) => Err(KeygenFailure::Wrapping),
            (Keygen::EncodePrivate, KeygenEvent::Encoded(private_der)) => Ok(
                Keygen::EncodePublic { private_der },
            ),
            (Keygen::EncodePrivate, _) => Err(KeygenFailure::PrivateEncoding),
            (Keygen::EncodePublic { private_der }, KeygenEvent::Encoded(public_der)) => Ok(
                Keygen::Finished { private_der, public_der },
            ),
            (_, _) => Err(KeygenFailure::PublicEncoding),
        }
    }
}

impl KeygenFailure {
    /// How the failure is reported.
    pub fn report(self) -> (report: Report)
        ensures
            match self {
                KeygenFailure::Group => report is Plain,
                KeygenFailure::Generation => report matches Report::Context(what) && what@
                    == "failed to generate EC key"@,
                KeygenFailure::Wrapping => report matches Report::Context(what) && what@
                    == "failed to create PKey"@,
                KeygenFailure::PrivateEncoding => report matches Report::Context(what) && what@
                    == "failed to encode private key to DER"@,
                KeygenFailure::PublicEncoding => report matches Report::Context(what) && what@
                    == "failed to encode public key to DER"@,
            },
    {
        match self {
            KeygenFailure::Group => Report::Plain,
            KeygenFailure::Generation => Report::Context("failed to generate EC key"),
            KeygenFailure::Wrapping => Report::Context("failed to create PKey"),
            KeygenFailure::PrivateEncoding => Report::Context("failed to encode private key to DER"),
            KeygenFailure::PublicEncoding => Report::Context("failed to encode public key to DER"),
        }
    }
}

/// A key pair comes of a generation exactly where all its steps were done, in
/// their order: it is the pair of the two encodings, the private one first.
pub proof fn pair_is_what_was_encoded(
    events: Seq<KeygenEvent>,
    private_der: Vec<u8>,
    public_der: Vec<u8>,
)
    ensures
        (Keygen::LoadGroup { curve: NamedCurve::Prime256V1 }).run(events) == Ok::<
            Keygen,
            KeygenFailure,
        >(Keygen::Finished { private_der, public_der }) <==> events == seq![
            KeygenEvent::Done,
            KeygenEvent::Done,
            KeygenEvent::Done,
            KeygenEvent::Encoded(private_der),
            KeygenEvent::Encoded(public_der),
        ],
{
    reveal_with_fuel(Keygen::run, 7);
    let wanted = seq![
        KeygenEvent::Done,
        KeygenEvent::Done,
        KeygenEvent::Done,
        KeygenEvent::Encoded(private_der),
        KeygenEvent::Encoded(public_der),
    ];
    let start = Keygen::LoadGroup { curve: NamedCurve::Prime256V1 };
    if start.run(events) == Ok::<Keygen, KeygenFailure>(
        Keygen::Finished { private_der, public_der },
    ) {
        assert(events =~= wanted);
    }
}

/// The generation goes on exactly where the step was done: a work step by being done,
/// an encoding by the bytes that came of it. Every failed step ends it, and the failure
/// names the step, whatever was encoded before.
pub proof fn only_done_steps_go_on(
    step: Keygen,
    event: KeygenEvent,
    next: Result<Keygen, KeygenFailure>,
)
    requires
        call_ensures(Keygen::advance, (step, event), next),
    ensures
        call_requires(Keygen::advance, (step, event)),
        next is Ok <==> match event {
            KeygenEvent::Failed => false,
            KeygenEvent::Done => step is LoadGroup || step is Generate || step is Wrap,
            KeygenEvent::Encoded(_) => step is EncodePrivate || step is EncodePublic,
        },
        next matches Err(failure) ==> {
            &&& failure is Group <==> step is LoadGroup
            &&& failure is Generation <==> step is Generate
            &&& failure is Wrapping <==> step is Wrap
            &&& failure is PrivateEncoding <==> step is EncodePrivate
            &&& failure is PublicEncoding <==> step is EncodePublic || step is Finished
        },
{
}

/// Each step leads to the one after it, and no encoding is changed or lost on the
/// way: the first one is the private key, the second one the public key.
pub proof fn encodings_are_kept(step: Keygen, event: KeygenEvent, next: Keygen)
    requires
        call_ensures(Keygen::advance, (step, event), Ok(next)),
    ensures
        next is Generate <==> step is LoadGroup,
        next is Wrap <==> step is Generate,
        next is EncodePrivate <==> step is Wrap,
        next is EncodePublic <==> step is EncodePrivate,
        next is Finished <==> step is EncodePublic,
        next matches Keygen::EncodePublic { private_der } ==> event == KeygenEvent::Encoded(
            private_der,
        ),
        next matches Keygen::Finished { private_der, public_der } ==> event
            == KeygenEvent::Encoded(public_der) && (step matches Keygen::EncodePublic {
            private_der: held,
        } && private_der == held),
{
}

} // verus!
