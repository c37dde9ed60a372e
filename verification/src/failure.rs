//! Why a registration or an enrolment fails.
use crate::status::{is_status, status_display, status_text};
use crate::text::{decimal, decimal_has_digits, is_digit, number, number_reads_back};
use vstd::prelude::*;
use vstd::string::StringExecFns;

verus! {

/// The two requests that the client makes.
#[derive(Debug, Clone, Copy, PartialEq, Eq, Structural)]
pub enum Operation {
    Register,
    Enroll,
}

/// Why a registration or an enrolment failed.
#[derive(Debug)]
pub enum ApiFailure {
    /// The random number generator failed.
    Rng,
    /// The HTTP client could not be built.
    Client,
    /// The request could not be sent.
    Request(Operation),
    /// The API refused the request.
    Rejected { operation: Operation, status: u16, detail: String },
    /// The reply could not be read as an account.
    Parse(Operation),
}

/// How the message of a refused request begins.
pub open spec fn rejection_start(operation: Operation) -> Seq<char> {
    match operation {
        Operation::Register => "registration failed: "@,
        Operation::Enroll => "enrollment failed: "@,
    }
}

/// What is said of a refused request: which one it was, the status of the
/// reply and what the API had to say.
pub open spec fn rejection_text(
    operation: Operation,
    status: Seq<char>,
    detail: Seq<char>,
) -> Seq<char> {
    rejection_start(operation) + status + " - "@ + detail
}

impl ApiFailure {
    /// Whether the status, where there is one, is one that a reply can have.
    pub open spec fn valid(self) -> bool {
        self matches ApiFailure::Rejected { status, .. } ==> is_status(status)
    }

    /// The message of the failure.
    pub open spec fn text(self) -> Seq<char> {
        match self {
            ApiFailure::Rng => "RNG failure"@,
            ApiFailure::Client => "failed to build HTTP client"@,
            ApiFailure::Request(Operation::Register) => "registration request failed"@,
            ApiFailure::Request(Operation::Enroll) => "enrollment request failed"@,
            ApiFailure::Rejected { operation, status, detail } => rejection_text(
                operation,
                status_display(status),
                detail@,
            ),
            ApiFailure::Parse(Operation::Register) => "failed to parse registration response"@,
            ApiFailure::Parse(Operation::Enroll) => "failed to parse enrollment response"@,
        }
    }

    /// The message of the failure. That of a refused request shows the code of the
    /// status right after it says what was refused.
    pub fn message(&self) -> (message: String)
        requires
            self.valid(),
        ensures
            message@ == self.text(),
            *self matches ApiFailure::Rejected { operation, status, .. } ==> (rejection_start(
                operation,
            ) + decimal(status as nat, 3).push(' ')).is_prefix_of(message@),
    {
        match self {
            ApiFailure::Rng => "RNG failure".to_owned(),
            ApiFailure::Client => "failed to build HTTP client".to_owned(),
            ApiFailure::Request(Operation::Register) => "registration request failed".to_owned(),
            ApiFailure::Request(Operation::Enroll) => "enrollment request failed".to_owned(),
            ApiFailure::Rejected { operation, status, detail } => {
                let shown = status_text(*status);
                let message = rejection_message(*operation, shown.as_str(), detail.as_str());
                proof {
                    let start = rejection_start(*operation) + shown@.take(4);
                    assert(start =~= message@.subrange(0, start.len() as int));
                }
                message
            },
            ApiFailure::Parse(Operation::Register) => {
                "failed to parse registration response".to_owned()
            },
            ApiFailure::Parse(Operation::Enroll) => {
                "failed to parse enrollment response".to_owned()
            },
        }
    }
}

/// What is said of a refused request, given the text of the status.
pub fn rejection_message(operation: Operation, status: &str, detail: &str) -> (message: String)
    ensures
        message@ == rejection_text(operation, status@, detail@),
{
    let mut message = match operation {
        Operation::Register => "registration failed: ".to_owned(),
        Operation::Enroll => "enrollment failed: ".to_owned(),
    };
    message.append(status);
    message.append(" - ");
    message.append(detail);
    message
}

/// Whether the text says this, then gives the three digits of the code and a space.
pub open spec fn gives_code(text: Seq<char>, start: Seq<char>, code: u16) -> bool {
    let n = start.len() as int;
    &&& text.len() > n + 4
    &&& text.take(n) == start
    &&& is_digit(text[n]) && is_digit(text[n + 1]) && is_digit(text[n + 2])
    &&& number(text.subrange(n, n + 3)) == code
    &&& text[n + 3] == ' '
}

/// The message of a failure before a reply names what failed, for each request in its
/// own words. That of a refused request says what was refused, gives the code of the
/// status and the phrase that belongs to it, and ends with the whole of the detail.
pub proof fn messages_say_what_failed(failure: &ApiFailure, message: String)
    requires
        call_ensures(ApiFailure::message, (failure,), message),
    ensures
        match *failure {
            ApiFailure::Rng => message@ == "RNG failure"@,
            ApiFailure::Client => message@ == "failed to build HTTP client"@,
            ApiFailure::Request(operation) => message@ == if operation is Register {
                "registration request failed"@
            } else {
                "enrollment request failed"@
            },
            ApiFailure::Parse(operation) => message@ == if operation is Register {
                "failed to parse registration response"@
            } else {
                "failed to parse enrollment response"@
            },
            ApiFailure::Rejected { operation, status, detail } => {
                let start = if operation is Register {
                    "registration failed: "@
                } else {
                    "enrollment failed: "@
                };
                &&& message@ == start + status_display(status) + " - "@ + detail@
                &&& 100 <= status <= 999 ==> gives_code(message@, start, status)
            },
        },
{
    if let ApiFailure::Rejected { operation, status, detail } = *failure {
        if 100 <= status <= 999 {
            let start = rejection_start(operation);
            let n = start.len() as int;
            let code = decimal(status as nat, 3);
            let head = start + code.push(' ');
            reveal_with_fuel(decimal, 4);
            assert(code.len() == 3);
            decimal_has_digits(status as nat, 3);
            number_reads_back(status as nat, 3);
            reveal_strlit(" - ");
            assert(head =~= message@.subrange(0, head.len() as int));
            assert(message@.take(n) =~= start);
            assert forall|i: int| 0 <= i < head.len() implies head[i] == message@[i] by {
                assert(message@.subrange(0, head.len() as int)[i] == message@[i]);
            }
            assert(head[n] == code[0] && head[n + 1] == code[1] && head[n + 2] == code[2]);
            assert(head[n + 3] == ' ');
            assert(message@.subrange(n, n + 3) =~= code);
        }
    }
}

/// Every failure has a message, but for a refusal with a status that no reply can
/// have.
pub proof fn failures_have_messages(failure: &ApiFailure)
    requires
        *failure matches ApiFailure::Rejected { status, .. } ==> 100 <= status <= 999,
    ensures
        call_requires(ApiFailure::message, (failure,)),
{
}

/// A refusal says all that it was given, in its order.
pub proof fn rejection_says_all(operation: Operation, status: &str, detail: &str, message: String)
    requires
        call_ensures(rejection_message, (operation, status, detail), message),
    ensures
        message@ == if operation is Register {
            "registration failed: "@ + status@ + " - "@ + detail@
        } else {
            "enrollment failed: "@ + status@ + " - "@ + detail@
        },
{
}

} // verus!
