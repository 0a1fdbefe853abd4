//! Answers to requests: results, refusals, and their text.
use vstd::prelude::*;

verus! {

/// The kind of a refusal.
#[derive(Clone, Copy, Debug, PartialEq, Eq, Structural)]
pub enum Code {
    InvalidArgument,
    NotFound,
    FailedPrecondition,
    Internal,
}

/// A refusal: the request was not carried out.
#[derive(Clone, Debug, PartialEq, Eq)]
pub struct Status {
    pub code: Code,
    pub message: String,
}

/// The result of an operation that ran, or that declined to.
#[derive(Clone, Debug, PartialEq, Eq)]
pub struct OpResult {
    pub ok: bool,
    pub message: String,
}

/// What an answer says.
pub enum Answer {
    Result { ok: bool, message: Seq<char> },
    Refusal { code: Code, message: Seq<char> },
}

/// What `r` says.
pub open spec fn answer(r: Result<OpResult, Status>) -> Answer {
    match r {
        Ok(o) => Answer::Result { ok: o.ok, message: o.message@ },
        Err(s) => Answer::Refusal { code: s.code, message: s.message@ },
    }
}

/// A positive result that says `message`.
pub open spec fn yes(message: Seq<char>) -> Answer {
    Answer::Result { ok: true, message }
}

/// A negative result that says `message`.
pub open spec fn no(message: Seq<char>) -> Answer {
    Answer::Result { ok: false, message }
}

/// A refusal for an internal reason.
pub open spec fn broken(message: Seq<char>) -> Answer {
    Answer::Refusal { code: Code::Internal, message }
}

/// A refusal of an argument.
pub open spec fn bad_argument(message: Seq<char>) -> Answer {
    Answer::Refusal { code: Code::InvalidArgument, message }
}

/// A refusal because something does not exist.
pub open spec fn missing(message: Seq<char>) -> Answer {
    Answer::Refusal { code: Code::NotFound, message }
}

/// The refusal for an error that is no fault of the caller.
pub fn internal(message: String) -> (r: Status)
    ensures
        r == (Status { code: Code::Internal, message }),
{
    Status { code: Code::Internal, message }
}

/// The positive result that says nothing.
pub fn ok() -> (r: OpResult)
    ensures
        r.ok,
        r.message@ == Seq::<char>::empty(),
{
    OpResult { ok: true, message: String::new() }
}

/// A positive result.
pub fn succeed(message: String) -> (r: Result<OpResult, Status>)
    ensures
        r == Ok::<OpResult, Status>(OpResult { ok: true, message }),
        answer(r) == yes(message@),
{
    Ok(OpResult { ok: true, message })
}

/// A negative result.
pub fn decline(message: String) -> (r: Result<OpResult, Status>)
    ensures
        r == Ok::<OpResult, Status>(OpResult { ok: false, message }),
        answer(r) == no(message@),
{
    Ok(OpResult { ok: false, message })
}

/// A refusal with the given code.
pub fn refuse(code: Code, message: String) -> (r: Result<OpResult, Status>)
    ensures
        r == Err::<OpResult, Status>(Status { code, message }),
        answer(r) == (Answer::Refusal { code, message: message@ }),
{
    Err(Status { code, message })
}

/// What an answer says tells whether it is a result or a refusal, whether it is
/// positive, its code and its words; positive and negative answers and refusals
/// of each kind are told apart.
pub proof fn law_answers_are_told_apart(a: Result<OpResult, Status>, message: Seq<char>)
    ensures
        answer(a) == yes(message) <==> a is Ok && a->Ok_0.ok && a->Ok_0.message@ == message,
        answer(a) == no(message) <==> a is Ok && !a->Ok_0.ok && a->Ok_0.message@ == message,
        answer(a) == broken(message) <==> a is Err && a->Err_0.code == Code::Internal
            && a->Err_0.message@ == message,
        answer(a) == bad_argument(message) <==> a is Err && a->Err_0.code == Code::InvalidArgument
            && a->Err_0.message@ == message,
        answer(a) == missing(message) <==> a is Err && a->Err_0.code == Code::NotFound
            && a->Err_0.message@ == message,
{
}

} // verus!
