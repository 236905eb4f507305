use vstd::prelude::*;

use crate::errors::Error;
use crate::microservice::{ApiCall, Reply};
use crate::validation::{parse_validation_errors, refusal_error_ok, texts_of, CommonErrorMessage};

verus! {

/// A call to a microservice that did not succeed: the refusal's message,
/// where the microservice answered with one.
#[derive(Clone, Debug)]
pub struct ApiFailure {
    pub message: Option<CommonErrorMessage>,
}

/// What a service does next: make a call and hand its answer back, finish
/// with a result, fail, or undo what it did and then fail (the calls are
/// made in order, whatever the outcome of each, by an `UndoRun`).
#[derive(Debug)]
pub enum Step<T> {
    Call(ApiCall),
    Done(T),
    Fail(Error),
    Revert { calls: Vec<ApiCall>, error: Error },
}

/// The outcome of a call, as it is handed back to a service.
pub type Outcome = Result<Reply, ApiFailure>;

/// The failure that a failed call becomes for a service that knows the
/// fields `fields`: the refusal's meaning where it came with a message, a
/// failure of the HTTP client otherwise.
pub open spec fn service_error_ok(e: Error, f: ApiFailure, fields: Seq<Seq<char>>) -> bool {
    match f.message {
        Some(m) => refusal_error_ok(e, m, fields),
        None => e is HttpClient,
    }
}

/// The failure that a failed call becomes for a service that knows the
/// fields `fields`.
pub fn service_error(f: ApiFailure, fields: &[&'static str]) -> (r: Error)
    ensures
        service_error_ok(r, f, texts_of(fields@)),
{
    match parse_validation_errors(f.message, fields) {
        Some(e) => e,
        None => Error::HttpClient,
    }
}


/// The undoing of a failed saga under way: its undo calls are made in
/// order, each after the previous one whatever that one's outcome, and then
/// the saga's failure is reported.
#[derive(Debug)]
pub struct UndoRun {
    rest: Vec<ApiCall>,
    error: Option<Error>,
}

impl UndoRun {
    /// The undo calls still to be made, in order.
    pub closed spec fn remaining(&self) -> Seq<ApiCall> {
        self.rest@
    }

    /// The failure that is reported once the calls are made.
    pub closed spec fn error(&self) -> Option<Error> {
        self.error
    }

    fn next(self) -> (r: (UndoRun, Step<()>))
        requires
            self.error() is Some,
        ensures
            self.remaining().len() > 0 ==> r.1 == Step::<()>::Call(self.remaining()[0])
                && r.0.remaining() == self.remaining().drop_first() && r.0.error() == self.error(),
            self.remaining().len() == 0 ==> r.1 == Step::<()>::Fail(self.error().unwrap()),
    {
        let UndoRun { mut rest, error } = self;
        if rest.len() > 0 {
            let call = rest.remove(0);
            (UndoRun { rest, error }, Step::Call(call))
        } else {
            match error {
                Some(e) => (UndoRun { rest, error: None }, Step::Fail(e)),
                None => (UndoRun { rest, error: None }, Step::Fail(Error::Unknown)),
            }
        }
    }

    /// Starts undoing with the calls `calls`, to report `error` after them:
    /// the first call is made, or, with none, the failure is reported at
    /// once.
    pub fn start(calls: Vec<ApiCall>, error: Error) -> (r: (UndoRun, Step<()>))
        ensures
            calls@.len() > 0 ==> r.1 == Step::<()>::Call(calls@[0])
                && r.0.remaining() == calls@.drop_first() && r.0.error() == Some(error),
            calls@.len() == 0 ==> r.1 == Step::<()>::Fail(error),
    {
        UndoRun { rest: calls, error: Some(error) }.next()
    }

    /// Takes the outcome of the undo call under way, whatever it is: the
    /// next undo call is made, or, after the last, the failure is reported.
    pub fn on_outcome(self, outcome: Outcome) -> (r: (UndoRun, Step<()>))
        requires
            self.error() is Some,
        ensures
            self.remaining().len() > 0 ==> r.1 == Step::<()>::Call(self.remaining()[0])
                && r.0.remaining() == self.remaining().drop_first() && r.0.error() == self.error(),
            self.remaining().len() == 0 ==> r.1 == Step::<()>::Fail(self.error().unwrap()),
    {
        self.next()
    }
}

}
