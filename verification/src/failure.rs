//! The one way an accessor fails: a value was required and the platform gave
//! none, gave a node of the wrong kind, or reported a failure of its own.

use vstd::prelude::*;
use vstd::string::*;

verus! {

/// An unmet precondition, with the diagnostic that names what was attempted.
#[derive(Debug, Clone)]
pub struct Failure {
    pub message: String,
}

impl View for Failure {
    type V = Seq<char>;

    open spec fn view(&self) -> Seq<char> {
        self.message@
    }
}

/// What is owed for a value that may be absent: the value itself, or the
/// failure that carries `msg`.
pub open spec fn present_or<T>(held: Option<T>, msg: String) -> Result<T, Failure> {
    match held {
        Some(t) => Ok(t),
        None => Err(Failure { message: msg }),
    }
}

/// What is owed for an operation that may have failed: its value, or the
/// failure that carries `msg` in place of the cause.
pub open spec fn done_or<T, E>(held: Result<T, E>, msg: String) -> Result<T, Failure> {
    match held {
        Ok(t) => Ok(t),
        Err(_) => Err(Failure { message: msg }),
    }
}

/// What is owed for a search that the host may reject and that may find
/// nothing: the match, or the failure that carries `rejected` for a search
/// the host rejected and `unmatched` for one without a match.
pub open spec fn matched_or<T, E>(
    outcome: Result<Option<T>, E>,
    rejected: String,
    unmatched: String,
) -> Result<T, Failure> {
    match outcome {
        Ok(Some(t)) => Ok(t),
        Ok(None) => Err(Failure { message: unmatched }),
        Err(_) => Err(Failure { message: rejected }),
    }
}

/// `r` is what is owed for the search `outcome`: the match, or a failure
/// whose diagnostic reads `rejected` for a search the host rejected and
/// `unmatched` for one without a match.
pub open spec fn is_match_or<T, E>(
    r: Result<T, Failure>,
    outcome: Result<Option<T>, E>,
    rejected: Seq<char>,
    unmatched: Seq<char>,
) -> bool {
    match outcome {
        Ok(Some(t)) => r == Ok::<T, Failure>(t),
        Ok(None) => r is Err && r->Err_0@ == unmatched,
        Err(_) => r is Err && r->Err_0@ == rejected,
    }
}

/// What is owed for a write that the host may refuse, by raising or by
/// reporting that nothing was written: nothing, or the failure that carries
/// `msg`.
pub open spec fn written_or<E>(outcome: Result<bool, E>, msg: String) -> Result<(), Failure> {
    match outcome {
        Ok(true) => Ok(()),
        _ => Err(Failure { message: msg }),
    }
}

/// Requiring a value that may be absent.
pub trait OptionExt<T>: Sized {
    /// The optional value that `self` stands for.
    spec fn held(self) -> Option<T>;

    /// The value, or the failure with the diagnostic `msg`.
    fn custom_expect(self, msg: String) -> (r: Result<T, Failure>)
        ensures
            r == present_or(self.held(), msg),
    ;
}

/// Requiring the value of an operation that may have failed.
pub trait ResultExt<T, E>: Sized {
    /// The outcome that `self` stands for.
    spec fn held(self) -> Result<T, E>;

    /// The value, or the failure with the diagnostic `msg`; the cause is
    /// dropped.
    fn custom_expect(self, msg: String) -> (r: Result<T, Failure>)
        ensures
            r == done_or(self.held(), msg),
    ;
}

impl<T> OptionExt<T> for Option<T> {
    open spec fn held(self) -> Option<T> {
        self
    }

    fn custom_expect(self, msg: String) -> (r: Result<T, Failure>) {
        match self {
            Some(t) => Ok(t),
            None => Err(Failure { message: msg }),
        }
    }
}

impl<T, E> ResultExt<T, E> for Result<T, E> {
    open spec fn held(self) -> Result<T, E> {
        self
    }

    fn custom_expect(self, msg: String) -> (r: Result<T, Failure>) {
        match self {
            Ok(t) => Ok(t),
            Err(_) => Err(Failure { message: msg }),
        }
    }
}

/// The match of a search, or the failure with the diagnostic `rejected`
/// where the host rejected the search and `unmatched` where it found nothing.
pub fn require_match<T, E>(outcome: Result<Option<T>, E>, rejected: String, unmatched: String) -> (r:
    Result<T, Failure>)
    ensures
        r == matched_or(outcome, rejected, unmatched),
{
    let found = outcome.custom_expect(rejected)?;
    found.custom_expect(unmatched)
}

/// Nothing, where the host made the write; else the failure with the
/// diagnostic `msg`.
pub fn require_written<E>(outcome: Result<bool, E>, msg: String) -> (r: Result<(), Failure>)
    ensures
        r == written_or(outcome, msg),
{
    match outcome {
        Ok(true) => Ok(()),
        _ => Err(Failure { message: msg }),
    }
}

/// The diagnostic that is `prefix` followed by `value`.
pub fn diagnostic(prefix: &str, value: &str) -> (r: String)
    ensures
        r@ == prefix@ + value@,
{
    String::from_str(prefix).concat(value)
}

} // verus!
