//! What one call of a `TalpidVpnService` method came to.
//!
//! A call has three steps: attach the Java VM to the thread, find the method,
//! call it. Each can fail, and a call that succeeds returns a Java value.

use vstd::prelude::*;
use crate::error::{Error, ErrorView, Method};

verus! {

/// The Java value that a method returned, as far as its kind matters here.
#[derive(Clone, Copy, Debug, PartialEq, Eq, Structural)]
pub enum JavaValue {
    /// A Java `int`.
    Int(i32),
    /// A Java `boolean`, as the byte that carries it: zero is `false`.
    Bool(u8),
    /// A value of any other kind.
    Other,
}

/// How a call of a method ended.
#[derive(Debug, PartialEq, Eq)]
pub enum CallOutcome {
    /// The Java VM could not be attached to the calling thread.
    AttachFailed,
    /// The method was not found.
    MethodNotFound,
    /// The call itself failed.
    CallFailed,
    /// The method returned this value; the text shows the value for messages.
    Returned(JavaValue, String),
}

/// A call's outcome, with the text it carries as a sequence of characters.
pub enum CallOutcomeView {
    AttachFailed,
    MethodNotFound,
    CallFailed,
    Returned(JavaValue, Seq<char>),
}

impl View for CallOutcome {
    type V = CallOutcomeView;

    open spec fn view(&self) -> CallOutcomeView {
        match self {
            CallOutcome::AttachFailed => CallOutcomeView::AttachFailed,
            CallOutcome::MethodNotFound => CallOutcomeView::MethodNotFound,
            CallOutcome::CallFailed => CallOutcomeView::CallFailed,
            CallOutcome::Returned(value, text) => CallOutcomeView::Returned(*value, text@),
        }
    }
}

/// What a call of `method` that ended in `outcome` returned, or the error
/// that stands for the step that failed.
pub open spec fn returned_value(method: Method, outcome: CallOutcomeView) -> Result<
    (JavaValue, Seq<char>),
    ErrorView,
> {
    match outcome {
        CallOutcomeView::AttachFailed => Err(ErrorView::AttachJvmToThread),
        CallOutcomeView::MethodNotFound => Err(ErrorView::FindMethod(method)),
        CallOutcomeView::CallFailed => Err(ErrorView::CallMethod(method)),
        CallOutcomeView::Returned(value, text) => Ok((value, text)),
    }
}

/// What a call of `createTun` that ended in `outcome` means: the descriptor
/// of the new tunnel where the method returned an `int`, else an error.
pub open spec fn create_tun_result(outcome: CallOutcomeView) -> Result<i32, ErrorView> {
    match returned_value(Method::CreateTun, outcome) {
        Err(error) => Err(error),
        Ok((JavaValue::Int(fd), _)) => Ok(fd),
        Ok((_, text)) => Err(ErrorView::InvalidMethodResult(Method::CreateTun, text)),
    }
}

/// What a call of `bypass` that ended in `outcome` means: success where the
/// method returned `true`, a refusal where it returned `false`, else an
/// error.
pub open spec fn bypass_result(outcome: CallOutcomeView) -> Result<(), ErrorView> {
    match returned_value(Method::Bypass, outcome) {
        Err(error) => Err(error),
        Ok((JavaValue::Bool(flag), _)) => if flag == 0 {
            Err(ErrorView::Bypass)
        } else {
            Ok(())
        },
        Ok((_, text)) => Err(ErrorView::InvalidMethodResult(Method::Bypass, text)),
    }
}

/// The view of a result whose error is an `Error`.
pub open spec fn result_view<T>(result: Result<T, Error>) -> Result<T, ErrorView> {
    match result {
        Ok(value) => Ok(value),
        Err(error) => Err(error@),
    }
}

impl CallOutcome {
    /// The value that the call of `method` returned, with its text, or the
    /// error for the step at which the call failed.
    pub fn returned(self, method: Method) -> (result: Result<(JavaValue, String), Error>)
        ensures
            match returned_value(method, self@) {
                Ok((value, text)) => result matches Ok((v, t)) && v == value && t@ == text,
                Err(error) => result matches Err(e) && e@ == error,
            },
    {
        match self {
            CallOutcome::AttachFailed => Err(Error::AttachJvmToThread),
            CallOutcome::MethodNotFound => Err(Error::FindMethod(method)),
            CallOutcome::CallFailed => Err(Error::CallMethod(method)),
            CallOutcome::Returned(value, text) => Ok((value, text)),
        }
    }

    /// Reads the outcome of a call of `createTun`.
    pub fn into_tun_fd(self) -> (result: Result<i32, Error>)
        ensures
            result_view(result) == create_tun_result(self@),
    {
        match self.returned(Method::CreateTun) {
            Err(error) => Err(error),
            Ok((JavaValue::Int(fd), _)) => Ok(fd),
            Ok((_, text)) => Err(Error::InvalidMethodResult(Method::CreateTun, text)),
        }
    }

    /// Reads the outcome of a call of `bypass`.
    pub fn into_bypass(self) -> (result: Result<(), Error>)
        ensures
            result_view(result) == bypass_result(self@),
    {
        match self.returned(Method::Bypass) {
            Err(error) => Err(error),
            Ok((JavaValue::Bool(0), _)) => Err(Error::Bypass),
            Ok((JavaValue::Bool(_), _)) => Ok(()),
            Ok((_, text)) => Err(Error::InvalidMethodResult(Method::Bypass, text)),
        }
    }
}

} // verus!
