//! What can go wrong while a tunnel is set up through the `VpnService`.

use vstd::prelude::*;

verus! {

/// A method of `TalpidVpnService` that is called from here.
#[derive(Clone, Copy, Debug, PartialEq, Eq, Structural)]
pub enum Method {
    CreateTun,
    Bypass,
}

impl Method {
    /// The method's name on the Java side.
    pub open spec fn spec_name(self) -> Seq<char> {
        match self {
            Method::CreateTun => "createTun"@,
            Method::Bypass => "bypass"@,
        }
    }

    /// The method's name on the Java side.
    pub fn name(self) -> (name: &'static str)
        ensures
            name@ == self.spec_name(),
    {
        match self {
            Method::CreateTun => "createTun",
            Method::Bypass => "bypass",
        }
    }
}

/// Errors that occur while setting up a `VpnService` tunnel.
#[derive(Debug, PartialEq, Eq)]
pub enum Error {
    /// The Java VM could not be attached to the calling thread.
    AttachJvmToThread,
    /// The service refused to let the socket bypass the tunnel.
    Bypass,
    /// The call of the method failed.
    CallMethod(Method),
    /// No second handle to the Java VM could be made for a tunnel handle.
    CloneJavaVm,
    /// The service has no such method.
    FindMethod(Method),
    /// The method returned a value of the wrong kind; the text shows it.
    InvalidMethodResult(Method, String),
}

/// An error, with the text it carries as a sequence of characters.
pub enum ErrorView {
    AttachJvmToThread,
    Bypass,
    CallMethod(Method),
    CloneJavaVm,
    FindMethod(Method),
    InvalidMethodResult(Method, Seq<char>),
}

impl ErrorView {
    /// The error in words.
    pub open spec fn message(self) -> Seq<char> {
        match self {
            ErrorView::AttachJvmToThread => "Failed to attach Java VM to tunnel thread"@,
            ErrorView::Bypass => "Failed to allow socket to bypass tunnel"@,
            ErrorView::CallMethod(method) => "Failed to call Java method TalpidVpnService."@
                + method.spec_name(),
            ErrorView::CloneJavaVm => "Failed to create Java VM handle clone"@,
            ErrorView::FindMethod(method) => "Failed to find TalpidVpnService."@
                + method.spec_name() + " method"@,
            ErrorView::InvalidMethodResult(method, text) =>
                "Received an invalid result from TalpidVpnService."@ + method.spec_name() + ": "@
                    + text,
        }
    }
}

impl View for Error {
    type V = ErrorView;

    open spec fn view(&self) -> ErrorView {
        match self {
            Error::AttachJvmToThread => ErrorView::AttachJvmToThread,
            Error::Bypass => ErrorView::Bypass,
            Error::CallMethod(method) => ErrorView::CallMethod(*method),
            Error::CloneJavaVm => ErrorView::CloneJavaVm,
            Error::FindMethod(method) => ErrorView::FindMethod(*method),
            Error::InvalidMethodResult(method, text) => ErrorView::InvalidMethodResult(
                *method,
                text@,
            ),
        }
    }
}

impl Error {
    /// The error in words, with the method and the returned value where it
    /// names one.
    pub fn message(&self) -> (message: String)
        ensures
            message@ == self@.message(),
    {
        match self {
            Error::AttachJvmToThread => String::from_str(
                "Failed to attach Java VM to tunnel thread",
            ),
            Error::Bypass => String::from_str("Failed to allow socket to bypass tunnel"),
            Error::CallMethod(method) => String::from_str(
                "Failed to call Java method TalpidVpnService.",
            ).concat(method.name()),
            Error::CloneJavaVm => String::from_str("Failed to create Java VM handle clone"),
            Error::FindMethod(method) => String::from_str(
                "Failed to find TalpidVpnService.",
            ).concat(method.name()).concat(" method"),
            Error::InvalidMethodResult(method, text) => String::from_str(
                "Received an invalid result from TalpidVpnService.",
            ).concat(method.name()).concat(": ").concat(text.as_str()),
        }
    }
}

} // verus!
