//! The errors that the library reports.

use vstd::prelude::*;

verus! {

/// What went wrong, with the detail that the failing part gave.
#[derive(Debug, PartialEq, Eq)]
pub enum AppError {
    Browser(String),
    Keyring(String),
    Network(String),
    Io(String),
    LoginFailed(String),
    Service(String),
}

/// An `AppError` as contracts see it.
pub enum AppErrorView {
    Browser(Seq<char>),
    Keyring(Seq<char>),
    Network(Seq<char>),
    Io(Seq<char>),
    LoginFailed(Seq<char>),
    Service(Seq<char>),
}

impl View for AppError {
    type V = AppErrorView;

    open spec fn view(&self) -> AppErrorView {
        match self {
            AppError::Browser(detail) => AppErrorView::Browser(detail@),
            AppError::Keyring(detail) => AppErrorView::Keyring(detail@),
            AppError::Network(detail) => AppErrorView::Network(detail@),
            AppError::Io(detail) => AppErrorView::Io(detail@),
            AppError::LoginFailed(detail) => AppErrorView::LoginFailed(detail@),
            AppError::Service(detail) => AppErrorView::Service(detail@),
        }
    }
}

/// The line that describes an error: its kind, then the detail.
pub open spec fn message_text(e: AppErrorView) -> Seq<char> {
    match e {
        AppErrorView::Browser(detail) => "Browser error: "@ + detail,
        AppErrorView::Keyring(detail) => "Keyring error: "@ + detail,
        AppErrorView::Network(detail) => "Network error: "@ + detail,
        AppErrorView::Io(detail) => "IO error: "@ + detail,
        AppErrorView::LoginFailed(detail) => "Login failed: "@ + detail,
        AppErrorView::Service(detail) => "Service error: "@ + detail,
    }
}

impl AppError {
    /// The line that describes this error.
    pub fn message(&self) -> (line: String)
        ensures
            line@ == message_text(self@),
    {
        match self {
            AppError::Browser(detail) => String::from_str("Browser error: ").concat(
                detail.as_str(),
            ),
            AppError::Keyring(detail) => String::from_str("Keyring error: ").concat(
                detail.as_str(),
            ),
            AppError::Network(detail) => String::from_str("Network error: ").concat(
                detail.as_str(),
            ),
            AppError::Io(detail) => String::from_str("IO error: ").concat(detail.as_str()),
            AppError::LoginFailed(detail) => String::from_str("Login failed: ").concat(
                detail.as_str(),
            ),
            AppError::Service(detail) => String::from_str("Service error: ").concat(
                detail.as_str(),
            ),
        }
    }
}

pub type Result<T> = core::result::Result<T, AppError>;

} // verus!
