//! Errors reported by the library.
use vstd::prelude::*;

verus! {

/// The errors of the application, each with a message.
#[derive(Debug, Clone)]
pub enum AppError {
    Io(String),
    Config(String),
    Process(String),
    BridgeInstall(String),
    EnvNotFound(String),
}

/// The kind of an error and its message, as plain values.
pub enum AppErrorView {
    Io(Seq<char>),
    Config(Seq<char>),
    Process(Seq<char>),
    BridgeInstall(Seq<char>),
    EnvNotFound(Seq<char>),
}

impl View for AppError {
    type V = AppErrorView;

    open spec fn view(&self) -> AppErrorView {
        match self {
            AppError::Io(m) => AppErrorView::Io(m@),
            AppError::Config(m) => AppErrorView::Config(m@),
            AppError::Process(m) => AppErrorView::Process(m@),
            AppError::BridgeInstall(m) => AppErrorView::BridgeInstall(m@),
            AppError::EnvNotFound(m) => AppErrorView::EnvNotFound(m@),
        }
    }
}

/// The human-readable text of an error: a prefix naming its kind, then its message.
pub open spec fn error_text_spec(e: AppErrorView) -> Seq<char> {
    match e {
        AppErrorView::Io(m) => "io error: "@ + m,
        AppErrorView::Config(m) => "config error: "@ + m,
        AppErrorView::Process(m) => "process error: "@ + m,
        AppErrorView::BridgeInstall(m) => "bridge install error: "@ + m,
        AppErrorView::EnvNotFound(m) => "dependency not found: "@ + m,
    }
}

impl AppError {
    /// The human-readable text of this error.
    pub fn message(&self) -> (r: String)
        ensures
            r@ == error_text_spec(self@),
    {
        let (prefix, m) = match self {
            AppError::Io(m) => ("io error: ", m),
            AppError::Config(m) => ("config error: ", m),
            AppError::Process(m) => ("process error: ", m),
            AppError::BridgeInstall(m) => ("bridge install error: ", m),
            AppError::EnvNotFound(m) => ("dependency not found: ", m),
        };
        let mut r = String::from_str(prefix);
        r.append(m.as_str());
        r
    }
}

} // verus!
