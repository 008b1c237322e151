//! The crawler's messages, and the modules for supervising one run of the
//! crawler and for keeping its configuration.

use vstd::prelude::*;

use crate::sattel::text::join;

pub mod config;
pub mod document;
pub mod json;
pub mod progress;
pub mod session;
pub mod text;
pub mod watch;
pub mod wire;

verus! {

/// Which kind of work a progress bar reports.
#[derive(Clone, Copy, Debug, PartialEq, Eq, Structural)]
pub enum ProgressBarKind {
    Download,
    Crawl,
}

/// One update of a progress bar.
#[derive(Clone, Debug, PartialEq, Eq)]
pub enum ProgressBarEvent {
    Begin { bar: ProgressBarKind, path: String },
    Advance { progress: u32 },
    SetTotal { total: u32 },
    Done,
}

/// Mathematical value of a [`ProgressBarEvent`].
pub enum ProgressBarEventView {
    Begin { bar: ProgressBarKind, path: Seq<char> },
    Advance { progress: u32 },
    SetTotal { total: u32 },
    Done,
}

impl View for ProgressBarEvent {
    type V = ProgressBarEventView;

    open spec fn view(&self) -> ProgressBarEventView {
        match *self {
            ProgressBarEvent::Begin { bar, path } => ProgressBarEventView::Begin { bar, path: path@ },
            ProgressBarEvent::Advance { progress } => ProgressBarEventView::Advance { progress },
            ProgressBarEvent::SetTotal { total } => ProgressBarEventView::SetTotal { total },
            ProgressBarEvent::Done => ProgressBarEventView::Done,
        }
    }
}

/// A progress bar update together with the numeric id of the bar it is for.
#[derive(Clone, Debug, PartialEq, Eq)]
pub struct ProgressBarMessagePayload {
    pub id: u32,
    pub event: ProgressBarEvent,
}

/// Mathematical value of a [`ProgressBarMessagePayload`].
pub struct ProgressBarMessagePayloadView {
    pub id: u32,
    pub event: ProgressBarEventView,
}

impl View for ProgressBarMessagePayload {
    type V = ProgressBarMessagePayloadView;

    open spec fn view(&self) -> ProgressBarMessagePayloadView {
        ProgressBarMessagePayloadView { id: self.id, event: self.event@ }
    }
}

/// An error that the crawler reports: the class of the exception and what it says.
#[derive(Clone, Debug, PartialEq, Eq)]
pub struct Error {
    pub exception: String,
    pub message: String,
}

/// Mathematical value of an [`Error`].
pub struct ErrorView {
    pub exception: Seq<char>,
    pub message: Seq<char>,
}

impl View for Error {
    type V = ErrorView;

    open spec fn view(&self) -> ErrorView {
        ErrorView { exception: self.exception@, message: self.message@ }
    }
}

impl ErrorView {
    /// The error on one line: the exception, a colon and the message.
    pub open spec fn describe(self) -> Seq<char> {
        self.exception + ": "@ + self.message
    }
}

impl Error {
    /// The error on one line: the exception, a colon and the message.
    pub fn describe(&self) -> (text: String)
        ensures
            text@ == self@.describe(),
    {
        let head = join(self.exception.as_str(), ": ");
        join(head.as_str(), self.message.as_str())
    }

    /// A copy of the error.
    pub fn duplicate(&self) -> (copy: Error)
        ensures
            copy@ == self@,
    {
        Error { exception: self.exception.clone(), message: self.message.clone() }
    }
}

/// What the crawler asks to be supplied with.
#[derive(Clone, Copy, Debug, PartialEq, Eq, Structural)]
pub enum RequestSubject {
    Password,
    Username,
    ConfigFilePath,
    JsonArgs,
}

/// One message of the crawler, as it writes one per line.
#[derive(Clone, Debug, PartialEq, Eq)]
pub enum Message {
    Error(Error),
    LoginFailed,
    Crawl { name: String },
    ProgressBar(ProgressBarMessagePayload),
    Request { subject: RequestSubject },
    Log { info: String },
    Done,
}

/// Mathematical value of a [`Message`].
pub enum MessageView {
    Error(ErrorView),
    LoginFailed,
    Crawl { name: Seq<char> },
    ProgressBar(ProgressBarMessagePayloadView),
    Request { subject: RequestSubject },
    Log { info: Seq<char> },
    Done,
}

impl View for Message {
    type V = MessageView;

    open spec fn view(&self) -> MessageView {
        match *self {
            Message::Error(error) => MessageView::Error(error@),
            Message::LoginFailed => MessageView::LoginFailed,
            Message::Crawl { name } => MessageView::Crawl { name: name@ },
            Message::ProgressBar(payload) => MessageView::ProgressBar(payload@),
            Message::Request { subject } => MessageView::Request { subject },
            Message::Log { info } => MessageView::Log { info: info@ },
            Message::Done => MessageView::Done,
        }
    }
}

} // verus!
