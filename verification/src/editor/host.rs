//! What the session and the host say to each other.
//!
//! The session never touches the device. It hands the host a [`Request`],
//! the host carries it out, and the host's [`Response`] goes into the next
//! call of the session.

use crate::editor::input::InputEvent;
use crate::editor::terminal::{command_views, Command, CommandView};
use vstd::prelude::*;

verus! {

/// The message of the error that stands for a response which does not answer
/// the request that was made.
pub const UNEXPECTED_RESPONSE: &'static str = "the host did not answer the request that was made";

/// A failure of the terminal device: reading an event, changing the mode,
/// writing or asking for the size did not work. The message is the device's.
#[derive(Debug, PartialEq, Eq)]
pub struct TerminalError {
    pub message: String,
}

impl View for TerminalError {
    type V = Seq<char>;

    open spec fn view(&self) -> Seq<char> {
        self.message@
    }
}

/// What the session asks the host to do next.
#[derive(Debug, PartialEq, Eq)]
pub enum Request {
    /// Put the device into raw mode.
    EnableRawMode,
    /// Wait for the next input event.
    ReadEvent,
    /// Ask the device for the size of the viewport.
    QuerySize,
    /// Write these operations to the device, first to last, and flush. When
    /// one of them fails, the rest are not written.
    Flush(Vec<Command>),
    /// Put the device back into the mode in which it was found.
    DisableRawMode,
    /// The session is over.
    Exit,
}

/// What a [`Request`] stands for in contracts.
pub enum RequestView {
    EnableRawMode,
    ReadEvent,
    QuerySize,
    Flush(Seq<CommandView>),
    DisableRawMode,
    Exit,
}

impl View for Request {
    type V = RequestView;

    open spec fn view(&self) -> RequestView {
        match self {
            Request::EnableRawMode => RequestView::EnableRawMode,
            Request::ReadEvent => RequestView::ReadEvent,
            Request::QuerySize => RequestView::QuerySize,
            Request::Flush(batch) => RequestView::Flush(command_views(batch@)),
            Request::DisableRawMode => RequestView::DisableRawMode,
            Request::Exit => RequestView::Exit,
        }
    }
}

/// What the host answers to a [`Request`].
#[derive(Debug, PartialEq, Eq)]
pub enum Response {
    /// The request was carried out, and there is nothing to report.
    Done,
    /// The input event that was read.
    Event(InputEvent),
    /// The size of the viewport, as the device gave it.
    Size { columns: u16, rows: u16 },
    /// The device failed.
    Failed(TerminalError),
}

/// What a [`Response`] stands for in contracts.
pub enum ResponseView {
    Done,
    Event(InputEvent),
    Size { columns: u16, rows: u16 },
    Failed(Seq<char>),
}

impl View for Response {
    type V = ResponseView;

    open spec fn view(&self) -> ResponseView {
        match self {
            Response::Done => ResponseView::Done,
            Response::Event(event) => ResponseView::Event(*event),
            Response::Size { columns, rows } => ResponseView::Size {
                columns: *columns,
                rows: *rows,
            },
            Response::Failed(error) => ResponseView::Failed(error@),
        }
    }
}

/// Whether `response` is an answer to `request` that reports no failure: an
/// event for a read, a size for a query of the size, and `Done` for what
/// has nothing else to report. To `Exit` no answer is awaited, and any will
/// do.
pub open spec fn answers(request: RequestView, response: ResponseView) -> bool {
    match request {
        RequestView::EnableRawMode => response is Done,
        RequestView::ReadEvent => response is Event,
        RequestView::QuerySize => response is Size,
        RequestView::Flush(_) => response is Done,
        RequestView::DisableRawMode => response is Done,
        RequestView::Exit => true,
    }
}

/// The message of the error that a response other than `Done` amounts to
/// where only `Done` lets the session go on: the device's own message, or
/// [`UNEXPECTED_RESPONSE`] for a response that reports no failure.
pub open spec fn failure_of(response: ResponseView) -> Seq<char> {
    match response {
        ResponseView::Failed(message) => message,
        _ => UNEXPECTED_RESPONSE@,
    }
}

impl Response {
    /// The error that this response amounts to where it does not answer the
    /// request.
    pub fn into_error(self) -> (error: TerminalError)
        ensures
            error@ == failure_of(self@),
    {
        match self {
            Response::Failed(error) => error,
            _ => TerminalError { message: UNEXPECTED_RESPONSE.to_owned() },
        }
    }
}

} // verus!
