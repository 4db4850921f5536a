//! The editor session.
//!
//! A session is a state machine. Each call of [`Editor::run`] takes the
//! host's answer to the previous request, changes the session accordingly
//! and returns the next request. Between two calls the host does the one
//! thing that was asked of it: switch the mode of the device, wait for an
//! input event, ask for the size of the viewport, or write a batch of screen
//! operations.

pub mod host;
pub mod input;
pub mod laws;
pub mod screen;
pub mod terminal;

use crate::editor::host::{failure_of, Request, RequestView, Response, ResponseView, TerminalError};
use crate::editor::input::{is_quit_event, InputEvent};
use crate::editor::screen::{
    farewell_view, placeholder_rows, placeholder_view, redraw_view, FAREWELL, FILLER, LINE_BREAK,
};
use crate::editor::terminal::{CommandView, Position, Size, Terminal};
use vstd::prelude::*;

verus! {

/// Where a session stands: which request the host is working on.
#[derive(Copy, Clone, Debug, PartialEq, Eq)]
pub enum Stage {
    /// Nothing has been asked of the host yet.
    Created,
    /// The host is putting the device into raw mode.
    Initializing,
    /// The host is waiting for an input event.
    Reading,
    /// The host is asking the device for the size of the viewport.
    Measuring,
    /// The host is writing a redraw.
    Painting,
    /// The host is writing what was left in the queue when the loop ended.
    Flushing,
    /// The host is restoring the mode of the device.
    Restoring,
    /// The host has been told to exit.
    Finished,
}

/// The editor session.
pub struct Editor {
    should_quit: bool,
    stage: Stage,
    failure: Option<TerminalError>,
}

/// What an [`Editor`] stands for in contracts.
pub struct EditorView {
    /// Whether the command to quit has been seen. Once true it stays true.
    pub should_quit: bool,
    pub stage: Stage,
    /// The message of the failure that the session ends with, if any.
    pub failure: Option<Seq<char>>,
}

/// The outcome of one call of [`Editor::run`].
pub struct Turn {
    /// The session after the call.
    pub editor: EditorView,
    /// The queue of the terminal after the call.
    pub queue: Seq<CommandView>,
    /// What the host is asked to do.
    pub request: RequestView,
}

impl EditorView {
    /// A session that has not begun.
    pub open spec fn initial() -> EditorView {
        EditorView { should_quit: false, stage: Stage::Created, failure: None }
    }

    /// This session at another stage.
    pub open spec fn at(self, stage: Stage) -> EditorView {
        EditorView { stage, ..self }
    }

    /// This session with `message` as the failure it ends with.
    pub open spec fn failed(self, message: Seq<char>) -> EditorView {
        EditorView { failure: Some(message), ..self }
    }

    /// This session after it has seen `event`: the command to quit makes it
    /// quit, and no event makes it run again.
    pub open spec fn after_event(self, event: InputEvent) -> EditorView {
        EditorView { should_quit: self.should_quit || is_quit_event(event), ..self }
    }

    /// This session after it has seen `events`, first to last.
    pub open spec fn after_events(self, events: Seq<InputEvent>) -> EditorView
        decreases events.len(),
    {
        if events.len() == 0 {
            self
        } else {
            self.after_events(events.drop_last()).after_event(events.last())
        }
    }

    /// Whether this session is in its loop or about to enter it, has not
    /// been told to quit, and has met no failure.
    pub open spec fn running(self) -> bool {
        &&& !self.should_quit
        &&& self.failure is None
        &&& (self.stage == Stage::Initializing || self.stage == Stage::Reading || self.stage
            == Stage::Measuring || self.stage == Stage::Painting)
    }

    /// The turn that hands the queue to the host as a redraw.
    pub open spec fn paint(self, queue: Seq<CommandView>) -> Turn {
        Turn {
            editor: self.at(Stage::Painting),
            queue: Seq::empty(),
            request: RequestView::Flush(queue),
        }
    }

    /// The turn that leaves the loop: the use of the terminal ends, and what
    /// is still queued goes to the host as the last batch.
    pub open spec fn leave(self, queue: Seq<CommandView>) -> Turn {
        Turn {
            editor: self.at(Stage::Flushing),
            queue: Seq::empty(),
            request: RequestView::Flush(queue),
        }
    }

    /// The turn of a session in the loop that is told `response` while
    /// `queue` is queued.
    ///
    /// An input event is interpreted and then drawn: the farewell at once,
    /// the placeholder view once the host has told the size of the viewport.
    /// Each redraw goes to the host in one batch. When the batch is written
    /// the loop ends if the session is quitting, and waits for the next
    /// event if not. A response that does not answer the request, and a
    /// failure above all, ends the loop with that failure.
    pub open spec fn loop_step(self, queue: Seq<CommandView>, response: ResponseView) -> Turn {
        match (self.stage, response) {
            (Stage::Reading, ResponseView::Event(event)) => {
                let editor = self.after_event(event);
                if editor.should_quit {
                    editor.paint(queue + farewell_view())
                } else {
                    Turn { editor: editor.at(Stage::Measuring), queue, request: RequestView::QuerySize }
                }
            },
            (Stage::Measuring, ResponseView::Size { columns, rows }) => self.paint(
                queue + redraw_view(self.should_quit, rows as nat),
            ),
            (Stage::Painting, ResponseView::Done) => if self.should_quit {
                self.leave(queue)
            } else {
                Turn { editor: self.at(Stage::Reading), queue, request: RequestView::ReadEvent }
            },
            _ => self.failed(failure_of(response)).leave(queue),
        }
    }

    /// The turn of a session that is told `response` while `queue` is
    /// queued.
    ///
    /// A session begins by asking for raw mode, then queues the first
    /// operations and enters the loop. However the loop ends, and also when
    /// raw mode could not be had, the queue is flushed and the mode of the
    /// device restored before the host is told to exit. A failure while the
    /// queue is flushed ends the session at once, and replaces, as a failure
    /// to restore the mode does, the failure that ended the loop.
    pub open spec fn step(self, queue: Seq<CommandView>, response: ResponseView) -> Turn {
        match self.stage {
            Stage::Created => Turn {
                editor: self.at(Stage::Initializing),
                queue,
                request: RequestView::EnableRawMode,
            },
            Stage::Initializing => match response {
                ResponseView::Done => Turn {
                    editor: self.at(Stage::Reading),
                    queue: queue + Terminal::initial_view(),
                    request: RequestView::ReadEvent,
                },
                _ => self.failed(failure_of(response)).leave(queue),
            },
            Stage::Reading | Stage::Measuring | Stage::Painting => self.loop_step(queue, response),
            Stage::Flushing => match response {
                ResponseView::Done => Turn {
                    editor: self.at(Stage::Restoring),
                    queue,
                    request: RequestView::DisableRawMode,
                },
                _ => Turn {
                    editor: self.failed(failure_of(response)).at(Stage::Finished),
                    queue,
                    request: RequestView::Exit,
                },
            },
            Stage::Restoring => match response {
                ResponseView::Done => Turn {
                    editor: self.at(Stage::Finished),
                    queue,
                    request: RequestView::Exit,
                },
                _ => Turn {
                    editor: self.failed(failure_of(response)).at(Stage::Finished),
                    queue,
                    request: RequestView::Exit,
                },
            },
            Stage::Finished => Turn { editor: self, queue, request: RequestView::Exit },
        }
    }
}

impl View for Editor {
    type V = EditorView;

    closed spec fn view(&self) -> EditorView {
        EditorView {
            should_quit: self.should_quit,
            stage: self.stage,
            failure: match self.failure {
                Some(error) => Some(error@),
                None => None,
            },
        }
    }
}

impl Editor {
    /// A session that has not begun: it is running, and nothing has failed.
    pub fn default() -> (editor: Editor)
        ensures
            editor@ == EditorView::initial(),
    {
        Editor { should_quit: false, stage: Stage::Created, failure: None }
    }

    /// Interprets one input event. The command to quit makes the session
    /// quit. Every other event leaves the session as it was.
    pub fn evaluate_event(&mut self, event: &InputEvent)
        ensures
            final(self)@ == old(self)@.after_event(*event),
    {
        if event.is_quit() {
            self.should_quit = true;
        }
    }

    /// Whether the session has been told to quit.
    pub fn should_quit(&self) -> (quit: bool)
        ensures
            quit == self@.should_quit,
    {
        self.should_quit
    }

    /// The stage at which the session stands.
    pub fn stage(&self) -> (stage: Stage)
        ensures
            stage == self@.stage,
    {
        self.stage
    }

    /// The failure that the session ends with, if there is one.
    pub fn failure(&self) -> (failure: &Option<TerminalError>)
        ensures
            failure matches Some(error) ==> self@.failure == Some(error@),
            failure is None <==> self@.failure is None,
    {
        &self.failure
    }

    /// Takes the session one turn further: reads the host's answer to the
    /// previous request and returns the next request. The first call only
    /// starts the session, and does not look at `response`. After `Exit`
    /// every further call returns `Exit` and changes nothing.
    pub fn run(&mut self, terminal: &mut Terminal, response: Response) -> (request: Request)
        ensures
            final(self)@ == old(self)@.step(old(terminal)@, response@).editor,
            final(terminal)@ == old(self)@.step(old(terminal)@, response@).queue,
            request@ == old(self)@.step(old(terminal)@, response@).request,
    {
        match self.stage {
            Stage::Created => {
                self.stage = Stage::Initializing;
                Request::EnableRawMode
            },
            Stage::Initializing => match response {
                Response::Done => {
                    terminal.initialize();
                    self.stage = Stage::Reading;
                    Request::ReadEvent
                },
                other => {
                    self.failure = Some(other.into_error());
                    self.leave(terminal)
                },
            },
            Stage::Reading | Stage::Measuring | Stage::Painting => self.repl(terminal, response),
            Stage::Flushing => match response {
                Response::Done => {
                    self.stage = Stage::Restoring;
                    Request::DisableRawMode
                },
                other => {
                    self.failure = Some(other.into_error());
                    self.stage = Stage::Finished;
                    Request::Exit
                },
            },
            Stage::Restoring => {
                match response {
                    Response::Done => {},
                    other => {
                        self.failure = Some(other.into_error());
                    },
                }
                self.stage = Stage::Finished;
                Request::Exit
            },
            Stage::Finished => Request::Exit,
        }
    }

    /// One turn of the loop: an event is read, interpreted and drawn, and the
    /// drawing written, until the session quits or the device fails.
    fn repl(&mut self, terminal: &mut Terminal, response: Response) -> (request: Request)
        requires
            old(self)@.stage == Stage::Reading || old(self)@.stage == Stage::Measuring || old(
                self,
            )@.stage == Stage::Painting,
        ensures
            final(self)@ == old(self)@.loop_step(old(terminal)@, response@).editor,
            final(terminal)@ == old(self)@.loop_step(old(terminal)@, response@).queue,
            request@ == old(self)@.loop_step(old(terminal)@, response@).request,
    {
        match (self.stage, response) {
            (Stage::Reading, Response::Event(event)) => {
                self.evaluate_event(&event);
                if self.should_quit {
                    Self::draw_farewell(terminal);
                    self.paint(terminal)
                } else {
                    self.stage = Stage::Measuring;
                    Request::QuerySize
                }
            },
            (Stage::Measuring, Response::Size { columns, rows }) => {
                self.refresh_screen(terminal, Terminal::size(columns, rows));
                self.paint(terminal)
            },
            (Stage::Painting, Response::Done) => {
                if self.should_quit {
                    self.leave(terminal)
                } else {
                    self.stage = Stage::Reading;
                    Request::ReadEvent
                }
            },
            (_, other) => {
                self.failure = Some(other.into_error());
                self.leave(terminal)
            },
        }
    }

    /// Hands what is queued to the host as one redraw.
    fn paint(&mut self, terminal: &mut Terminal) -> (request: Request)
        ensures
            final(self)@ == old(self)@.paint(old(terminal)@).editor,
            final(terminal)@ == old(self)@.paint(old(terminal)@).queue,
            request@ == old(self)@.paint(old(terminal)@).request,
    {
        self.stage = Stage::Painting;
        Request::Flush(terminal.execute())
    }

    /// Leaves the loop: ends the use of the terminal, and hands what is
    /// still queued to the host as the last batch.
    fn leave(&mut self, terminal: &mut Terminal) -> (request: Request)
        ensures
            final(self)@ == old(self)@.leave(old(terminal)@).editor,
            final(terminal)@ == old(self)@.leave(old(terminal)@).queue,
            request@ == old(self)@.leave(old(terminal)@).request,
    {
        self.stage = Stage::Flushing;
        Request::Flush(terminal.terminate())
    }

    /// Queues the placeholder view for a viewport of `height` rows.
    pub fn draw_rows(terminal: &mut Terminal, height: usize)
        ensures
            final(terminal)@ == old(terminal)@ + placeholder_view(height as nat),
    {
        let mut row: usize = 0;
        assert(terminal@ =~= old(terminal)@ + placeholder_rows(height as nat, 0));
        while row < height
            invariant
                row <= height,
                terminal@ == old(terminal)@ + placeholder_rows(height as nat, row as nat),
            decreases height - row,
        {
            terminal.print(FILLER);
            if row + 1 != height {
                terminal.print(LINE_BREAK);
            }
            row = row + 1;
            assert(terminal@ =~= old(terminal)@ + placeholder_rows(height as nat, row as nat));
        }
    }

    /// Queues the farewell: the screen is cleared and the farewell printed.
    pub fn draw_farewell(terminal: &mut Terminal)
        ensures
            final(terminal)@ == old(terminal)@ + farewell_view(),
    {
        terminal.clear_screen();
        terminal.print(FAREWELL);
        assert(terminal@ =~= old(terminal)@ + farewell_view());
    }

    /// Queues one redraw for a viewport of the given size. The size is not
    /// looked at when the session is quitting.
    pub fn refresh_screen(&self, terminal: &mut Terminal, size: Size)
        ensures
            final(terminal)@ == old(terminal)@ + redraw_view(
                self@.should_quit,
                size.height as nat,
            ),
    {
        if self.should_quit {
            Self::draw_farewell(terminal);
        } else {
            Self::draw_rows(terminal, size.height);
            terminal.move_cursor_to(Position { x: 0, y: 0 });
            assert(terminal@ =~= old(terminal)@ + redraw_view(false, size.height as nat));
        }
    }
}

} // verus!
