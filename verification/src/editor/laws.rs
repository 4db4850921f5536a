//! What holds of every session, whatever the host reports.

use crate::editor::host::{answers, RequestView, ResponseView};
use crate::editor::input::{is_quit_event, InputEvent, KeyCode, CONTROL};
use crate::editor::screen::{filler, line_break, placeholder_rows, placeholder_view};
use crate::editor::terminal::CommandView;
use crate::editor::{EditorView, Stage, Turn};
use vstd::prelude::*;

verus! {

impl Turn {
    /// The first turn of a session: that of a session which has not begun,
    /// with nothing queued.
    pub open spec fn first() -> Turn {
        EditorView::initial().step(Seq::empty(), ResponseView::Done)
    }

    /// The turn that follows this one when the host answers `response`.
    pub open spec fn after(self, response: ResponseView) -> Turn {
        self.editor.step(self.queue, response)
    }

    /// The turn that is reached from this one when the host gives the
    /// answers of `script`, first to last.
    pub open spec fn after_all(self, script: Seq<ResponseView>) -> Turn
        decreases script.len(),
    {
        if script.len() == 0 {
            self
        } else {
            self.after_all(script.drop_last()).after(script.last())
        }
    }
}

/// Whether `response` reports the command to quit.
pub open spec fn reports_quit(response: ResponseView) -> bool {
    response matches ResponseView::Event(event) && is_quit_event(event)
}

/// How often `command` occurs in `commands`.
pub open spec fn occurrences(commands: Seq<CommandView>, command: CommandView) -> nat
    decreases commands.len(),
{
    if commands.len() == 0 {
        0
    } else {
        occurrences(commands.drop_last(), command) + if commands.last() == command {
            1nat
        } else {
            0nat
        }
    }
}

/// The command to quit is a key event for the character `q` with the control
/// key, and no other modifier key, held: no other event is.
pub proof fn lemma_quit_binding(event: InputEvent)
    ensures
        is_quit_event(event) <==> (event matches InputEvent::Key(key) && key.code == KeyCode::Char(
            'q',
        ) && key.modifiers.bits == CONTROL),
{
}

/// A session quits after a sequence of events if and only if it had quit
/// before or one of the events is the command to quit. So a session that
/// sees no command to quit goes on running, and one that has quit never runs
/// again. Nothing else of the session changes.
pub proof fn lemma_after_events(editor: EditorView, events: Seq<InputEvent>)
    ensures
        editor.after_events(events).should_quit <==> (editor.should_quit || exists|i: int|
            0 <= i < events.len() && is_quit_event(#[trigger] events[i])),
        editor.after_events(events).stage == editor.stage,
        editor.after_events(events).failure == editor.failure,
    decreases events.len(),
{
    if events.len() > 0 {
        let earlier = events.drop_last();
        lemma_after_events(editor, earlier);
        if editor.after_events(events).should_quit && !editor.should_quit {
            if is_quit_event(events.last()) {
                assert(is_quit_event(events[events.len() - 1]));
            } else {
                let i = choose|i: int| 0 <= i < earlier.len() && is_quit_event(#[trigger] earlier[i]);
                assert(is_quit_event(events[i]));
            }
        }
        if exists|i: int| 0 <= i < events.len() && is_quit_event(#[trigger] events[i]) {
            let i = choose|i: int| 0 <= i < events.len() && is_quit_event(#[trigger] events[i]);
            if i < earlier.len() {
                assert(is_quit_event(earlier[i]));
            }
        }
    }
}

/// One turn makes a running session quit if and only if the session was
/// waiting for an event and the host reports the command to quit.
pub proof fn lemma_quit_transition(
    editor: EditorView,
    queue: Seq<CommandView>,
    response: ResponseView,
)
    requires
        !editor.should_quit,
    ensures
        editor.step(queue, response).editor.should_quit <==> (editor.stage == Stage::Reading
            && reports_quit(response)),
{
}

/// No turn makes a session that has quit run again.
pub proof fn lemma_quit_is_final(turn: Turn, script: Seq<ResponseView>)
    requires
        turn.editor.should_quit,
    ensures
        turn.after_all(script).editor.should_quit,
    decreases script.len(),
{
    if script.len() > 0 {
        lemma_quit_is_final(turn, script.drop_last());
    }
}

/// As long as the host answers every request, reports no failure and no
/// command to quit, the session goes on running: it has not quit, has met
/// no failure, and asks the host neither to restore the mode of the device
/// nor to exit.
pub proof fn lemma_runs_until_told_to_quit(script: Seq<ResponseView>)
    requires
        forall|i: int|
            0 <= i < script.len() ==> answers(
                Turn::first().after_all(#[trigger] script.take(i)).request,
                script[i],
            ),
        forall|i: int| 0 <= i < script.len() ==> !reports_quit(#[trigger] script[i]),
    ensures
        Turn::first().after_all(script).editor.running(),
        Turn::first().after_all(script).request !is DisableRawMode,
        Turn::first().after_all(script).request !is Exit,
{
    lemma_running_turn(script);
}

/// What a running session asks of the host at each stage.
spec fn asks_as_it_stands(turn: Turn) -> bool {
    match turn.editor.stage {
        Stage::Initializing => turn.request is EnableRawMode,
        Stage::Reading => turn.request is ReadEvent,
        Stage::Measuring => turn.request is QuerySize,
        Stage::Painting => turn.request is Flush,
        _ => false,
    }
}

proof fn lemma_running_turn(script: Seq<ResponseView>)
    requires
        forall|i: int|
            0 <= i < script.len() ==> answers(
                Turn::first().after_all(#[trigger] script.take(i)).request,
                script[i],
            ),
        forall|i: int| 0 <= i < script.len() ==> !reports_quit(#[trigger] script[i]),
    ensures
        Turn::first().after_all(script).editor.running(),
        asks_as_it_stands(Turn::first().after_all(script)),
    decreases script.len(),
{
    if script.len() > 0 {
        let earlier = script.drop_last();
        assert forall|i: int| 0 <= i < earlier.len() implies answers(
            Turn::first().after_all(#[trigger] earlier.take(i)).request,
            earlier[i],
        ) by {
            assert(earlier.take(i) =~= script.take(i));
            assert(earlier[i] == script[i]);
        }
        assert forall|i: int| 0 <= i < earlier.len() implies !reports_quit(
            #[trigger] earlier[i],
        ) by {
            assert(earlier[i] == script[i]);
        }
        lemma_running_turn(earlier);
        assert(script.take(script.len() - 1) =~= earlier);
        assert(!reports_quit(script[script.len() - 1]));
    }
}

/// When the device fails while a session is in its loop or about to enter
/// it, the use of the terminal is still ended: the host is asked to write
/// what is queued, then to restore the mode of the device, and only then to
/// exit. The session ends with the failure that the device reported.
pub proof fn lemma_failure_ends_in_teardown(
    editor: EditorView,
    queue: Seq<CommandView>,
    message: Seq<char>,
)
    requires
        editor.stage == Stage::Initializing || editor.stage == Stage::Reading || editor.stage
            == Stage::Measuring || editor.stage == Stage::Painting,
    ensures
        ({
            let failed = editor.step(queue, ResponseView::Failed(message));
            let flushed = failed.after(ResponseView::Done);
            let restored = flushed.after(ResponseView::Done);
            &&& failed.request == RequestView::Flush(queue)
            &&& flushed.request == RequestView::DisableRawMode
            &&& restored.request == RequestView::Exit
            &&& restored.editor.stage == Stage::Finished
            &&& restored.editor.failure == Some(message)
        }),
{
}

/// The placeholder view for a viewport of `height` rows prints the filler
/// `height` times.
pub proof fn lemma_placeholder_fillers(height: nat)
    ensures
        occurrences(placeholder_view(height), filler()) == height,
{
    lemma_placeholder_rows(height, height);
}

/// The placeholder view for a viewport of at least one row prints one line
/// break less than it has rows, and ends with the filler, not with a line
/// break.
pub proof fn lemma_placeholder_line_breaks(height: nat)
    requires
        height >= 1,
    ensures
        occurrences(placeholder_view(height), line_break()) == height - 1,
        placeholder_view(height).last() == filler(),
{
    lemma_placeholder_rows(height, height);
}

proof fn lemma_occurrences_push(
    commands: Seq<CommandView>,
    pushed: CommandView,
    command: CommandView,
)
    ensures
        occurrences(commands.push(pushed), command) == occurrences(commands, command) + if pushed
            == command {
            1nat
        } else {
            0nat
        },
{
    assert(commands.push(pushed).drop_last() =~= commands);
}

proof fn lemma_placeholder_rows(height: nat, count: nat)
    requires
        count <= height,
    ensures
        occurrences(placeholder_rows(height, count), filler()) == count,
        occurrences(placeholder_rows(height, count), line_break()) == if count == height
            && height > 0 {
            count - 1
        } else {
            count as int
        },
        count > 0 ==> placeholder_rows(height, count).len() > 0,
        count == height && height > 0 ==> placeholder_rows(height, count).last() == filler(),
    decreases count,
{
    reveal_strlit("~");
    reveal_strlit("\r\n");
    assert(filler() != line_break()) by {
        assert(filler()->Print_0.len() == 1);
        assert(line_break()->Print_0.len() == 2);
    }
    if count > 0 {
        let earlier = placeholder_rows(height, (count - 1) as nat);
        lemma_placeholder_rows(height, (count - 1) as nat);
        if count == height {
            assert(placeholder_rows(height, count) =~= earlier.push(filler()));
            lemma_occurrences_push(earlier, filler(), filler());
            lemma_occurrences_push(earlier, filler(), line_break());
        } else {
            assert(placeholder_rows(height, count) =~= earlier.push(filler()).push(line_break()));
            lemma_occurrences_push(earlier, filler(), filler());
            lemma_occurrences_push(earlier, filler(), line_break());
            lemma_occurrences_push(earlier.push(filler()), line_break(), filler());
            lemma_occurrences_push(earlier.push(filler()), line_break(), line_break());
        }
    }
}

} // verus!
