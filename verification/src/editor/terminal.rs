//! The terminal control surface: a queue of screen operations.
//!
//! Every change to the screen is first queued here and leaves the queue in
//! one batch, in the order in which it was queued. The host writes the batch
//! to the device.

use vstd::prelude::*;

verus! {

/// The largest coordinate that the terminal device can be given.
pub const MAX_COORDINATE: u16 = 65535;

/// The viewport of the terminal, in character cells.
#[derive(Copy, Clone, Debug, PartialEq, Eq)]
pub struct Size {
    pub height: usize,
    pub width: usize,
}

/// A cursor position: `x` is the column, `y` the row, both counted from zero.
#[derive(Copy, Clone, Debug, PartialEq, Eq)]
pub struct Position {
    pub x: usize,
    pub y: usize,
}

/// The coordinate that the device is given for `value`: `value` itself where
/// the device can represent it, the largest representable coordinate
/// otherwise.
pub open spec fn clamped(value: int) -> int {
    if value > MAX_COORDINATE as int {
        MAX_COORDINATE as int
    } else {
        value
    }
}

/// Clamps a coordinate to what the device can represent.
pub fn clamp_coordinate(value: usize) -> (coordinate: u16)
    ensures
        coordinate as int == clamped(value as int),
{
    if value > 65535 {
        MAX_COORDINATE
    } else {
        value as u16
    }
}

/// One screen operation, as it waits in the queue.
#[derive(Debug, PartialEq, Eq)]
pub enum Command {
    /// Erase the whole screen.
    ClearScreen,
    /// Erase the line on which the cursor stands.
    ClearLine,
    /// Put the cursor on the cell at `column` and `row`.
    MoveTo { column: u16, row: u16 },
    /// Stop showing the cursor.
    HideCursor,
    /// Show the cursor again.
    ShowCursor,
    /// Write the text where the cursor stands. Control characters in it are
    /// passed on as they are.
    Print(String),
}

/// What a [`Command`] stands for in contracts: the same operation, with the
/// printed text as a sequence of characters.
pub enum CommandView {
    ClearScreen,
    ClearLine,
    MoveTo { column: u16, row: u16 },
    HideCursor,
    ShowCursor,
    Print(Seq<char>),
}

impl View for Command {
    type V = CommandView;

    open spec fn view(&self) -> CommandView {
        match self {
            Command::ClearScreen => CommandView::ClearScreen,
            Command::ClearLine => CommandView::ClearLine,
            Command::MoveTo { column, row } => CommandView::MoveTo { column: *column, row: *row },
            Command::HideCursor => CommandView::HideCursor,
            Command::ShowCursor => CommandView::ShowCursor,
            Command::Print(text) => CommandView::Print(text@),
        }
    }
}

/// The operations that a sequence of commands stands for, in the same order.
pub open spec fn command_views(commands: Seq<Command>) -> Seq<CommandView> {
    Seq::new(commands.len(), |i: int| commands[i]@)
}

/// The queue of operations that have been asked for and not yet handed to the
/// device.
pub struct Terminal {
    queue: Vec<Command>,
}

impl View for Terminal {
    type V = Seq<CommandView>;

    /// The queued operations, oldest first.
    closed spec fn view(&self) -> Seq<CommandView> {
        command_views(self.queue@)
    }
}

impl Terminal {
    /// A terminal with nothing queued.
    pub fn new() -> (terminal: Terminal)
        ensures
            terminal@ == Seq::<CommandView>::empty(),
    {
        Terminal { queue: Vec::new() }
    }

    /// The operations with which a session begins: the screen is cleared and
    /// the cursor goes to the top left cell.
    pub open spec fn initial_view() -> Seq<CommandView> {
        seq![CommandView::ClearScreen, CommandView::MoveTo { column: 0, row: 0 }]
    }

    /// Queues the operations with which a session begins. The host has put
    /// the device into raw mode before; nothing is handed to the device yet.
    pub fn initialize(&mut self)
        ensures
            final(self)@ == old(self)@ + Self::initial_view(),
    {
        self.clear_screen();
        self.move_cursor_to(Position { x: 0, y: 0 });
        assert(self@ =~= old(self)@ + Self::initial_view());
    }

    /// Ends the use of the terminal: hands over what is still queued, oldest
    /// first, as the last batch. The host writes it and then restores the
    /// mode in which it found the device.
    pub fn terminate(&mut self) -> (batch: Vec<Command>)
        ensures
            command_views(batch@) == old(self)@,
            final(self)@ == Seq::<CommandView>::empty(),
    {
        self.execute()
    }

    /// Queues the erasing of the whole screen.
    pub fn clear_screen(&mut self)
        ensures
            final(self)@ == old(self)@.push(CommandView::ClearScreen),
    {
        self.queue_command(Command::ClearScreen)
    }

    /// Queues the erasing of the line on which the cursor stands.
    pub fn clear_line(&mut self)
        ensures
            final(self)@ == old(self)@.push(CommandView::ClearLine),
    {
        self.queue_command(Command::ClearLine)
    }

    /// Queues a move of the cursor to `position`. A coordinate beyond
    /// [`MAX_COORDINATE`] is replaced by [`MAX_COORDINATE`].
    pub fn move_cursor_to(&mut self, position: Position)
        ensures
            final(self)@ == old(self)@.push(
                CommandView::MoveTo {
                    column: clamped(position.x as int) as u16,
                    row: clamped(position.y as int) as u16,
                },
            ),
    {
        let column: u16 = clamp_coordinate(position.x);
        let row: u16 = clamp_coordinate(position.y);
        self.queue_command(Command::MoveTo { column, row })
    }

    /// Queues the hiding of the cursor.
    pub fn hide_cursor(&mut self)
        ensures
            final(self)@ == old(self)@.push(CommandView::HideCursor),
    {
        self.queue_command(Command::HideCursor)
    }

    /// Queues the showing of the cursor.
    pub fn show_cursor(&mut self)
        ensures
            final(self)@ == old(self)@.push(CommandView::ShowCursor),
    {
        self.queue_command(Command::ShowCursor)
    }

    /// The viewport for the dimensions that the device reported: `columns`
    /// cells wide and `rows` cells high.
    pub fn size(columns: u16, rows: u16) -> (size: Size)
        ensures
            size.width == columns,
            size.height == rows,
    {
        Size { height: rows as usize, width: columns as usize }
    }

    /// Queues the writing of `text` where the cursor stands.
    pub fn print(&mut self, text: &str)
        ensures
            final(self)@ == old(self)@.push(CommandView::Print(text@)),
    {
        self.queue_command(Command::Print(text.to_owned()))
    }

    /// Puts `command` at the end of the queue.
    pub fn queue_command(&mut self, command: Command)
        ensures
            final(self)@ == old(self)@.push(command@),
    {
        self.queue.push(command);
        assert(command_views(self.queue@) =~= command_views(old(self).queue@).push(command@));
    }

    /// Hands over everything that is queued, oldest first, and leaves the
    /// queue empty.
    pub fn execute(&mut self) -> (batch: Vec<Command>)
        ensures
            command_views(batch@) == old(self)@,
            final(self)@ == Seq::<CommandView>::empty(),
    {
        let mut batch: Vec<Command> = Vec::new();
        core::mem::swap(&mut self.queue, &mut batch);
        assert(command_views(self.queue@) =~= Seq::<CommandView>::empty());
        batch
    }
}

} // verus!
