//! What is drawn: the scrollback pane, pinned to the newest message, above a
//! one-line input bar with the cursor glyph.

use vstd::prelude::*;
use vstd::string::StringExecFns;
use crate::editor::{EditorView, InputField};
use crate::format::{format_message, message_line};
use crate::history::{HistoryStore, HistoryView};
use crate::message::{message_views, Message, MessageView};

verus! {

/// The number of columns that the prompt takes before the typed text.
pub const PROMPT_WIDTH: u16 = 2;

/// One thing to put on the screen.
#[derive(Debug, PartialEq, Eq)]
pub enum DrawCommand {
    /// Write `text` on row `row`, from the left edge.
    Line { row: u16, text: String },
    /// Put the cursor glyph on row `row` at column `column`.
    Cursor { column: u16, row: u16 },
}

/// The mathematical value of a [`DrawCommand`].
pub enum DrawView {
    Line { row: nat, text: Seq<char> },
    Cursor { column: nat, row: nat },
}

impl View for DrawCommand {
    type V = DrawView;

    open spec fn view(&self) -> DrawView {
        match *self {
            DrawCommand::Line { row, text } => DrawView::Line { row: row as nat, text: text@ },
            DrawCommand::Cursor { column, row } => DrawView::Cursor {
                column: column as nat,
                row: row as nat,
            },
        }
    }
}

/// The values of a run of draw commands, in the same order.
pub open spec fn draw_views(commands: Seq<DrawCommand>) -> Seq<DrawView> {
    commands.map_values(|c: DrawCommand| c@)
}

/// The texts of a run of strings, in the same order.
pub open spec fn line_views(lines: Seq<String>) -> Seq<Seq<char>> {
    lines.map_values(|l: String| l@)
}

/// The rows left for the scrollback on a terminal of `rows` rows: all but the
/// one of the input bar.
pub open spec fn scrollback_rows(rows: nat) -> nat {
    if rows >= 1 {
        (rows - 1) as nat
    } else {
        0
    }
}

/// The scrollback of `height` rows. The newest message stands on the last
/// row, the one before it on the row above, and so on: row `row` shows the
/// message of index `messages.len() - height + row`, and is blank where there
/// is no such message.
pub open spec fn scrollback_text(messages: Seq<MessageView>, height: nat) -> Seq<Seq<char>> {
    Seq::new(
        height,
        |row: int|
            {
                let k = messages.len() - height + row;
                if k < 0 {
                    Seq::empty()
                } else {
                    message_line(messages[k])
                }
            },
    )
}

/// The input bar: the prompt, then the typed text.
pub open spec fn input_bar_text(content: Seq<char>) -> Seq<char> {
    seq!['>', ' '] + content
}

/// The column of the cursor glyph: the prompt's width plus the code points
/// before the cursor, held to the largest column there is.
pub open spec fn cursor_offset(cursor: nat) -> nat {
    if PROMPT_WIDTH + cursor <= u16::MAX {
        PROMPT_WIDTH as nat + cursor
    } else {
        u16::MAX as nat
    }
}

/// The whole frame for a terminal of `rows` rows: one line for each row of
/// the scrollback, from the top; the input bar on the row below; the cursor
/// on that row. A terminal without rows gets nothing.
pub open spec fn frame(rows: nat, history: HistoryView, editor: EditorView) -> Seq<DrawView> {
    if rows == 0 {
        Seq::empty()
    } else {
        let height = scrollback_rows(rows);
        let pane = scrollback_text(history.messages, height);
        Seq::new(height, |row: int| DrawView::Line { row: row as nat, text: pane[row] })
            + seq![
            DrawView::Line { row: height, text: input_bar_text(editor.content) },
            DrawView::Cursor { column: cursor_offset(editor.cursor), row: height },
        ]
    }
}

/// Fewer messages than rows: blank rows on top, as many as are left over,
/// then every message, in order.
pub proof fn lemma_scrollback_padded(messages: Seq<MessageView>, height: nat)
    requires
        messages.len() <= height,
    ensures
        scrollback_text(messages, height) == Seq::new(
            (height - messages.len()) as nat,
            |row: int| Seq::<char>::empty(),
        ) + messages.map_values(|m: MessageView| message_line(m)),
{
    assert(scrollback_text(messages, height) =~= Seq::new(
        (height - messages.len()) as nat,
        |row: int| Seq::<char>::empty(),
    ) + messages.map_values(|m: MessageView| message_line(m)));
}

/// At least as many messages as rows: the newest `height` messages and no
/// others, in order, the newest on the last row.
pub proof fn lemma_scrollback_window(messages: Seq<MessageView>, height: nat)
    requires
        messages.len() >= height,
    ensures
        scrollback_text(messages, height) == messages.skip(messages.len() - height).map_values(
            |m: MessageView| message_line(m),
        ),
{
    assert(scrollback_text(messages, height) =~= messages.skip(
        messages.len() - height,
    ).map_values(|m: MessageView| message_line(m)));
}

/// Computes the rows left for the scrollback.
pub fn scrollback_height(rows: u16) -> (height: u16)
    ensures
        height == scrollback_rows(rows as nat),
{
    rows.saturating_sub(1)
}

/// Lays the messages out on `height` rows, pinned to the bottom: blank rows
/// first where there are fewer messages than rows, only the newest `height`
/// messages where there are more.
pub fn visible_lines(messages: &Vec<Message>, height: usize) -> (lines: Vec<String>)
    ensures
        line_views(lines@) == scrollback_text(message_views(messages@), height as nat),
{
    let count = messages.len();
    let blank = height.saturating_sub(count);
    let skipped = count.saturating_sub(height);
    let ghost want = scrollback_text(message_views(messages@), height as nat);
    let mut lines: Vec<String> = Vec::new();
    let mut row: usize = 0;
    while row < blank
        invariant
            row <= blank <= height,
            count == messages@.len(),
            blank == height - count || (blank == 0 && count >= height),
            lines@.len() == row,
            want == scrollback_text(message_views(messages@), height as nat),
            forall|r: int| 0 <= r < row ==> (#[trigger] lines@[r])@ == want[r],
        decreases blank - row,
    {
        lines.push(String::new());
        row += 1;
    }
    let mut k: usize = skipped;
    while k < count
        invariant
            skipped <= k <= count,
            count == messages@.len(),
            blank + (count - skipped) == height,
            blank == 0 || skipped == 0,
            lines@.len() == blank + (k - skipped),
            want == scrollback_text(message_views(messages@), height as nat),
            forall|r: int| 0 <= r < lines@.len() ==> (#[trigger] lines@[r])@ == want[r],
        decreases count - k,
    {
        lines.push(format_message(&messages[k]));
        k += 1;
    }
    assert(line_views(lines@) =~= want);
    lines
}

/// Writes the input bar for the typed text.
pub fn input_bar(content: &str) -> (bar: String)
    ensures
        bar@ == input_bar_text(content@),
{
    proof {
        reveal_strlit("> ");
    }
    let mut bar = String::from_str("> ");
    bar.append(content);
    assert(bar@ =~= input_bar_text(content@));
    bar
}

/// Computes the column of the cursor glyph.
pub fn cursor_column(cursor: usize) -> (column: u16)
    ensures
        column == cursor_offset(cursor as nat),
{
    if cursor <= (u16::MAX - PROMPT_WIDTH) as usize {
        PROMPT_WIDTH + cursor as u16
    } else {
        u16::MAX
    }
}

/// Draws the current state for a terminal of `rows` rows.
pub fn render(rows: u16, history: &HistoryStore, editor: &InputField) -> (commands: Vec<
    DrawCommand,
>)
    ensures
        draw_views(commands@) == frame(rows as nat, history@, editor@),
{
    let mut commands: Vec<DrawCommand> = Vec::new();
    if rows == 0 {
        assert(draw_views(commands@) =~= Seq::empty());
        return commands;
    }
    let height = scrollback_height(rows);
    let lines = visible_lines(history.messages(), height as usize);
    let ghost pane = scrollback_text(history@.messages, height as nat);
    let ghost want = frame(rows as nat, history@, editor@);
    assert(line_views(lines@).len() == height);
    for line in it: lines.into_iter()
        invariant
            rows >= 1,
            height == rows - 1,
            pane == scrollback_text(history@.messages, height as nat),
            it.seq().len() == height,
            line_views(it.seq()) == pane,
            commands@.len() == it.index(),
            want == frame(rows as nat, history@, editor@),
            want.len() == height + 2,
            forall|r: int| 0 <= r < it.index() ==> (#[trigger] commands@[r])@ == want[r],
    {
        let ghost r = it.index();
        assert(line@ == line_views(it.seq())[r]);
        let row: u16 = commands.len() as u16;
        let command = DrawCommand::Line { row, text: line };
        commands.push(command);
    }
    commands.push(DrawCommand::Line { row: height, text: input_bar(editor.content()) });
    commands.push(DrawCommand::Cursor { column: cursor_column(editor.cursor()), row: height });
    assert(draw_views(commands@) =~= want);
    commands
}

} // verus!
