//! Editing modes, the closed set of editing intents, and undo records.
use vstd::prelude::*;

verus! {

/// The editor's input mode.
#[derive(Clone, Copy, Debug, PartialEq, Eq, Structural)]
pub enum Mode {
    Normal,
    Insert,
}

/// An editing intent decoded from one input event.
#[derive(Clone, Copy, Debug, PartialEq, Eq, Structural)]
pub enum Action {
    Quit,
    MoveUp,
    MoveDown,
    MoveLeft,
    MoveRight,
    MoveToEndOfLine,
    MoveToBeginningOfLine,
    InsertCharCursorPos(char),
    DeleteCharCursorPos,
    InsertLineBelowCursor,
    GoToEndOfBuffer,
    PageUp,
    PageDown,
    DeleteFullLine,
    EnterWaitingMode(char),
    EnterMode(Mode),
    Undo,
    CenterLineToViewport,
    GoToStartOfBuffer,
    Backspace,
}

/// The text typed during one stay in Insert mode: the columns of the first
/// and of the last inserted character (both included) on line `line_no`.
#[derive(Clone, Copy, Debug)]
pub struct InsertModeTextAddInfo {
    pub index: (u16, u16),
    pub line_no: u16,
}

/// The mathematical value of an undo record.
pub enum UndoRecord {
    DeletedLine { text: Seq<char>, line_no: int },
    InsertSpan { line_no: int, start: int, end: int },
}

/// One entry of the undo log: what it takes to reverse one destructive edit.
#[derive(Debug)]
pub enum UndoEntry {
    DeletedLine { text: String, line_no: u16 },
    InsertSpan(InsertModeTextAddInfo),
}

impl View for UndoEntry {
    type V = UndoRecord;

    open spec fn view(&self) -> UndoRecord {
        match self {
            UndoEntry::DeletedLine { text, line_no } => UndoRecord::DeletedLine {
                text: text@,
                line_no: *line_no as int,
            },
            UndoEntry::InsertSpan(info) => UndoRecord::InsertSpan {
                line_no: info.line_no as int,
                start: info.index.0 as int,
                end: info.index.1 as int,
            },
        }
    }
}

} // verus!
