//! The editor as a mathematical state machine: its state, the effect of each
//! action on it, and the coordinate pass that follows every action.
use vstd::prelude::*;
use crate::action::{Action, Mode, UndoRecord};
use crate::buffer::lines_without_span;
use crate::keys::{event_action, InputEvent};

verus! {

/// The largest number of lines the editor addresses (line numbers are `u16`).
pub const MAX_LINES: usize = 65535;

/// The abstract state of an editor.
pub struct EditorState {
    pub lines: Seq<Seq<char>>,
    pub file: Option<Seq<char>>,
    pub mode: Mode,
    pub size: (u16, u16),
    pub vtop: int,
    pub vleft: int,
    pub vheight: int,
    pub vwidth: int,
    pub cx: int,
    pub cy: int,
    pub waiting: Option<char>,
    pub undo: Seq<UndoRecord>,
    pub insert_start: int,
}

/// Length of line `i`, or 0 when there is no such line.
pub open spec fn line_len_at(lines: Seq<Seq<char>>, i: int) -> int {
    if 0 <= i < lines.len() {
        lines[i].len() as int
    } else {
        0
    }
}

/// The buffer line under the cursor.
pub open spec fn cur_line(s: EditorState) -> int {
    s.vtop + s.cy
}

/// The cursor's column within its line.
pub open spec fn cur_col(s: EditorState) -> int {
    s.cx - s.vleft
}

/// The screen cell just past the end of the cursor's line.
pub open spec fn line_length(s: EditorState) -> int {
    s.vleft + line_len_at(s.lines, cur_line(s))
}

pub open spec fn max(a: int, b: int) -> int {
    if a >= b {
        a
    } else {
        b
    }
}

pub open spec fn min(a: int, b: int) -> int {
    if a <= b {
        a
    } else {
        b
    }
}

/// Well-formedness: the cursor stands on the screen, on an existing line (or
/// on the one row of an empty buffer), at most one cell past its end.
pub open spec fn wf(s: EditorState) -> bool {
    &&& 1 <= s.vheight
    &&& s.vheight + 2 <= u16::MAX
    &&& 0 <= s.vleft < s.vwidth <= u16::MAX
    &&& s.size == (s.vwidth as u16, (s.vheight + 2) as u16)
    &&& 0 <= s.vtop <= u16::MAX
    &&& 0 <= s.cy < s.vheight
    &&& s.lines.len() <= MAX_LINES
    &&& if s.lines.len() == 0 {
        s.vtop == 0 && s.cy == 0
    } else {
        cur_line(s) < s.lines.len()
    }
    &&& s.vleft <= s.cx < s.vwidth
    &&& cur_col(s) <= line_len_at(s.lines, cur_line(s))
    &&& s.vleft <= s.insert_start <= u16::MAX
}

/// What holds between an action's own effect and the coordinate pass.
pub open spec fn pre_settle(s: EditorState) -> bool {
    &&& 1 <= s.vheight
    &&& s.vheight + 2 <= u16::MAX
    &&& 0 <= s.vleft < s.vwidth <= u16::MAX
    &&& s.size == (s.vwidth as u16, (s.vheight + 2) as u16)
    &&& 0 <= s.vtop <= u16::MAX
    &&& 0 <= s.cy < s.vheight
    &&& s.lines.len() <= MAX_LINES
    &&& s.vleft <= s.cx < s.vwidth
    &&& s.vleft <= s.insert_start <= u16::MAX
}

/// The coordinate pass: brings the cursor back onto an existing line (the
/// last one, when it stands past the end) and then to at most one cell past
/// the end of that line.
pub open spec fn settle(s: EditorState) -> EditorState {
    let n = s.lines.len() as int;
    let vtop = if n == 0 {
        0
    } else if cur_line(s) < n {
        s.vtop
    } else if n - 1 >= s.vtop {
        s.vtop
    } else {
        n - 1
    };
    let cy = if n == 0 {
        0
    } else if cur_line(s) < n {
        s.cy
    } else if n - 1 >= s.vtop {
        n - 1 - s.vtop
    } else {
        0
    };
    let end = s.vleft + line_len_at(s.lines, vtop + cy);
    EditorState { vtop, cy, cx: min(s.cx, end), ..s }
}

pub open spec fn move_left(s: EditorState) -> EditorState {
    EditorState { cx: max(s.cx - 1, s.vleft), ..s }
}

/// One cell right, but not past the last character of the line (the first
/// cell of an empty line) nor past the last screen column.
pub open spec fn move_right(s: EditorState) -> EditorState {
    EditorState { cx: min(min(s.cx + 1, max(line_length(s) - 1, s.vleft)), s.vwidth - 1), ..s }
}

pub open spec fn move_up(s: EditorState) -> EditorState {
    if s.cy == 0 {
        EditorState { vtop: max(s.vtop - 1, 0), ..s }
    } else {
        EditorState { cy: s.cy - 1, ..s }
    }
}

/// One line down when there is a line below; at the bottom row the view
/// scrolls by one line instead.
pub open spec fn move_down(s: EditorState) -> EditorState {
    if cur_line(s) + 1 < s.lines.len() {
        if s.cy + 1 < s.vheight {
            EditorState { cy: s.cy + 1, ..s }
        } else {
            EditorState { vtop: s.vtop + 1, ..s }
        }
    } else {
        s
    }
}

pub open spec fn move_to_end_of_line(s: EditorState) -> EditorState {
    EditorState { cx: min(max(line_length(s) - 1, s.vleft), s.vwidth - 1), ..s }
}

pub open spec fn move_to_beginning_of_line(s: EditorState) -> EditorState {
    EditorState { cx: s.vleft, ..s }
}

pub open spec fn page_up(s: EditorState) -> EditorState {
    let vtop = max(s.vtop - s.vheight, 0);
    EditorState { vtop, cy: if vtop == 0 { 0 } else { s.cy }, ..s }
}

pub open spec fn page_down(s: EditorState) -> EditorState {
    let n = s.lines.len() as int;
    let vtop = if s.vtop + s.vheight < n {
        s.vtop + s.vheight
    } else {
        s.vtop
    };
    let cy = if vtop + s.vheight > n {
        max(n - vtop - 1, 0)
    } else {
        s.cy
    };
    EditorState { vtop, cy, ..s }
}

/// The last page of the buffer, with the cursor on the last line.
pub open spec fn go_to_end_of_buffer(s: EditorState) -> EditorState {
    let n = s.lines.len() as int;
    let vtop = max(n - s.vheight, 0);
    EditorState { vtop, cy: max(n - vtop - 1, 0), ..s }
}

pub open spec fn go_to_start_of_buffer(s: EditorState) -> EditorState {
    EditorState { vtop: 0, cy: 0, ..s }
}

/// Scrolls so that line `idx` stands in the middle of the view (as near as
/// the top of the buffer allows) and puts the cursor on it.
pub open spec fn center_on(s: EditorState, idx: int) -> EditorState {
    let vtop = max(idx - s.vheight / 2, 0);
    EditorState { vtop, cy: idx - vtop, ..s }
}

/// Puts the cursor on line `idx`: directly when the line is in view,
/// otherwise by centring the view on it.
pub open spec fn show_line(s: EditorState, idx: int) -> EditorState {
    if s.vtop <= idx <= s.vtop + s.vheight - 1 {
        EditorState { cy: idx - s.vtop, ..s }
    } else {
        center_on(s, idx)
    }
}

/// Entering Insert mode records the cursor cell. Leaving it with the cursor
/// elsewhere pushes an insert-span record: the columns from the entry cell
/// to the cell before the cursor. When the cursor ends left of the entry
/// cell that range is empty, and undoing the record changes nothing.
pub open spec fn enter_mode(s: EditorState, m: Mode) -> EditorState {
    match m {
        Mode::Insert => EditorState { mode: Mode::Insert, insert_start: s.cx, ..s },
        Mode::Normal => {
            if s.mode == Mode::Insert && s.cx != s.insert_start {
                let rec = UndoRecord::InsertSpan {
                    line_no: cur_line(s),
                    start: s.insert_start - s.vleft,
                    end: max(s.cx - 1 - s.vleft, 0),
                };
                EditorState { mode: Mode::Normal, undo: s.undo.push(rec), ..s }
            } else {
                EditorState { mode: Mode::Normal, ..s }
            }
        },
    }
}

/// Typing `c`: it goes in at the cursor, which moves one cell right; an empty
/// buffer gets its first line. At the last screen column typing is ignored.
pub open spec fn insert_char_at_cursor(s: EditorState, c: char) -> EditorState {
    if s.cx + 1 < s.vwidth {
        let lines = if s.lines.len() == 0 {
            seq![seq![c]]
        } else {
            s.lines.update(cur_line(s), s.lines[cur_line(s)].insert(cur_col(s), c))
        };
        EditorState { lines, cx: s.cx + 1, ..s }
    } else {
        s
    }
}

pub open spec fn delete_char_at_cursor(s: EditorState) -> EditorState {
    if cur_line(s) < s.lines.len() && cur_col(s) < s.lines[cur_line(s)].len() {
        EditorState {
            lines: s.lines.update(cur_line(s), s.lines[cur_line(s)].remove(cur_col(s))),
            ..s
        }
    } else {
        s
    }
}

pub open spec fn backspace(s: EditorState) -> EditorState {
    if cur_line(s) < s.lines.len() && s.cx > s.vleft {
        EditorState {
            lines: s.lines.update(cur_line(s), s.lines[cur_line(s)].remove(cur_col(s) - 1)),
            cx: s.cx - 1,
            ..s
        }
    } else {
        s
    }
}

pub open spec fn delete_full_line(s: EditorState) -> EditorState {
    if cur_line(s) < s.lines.len() {
        let rec = UndoRecord::DeletedLine { text: s.lines[cur_line(s)], line_no: cur_line(s) };
        EditorState { lines: s.lines.remove(cur_line(s)), undo: s.undo.push(rec), ..s }
    } else {
        s
    }
}

/// A new empty line below the cursor (below the one row of an empty buffer),
/// with the cursor at its start in Insert mode.
pub open spec fn insert_line_below_cursor(s: EditorState) -> EditorState {
    let base = if s.lines.len() == 0 {
        seq![Seq::<char>::empty()]
    } else {
        s.lines
    };
    if base.len() + 1 <= MAX_LINES {
        let lines = base.insert(cur_line(s) + 1, Seq::<char>::empty());
        let moved = if s.cy + 1 < s.vheight {
            EditorState { lines, cy: s.cy + 1, ..s }
        } else {
            EditorState { lines, vtop: s.vtop + 1, ..s }
        };
        EditorState { cx: s.vleft, mode: Mode::Insert, insert_start: s.vleft, ..moved }
    } else {
        s
    }
}

/// Reverses the most recent undo record and drops it; a record that no
/// longer fits the buffer is dropped with no other effect.
pub open spec fn undo(s: EditorState) -> EditorState {
    if s.undo.len() == 0 {
        s
    } else {
        let popped = EditorState { undo: s.undo.drop_last(), ..s };
        let n = s.lines.len() as int;
        match s.undo.last() {
            UndoRecord::DeletedLine { text, line_no } => {
                if 0 <= line_no <= n && n + 1 <= MAX_LINES {
                    let shown = show_line(popped, line_no);
                    EditorState { lines: s.lines.insert(line_no, text), ..shown }
                } else {
                    popped
                }
            },
            UndoRecord::InsertSpan { line_no, start, end } => {
                if 0 <= line_no < n && 0 <= start <= end && end < s.lines[line_no].len() {
                    let shown = show_line(popped, line_no);
                    EditorState {
                        lines: lines_without_span(s.lines, line_no, start, end),
                        cx: min(s.vleft + start, s.vwidth - 1),
                        ..shown
                    }
                } else {
                    popped
                }
            },
        }
    }
}

/// The effect of an action before the coordinate pass.
pub open spec fn effect(s: EditorState, a: Action) -> EditorState {
    match a {
        Action::Quit => s,
        Action::MoveUp => move_up(s),
        Action::MoveDown => move_down(s),
        Action::MoveLeft => move_left(s),
        Action::MoveRight => move_right(s),
        Action::MoveToEndOfLine => move_to_end_of_line(s),
        Action::MoveToBeginningOfLine => move_to_beginning_of_line(s),
        Action::InsertCharCursorPos(c) => insert_char_at_cursor(s, c),
        Action::DeleteCharCursorPos => delete_char_at_cursor(s),
        Action::InsertLineBelowCursor => insert_line_below_cursor(s),
        Action::GoToEndOfBuffer => go_to_end_of_buffer(s),
        Action::PageUp => page_up(s),
        Action::PageDown => page_down(s),
        Action::DeleteFullLine => delete_full_line(s),
        Action::EnterWaitingMode(c) => EditorState { waiting: Some(c), ..s },
        Action::EnterMode(m) => enter_mode(s, m),
        Action::Undo => undo(s),
        Action::CenterLineToViewport => center_on(s, cur_line(s)),
        Action::GoToStartOfBuffer => go_to_start_of_buffer(s),
        Action::Backspace => backspace(s),
    }
}

/// One action applied: its effect, then the coordinate pass.
pub open spec fn apply(s: EditorState, a: Action) -> EditorState {
    settle(effect(s, a))
}

/// `apply` for an optional action; no action changes nothing.
pub open spec fn apply_opt(s: EditorState, a: Option<Action>) -> EditorState {
    match a {
        Some(a) => apply(s, a),
        None => s,
    }
}

/// A terminal of `cols` columns and `rows` rows: the view takes its new
/// size and keeps the cursor on its line and on the screen. A terminal too
/// small for one text row, the status line and the gutter is ignored.
pub open spec fn resized(s: EditorState, cols: u16, rows: u16) -> EditorState {
    if rows >= 3 && cols > s.vleft {
        let vheight = rows - 2;
        let vtop = if s.cy >= vheight {
            s.vtop + s.cy - (vheight - 1)
        } else {
            s.vtop
        };
        let cy = if s.cy >= vheight {
            vheight - 1
        } else {
            s.cy
        };
        EditorState {
            size: (cols, rows),
            vwidth: cols as int,
            vheight: vheight as int,
            vtop,
            cy,
            cx: min(s.cx, cols - 1),
            ..s
        }
    } else {
        s
    }
}

/// The dispatcher's own change of state: a resize takes effect, and in
/// Normal mode any event consumes the pending first key.
pub open spec fn after_dispatch(s: EditorState, ev: InputEvent) -> EditorState {
    let t = match ev {
        InputEvent::Resize(cols, rows) => resized(s, cols, rows),
        _ => s,
    };
    if t.mode == Mode::Normal {
        EditorState { waiting: None, ..t }
    } else {
        t
    }
}

/// One input event handled: dispatch, then the action it stands for.
pub open spec fn step(s: EditorState, ev: InputEvent) -> EditorState {
    apply_opt(after_dispatch(s, ev), event_action(s.mode, s.waiting, ev))
}

/// The coordinate pass makes a state well formed.
pub proof fn lemma_settle_wf(s: EditorState)
    requires
        pre_settle(s),
    ensures
        wf(settle(s)),
{
}

/// The coordinate pass leaves a well-formed state as it is.
pub proof fn lemma_settle_id(s: EditorState)
    requires
        wf(s),
    ensures
        settle(s) == s,
{
}

proof fn lemma_undo_pre_settle(s: EditorState)
    requires
        wf(s),
    ensures
        pre_settle(undo(s)),
{
    if s.undo.len() > 0 {
        let popped = EditorState { undo: s.undo.drop_last(), ..s };
        let n = s.lines.len() as int;
        match s.undo.last() {
            UndoRecord::DeletedLine { text, line_no } => {
                if 0 <= line_no <= n && n + 1 <= MAX_LINES {
                    assert(pre_settle(show_line(popped, line_no)));
                }
            },
            UndoRecord::InsertSpan { line_no, start, end } => {
                if 0 <= line_no < n && 0 <= start <= end && end < s.lines[line_no].len() {
                    assert(pre_settle(show_line(popped, line_no)));
                    assert(lines_without_span(s.lines, line_no, start, end).len() <= n);
                }
            },
        }
    }
}

/// An action's effect keeps what the coordinate pass needs.
pub proof fn lemma_effect_pre_settle(s: EditorState, a: Action)
    requires
        wf(s),
    ensures
        pre_settle(effect(s, a)),
{
    match a {
        Action::Undo => lemma_undo_pre_settle(s),
        Action::Quit | Action::MoveUp | Action::MoveDown | Action::MoveLeft | Action::MoveRight => {},
        Action::MoveToEndOfLine | Action::MoveToBeginningOfLine => {},
        Action::InsertCharCursorPos(_) | Action::DeleteCharCursorPos | Action::Backspace => {},
        Action::InsertLineBelowCursor | Action::DeleteFullLine => {},
        Action::GoToEndOfBuffer | Action::GoToStartOfBuffer | Action::CenterLineToViewport => {},
        Action::PageUp | Action::PageDown => {},
        Action::EnterWaitingMode(_) | Action::EnterMode(_) => {},
    }
}

/// Dispatching an event keeps the state well formed.
pub proof fn lemma_dispatch_wf(s: EditorState, ev: InputEvent)
    requires
        wf(s),
    ensures
        wf(after_dispatch(s, ev)),
{
}

/// Applying an action keeps the state well formed.
pub proof fn lemma_apply_wf(s: EditorState, a: Action)
    requires
        wf(s),
    ensures
        wf(apply(s, a)),
{
    lemma_effect_pre_settle(s, a);
    lemma_settle_wf(effect(s, a));
}

} // verus!
