//! Properties of the editor that span several actions or hold of every state.
use vstd::prelude::*;
use crate::action::{Action, Mode};
use crate::keys::{InputEvent, KeyCode, KeyPress};
use crate::model::{
    apply, cur_col, cur_line, line_length, max, min, step, wf, EditorState,
    lemma_apply_wf, lemma_settle_id,
};
use crate::text::is_blank;

verus! {

/// `a` applied `k` times.
pub open spec fn apply_n(s: EditorState, a: Action, k: nat) -> EditorState
    decreases k,
{
    if k == 0 {
        s
    } else {
        apply(apply_n(s, a, (k - 1) as nat), a)
    }
}

/// The cell where repeated `MoveRight` stops: the last character of the line
/// (the first text cell of an empty line), or the last screen column.
pub open spec fn move_right_stop(s: EditorState) -> int {
    min(max(line_length(s) - 1, s.vleft), s.vwidth - 1)
}

/// Moving right `k >= 1` times puts the cursor at `cx + k` or at the stop
/// cell, whichever is less; nothing else changes, and the cursor never
/// reaches past the last screen column.
pub proof fn law_move_right_stabilizes(s: EditorState, k: nat)
    requires
        wf(s),
        k >= 1,
    ensures
        apply_n(s, Action::MoveRight, k) == (EditorState {
            cx: min(s.cx + k, move_right_stop(s)),
            ..s
        }),
        apply_n(s, Action::MoveRight, k).cx < s.vwidth,
    decreases k,
{
    if k == 1 {
        assert(apply_n(s, Action::MoveRight, 0) == s);
    } else {
        law_move_right_stabilizes(s, (k - 1) as nat);
    }
}

/// Deleting the cursor's line and undoing at once restores every line, the
/// line count and the undo log, with the cursor back on the restored line.
pub proof fn law_delete_line_then_undo(s: EditorState)
    requires
        wf(s),
        s.lines.len() > 0,
    ensures
        apply(apply(s, Action::DeleteFullLine), Action::Undo).lines == s.lines,
        apply(apply(s, Action::DeleteFullLine), Action::Undo).undo == s.undo,
        cur_line(apply(apply(s, Action::DeleteFullLine), Action::Undo)) == cur_line(s),
{
    let d = apply(s, Action::DeleteFullLine);
    let l = cur_line(s);
    lemma_apply_wf(s, Action::DeleteFullLine);
    assert(d.undo.last() == crate::action::UndoRecord::DeletedLine { text: s.lines[l], line_no: l });
    assert(d.undo.drop_last() =~= s.undo);
    assert(d.lines.insert(l, s.lines[l]) =~= s.lines);
}

/// `t` typed character by character.
pub open spec fn typed(s: EditorState, t: Seq<char>) -> EditorState
    decreases t.len(),
{
    if t.len() == 0 {
        s
    } else {
        apply(typed(s, t.drop_last()), Action::InsertCharCursorPos(t.last()))
    }
}

/// `t` put into `l` at column `col`.
pub open spec fn insert_text(l: Seq<char>, col: int, t: Seq<char>) -> Seq<char> {
    l.subrange(0, col) + t + l.subrange(col, l.len() as int)
}

proof fn lemma_apply_insert_char(p: EditorState, c: char)
    requires
        wf(p),
        p.lines.len() > 0,
        p.cx + 1 < p.vwidth,
    ensures
        apply(p, Action::InsertCharCursorPos(c)) == (EditorState {
            lines: p.lines.update(cur_line(p), p.lines[cur_line(p)].insert(cur_col(p), c)),
            cx: p.cx + 1,
            ..p
        }),
{
    let q = EditorState {
        lines: p.lines.update(cur_line(p), p.lines[cur_line(p)].insert(cur_col(p), c)),
        cx: p.cx + 1,
        ..p
    };
    assert(crate::model::effect(p, Action::InsertCharCursorPos(c)) == q);
    assert(wf(q));
    lemma_settle_id(q);
}

#[verifier::rlimit(60)]
proof fn lemma_typed(s: EditorState, t: Seq<char>)
    requires
        wf(s),
        s.lines.len() > 0,
        s.cx + t.len() < s.vwidth,
    ensures
        typed(s, t) == (EditorState {
            lines: s.lines.update(
                cur_line(s),
                insert_text(s.lines[cur_line(s)], cur_col(s), t),
            ),
            cx: s.cx + t.len(),
            ..s
        }),
    decreases t.len(),
{
    let l = s.lines[cur_line(s)];
    if t.len() == 0 {
        assert(insert_text(l, cur_col(s), t) =~= l);
        assert(s.lines.update(cur_line(s), l) =~= s.lines);
    } else {
        let u = t.drop_last();
        lemma_typed(s, u);
        let p = typed(s, u);
        assert(typed(s, t) == apply(p, Action::InsertCharCursorPos(t.last())));
        assert(wf(p));
        lemma_apply_insert_char(p, t.last());
        assert(insert_text(l, cur_col(s), u).insert(cur_col(s) + u.len(), t.last()) =~= insert_text(
            l,
            cur_col(s),
            t,
        ));
        assert(p.lines.update(cur_line(p), p.lines[cur_line(p)].insert(cur_col(p), t.last()))
            =~= s.lines.update(cur_line(s), insert_text(l, cur_col(s), t)));
    }
}

proof fn lemma_apply_leave_insert(p: EditorState)
    requires
        wf(p),
        p.mode == Mode::Insert,
        p.cx > p.insert_start,
    ensures
        apply(p, Action::EnterMode(Mode::Normal)) == (EditorState {
            mode: Mode::Normal,
            undo: p.undo.push(
                crate::action::UndoRecord::InsertSpan {
                    line_no: cur_line(p),
                    start: p.insert_start - p.vleft,
                    end: max(p.cx - 1 - p.vleft, 0),
                },
            ),
            ..p
        }),
{
    let q = crate::model::effect(p, Action::EnterMode(Mode::Normal));
    assert(wf(q));
    lemma_settle_id(q);
}

proof fn lemma_apply_undo_span(x: EditorState, line: int, start: int, end: int)
    requires
        wf(x),
        x.undo.len() > 0,
        x.undo.last() == (crate::action::UndoRecord::InsertSpan {
            line_no: line,
            start,
            end,
        }),
        0 <= line < x.lines.len(),
        0 <= start <= end < x.lines[line].len(),
        x.vtop <= line < x.vtop + x.vheight,
        x.vleft + start < x.vwidth,
        !is_blank(crate::buffer::without_span(x.lines[line], start, end)),
    ensures
        apply(x, Action::Undo) == (EditorState {
            lines: x.lines.update(line, crate::buffer::without_span(x.lines[line], start, end)),
            undo: x.undo.drop_last(),
            cy: line - x.vtop,
            cx: x.vleft + start,
            ..x
        }),
{
    let q = crate::model::effect(x, Action::Undo);
    assert(q == EditorState {
        lines: x.lines.update(line, crate::buffer::without_span(x.lines[line], start, end)),
        undo: x.undo.drop_last(),
        cy: line - x.vtop,
        cx: x.vleft + start,
        ..x
    });
    assert(wf(q));
    lemma_settle_id(q);
}

/// Entering Insert mode, typing `t`, leaving with Escape and undoing removes
/// exactly the typed text: every line is as before, and so are the cursor
/// cell and the undo log. This holds where the typed text fits on the screen
/// and the line is not blank before typing (a line left blank by an undo is
/// removed).
#[verifier::rlimit(60)]
pub proof fn law_insert_then_undo(s: EditorState, t: Seq<char>)
    requires
        wf(s),
        s.lines.len() > 0,
        !is_blank(s.lines[cur_line(s)]),
        t.len() >= 1,
        s.cx + t.len() < s.vwidth,
    ensures
        ({
            let entered = apply(s, Action::EnterMode(Mode::Insert));
            let left = apply(typed(entered, t), Action::EnterMode(Mode::Normal));
            let undone = apply(left, Action::Undo);
            &&& undone.lines == s.lines
            &&& undone.cx == s.cx
            &&& cur_line(undone) == cur_line(s)
            &&& undone.undo == s.undo
            &&& undone.mode == Mode::Normal
        }),
{
    let entered = apply(s, Action::EnterMode(Mode::Insert));
    let e = EditorState { mode: Mode::Insert, insert_start: s.cx, ..s };
    assert(crate::model::effect(s, Action::EnterMode(Mode::Insert)) == e);
    lemma_settle_id(e);
    assert(entered == e);
    lemma_typed(e, t);
    let ty = typed(e, t);
    let l = s.lines[cur_line(s)];
    let col = cur_col(s);
    let lt = insert_text(l, col, t);
    assert(lt.len() == l.len() + t.len());
    assert(wf(ty));
    lemma_apply_leave_insert(ty);
    let left = apply(ty, Action::EnterMode(Mode::Normal));
    assert(left.lines[cur_line(s)] == lt);
    assert(crate::buffer::without_span(lt, col, col + t.len() - 1) =~= l);
    assert(wf(left));
    lemma_apply_undo_span(left, cur_line(s), col, col + t.len() - 1);
    assert(left.undo.drop_last() =~= s.undo);
    assert(left.lines.update(cur_line(s), l) =~= s.lines);
}

/// `gg` (from Normal mode, no pending key) scrolls to the top of the
/// buffer, whatever the scroll position, with the cursor on the first row.
pub proof fn law_gg_goes_to_top(s: EditorState, ctrl1: bool, ctrl2: bool)
    requires
        wf(s),
        s.mode == Mode::Normal,
        s.waiting is None,
    ensures
        ({
            let g1 = InputEvent::Key(KeyPress { code: KeyCode::Char('g'), ctrl: ctrl1 });
            let g2 = InputEvent::Key(KeyPress { code: KeyCode::Char('g'), ctrl: ctrl2 });
            let r = step(step(s, g1), g2);
            r.vtop == 0 && r.cy == 0 && r.lines == s.lines
        }),
{
    let g1 = InputEvent::Key(KeyPress { code: KeyCode::Char('g'), ctrl: ctrl1 });
    let s1 = step(s, g1);
    lemma_settle_id(EditorState { waiting: Some('g'), ..s });
    assert(s1 == EditorState { waiting: Some('g'), ..s });
}

/// `G` (from Normal mode, no pending key) shows the last line of a
/// non-empty buffer and puts the cursor on it.
pub proof fn law_capital_g_goes_to_end(s: EditorState, ctrl: bool)
    requires
        wf(s),
        s.mode == Mode::Normal,
        s.waiting is None,
        s.lines.len() > 0,
    ensures
        ({
            let r = step(s, InputEvent::Key(KeyPress { code: KeyCode::Char('G'), ctrl }));
            &&& cur_line(r) == s.lines.len() - 1
            &&& r.vtop <= s.lines.len() - 1 < r.vtop + r.vheight
            &&& r.lines == s.lines
        }),
{
}

/// Undo with an empty undo log changes nothing, however often it is done.
pub proof fn law_undo_empty_is_noop(s: EditorState)
    requires
        wf(s),
        s.undo.len() == 0,
    ensures
        apply(s, Action::Undo) == s,
        apply(apply(s, Action::Undo), Action::Undo) == s,
{
    lemma_settle_id(s);
}

} // verus!
