//! The editor: buffer, cursor and viewport, mode and undo log, and the
//! executor that applies one action followed by the coordinate pass.
use vstd::prelude::*;
use crate::action::{Action, InsertModeTextAddInfo, Mode, UndoEntry, UndoRecord};
use crate::buffer::Buffer;
use crate::keys::{event_action, handle_insert_mode, handle_normal_mode, handle_wait_event, InputEvent};
use crate::model::{self, EditorState, MAX_LINES};
use crate::render::{
    compose_row, compose_status, file_field, gutter_width, is_row, line_start, mode_badge, pos_field,
    StatusLine, StyleInfo,
};
use crate::theme::Style;
use crate::text::{decimal, digit_count};

verus! {

/// Width of the gutter left of the text: the digits of the line count and
/// two cells of margin.
pub open spec fn gutter_cells(n: nat) -> int {
    decimal(n).len() as int + 2
}

pub struct Editor {
    buffer: Buffer,
    mode: Mode,
    size: (u16, u16),
    vtop: u16,
    vleft: u16,
    vheight: u16,
    vwidth: u16,
    cx: u16,
    cy: u16,
    waiting_cmd: Option<char>,
    undo_list: Vec<UndoEntry>,
    insert_start: u16,
}

impl View for Editor {
    type V = EditorState;

    closed spec fn view(&self) -> EditorState {
        EditorState {
            lines: self.buffer@,
            file: match self.buffer.file {
                Some(f) => Some(f@),
                None => None,
            },
            mode: self.mode,
            size: self.size,
            vtop: self.vtop as int,
            vleft: self.vleft as int,
            vheight: self.vheight as int,
            vwidth: self.vwidth as int,
            cx: self.cx as int,
            cy: self.cy as int,
            waiting: self.waiting_cmd,
            undo: self.undo_list@.map_values(|e: UndoEntry| e@),
            insert_start: self.insert_start as int,
        }
    }
}

impl Editor {
    pub open spec fn wf(&self) -> bool {
        model::wf(self@)
    }

    /// An editor on `file_buffer` for a terminal of `size` (columns, rows):
    /// the two bottom rows hold the status line, and the text starts right
    /// of the gutter.
    pub fn new(file_buffer: Buffer, size: (u16, u16)) -> (r: Editor)
        requires
            file_buffer@.len() <= MAX_LINES,
            size.1 >= 3,
            size.0 > gutter_cells(file_buffer@.len()),
        ensures
            r.wf(),
            r@.lines == file_buffer@,
            r@.file == (match file_buffer.file {
                Some(f) => Some(f@),
                None => None,
            }),
            r@.mode == Mode::Normal,
            r@.size == size,
            r@.vtop == 0,
            r@.cy == 0,
            r@.vleft == gutter_cells(file_buffer@.len()),
            r@.cx == r@.vleft,
            r@.insert_start == r@.vleft,
            r@.vheight == size.1 - 2,
            r@.vwidth == size.0,
            r@.waiting is None,
            r@.undo.len() == 0,
    {
        let gutter_width = (digit_count(file_buffer.lines.len()) + 2) as u16;
        let r = Editor {
            buffer: file_buffer,
            mode: Mode::Normal,
            size,
            vtop: 0,
            vleft: gutter_width,
            vheight: size.1 - 2,
            vwidth: size.0,
            cx: gutter_width,
            cy: 0,
            waiting_cmd: None,
            undo_list: Vec::new(),
            insert_start: gutter_width,
        };
        assert(r@.undo =~= Seq::<UndoRecord>::empty());
        r
    }

    /// The buffer line under the cursor.
    pub fn get_buf_line(&self) -> (r: u16)
        requires
            self.wf(),
        ensures
            r == model::cur_line(self@),
    {
        self.vtop + self.cy
    }

    /// Length of the cursor's line (0 when the buffer is empty).
    fn cur_line_len(&self) -> (r: usize)
        requires
            self.vtop + self.cy <= usize::MAX,
        ensures
            r == model::line_len_at(self@.lines, model::cur_line(self@)),
    {
        let l = self.vtop as usize + self.cy as usize;
        if l < self.buffer.lines.len() {
            self.buffer.lines[l].as_str().unicode_len()
        } else {
            0
        }
    }

    /// The screen cell just past the end of the cursor's line, or
    /// `usize::MAX` when that cell number does not fit.
    pub fn get_line_length(&self) -> (r: usize)
        requires
            self.wf(),
        ensures
            r == model::min(model::line_length(self@), usize::MAX as int),
    {
        let len = self.cur_line_len();
        if len > usize::MAX - self.vleft as usize {
            usize::MAX
        } else {
            len + self.vleft as usize
        }
    }

    /// The coordinate pass.
    fn settle(&mut self)
        requires
            model::pre_settle(old(self)@),
        ensures
            final(self)@ == model::settle(old(self)@),
    {
        let n = self.buffer.lines.len();
        let l = self.vtop as usize + self.cy as usize;
        if n == 0 {
            self.vtop = 0;
            self.cy = 0;
        } else if l < n {
        } else if n - 1 >= self.vtop as usize {
            self.cy = (n - 1 - self.vtop as usize) as u16;
        } else {
            self.vtop = (n - 1) as u16;
            self.cy = 0;
        }
        let len = self.cur_line_len();
        if (self.cx - self.vleft) as usize > len {
            self.cx = self.vleft + len as u16;
        }
    }

    fn move_left(&mut self)
        requires
            model::wf(old(self)@),
        ensures
            final(self)@ == model::move_left(old(self)@),
    {
        if self.cx > self.vleft {
            self.cx = self.cx - 1;
        }
    }

    fn move_right(&mut self)
        requires
            model::wf(old(self)@),
        ensures
            final(self)@ == model::move_right(old(self)@),
    {
        let len = self.cur_line_len();
        let col = (self.cx - self.vleft) as usize;
        let last = if len > 0 {
            len - 1
        } else {
            0
        };
        let lim = (self.vwidth - 1 - self.vleft) as usize;
        let mut next = col + 1;
        if next > last {
            next = last;
        }
        if next > lim {
            next = lim;
        }
        self.cx = self.vleft + next as u16;
    }

    fn move_up(&mut self)
        requires
            model::wf(old(self)@),
        ensures
            final(self)@ == model::move_up(old(self)@),
    {
        if self.cy == 0 {
            if self.vtop > 0 {
                self.vtop = self.vtop - 1;
            }
        } else {
            self.cy = self.cy - 1;
        }
    }

    fn move_down(&mut self)
        requires
            model::wf(old(self)@),
        ensures
            final(self)@ == model::move_down(old(self)@),
    {
        if (self.vtop as usize + self.cy as usize + 1) < self.buffer.lines.len() {
            if self.cy + 1 < self.vheight {
                self.cy = self.cy + 1;
            } else {
                self.vtop = self.vtop + 1;
            }
        }
    }

    fn move_to_end_of_line(&mut self)
        requires
            model::wf(old(self)@),
        ensures
            final(self)@ == model::move_to_end_of_line(old(self)@),
    {
        let len = self.cur_line_len();
        let last = if len > 0 {
            len - 1
        } else {
            0
        };
        let lim = (self.vwidth - 1 - self.vleft) as usize;
        let col = if last > lim {
            lim
        } else {
            last
        };
        self.cx = self.vleft + col as u16;
    }

    fn page_up(&mut self)
        requires
            model::wf(old(self)@),
        ensures
            final(self)@ == model::page_up(old(self)@),
    {
        if self.vtop > self.vheight {
            self.vtop = self.vtop - self.vheight;
        } else {
            self.vtop = 0;
        }
        if self.vtop == 0 {
            self.cy = 0;
        }
    }

    fn page_down(&mut self)
        requires
            model::wf(old(self)@),
        ensures
            final(self)@ == model::page_down(old(self)@),
    {
        let n = self.buffer.lines.len();
        if (self.vtop as usize + self.vheight as usize) < n {
            self.vtop = self.vtop + self.vheight;
        }
        if self.vtop as usize + self.vheight as usize > n {
            self.cy = if n > self.vtop as usize + 1 {
                (n - self.vtop as usize - 1) as u16
            } else {
                0
            };
        }
    }

    fn go_to_end_of_buffer(&mut self)
        requires
            model::wf(old(self)@),
        ensures
            final(self)@ == model::go_to_end_of_buffer(old(self)@),
    {
        let n = self.buffer.lines.len();
        let vh = self.vheight as usize;
        self.vtop = if n > vh {
            (n - vh) as u16
        } else {
            0
        };
        self.cy = if n > self.vtop as usize + 1 {
            (n - self.vtop as usize - 1) as u16
        } else {
            0
        };
    }

    /// Scrolls so that line `idx` stands mid-view and puts the cursor on it.
    fn center_on(&mut self, idx: u16)
        requires
            old(self).vheight >= 1,
        ensures
            final(self)@ == model::center_on(old(self)@, idx as int),
    {
        let half = self.vheight / 2;
        self.vtop = if idx > half {
            idx - half
        } else {
            0
        };
        self.cy = idx - self.vtop;
    }

    /// Puts the cursor on line `idx`, scrolling only when it is out of view.
    fn show_line(&mut self, idx: u16)
        requires
            old(self).vheight >= 1,
        ensures
            final(self)@ == model::show_line(old(self)@, idx as int),
    {
        if self.vtop <= idx && (idx as usize) < self.vtop as usize + self.vheight as usize {
            self.cy = idx - self.vtop;
        } else {
            self.center_on(idx);
        }
    }

    fn enter_mode(&mut self, m: Mode)
        requires
            model::wf(old(self)@),
        ensures
            final(self)@ == model::enter_mode(old(self)@, m),
    {
        match m {
            Mode::Insert => {
                self.insert_start = self.cx;
                self.mode = Mode::Insert;
            },
            Mode::Normal => {
                if self.mode == Mode::Insert && self.cx != self.insert_start {
                    let end = if self.cx > self.vleft {
                        self.cx - 1 - self.vleft
                    } else {
                        0
                    };
                    let info = InsertModeTextAddInfo {
                        index: (self.insert_start - self.vleft, end),
                        line_no: self.vtop + self.cy,
                    };
                    let ghost before = self.undo_list@;
                    self.undo_list.push(UndoEntry::InsertSpan(info));
                    assert(self.undo_list@.map_values(|e: UndoEntry| e@) =~= before.map_values(
                        |e: UndoEntry| e@,
                    ).push(UndoEntry::InsertSpan(info)@));
                }
                self.mode = Mode::Normal;
            },
        }
    }

    fn insert_char_at_cursor(&mut self, c: char)
        requires
            model::wf(old(self)@),
        ensures
            final(self)@ == model::insert_char_at_cursor(old(self)@, c),
    {
        if self.cx + 1 < self.vwidth {
            if self.buffer.lines.len() == 0 {
                self.buffer.insert_line(0);
            }
            let col = self.cx - self.vleft;
            let line = self.vtop + self.cy;
            self.buffer.insert_char(col, line, c);
            self.cx = self.cx + 1;
            proof {
                let s = old(self)@;
                if s.lines.len() == 0 {
                    assert(Seq::<char>::empty().insert(0, c) =~= seq![c]);
                    assert(self@.lines =~= seq![seq![c]]);
                }
            }
        }
    }

    fn delete_char_at_cursor(&mut self)
        requires
            model::wf(old(self)@),
        ensures
            final(self)@ == model::delete_char_at_cursor(old(self)@),
    {
        let col = self.cx - self.vleft;
        let line = self.vtop + self.cy;
        self.buffer.delete_char(col, line);
    }

    fn backspace(&mut self)
        requires
            model::wf(old(self)@),
        ensures
            final(self)@ == model::backspace(old(self)@),
    {
        let line = self.vtop + self.cy;
        if (line as usize) < self.buffer.lines.len() && self.cx > self.vleft {
            let col = self.cx - self.vleft;
            self.buffer.delete_char(col - 1, line);
            self.cx = self.cx - 1;
        }
    }

    fn delete_full_line(&mut self)
        requires
            model::wf(old(self)@),
        ensures
            final(self)@ == model::delete_full_line(old(self)@),
    {
        let line_no = self.vtop + self.cy;
        if (line_no as usize) < self.buffer.lines.len() {
            let text = self.buffer.delete_line(line_no);
            let ghost before = self.undo_list@;
            let entry = UndoEntry::DeletedLine { text, line_no };
            assert(entry@ == (UndoRecord::DeletedLine {
                text: old(self)@.lines[line_no as int],
                line_no: line_no as int,
            }));
            self.undo_list.push(entry);
            assert(self.undo_list@.map_values(|e: UndoEntry| e@) =~= before.map_values(
                |e: UndoEntry| e@,
            ).push(entry@));
        }
    }

    fn insert_line_below_cursor(&mut self)
        requires
            model::wf(old(self)@),
        ensures
            final(self)@ == model::insert_line_below_cursor(old(self)@),
    {
        let n = self.buffer.lines.len();
        let base_len = if n == 0 {
            1
        } else {
            n
        };
        if base_len + 1 <= MAX_LINES {
            if n == 0 {
                self.buffer.insert_line(0);
            }
            let idx = self.vtop + self.cy + 1;
            self.buffer.insert_line(idx);
            if self.cy + 1 < self.vheight {
                self.cy = self.cy + 1;
            } else {
                self.vtop = self.vtop + 1;
            }
            self.cx = self.vleft;
            self.mode = Mode::Insert;
            self.insert_start = self.vleft;
            proof {
                let s = old(self)@;
                let base = if s.lines.len() == 0 {
                    seq![Seq::<char>::empty()]
                } else {
                    s.lines
                };
                assert(self@.lines =~= base.insert(model::cur_line(s) + 1, Seq::<char>::empty()));
            }
        }
    }

    fn undo(&mut self)
        requires
            model::wf(old(self)@),
        ensures
            final(self)@ == model::undo(old(self)@),
    {
        let ghost before = self.undo_list@;
        let last = self.undo_list.pop();
        proof {
            if before.len() > 0 {
                assert(self.undo_list@.map_values(|e: UndoEntry| e@) =~= before.map_values(
                    |e: UndoEntry| e@,
                ).drop_last());
            }
        }
        match last {
            None => {},
            Some(entry) => {
                let n = self.buffer.lines.len();
                match entry {
                    UndoEntry::DeletedLine { text, line_no } => {
                        if (line_no as usize) <= n && n + 1 <= MAX_LINES {
                            self.show_line(line_no);
                            self.buffer.restore_line(text, line_no);
                        }
                    },
                    UndoEntry::InsertSpan(info) => {
                        let line = info.line_no as usize;
                        if line < n && info.index.0 <= info.index.1 && (info.index.1 as usize)
                            < self.buffer.lines[line].as_str().unicode_len() {
                            self.show_line(info.line_no);
                            let want = self.vleft as usize + info.index.0 as usize;
                            self.cx = if want < self.vwidth as usize {
                                want as u16
                            } else {
                                self.vwidth - 1
                            };
                            self.buffer.remove_insert_changes(info);
                        }
                    },
                }
            },
        }
    }

    /// Applies `action`: its own effect, then the coordinate pass. No
    /// action changes nothing.
    pub fn handle_action(&mut self, action: &Option<Action>)
        requires
            old(self).wf(),
        ensures
            final(self).wf(),
            final(self)@ == model::apply_opt(old(self)@, *action),
    {
        if let Some(a) = action {
            match *a {
                Action::Quit => {},
                Action::MoveUp => self.move_up(),
                Action::MoveDown => self.move_down(),
                Action::MoveLeft => self.move_left(),
                Action::MoveRight => self.move_right(),
                Action::MoveToEndOfLine => self.move_to_end_of_line(),
                Action::MoveToBeginningOfLine => {
                    self.cx = self.vleft;
                },
                Action::InsertCharCursorPos(c) => self.insert_char_at_cursor(c),
                Action::DeleteCharCursorPos => self.delete_char_at_cursor(),
                Action::InsertLineBelowCursor => self.insert_line_below_cursor(),
                Action::GoToEndOfBuffer => self.go_to_end_of_buffer(),
                Action::PageUp => self.page_up(),
                Action::PageDown => self.page_down(),
                Action::DeleteFullLine => self.delete_full_line(),
                Action::EnterWaitingMode(c) => {
                    self.waiting_cmd = Some(c);
                },
                Action::EnterMode(m) => self.enter_mode(m),
                Action::Undo => self.undo(),
                Action::CenterLineToViewport => {
                    let idx = self.vtop + self.cy;
                    self.center_on(idx);
                },
                Action::GoToStartOfBuffer => {
                    self.vtop = 0;
                    self.cy = 0;
                },
                Action::Backspace => self.backspace(),
            }
            proof {
                model::lemma_effect_pre_settle(old(self)@, *a);
            }
            self.settle();
            proof {
                model::lemma_settle_wf(model::effect(old(self)@, *a));
            }
        }
    }

    /// Takes a new terminal size; see `model::resized`.
    fn resize(&mut self, cols: u16, rows: u16)
        requires
            model::wf(old(self)@),
        ensures
            final(self)@ == model::resized(old(self)@, cols, rows),
    {
        if rows >= 3 && cols > self.vleft {
            let vheight = rows - 2;
            if self.cy >= vheight {
                self.vtop = self.vtop + self.cy - (vheight - 1);
                self.cy = vheight - 1;
            }
            if self.cx > cols - 1 {
                self.cx = cols - 1;
            }
            self.size = (cols, rows);
            self.vwidth = cols;
            self.vheight = vheight;
        }
    }

    /// Turns one input event into the action it stands for in the current
    /// mode. A resize takes effect here; in Normal mode the event consumes
    /// the pending first key of a two-key command.
    pub fn handle_event(&mut self, event: InputEvent) -> (r: Option<Action>)
        requires
            old(self).wf(),
        ensures
            final(self).wf(),
            final(self)@ == model::after_dispatch(old(self)@, event),
            r == event_action(old(self)@.mode, old(self)@.waiting, event),
    {
        proof {
            model::lemma_dispatch_wf(self@, event);
        }
        if let InputEvent::Resize(cols, rows) = event {
            self.resize(cols, rows);
        }
        match self.mode {
            Mode::Normal => {
                if let Some(c) = self.waiting_cmd {
                    self.waiting_cmd = None;
                    return handle_wait_event(c, event);
                }
                handle_normal_mode(event)
            },
            Mode::Insert => handle_insert_mode(event),
        }
    }

    /// Handles one input event: dispatch, then the action. Returns whether
    /// the event asked to quit.
    pub fn process_event(&mut self, event: InputEvent) -> (quit: bool)
        requires
            old(self).wf(),
        ensures
            final(self).wf(),
            final(self)@ == model::step(old(self)@, event),
            quit == (event_action(old(self)@.mode, old(self)@.waiting, event) == Some(Action::Quit)),
    {
        let action = self.handle_event(event);
        self.handle_action(&action);
        match action {
            Some(Action::Quit) => true,
            _ => false,
        }
    }

    pub fn buffer(&self) -> (r: &Buffer)
        ensures
            r@ == self@.lines,
    {
        &self.buffer
    }

    pub fn mode(&self) -> (r: Mode)
        ensures
            r == self@.mode,
    {
        self.mode
    }

    /// The name of the current mode.
    pub fn get_mode(&self) -> (r: String)
        ensures
            r@ == (match self@.mode {
                Mode::Insert => "Insert"@,
                Mode::Normal => "Normal"@,
            }),
    {
        match self.mode {
            Mode::Insert => "Insert".to_owned(),
            Mode::Normal => "Normal".to_owned(),
        }
    }

    /// The cursor's screen cell: column, row.
    pub fn cursor(&self) -> (r: (u16, u16))
        ensures
            r.0 == self@.cx,
            r.1 == self@.cy,
    {
        (self.cx, self.cy)
    }

    /// The first buffer line in view.
    pub fn vtop(&self) -> (r: u16)
        ensures
            r == self@.vtop,
    {
        self.vtop
    }

    /// The first screen column of text (the gutter's width).
    pub fn vleft(&self) -> (r: u16)
        ensures
            r == self@.vleft,
    {
        self.vleft
    }

    /// The number of text rows.
    pub fn vheight(&self) -> (r: u16)
        ensures
            r == self@.vheight,
    {
        self.vheight
    }

    /// The number of screen columns.
    pub fn vwidth(&self) -> (r: u16)
        ensures
            r == self@.vwidth,
    {
        self.vwidth
    }

    /// The terminal's size: columns, rows.
    pub fn size(&self) -> (r: (u16, u16))
        ensures
            r == self@.size,
    {
        self.size
    }

    /// The pending first key of a two-key command.
    pub fn waiting_cmd(&self) -> (r: Option<char>)
        ensures
            r == self@.waiting,
    {
        self.waiting_cmd
    }

    /// The number of entries in the undo log.
    pub fn undo_len(&self) -> (r: usize)
        ensures
            r == self@.undo.len(),
    {
        self.undo_list.len()
    }

    /// The visible lines joined by `'\n'`: the highlighter's input.
    pub fn viewport_text(&self) -> (r: String)
        requires
            self.wf(),
        ensures
            r@ == crate::buffer::join_lines(
                self@.lines.subrange(
                    self@.vtop,
                    model::min(self@.vtop + self@.vheight, self@.lines.len() as int),
                ),
            ),
    {
        self.buffer.viewport_buf(self.vtop as usize, self.vheight as usize)
    }

    /// Cells the gutter's numbers take (one more follows as margin).
    pub fn gutter_width(&self) -> (r: usize)
        ensures
            r == decimal(self@.lines.len()).len() + 1,
    {
        gutter_width(self.buffer.lines.len())
    }

    /// The status line: mode badge, file field, and the cursor's screen
    /// column and buffer line.
    pub fn status_line(&self) -> (r: StatusLine)
        requires
            self.wf(),
        ensures
            r.mode@ == mode_badge(self@.mode),
            r.pos@ == pos_field(
                self@.cx as nat,
                model::cur_line(self@) as nat,
            ),
            r.file@ == file_field(
                self@.file,
                self@.size.0 - mode_badge(self@.mode).len() - pos_field(
                    self@.cx as nat,
                    model::cur_line(self@) as nat,
                ).len() - 2,
            ),
    {
        let file = match &self.buffer.file {
            Some(f) => Some(f.as_str()),
            None => None,
        };
        compose_status(
            self.mode,
            self.cx as usize,
            (self.vtop + self.cy) as usize,
            file,
            self.size.0 as usize,
        )
    }

    /// The lines in view.
    pub open spec fn visible_lines(&self) -> Seq<Seq<char>> {
        self@.lines.subrange(
            self@.vtop,
            model::min(self@.vtop + self@.vheight, self@.lines.len() as int),
        )
    }

    /// The line drawn on text row `k` (empty past the end of the buffer) and
    /// the byte offset where it starts in the viewport text.
    pub open spec fn row_source(&self, k: int) -> (Seq<char>, int) {
        if k < self.visible_lines().len() {
            (self.visible_lines()[k], line_start(self.visible_lines(), k))
        } else {
            (Seq::<char>::empty(), 0)
        }
    }

    /// The text area as `vheight` rows of `vwidth - vleft` styled cells: each
    /// line in view, its characters styled by the first span holding their
    /// byte offset in the viewport text (else `default`), the rest of the
    /// row blank in `default`; rows past the end of the buffer are blank.
    /// Every row is there unless the viewport text is longer than
    /// `usize::MAX` bytes.
    pub fn viewport_rows(&self, spans: &Vec<StyleInfo>, default: Style) -> (r: Vec<Vec<(char, Style)>>)
        requires
            self.wf(),
        ensures
            r@.len() <= self@.vheight,
            line_start(self.visible_lines(), self.visible_lines().len() as int) <= usize::MAX
                ==> r@.len() == self@.vheight,
            forall|k: int|
                0 <= k < r@.len() ==> is_row(
                    #[trigger] r@[k]@,
                    self.row_source(k).0,
                    self.row_source(k).1,
                    self@.vwidth - self@.vleft,
                    spans@,
                    default,
                ),
    {
        let n = self.buffer.lines.len();
        let top = self.vtop as usize;
        let end = if top + (self.vheight as usize) < n {
            top + self.vheight as usize
        } else {
            n
        };
        let width = (self.vwidth - self.vleft) as usize;
        let ghost vis = self.visible_lines();
        let mut rows: Vec<Vec<(char, Style)>> = Vec::new();
        let mut start: usize = 0;
        let mut i: usize = top;
        while i < end
            invariant
                self.wf(),
                vis == self.visible_lines(),
                top == self@.vtop,
                end == self@.vtop + vis.len(),
                vis.len() <= self@.vheight,
                width == self@.vwidth - self@.vleft,
                top <= i <= end,
                rows@.len() == i - top,
                start == line_start(vis, i - top),
                forall|k: int|
                    0 <= k < rows@.len() ==> is_row(
                        #[trigger] rows@[k]@,
                        self.row_source(k).0,
                        self.row_source(k).1,
                        width as int,
                        spans@,
                        default,
                    ),
            decreases end - i,
        {
            let chars = crate::text::chars_of(self.buffer.lines[i].as_str());
            assert(vis[i - top] == chars@);
            match crate::render::offset_after(start, &chars) {
                None => {
                    proof {
                        lemma_line_start_grows(vis, i - top + 1, vis.len() as int);
                    }
                    return rows;
                },
                Some(after) => {
                    if after == usize::MAX {
                        proof {
                            lemma_line_start_grows(vis, i - top + 1, vis.len() as int);
                        }
                        return rows;
                    }
                    let row = compose_row(&chars, start, width, spans, default);
                    rows.push(row);
                    start = after + 1;
                },
            }
            i = i + 1;
        }
        let blank: Vec<char> = Vec::new();
        while rows.len() < self.vheight as usize
            invariant
                self.wf(),
                vis == self.visible_lines(),
                vis.len() <= rows@.len() <= self@.vheight,
                width == self@.vwidth - self@.vleft,
                blank@.len() == 0,
                forall|k: int|
                    0 <= k < rows@.len() ==> is_row(
                        #[trigger] rows@[k]@,
                        self.row_source(k).0,
                        self.row_source(k).1,
                        width as int,
                        spans@,
                        default,
                    ),
            decreases self@.vheight - rows@.len(),
        {
            proof {
                crate::render::lemma_bytes_len_nonneg(blank@);
            }
            let row = compose_row(&blank, 0, width, spans, default);
            assert(blank@ =~= Seq::<char>::empty());
            rows.push(row);
        }
        rows
    }
}

proof fn lemma_line_start_grows(lines: Seq<Seq<char>>, j: int, k: int)
    requires
        0 <= j <= k,
    ensures
        line_start(lines, j) <= line_start(lines, k),
    decreases k - j,
{
    if j < k {
        lemma_line_start_grows(lines, j, k - 1);
        crate::render::lemma_bytes_len_nonneg(lines[k - 1]);
    }
}

} // verus!
