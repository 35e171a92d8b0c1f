//! The line buffer: an ordered sequence of text lines.
use vstd::prelude::*;
use crate::action::InsertModeTextAddInfo;
use crate::text::{chars_of, is_blank, is_blank_chars, string_from_chars};

verus! {

/// `s` cut at every `'\n'`; there is always one more piece than newlines.
pub open spec fn newline_pieces(s: Seq<char>) -> Seq<Seq<char>>
    decreases s.len(),
{
    if s.len() == 0 {
        seq![Seq::<char>::empty()]
    } else {
        let rest = newline_pieces(s.drop_last());
        if s.last() == '\n' {
            rest.push(Seq::<char>::empty())
        } else {
            rest.update(rest.len() - 1, rest.last().push(s.last()))
        }
    }
}

/// A piece that ended at a `'\n'` loses one `'\r'` just before it.
pub open spec fn strip_cr(l: Seq<char>) -> Seq<char> {
    if l.len() > 0 && l.last() == '\r' {
        l.drop_last()
    } else {
        l
    }
}

/// The lines of a text: lines end at `"\n"` or `"\r\n"`, and a final line
/// ending is optional (an empty text has no line).
pub open spec fn lines_of(s: Seq<char>) -> Seq<Seq<char>> {
    let p = newline_pieces(s);
    let body = p.drop_last().map_values(|l: Seq<char>| strip_cr(l));
    if p.last().len() == 0 {
        body
    } else {
        body.push(p.last())
    }
}

/// Lines joined by `'\n'`, with no newline after the last one.
pub open spec fn join_lines(ls: Seq<Seq<char>>) -> Seq<char>
    decreases ls.len(),
{
    if ls.len() == 0 {
        Seq::<char>::empty()
    } else if ls.len() == 1 {
        ls[0]
    } else {
        join_lines(ls.drop_last()) + seq!['\n'] + ls.last()
    }
}

/// `l` without the characters at columns `start..=end`.
pub open spec fn without_span(l: Seq<char>, start: int, end: int) -> Seq<char> {
    l.subrange(0, start) + l.subrange(end + 1, l.len() as int)
}

/// `lines` after the span `start..=end` of line `line_no` is removed; a line
/// left blank by the removal is removed as well.
pub open spec fn lines_without_span(
    lines: Seq<Seq<char>>,
    line_no: int,
    start: int,
    end: int,
) -> Seq<Seq<char>> {
    let rest = without_span(lines[line_no], start, end);
    if is_blank(rest) {
        lines.remove(line_no)
    } else {
        lines.update(line_no, rest)
    }
}

/// The text of an open file, line by line.
pub struct Buffer {
    pub file: Option<String>,
    pub lines: Vec<String>,
}

impl View for Buffer {
    type V = Seq<Seq<char>>;

    open spec fn view(&self) -> Seq<Seq<char>> {
        self.lines@.map_values(|l: String| l@)
    }
}

/// Cuts `content` into lines as `lines_of` says.
fn split_lines(content: &str) -> (r: Vec<String>)
    ensures
        r@.map_values(|l: String| l@) == lines_of(content@),
{
    let chars = chars_of(content);
    let mut out: Vec<String> = Vec::new();
    let mut cur: Vec<char> = Vec::new();
    let mut i: usize = 0;
    while i < chars.len()
        invariant
            chars@ == content@,
            i <= chars.len(),
            newline_pieces(chars@.take(i as int)).len() >= 1,
            out@.map_values(|l: String| l@) == newline_pieces(
                chars@.take(i as int),
            ).drop_last().map_values(|l: Seq<char>| strip_cr(l)),
            cur@ == newline_pieces(chars@.take(i as int)).last(),
        decreases chars.len() - i,
    {
        let c = chars[i];
        let ghost prefix = chars@.take(i as int);
        let ghost next = chars@.take(i + 1);
        assert(next.drop_last() =~= prefix);
        assert(next.last() == c);
        if c == '\n' {
            let mut piece = cur.clone();
            let n = piece.len();
            if n > 0 && piece[n - 1] == '\r' {
                piece.pop();
            }
            assert(piece@ == strip_cr(cur@));
            let s = string_from_chars(&piece);
            out.push(s);
            cur = Vec::new();
            let ghost rest = newline_pieces(prefix);
            assert(newline_pieces(next).drop_last() =~= rest);
            assert(rest =~= rest.drop_last().push(rest.last()));
            assert(rest.map_values(|l: Seq<char>| strip_cr(l)) =~= rest.drop_last().map_values(
                |l: Seq<char>| strip_cr(l),
            ).push(strip_cr(rest.last())));
            assert(out@.map_values(|l: String| l@) =~= newline_pieces(next).drop_last().map_values(
                |l: Seq<char>| strip_cr(l),
            ));
        } else {
            cur.push(c);
            assert(newline_pieces(next).drop_last() =~= newline_pieces(prefix).drop_last());
            assert(out@.map_values(|l: String| l@) =~= newline_pieces(next).drop_last().map_values(
                |l: Seq<char>| strip_cr(l),
            ));
        }
        i = i + 1;
    }
    assert(chars@.take(i as int) =~= content@);
    if cur.len() > 0 {
        let s = string_from_chars(&cur);
        out.push(s);
    }
    assert(out@.map_values(|l: String| l@) =~= lines_of(content@));
    out
}

impl Buffer {
    /// A buffer for `file` holding the lines of `content`; a buffer with no
    /// file is empty.
    pub fn new(file: Option<String>, content: Option<String>) -> (r: Buffer)
        requires
            file is Some ==> content is Some,
        ensures
            r.file == file,
            file is Some ==> r@ == lines_of(content->0@),
            file is None ==> r@.len() == 0,
    {
        let lines = match &file {
            Some(_) => match &content {
                Some(c) => split_lines(c.as_str()),
                None => Vec::new(),
            },
            None => Vec::new(),
        };
        proof {
            if file is None {
                assert(lines@.map_values(|l: String| l@) =~= Seq::<Seq<char>>::empty());
            }
        }
        Buffer { file, lines }
    }

    /// The text of line `line`, if there is such a line.
    pub fn get(&self, line: usize) -> (r: Option<String>)
        ensures
            line < self@.len() ==> r is Some && r->0@ == self@[line as int],
            line >= self@.len() ==> r is None,
    {
        if self.lines.len() > line {
            return Some(self.lines[line].clone());
        }
        None
    }

    /// Inserts `c` at column `x` of line `y`; nothing happens when there is
    /// no line `y`.
    pub fn insert_char(&mut self, x: u16, y: u16, c: char)
        requires
            y < old(self)@.len() ==> x <= old(self)@[y as int].len(),
        ensures
            final(self).file == old(self).file,
            y < old(self)@.len() ==> final(self)@ == old(self)@.update(
                y as int,
                old(self)@[y as int].insert(x as int, c),
            ),
            y >= old(self)@.len() ==> final(self)@ == old(self)@,
    {
        let yi = y as usize;
        if yi < self.lines.len() {
            let mut chars = chars_of(self.lines[yi].as_str());
            chars.insert(x as usize, c);
            let s = string_from_chars(&chars);
            self.lines[yi] = s;
            assert(self@ =~= old(self)@.update(y as int, old(self)@[y as int].insert(x as int, c)));
        }
    }

    /// Removes the character at column `x` of line `y`; nothing happens when
    /// there is no such character.
    pub fn delete_char(&mut self, x: u16, y: u16)
        ensures
            final(self).file == old(self).file,
            y < old(self)@.len() && x < old(self)@[y as int].len() ==> final(self)@ == old(
                self,
            )@.update(y as int, old(self)@[y as int].remove(x as int)),
            !(y < old(self)@.len() && x < old(self)@[y as int].len()) ==> final(self)@ == old(
                self,
            )@,
    {
        let yi = y as usize;
        if yi < self.lines.len() {
            let mut chars = chars_of(self.lines[yi].as_str());
            if (x as usize) < chars.len() {
                chars.remove(x as usize);
                let s = string_from_chars(&chars);
                self.lines[yi] = s;
                assert(self@ =~= old(self)@.update(y as int, old(self)@[y as int].remove(x as int)));
            }
        }
    }

    /// Removes line `line_no` and returns its text.
    pub fn delete_line(&mut self, line_no: u16) -> (r: String)
        requires
            line_no < old(self)@.len(),
        ensures
            final(self).file == old(self).file,
            r@ == old(self)@[line_no as int],
            final(self)@ == old(self)@.remove(line_no as int),
    {
        let r = self.lines.remove(line_no as usize);
        assert(self@ =~= old(self)@.remove(line_no as int));
        r
    }

    /// Puts `line` back as line `idx`.
    pub fn restore_line(&mut self, line: String, idx: u16)
        requires
            idx <= old(self)@.len(),
        ensures
            final(self).file == old(self).file,
            final(self)@ == old(self)@.insert(idx as int, line@),
    {
        let ghost text = line@;
        self.lines.insert(idx as usize, line);
        assert(self@ =~= old(self)@.insert(idx as int, text));
    }

    /// Inserts an empty line as line `idx`.
    pub fn insert_line(&mut self, idx: u16)
        requires
            idx <= old(self)@.len(),
        ensures
            final(self).file == old(self).file,
            final(self)@ == old(self)@.insert(idx as int, Seq::<char>::empty()),
    {
        self.lines.insert(idx as usize, String::new());
        assert(self@ =~= old(self)@.insert(idx as int, Seq::<char>::empty()));
    }

    /// Removes the text typed during one stay in Insert mode; the line goes
    /// away with it when nothing but whitespace is left.
    pub fn remove_insert_changes(&mut self, insert_changes: InsertModeTextAddInfo)
        requires
            insert_changes.line_no < old(self)@.len(),
            insert_changes.index.0 <= insert_changes.index.1,
            insert_changes.index.1 < old(self)@[insert_changes.line_no as int].len(),
        ensures
            final(self).file == old(self).file,
            final(self)@ == lines_without_span(
                old(self)@,
                insert_changes.line_no as int,
                insert_changes.index.0 as int,
                insert_changes.index.1 as int,
            ),
    {
        let start = insert_changes.index.0 as usize;
        let end = insert_changes.index.1 as usize;
        let line_no = insert_changes.line_no as usize;
        let old_line = self.lines.remove(line_no);
        let chars = chars_of(old_line.as_str());
        let mut rest: Vec<char> = Vec::new();
        let mut i: usize = 0;
        while i < chars.len()
            invariant
                line_no < old(self)@.len(),
                chars@ == old(self)@[line_no as int],
                start <= end < chars.len(),
                i <= chars.len(),
                rest@ == chars@.subrange(0, if i < start { i as int } else { start as int })
                    + chars@.subrange(
                    end + 1,
                    if i > end + 1 { i as int } else { end + 1 },
                ),
            decreases chars.len() - i,
        {
            if i < start || i > end {
                rest.push(chars[i]);
            }
            i = i + 1;
            assert(rest@ =~= chars@.subrange(0, if i < start { i as int } else { start as int })
                + chars@.subrange(end + 1, if i > end + 1 { i as int } else { end + 1 }));
        }
        assert(rest@ =~= without_span(chars@, start as int, end as int));
        if !is_blank_chars(&rest) {
            let s = string_from_chars(&rest);
            self.lines.insert(line_no, s);
            assert(self@ =~= old(self)@.update(line_no as int, rest@));
        } else {
            assert(self@ =~= old(self)@.remove(line_no as int));
        }
    }

    /// The lines `vtop..vtop + vheight` (those that exist) joined by `'\n'`.
    pub fn viewport_buf(&self, vtop: usize, vheight: usize) -> (r: String)
        requires
            vtop <= self@.len(),
        ensures
            r@ == join_lines(
                self@.subrange(
                    vtop as int,
                    if vtop + vheight < self@.len() {
                        vtop + vheight
                    } else {
                        self@.len() as int
                    },
                ),
            ),
    {
        let height = if vheight < self.lines.len() - vtop {
            vtop + vheight
        } else {
            self.lines.len()
        };
        let mut r = String::new();
        let mut i: usize = vtop;
        let sep = "\n";
        proof {
            reveal_strlit("\n");
        }
        assert(sep@ =~= seq!['\n']);
        while i < height
            invariant
                vtop <= i <= height <= self@.len(),
                sep@ == seq!['\n'],
                r@ == join_lines(self@.subrange(vtop as int, i as int)),
            decreases height - i,
        {
            let ghost before = self@.subrange(vtop as int, i as int);
            let ghost after = self@.subrange(vtop as int, i + 1);
            assert(after.drop_last() =~= before);
            if i > vtop {
                r.append(sep);
            }
            r.append(self.lines[i].as_str());
            i = i + 1;
            proof {
                if before.len() == 0 {
                    assert(r@ =~= after[0]);
                } else {
                    assert(r@ =~= join_lines(before) + seq!['\n'] + after.last());
                }
            }
        }
        r
    }
}

} // verus!
