//! What the screen shows, as plain values: the style of each text position,
//! the gutter's line numbers and the status line's three segments.
use vstd::prelude::*;
use crate::action::Mode;
use crate::text::{decimal, decimal_chars, string_from_chars};
use crate::theme::Style;

verus! {

/// A highlighted region of the viewport text: positions `start..end`.
#[derive(Clone, Copy, Debug)]
pub struct StyleInfo {
    pub start: usize,
    pub end: usize,
    pub style: Style,
}

impl StyleInfo {
    /// Whether `pos` lies in this region.
    pub fn contains(&self, pos: usize) -> (r: bool)
        ensures
            r == (self.start <= pos < self.end),
    {
        pos >= self.start && pos < self.end
    }
}

/// The style of position `pos`: that of the first region holding it, or
/// `default` when none does.
pub open spec fn style_at(spans: Seq<StyleInfo>, pos: int, default: Style) -> Style
    decreases spans.len(),
{
    if spans.len() == 0 {
        default
    } else if spans[0].start <= pos < spans[0].end {
        spans[0].style
    } else {
        style_at(spans.drop_first(), pos, default)
    }
}

/// The style to draw position `pos` of the viewport text with.
pub fn style_for_position(spans: &Vec<StyleInfo>, pos: usize, default: Style) -> (r: Style)
    ensures
        r == style_at(spans@, pos as int, default),
{
    let mut i: usize = 0;
    assert(spans@.subrange(0, spans@.len() as int) =~= spans@);
    while i < spans.len()
        invariant
            i <= spans@.len(),
            style_at(spans@, pos as int, default) == style_at(
                spans@.subrange(i as int, spans@.len() as int),
                pos as int,
                default,
            ),
        decreases spans.len() - i,
    {
        let ghost rest = spans@.subrange(i as int, spans@.len() as int);
        assert(rest.drop_first() =~= spans@.subrange(i + 1, spans@.len() as int));
        if spans[i].contains(pos) {
            return spans[i].style;
        }
        i = i + 1;
    }
    default
}

/// `n` spaces.
pub open spec fn spaces(n: int) -> Seq<char> {
    Seq::new(if n > 0 { n as nat } else { 0 }, |i: int| ' ')
}

/// Cells the gutter's numbers take for a buffer of `n_lines` lines (one
/// more follows as margin).
pub fn gutter_width(n_lines: usize) -> (r: usize)
    ensures
        r == decimal(n_lines as nat).len() + 1,
{
    crate::text::digit_count(n_lines) + 1
}

/// The gutter text of line number `n`: right-aligned in `width` cells,
/// followed by one space.
pub fn gutter_label(n: usize, width: usize) -> (r: String)
    ensures
        r@ == spaces(width - decimal(n as nat).len()) + decimal(n as nat) + seq![' '],
{
    let digits = decimal_chars(n);
    let mut cells: Vec<char> = Vec::new();
    let pad = if width > digits.len() {
        width - digits.len()
    } else {
        0
    };
    let mut i: usize = 0;
    while i < pad
        invariant
            i <= pad,
            cells@ == spaces(i as int),
        decreases pad - i,
    {
        cells.push(' ');
        i = i + 1;
        assert(cells@ =~= spaces(i as int));
    }
    let mut j: usize = 0;
    while j < digits.len()
        invariant
            j <= digits@.len(),
            cells@ == spaces(pad as int) + digits@.take(j as int),
        decreases digits.len() - j,
    {
        cells.push(digits[j]);
        j = j + 1;
        assert(cells@ =~= spaces(pad as int) + digits@.take(j as int));
    }
    cells.push(' ');
    assert(digits@.take(j as int) =~= digits@);
    assert(spaces(pad as int) =~= spaces(width - decimal(n as nat).len()));
    string_from_chars(&cells)
}

/// The three segments of the status line.
pub struct StatusLine {
    pub mode: String,
    pub file: String,
    pub pos: String,
}

/// The badge of a mode.
pub open spec fn mode_badge(mode: Mode) -> Seq<char> {
    match mode {
        Mode::Normal => "NORMAL"@,
        Mode::Insert => "INSERT"@,
    }
}

/// The position field: ` col:row `, the cursor's screen column and buffer
/// line.
pub open spec fn pos_field(col: nat, row: nat) -> Seq<char> {
    seq![' '] + decimal(col) + seq![':'] + decimal(row) + seq![' ']
}

/// The file field: ` name ` (`No Name` without a file), padded with spaces
/// to `width` cells.
pub open spec fn file_field(file: Option<Seq<char>>, width: int) -> Seq<char> {
    let name = match file {
        Some(f) => f,
        None => "No Name"@,
    };
    let text = seq![' '] + name + seq![' '];
    text + spaces(width - text.len())
}

fn push_all(out: &mut Vec<char>, s: &Vec<char>)
    ensures
        final(out)@ == old(out)@ + s@,
{
    let mut i: usize = 0;
    while i < s.len()
        invariant
            i <= s@.len(),
            out@ == old(out)@ + s@.take(i as int),
        decreases s.len() - i,
    {
        out.push(s[i]);
        i = i + 1;
        assert(out@ =~= old(out)@ + s@.take(i as int));
    }
    assert(s@.take(i as int) =~= s@);
}

/// The status line for a terminal `cols` cells wide: the mode badge with a
/// separator cell on each side, the file field taking the cells left over,
/// and the position field (`col` and `row`: the cursor's screen column and
/// buffer line).
pub fn compose_status(mode: Mode, col: usize, row: usize, file: Option<&str>, cols: usize) -> (r:
    StatusLine)
    ensures
        r.mode@ == mode_badge(mode),
        r.pos@ == pos_field(col as nat, row as nat),
        r.file@ == file_field(
            match file {
                Some(f) => Some(f@),
                None => None,
            },
            cols - mode_badge(mode).len() - pos_field(col as nat, row as nat).len() - 2,
        ),
{
    proof {
        reveal_strlit("NORMAL");
        reveal_strlit("INSERT");
    }
    let badge = match mode {
        Mode::Normal => "NORMAL",
        Mode::Insert => "INSERT",
    };
    let mut pos: Vec<char> = Vec::new();
    pos.push(' ');
    push_all(&mut pos, &decimal_chars(col));
    pos.push(':');
    push_all(&mut pos, &decimal_chars(row));
    pos.push(' ');
    assert(pos@ =~= pos_field(col as nat, row as nat));
    let name = match file {
        Some(f) => crate::text::chars_of(f),
        None => crate::text::chars_of("No Name"),
    };
    let mut field: Vec<char> = Vec::new();
    field.push(' ');
    push_all(&mut field, &name);
    field.push(' ');
    let used = badge.unicode_len() + 2;
    let width: usize = if cols > used && cols - used > pos.len() {
        cols - used - pos.len()
    } else {
        0
    };
    let ghost text = field@;
    let mut i: usize = field.len();
    while i < width
        invariant
            field@ == text + spaces(i - text.len()),
            text.len() <= i,
            i == text.len() || i <= width,
        decreases width - i,
    {
        field.push(' ');
        i = i + 1;
        assert(field@ =~= text + spaces(i - text.len()));
    }
    proof {
        assert(spaces(i - text.len()) =~= spaces(width - text.len()));
    }
    StatusLine {
        mode: badge.to_owned(),
        file: string_from_chars(&field),
        pos: string_from_chars(&pos),
    }
}


/// Bytes that UTF-8 takes for `c`.
pub open spec fn utf8_len(c: char) -> int {
    let u = c as u32;
    if u < 0x80 {
        1
    } else if u < 0x800 {
        2
    } else if u < 0x10000 {
        3
    } else {
        4
    }
}

/// Bytes that UTF-8 takes for `s`.
pub open spec fn bytes_len(s: Seq<char>) -> int
    decreases s.len(),
{
    if s.len() == 0 {
        0
    } else {
        bytes_len(s.drop_last()) + utf8_len(s.last())
    }
}

/// Byte offset of the first character of line `k` in `lines` joined by
/// `'\n'`.
pub open spec fn line_start(lines: Seq<Seq<char>>, k: int) -> int
    decreases k,
{
    if k <= 0 {
        0
    } else {
        line_start(lines, k - 1) + bytes_len(lines[k - 1]) + 1
    }
}

/// `r` is one screen row of `width` cells for `line`, whose first byte is at
/// offset `start` of the viewport text: each character that fits, styled
/// by the span holding its byte offset, then blank cells in `default` up to
/// the right edge. A row past the end of the buffer is `line` empty.
pub open spec fn is_row(
    r: Seq<(char, Style)>,
    line: Seq<char>,
    start: int,
    width: int,
    spans: Seq<StyleInfo>,
    default: Style,
) -> bool {
    &&& r.len() == width
    &&& forall|i: int|
        0 <= i < r.len() ==> #[trigger] r[i] == (if i < line.len() {
            (line[i], style_at(spans, start + bytes_len(line.take(i)), default))
        } else {
            (' ', default)
        })
}

pub(crate) proof fn lemma_bytes_len_take(s: Seq<char>, i: int)
    requires
        0 <= i < s.len(),
    ensures
        bytes_len(s.take(i + 1)) == bytes_len(s.take(i)) + utf8_len(s[i]),
{
    assert(s.take(i + 1).drop_last() =~= s.take(i));
}

pub(crate) proof fn lemma_bytes_len_prefix(s: Seq<char>, i: int)
    requires
        0 <= i <= s.len(),
    ensures
        0 <= bytes_len(s.take(i)) <= bytes_len(s),
    decreases s.len() - i,
{
    if i < s.len() {
        lemma_bytes_len_take(s, i);
        lemma_bytes_len_prefix(s, i + 1);
        lemma_bytes_len_nonneg(s.take(i));
    } else {
        assert(s.take(i) =~= s);
        lemma_bytes_len_nonneg(s);
    }
}

pub(crate) proof fn lemma_bytes_len_nonneg(s: Seq<char>)
    ensures
        bytes_len(s) >= 0,
    decreases s.len(),
{
    if s.len() > 0 {
        lemma_bytes_len_nonneg(s.drop_last());
    }
}

/// Bytes that UTF-8 takes for `c`.
pub fn utf8_width(c: char) -> (r: usize)
    ensures
        r == utf8_len(c),
{
    let u = c as u32;
    if u < 0x80 {
        1
    } else if u < 0x800 {
        2
    } else if u < 0x10000 {
        3
    } else {
        4
    }
}

/// `start` plus the UTF-8 length of `chars`, or `None` when that does not
/// fit in `usize`.
pub fn offset_after(start: usize, chars: &Vec<char>) -> (r: Option<usize>)
    ensures
        r is Some ==> r->0 == start + bytes_len(chars@),
        r is None ==> start + bytes_len(chars@) > usize::MAX,
{
    let mut total = start;
    let mut i: usize = 0;
    while i < chars.len()
        invariant
            i <= chars@.len(),
            total == start + bytes_len(chars@.take(i as int)),
        decreases chars.len() - i,
    {
        proof {
            lemma_bytes_len_take(chars@, i as int);
        }
        let w = utf8_width(chars[i]);
        if total > usize::MAX - w {
            proof {
                lemma_bytes_len_prefix(chars@, i + 1);
            }
            return None;
        }
        total = total + w;
        i = i + 1;
    }
    assert(chars@.take(i as int) =~= chars@);
    Some(total)
}

/// One screen row of `width` cells for `line`, whose first byte is at
/// offset `start` of the viewport text.
pub fn compose_row(
    line: &Vec<char>,
    start: usize,
    width: usize,
    spans: &Vec<StyleInfo>,
    fallback: Style,
) -> (r: Vec<(char, Style)>)
    requires
        start + bytes_len(line@) <= usize::MAX,
    ensures
        is_row(r@, line@, start as int, width as int, spans@, fallback),
{
    let mut row: Vec<(char, Style)> = Vec::new();
    let mut off: usize = start;
    let mut i: usize = 0;
    while i < width
        invariant
            start + bytes_len(line@) <= usize::MAX,
            i <= width,
            i <= line@.len() ==> off == start + bytes_len(line@.take(i as int)),
            row@.len() == i,
            forall|k: int|
                0 <= k < i ==> #[trigger] row@[k] == (if k < line@.len() {
                    (line@[k], style_at(spans@, start + bytes_len(line@.take(k)), fallback))
                } else {
                    (' ', fallback)
                }),
        decreases width - i,
    {
        if i < line.len() {
            proof {
                lemma_bytes_len_take(line@, i as int);
                lemma_bytes_len_prefix(line@, i + 1);
            }
            let style = style_for_position(spans, off, fallback);
            row.push((line[i], style));
            off = off + utf8_width(line[i]);
        } else {
            row.push((' ', fallback));
        }
        i = i + 1;
    }
    row
}

} // verus!
