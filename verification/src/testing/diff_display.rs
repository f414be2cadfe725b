//! A two-column table, framed with box-drawing characters, that shows two
//! texts side by side, line against line.

use crate::text::{char_count, push_repeated, repeated};
use crate::ux::{foreground_code, get_terminal_width, Color};
use vstd::prelude::*;
use vstd::string::{StrSliceExecFns, StringExecFns};

verus! {

/// The width of one column of the table on a terminal of the given width.
/// Seven columns go to the frame; the rest is shared by the two sides. A
/// terminal too narrow for the frame leaves the columns empty.
pub open spec fn side_width_for(terminal_width: u16) -> nat {
    if terminal_width >= 7 {
        ((terminal_width - 7) / 2) as nat
    } else {
        0
    }
}

/// How many characters of a line that is too long stay in front of the dots.
pub open spec fn kept(width: nat) -> nat {
    if width >= 3 {
        (width - 3) as nat
    } else {
        0
    }
}

/// A line cut to a column: a line that fits stays as it is; a longer one is
/// cut to exactly the column's width and ends in three dots (in as many dots
/// as fit, where the column is narrower than that).
pub open spec fn trimmed(line: Seq<char>, width: nat) -> Seq<char> {
    if line.len() <= width {
        line
    } else {
        line.subrange(0, kept(width) as int) + repeated('.', (width - kept(width)) as nat)
    }
}

/// How many characters a text lacks to fill a column.
pub open spec fn missing(text: Seq<char>, width: nat) -> nat {
    if text.len() < width {
        (width - text.len()) as nat
    } else {
        0
    }
}

/// A text filled up with spaces on the right.
pub open spec fn left_aligned(text: Seq<char>, width: nat) -> Seq<char> {
    text + repeated(' ', missing(text, width))
}

/// A text filled up with spaces on both sides; an odd space goes to the right.
pub open spec fn centered(text: Seq<char>, width: nat) -> Seq<char> {
    repeated(' ', missing(text, width) / 2) + text + repeated(
        ' ',
        (missing(text, width) - missing(text, width) / 2) as nat,
    )
}

/// A border of the table, with the given corner and junction characters.
pub open spec fn horizontal_line(left: char, mid: char, right: char, width: nat) -> Seq<char> {
    seq![left] + repeated('─', width + 2) + seq![mid] + repeated('─', width + 2) + seq![
        right,
        '\n',
    ]
}

/// A row whose two cells are centred, as the titles are.
pub open spec fn centered_row(left: Seq<char>, right: Seq<char>, width: nat) -> Seq<char> {
    "│ "@ + centered(trimmed(left, width), width) + " │ "@ + centered(
        trimmed(right, width),
        width,
    ) + " │\n"@
}

/// A row of the table's body: each cell in its colour, and between the
/// cells the marker that tells what kind of row it is.
pub open spec fn row(
    left: Seq<char>,
    mid: char,
    right: Seq<char>,
    left_color: Color,
    right_color: Color,
    width: nat,
) -> Seq<char> {
    "│ "@ + left_color.foreground() + left_aligned(trimmed(left, width), width)
        + Color::Reset.foreground() + seq![' ', mid, ' '] + right_color.foreground()
        + left_aligned(trimmed(right, width), width) + Color::Reset.foreground() + " │\n"@
}

/// The top of the table: border, titles, border.
pub open spec fn heading(left_title: Seq<char>, right_title: Seq<char>, width: nat) -> Seq<char> {
    horizontal_line('╭', '┬', '╮', width) + centered_row(left_title, right_title, width)
        + horizontal_line('├', '┼', '┤', width)
}

/// The bottom border of the table.
pub open spec fn closing(width: nat) -> Seq<char> {
    horizontal_line('╰', '┴', '╯', width)
}

/// A table under construction.
pub struct DiffDisplay {
    text: String,
    side_width: u16,
    left_color: Color,
    right_color: Color,
}

/// What a table under construction is made of.
pub struct DiffDisplayView {
    /// The text written so far.
    pub text: Seq<char>,
    /// The width of each of the two columns.
    pub side_width: nat,
    /// The colour of lines that stand on the left only.
    pub left_color: Color,
    /// The colour of lines that stand on the right only.
    pub right_color: Color,
}

impl DiffDisplayView {
    /// The same table with more text written.
    pub open spec fn followed_by(self, more: Seq<char>) -> DiffDisplayView {
        DiffDisplayView { text: self.text + more, ..self }
    }
}

impl View for DiffDisplay {
    type V = DiffDisplayView;

    closed spec fn view(&self) -> DiffDisplayView {
        DiffDisplayView {
            text: self.text@,
            side_width: self.side_width as nat,
            left_color: self.left_color,
            right_color: self.right_color,
        }
    }
}

/// The table as it stands right after its heading was written.
pub open spec fn started(
    terminal_width: u16,
    left_title: Seq<char>,
    right_title: Seq<char>,
    left_color: Color,
    right_color: Color,
) -> DiffDisplayView {
    DiffDisplayView {
        text: heading(left_title, right_title, side_width_for(terminal_width)),
        side_width: side_width_for(terminal_width),
        left_color,
        right_color,
    }
}

fn push_left_aligned(out: &mut String, cell: &str, width: u16)
    ensures
        final(out)@ == old(out)@ + left_aligned(cell@, width as nat),
{
    let length = char_count(cell);
    out.append(cell);
    if length < width as usize {
        push_repeated(out, ' ', width as usize - length);
    } else {
        assert(repeated(' ', 0) =~= Seq::<char>::empty());
    }
    assert(out@ =~= old(out)@ + left_aligned(cell@, width as nat));
}

fn push_centered(out: &mut String, cell: &str, width: u16)
    ensures
        final(out)@ == old(out)@ + centered(cell@, width as nat),
{
    let length = char_count(cell);
    let padding: usize = if length < width as usize {
        width as usize - length
    } else {
        0
    };
    push_repeated(out, ' ', padding / 2);
    out.append(cell);
    push_repeated(out, ' ', padding - padding / 2);
    assert(out@ =~= old(out)@ + centered(cell@, width as nat));
}

impl DiffDisplay {
    /// Starts a table for a terminal of the given width and writes its
    /// heading.
    pub fn with_width(
        terminal_width: u16,
        left_title: &str,
        right_title: &str,
        left_color: Color,
        right_color: Color,
    ) -> (display: Self)
        ensures
            display@ == started(terminal_width, left_title@, right_title@, left_color, right_color),
    {
        let side_width: u16 = if terminal_width >= 7 {
            (terminal_width - 7) / 2
        } else {
            0
        };
        let mut display = DiffDisplay { text: String::new(), side_width, left_color, right_color };
        display.draw_horizontal_line('╭', '┬', '╮');
        display.write_centered_row(left_title, right_title);
        display.draw_horizontal_line('├', '┼', '┤');
        assert(display@.text =~= heading(left_title@, right_title@, side_width as nat));
        display
    }

    /// Starts a table as wide as the terminal and writes its heading.
    pub fn new(left_title: &str, right_title: &str, left_color: Color, right_color: Color) -> (display:
        Self)
        ensures
            exists|terminal_width: u16|
                display@ == started(
                    terminal_width,
                    left_title@,
                    right_title@,
                    left_color,
                    right_color,
                ),
    {
        let terminal_width = get_terminal_width();
        Self::with_width(terminal_width, left_title, right_title, left_color, right_color)
    }

    fn draw_horizontal_line(&mut self, left: char, mid: char, right: char)
        ensures
            final(self)@ == old(self)@.followed_by(
                horizontal_line(left, mid, right, old(self)@.side_width),
            ),
    {
        let span: usize = self.side_width as usize + 2;
        self.text.push(left);
        push_repeated(&mut self.text, '─', span);
        self.text.push(mid);
        push_repeated(&mut self.text, '─', span);
        self.text.push(right);
        self.text.push('\n');
        assert(self.text@ =~= old(self).text@ + horizontal_line(
            left,
            mid,
            right,
            self.side_width as nat,
        ));
    }

    /// Writes the bottom border.
    pub fn end(&mut self)
        ensures
            final(self)@ == old(self)@.followed_by(closing(old(self)@.side_width)),
    {
        self.draw_horizontal_line('╰', '┴', '╯');
    }

    fn write_centered_row(&mut self, left: &str, right: &str)
        ensures
            final(self)@ == old(self)@.followed_by(
                centered_row(left@, right@, old(self)@.side_width),
            ),
    {
        let left = self.trim_line(left);
        let right = self.trim_line(right);
        self.text.append("│ ");
        push_centered(&mut self.text, left.as_str(), self.side_width);
        self.text.append(" │ ");
        push_centered(&mut self.text, right.as_str(), self.side_width);
        self.text.append(" │\n");
        assert(self.text@ =~= old(self).text@ + centered_row(
            left@,
            right@,
            self.side_width as nat,
        ));
    }

    fn write_row(
        &mut self,
        left: &str,
        mid: char,
        right: &str,
        left_color: Color,
        right_color: Color,
    )
        ensures
            final(self)@ == old(self)@.followed_by(
                row(left@, mid, right@, left_color, right_color, old(self)@.side_width),
            ),
    {
        let left = self.trim_line(left);
        let right = self.trim_line(right);
        self.text.append("│ ");
        self.text.append(foreground_code(left_color).as_str());
        push_left_aligned(&mut self.text, left.as_str(), self.side_width);
        self.text.append(foreground_code(Color::Reset).as_str());
        self.text.push(' ');
        self.text.push(mid);
        self.text.push(' ');
        self.text.append(foreground_code(right_color).as_str());
        push_left_aligned(&mut self.text, right.as_str(), self.side_width);
        self.text.append(foreground_code(Color::Reset).as_str());
        self.text.append(" │\n");
        assert(self.text@ =~= old(self).text@ + row(
            left@,
            mid,
            right@,
            left_color,
            right_color,
            self.side_width as nat,
        ));
    }

    /// Writes a line that stands on the left only.
    pub fn write_left(&mut self, left: &str)
        ensures
            final(self)@ == old(self)@.followed_by(
                row(
                    left@,
                    '<',
                    Seq::empty(),
                    old(self)@.left_color,
                    old(self)@.right_color,
                    old(self)@.side_width,
                ),
            ),
    {
        let left_color = self.left_color;
        let right_color = self.right_color;
        let nothing = String::new();
        self.write_row(left, '<', nothing.as_str(), left_color, right_color);
    }

    /// Writes a line that stands on the right only.
    pub fn write_right(&mut self, right: &str)
        ensures
            final(self)@ == old(self)@.followed_by(
                row(
                    Seq::empty(),
                    '>',
                    right@,
                    old(self)@.left_color,
                    old(self)@.right_color,
                    old(self)@.side_width,
                ),
            ),
    {
        let left_color = self.left_color;
        let right_color = self.right_color;
        let nothing = String::new();
        self.write_row(nothing.as_str(), '>', right, left_color, right_color);
    }

    /// Writes a line that stands on both sides, without colour.
    pub fn write_both(&mut self, left: &str, right: &str)
        ensures
            final(self)@ == old(self)@.followed_by(
                row(left@, '│', right@, Color::Reset, Color::Reset, old(self)@.side_width),
            ),
    {
        self.write_row(left, '│', right, Color::Reset, Color::Reset);
    }

    fn trim_line(&self, line: &str) -> (cut: String)
        ensures
            cut@ == trimmed(line@, self@.side_width),
    {
        let width = self.side_width as usize;
        if char_count(line) <= width {
            line.to_owned()
        } else {
            let keep: usize = if width >= 3 {
                width - 3
            } else {
                0
            };
            let mut cut = line.substring_char(0, keep).to_owned();
            push_repeated(&mut cut, '.', width - keep);
            cut
        }
    }

    /// The text of the table.
    pub fn build(self) -> (text: String)
        ensures
            text@ == self@.text,
    {
        self.text
    }
}

} // verus!
