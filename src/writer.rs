//! The text-layout engine: an in-memory line buffer with indentation, a configurable
//! whitespace policy and block-delimiter placement.
use crate::text::{is_blank, lines_of, split_lines, str_is_blank, trim_end, trimmed_len, views};
use crate::error::Error;
use crate::model::identity::{Identifier, Namespace};
use crate::model::{
    Comment, Enumeration, FunctionDecl, Import, Module, ModuleContent, NamedValue, StructuredType,
    TypeAlias,
};
use vstd::prelude::*;

verus! {

/// The line terminator written at the end of each line.
#[derive(Clone, Copy, Debug, PartialEq, Eq, Structural)]
pub enum NewLine {
    LineFeed,
    CarriageReturnLineFeed,
}

impl NewLine {
    /// The characters of this terminator.
    pub open spec fn chars(self) -> Seq<char> {
        match self {
            NewLine::LineFeed => seq!['\n'],
            NewLine::CarriageReturnLineFeed => seq!['\r', '\n'],
        }
    }

    /// The text of this terminator.
    pub fn as_str(&self) -> (r: &'static str)
        ensures
            r@ == self.chars(),
    {
        match self {
            NewLine::LineFeed => {
                proof {
                    reveal_strlit("\n");
                }
                "\n"
            },
            NewLine::CarriageReturnLineFeed => {
                proof {
                    reveal_strlit("\r\n");
                }
                "\r\n"
            },
        }
    }
}

impl Default for NewLine {
    fn default() -> (r: Self)
        ensures
            r == NewLine::LineFeed,
    {
        NewLine::LineFeed
    }
}

/// The whitespace policy: the text of one indentation step, the line terminator, and
/// whether trailing white space is removed from each line.
#[derive(Debug)]
pub struct WhitespaceHandling {
    pub indent: String,
    pub new_line: NewLine,
    pub trim_trailing: bool,
}

impl Clone for WhitespaceHandling {
    fn clone(&self) -> (r: Self)
        ensures
            r == *self,
    {
        WhitespaceHandling {
            indent: self.indent.clone(),
            new_line: self.new_line,
            trim_trailing: self.trim_trailing,
        }
    }
}

impl Default for WhitespaceHandling {
    /// Four spaces, line feeds, and trailing white space trimmed.
    fn default() -> (r: Self)
        ensures
            r.indent@ == seq![' ', ' ', ' ', ' '],
            r.new_line == NewLine::LineFeed,
            r.trim_trailing,
    {
        proof {
            reveal_strlit("    ");
        }
        WhitespaceHandling {
            indent: String::from_str("    "),
            new_line: NewLine::LineFeed,
            trim_trailing: true,
        }
    }
}

impl WhitespaceHandling {
    /// Sets the text of one indentation step.
    pub fn indent(&mut self, indent: &str) -> (r: &mut Self)
        ensures
            r.indent@ == indent@,
            r.new_line == old(self).new_line,
            r.trim_trailing == old(self).trim_trailing,
            *final(self) == *final(r),
    {
        self.indent = String::from_str(indent);
        self
    }

    /// Sets the line terminator.
    pub fn new_line(&mut self, new_line: NewLine) -> (r: &mut Self)
        ensures
            *r == (WhitespaceHandling { new_line, ..*old(self) }),
            *final(self) == *final(r),
    {
        self.new_line = new_line;
        self
    }

    /// Asks for trailing white space to be removed from each line.
    pub fn trim_trailing(&mut self) -> (r: &mut Self)
        ensures
            *r == (WhitespaceHandling { trim_trailing: true, ..*old(self) }),
            *final(self) == *final(r),
    {
        self.trim_trailing = true;
        self
    }

    /// Asks for each line to be written as it is.
    pub fn no_trim_trailing(&mut self) -> (r: &mut Self)
        ensures
            *r == (WhitespaceHandling { trim_trailing: false, ..*old(self) }),
            *final(self) == *final(r),
    {
        self.trim_trailing = false;
        self
    }
}

/// Where a block delimiter stands relative to line breaks and indentation.
#[derive(Clone, Copy, Debug, PartialEq, Eq, Structural)]
pub enum BlockPlacement {
    /// ` { ` on the current line; the depth does not change.
    Trailing,
    /// ` {` on the current line, then a new line and one more level of depth.
    TrailingNewLine,
    /// The marker on a line of its own, then one more level of depth.
    OwnLine,
    /// As `OwnLine`, with one extra level of depth before the marker.
    OwnLineIndented,
}

impl Default for BlockPlacement {
    fn default() -> (r: Self)
        ensures
            r == BlockPlacement::OwnLine,
    {
        BlockPlacement::OwnLine
    }
}

/// The opening and closing markers of a block, each with its placement.
#[derive(Debug)]
pub struct Block {
    pub open: String,
    pub open_placement: BlockPlacement,
    pub close: String,
    pub close_placement: BlockPlacement,
}

impl Clone for Block {
    fn clone(&self) -> (r: Self)
        ensures
            r == *self,
    {
        Block {
            open: self.open.clone(),
            open_placement: self.open_placement,
            close: self.close.clone(),
            close_placement: self.close_placement,
        }
    }
}

impl Block {
    pub fn new(
        open: &str,
        open_placement: BlockPlacement,
        close: &str,
        close_placement: BlockPlacement,
    ) -> (r: Block)
        ensures
            r.open@ == open@,
            r.open_placement == open_placement,
            r.close@ == close@,
            r.close_placement == close_placement,
    {
        Block {
            open: String::from_str(open),
            open_placement,
            close: String::from_str(close),
            close_placement,
        }
    }

    /// The opening marker and its placement.
    pub fn open_with(&self) -> (r: (&String, &BlockPlacement))
        ensures
            *r.0 == self.open,
            *r.1 == self.open_placement,
    {
        (&self.open, &self.open_placement)
    }

    /// The closing marker and its placement.
    pub fn close_with(&self) -> (r: (&String, &BlockPlacement))
        ensures
            *r.0 == self.close,
            *r.1 == self.close_placement,
    {
        (&self.close, &self.close_placement)
    }
}

/// `s` repeated `n` times.
pub open spec fn repeat(s: Seq<char>, n: nat) -> Seq<char>
    decreases n,
{
    if n == 0 {
        Seq::empty()
    } else {
        repeat(s, (n - 1) as nat) + s
    }
}

/// Whether `s` holds `t` at position `i`.
pub open spec fn holds_at(t: Seq<char>, s: Seq<char>, i: int) -> bool {
    i + t.len() <= s.len() && s.subrange(i, i + t.len()) == t
}

/// Each line followed by `terminator`.
pub open spec fn terminated(lines: Seq<Seq<char>>, terminator: Seq<char>) -> Seq<char>
    decreases lines.len(),
{
    if lines.len() == 0 {
        Seq::empty()
    } else {
        terminated(lines.drop_last(), terminator) + lines.last() + terminator
    }
}

/// The state of a layout engine: the lines already ended, the text already written to
/// the line that is not ended yet, the pending line buffer, the depth, and the policy.
pub struct Layout {
    pub lines: Seq<Seq<char>>,
    pub partial: Seq<char>,
    pub line: Seq<char>,
    pub depth: nat,
    pub indent: Seq<char>,
    pub terminator: Seq<char>,
    pub trim: bool,
}

impl Layout {
    /// The whole text written so far: each ended line followed by the terminator, then
    /// the written part of the line that is not ended yet.
    pub open spec fn text(self) -> Seq<char> {
        terminated(self.lines, self.terminator) + self.partial
    }

    /// The pending line as written: the indentation, then the buffer, trimmed if the
    /// policy asks for it.
    pub open spec fn emitted(self) -> Seq<char> {
        repeat(self.indent, self.depth) + if self.trim {
            trim_end(self.line)
        } else {
            self.line
        }
    }

    /// Writes the pending line without ending it, and empties the buffer.
    pub open spec fn flushed(self) -> Layout {
        Layout { partial: self.partial + self.emitted(), line: Seq::empty(), ..self }
    }

    /// Writes the pending line and ends it.
    pub open spec fn new_line(self) -> Layout {
        let f = self.flushed();
        Layout { lines: f.lines.push(f.partial), partial: Seq::empty(), ..f }
    }

    /// Ends the line; a buffer that holds only white space is kept pending, any other is
    /// written first.
    pub open spec fn blank_line(self) -> Layout {
        let f = if is_blank(self.line) {
            self
        } else {
            self.flushed()
        };
        Layout { lines: f.lines.push(f.partial), partial: Seq::empty(), ..f }
    }

    /// Appends `s` to the buffer.
    pub open spec fn push(self, s: Seq<char>) -> Layout {
        Layout { line: self.line + s, ..self }
    }

    /// Whether `s` holds the terminator at position `i`.
    pub open spec fn ends_at(self, s: Seq<char>, i: int) -> bool {
        holds_at(self.terminator, s, i)
    }

    /// Appends `s`, ending the line at each terminator it holds.
    pub open spec fn write(self, s: Seq<char>) -> Layout
        decreases s.len(),
    {
        if s.len() == 0 {
            self
        } else if self.terminator.len() > 0 && self.ends_at(s, 0) {
            self.new_line().write(s.subrange(self.terminator.len() as int, s.len() as int))
        } else {
            self.push(seq![s[0]]).write(s.drop_first())
        }
    }

    pub open spec fn indented(self) -> Layout {
        Layout { depth: self.depth + 1, ..self }
    }

    pub open spec fn outdented(self) -> Layout {
        Layout { depth: (self.depth - 1) as nat, ..self }
    }

    /// Opens a block with `marker` placed as `placement` says.
    pub open spec fn open_block(self, marker: Seq<char>, placement: BlockPlacement) -> Layout {
        match placement {
            BlockPlacement::Trailing => self.write(seq![' ']).write(marker).write(seq![' ']),
            BlockPlacement::TrailingNewLine => self.write(seq![' ']).write(
                marker,
            ).new_line().indented(),
            BlockPlacement::OwnLine => self.new_line().write(marker).new_line().indented(),
            BlockPlacement::OwnLineIndented => self.new_line().indented().write(
                marker,
            ).new_line().indented(),
        }
    }

    /// Closes a block with `marker` placed as `placement` says.
    pub open spec fn close_block(self, marker: Seq<char>, placement: BlockPlacement) -> Layout {
        match placement {
            BlockPlacement::Trailing => self.write(seq![' ']).write(marker),
            BlockPlacement::TrailingNewLine => self.new_line().outdented().write(
                seq![' '],
            ).write(marker),
            BlockPlacement::OwnLine => self.new_line().outdented().write(marker).new_line(),
            BlockPlacement::OwnLineIndented => self.new_line().outdented().write(
                marker,
            ).new_line().outdented(),
        }
    }

    /// Writes each of `lines`, ending each.
    pub open spec fn write_lines(self, lines: Seq<Seq<char>>) -> Layout
        decreases lines.len(),
    {
        if lines.len() == 0 {
            self
        } else {
            self.write_lines(lines.drop_last()).write(lines.last()).new_line()
        }
    }

    /// A block comment: `start` on a line of its own, each line of `text`, then `end` on
    /// a line of its own.
    pub open spec fn block_comment(self, start: Seq<char>, end: Seq<char>, text: Seq<char>) -> Layout {
        self.write(start).new_line().write_lines(split_lines(text)).write(end).new_line()
    }

    /// Each of `lines` on a line of its own, after `pad` spaces, `prefix` and a space.
    pub open spec fn comment_lines(self, pad: nat, prefix: Seq<char>, lines: Seq<Seq<char>>) -> Layout
        decreases lines.len(),
    {
        if lines.len() == 0 {
            self
        } else {
            self.comment_lines(pad, prefix, lines.drop_last()).push(repeat(seq![' '], pad)).write(
                prefix,
            ).push(seq![' ']).write(lines.last()).new_line()
        }
    }

    /// A line comment: each line of `text` after `prefix` and a space, aligned with
    /// what was pending when the comment began.
    pub open spec fn line_comment(self, prefix: Seq<char>, text: Seq<char>) -> Layout {
        self.comment_lines(self.line.len(), prefix, split_lines(text))
    }

    /// The depth that opening a block with `placement` adds.
    pub open spec fn open_depth(placement: BlockPlacement) -> nat {
        match placement {
            BlockPlacement::Trailing => 0,
            BlockPlacement::OwnLineIndented => 2,
            _ => 1,
        }
    }
}

/// Writing text keeps the depth and the policy.
pub proof fn lemma_write_keeps(l: Layout, s: Seq<char>)
    ensures
        l.write(s).depth == l.depth,
        l.write(s).indent == l.indent,
        l.write(s).terminator == l.terminator,
        l.write(s).trim == l.trim,
    decreases s.len(),
{
    if s.len() == 0 {
    } else if l.terminator.len() > 0 && l.ends_at(s, 0) {
        lemma_write_keeps(l.new_line(), s.subrange(l.terminator.len() as int, s.len() as int));
    } else {
        lemma_write_keeps(l.push(seq![s[0]]), s.drop_first());
    }
}

/// The text-layout engine. Output accumulates in memory; `output` hands it out.
pub struct CodeWriter {
    lines: Vec<String>,
    partial: String,
    current_line: String,
    indent: usize,
    whitespace: WhitespaceHandling,
}

impl View for CodeWriter {
    type V = Layout;

    closed spec fn view(&self) -> Layout {
        Layout {
            lines: self.lines@.map_values(|s: String| s@),
            partial: self.partial@,
            line: self.current_line@,
            depth: self.indent as nat,
            indent: self.whitespace.indent@,
            terminator: self.whitespace.new_line.chars(),
            trim: self.whitespace.trim_trailing,
        }
    }
}

impl CodeWriter {
    /// A writer with nothing written, at depth zero, with the given policy.
    pub fn new(whitespace: WhitespaceHandling) -> (r: CodeWriter)
        ensures
            r@ == (Layout {
                lines: Seq::empty(),
                partial: Seq::empty(),
                line: Seq::empty(),
                depth: 0,
                indent: whitespace.indent@,
                terminator: whitespace.new_line.chars(),
                trim: whitespace.trim_trailing,
            }),
    {
        let r = CodeWriter {
            lines: Vec::new(),
            partial: String::new(),
            current_line: String::new(),
            indent: 0,
            whitespace,
        };
        proof {
            assert(r@.lines =~= Seq::empty());
        }
        r
    }

    /// The terminator is a line feed, or a carriage return then a line feed; a lone
    /// space never holds it.
    pub proof fn lemma_terminator(&self)
        ensures
            self@.terminator == seq!['\n'] || self@.terminator == seq!['\r', '\n'],
            single_line(self@.terminator, seq![' ']),
    {
        let t = self@.terminator;
        assert forall|i: int| 0 <= i < 1 implies !holds_at(t, seq![' '], i) by {
            if holds_at(t, seq![' '], i) {
                assert(seq![' '].subrange(i, i + t.len())[0] == t[0]);
            }
        }
    }

    /// One more level of depth.
    pub fn indent(&mut self)
        requires
            old(self)@.depth < usize::MAX,
        ensures
            final(self)@ == old(self)@.indented(),
    {
        self.indent = self.indent + 1;
    }

    /// One level of depth less.
    pub fn outdent(&mut self)
        requires
            old(self)@.depth > 0,
        ensures
            final(self)@ == old(self)@.outdented(),
    {
        self.indent = self.indent - 1;
    }

    /// The number of characters in the pending line buffer.
    pub fn current_line_len(&mut self) -> (r: usize)
        ensures
            r == old(self)@.line.len(),
            *final(self) == *old(self),
    {
        self.current_line.as_str().unicode_len()
    }

    /// Appends `text` to the buffer as it is.
    fn write_no_newline(&mut self, text: &str)
        ensures
            final(self)@ == old(self)@.push(text@),
    {
        self.current_line.append(text);
    }

    /// Appends one space to the buffer.
    pub fn space(&mut self)
        ensures
            final(self)@ == old(self)@.push(seq![' ']),
    {
        proof {
            reveal_strlit(" ");
            assert(" "@ =~= seq![' ']);
        }
        self.current_line.append(" ");
    }

    /// The indentation for the current depth.
    fn write_current_indentation(&self) -> (r: String)
        ensures
            r@ == repeat(self@.indent, self@.depth),
    {
        let mut r = String::new();
        let mut i: usize = 0;
        while i < self.indent
            invariant
                i <= self.indent,
                r@ == repeat(self.whitespace.indent@, i as nat),
            decreases self.indent - i,
        {
            r.append(self.whitespace.indent.as_str());
            i += 1;
        }
        r
    }

    /// The buffer as it is written: trimmed if the policy asks for it.
    fn write_current_line_no_indent(&self) -> (r: String)
        ensures
            r@ == (if self@.trim {
                trim_end(self@.line)
            } else {
                self@.line
            }),
    {
        if self.whitespace.trim_trailing {
            let n = trimmed_len(self.current_line.as_str());
            String::from_str(self.current_line.as_str().substring_char(0, n))
        } else {
            self.current_line.clone()
        }
    }

    /// Writes the pending line, indented, without ending it.
    fn write_current_line(&mut self)
        ensures
            final(self)@ == old(self)@.flushed(),
    {
        let indentation = self.write_current_indentation();
        let rest = self.write_current_line_no_indent();
        let ghost before = self@;
        self.partial.append(indentation.as_str());
        self.partial.append(rest.as_str());
        self.current_line = String::new();
        proof {
            assert(self@.partial =~= before.flushed().partial);
            assert(self@.line =~= before.flushed().line);
        }
    }

    /// Writes the pending line, indented, without ending it.
    pub fn flush(&mut self)
        ensures
            final(self)@ == old(self)@.flushed(),
    {
        self.write_current_line();
    }

    fn end_line(&mut self)
        ensures
            final(self)@ == (Layout {
                lines: old(self)@.lines.push(old(self)@.partial),
                partial: Seq::empty(),
                ..old(self)@
            }),
    {
        let done = self.partial.clone();
        self.lines.push(done);
        self.partial = String::new();
        proof {
            assert(self@.lines =~= old(self)@.lines.push(old(self)@.partial));
        }
    }

    /// Writes the pending line and ends it.
    pub fn new_line(&mut self)
        ensures
            final(self)@ == old(self)@.new_line(),
    {
        self.write_current_line();
        self.end_line();
    }

    /// Ends the line: pending text that is not only white space is written first, so
    /// nothing is lost; with nothing pending this writes one bare terminator.
    pub fn blank_line(&mut self)
        ensures
            final(self)@ == old(self)@.blank_line(),
    {
        if !str_is_blank(self.current_line.as_str()) {
            self.write_current_line();
        }
        self.end_line();
    }

    /// Appends `text`, ending the line at each terminator that it holds.
    pub fn write_str(&mut self, text: &str)
        ensures
            final(self)@ == old(self)@.write(text@),
            final(self)@.depth == old(self)@.depth,
            final(self)@.indent == old(self)@.indent,
            final(self)@.terminator == old(self)@.terminator,
            final(self)@.trim == old(self)@.trim,
    {
        proof {
            lemma_write_keeps(self@, text@);
        }
        let n = text.unicode_len();
        let crlf = self.whitespace.new_line == NewLine::CarriageReturnLineFeed;
        let tl: usize = if crlf {
            2
        } else {
            1
        };
        let ghost s = text@;
        let mut start: usize = 0;
        let mut i: usize = 0;
        proof {
            assert(s.subrange(0, 0) =~= Seq::<char>::empty());
            assert(self@.push(Seq::empty()) == self@) by {
                assert(self@.line + Seq::<char>::empty() =~= self@.line);
            }
            assert(s.subrange(0, n as int) =~= s);
        }
        while i < n
            invariant
                n == s.len(),
                s == text@,
                start <= i <= n,
                tl == self@.terminator.len(),
                crlf == (self.whitespace.new_line == NewLine::CarriageReturnLineFeed),
                self@.terminator == self.whitespace.new_line.chars(),
                old(self)@.write(s) == self@.push(s.subrange(start as int, i as int)).write(
                    s.subrange(i as int, n as int),
                ),
            decreases n - i,
        {
            let ghost rest = s.subrange(i as int, n as int);
            let ghost cur = self@.push(s.subrange(start as int, i as int));
            let c = text.get_char(i);
            let mut at_end = false;
            if crlf {
                if c == '\r' && i + 1 < n {
                    let d = text.get_char(i + 1);
                    at_end = d == '\n';
                    proof {
                        assert(rest[1] == d);
                    }
                }
            } else {
                at_end = c == '\n';
            }
            proof {
                assert(rest.len() > 0);
                assert(rest[0] == c);
                if crlf {
                    assert(cur.terminator == seq!['\r', '\n']);
                    if i + 1 < n {
                        assert(rest.subrange(0, 2) =~= seq![s[i as int], s[i + 1]]);
                        if at_end {
                            assert(rest.subrange(0, 2) =~= seq!['\r', '\n']);
                        }
                    }
                } else {
                    assert(cur.terminator == seq!['\n']);
                    assert(rest.subrange(0, 1) =~= seq![s[i as int]]);
                    if at_end {
                        assert(rest.subrange(0, 1) =~= seq!['\n']);
                    }
                }
                if cur.ends_at(rest, 0) {
                    let sub = rest.subrange(0, tl as int);
                    assert(sub[0] == rest[0]);
                    if tl == 2 {
                        assert(sub[1] == rest[1]);
                    }
                }
                assert(at_end == cur.ends_at(rest, 0));
            }
            if at_end {
                self.write_no_newline(text.substring_char(start, i));
                self.new_line();
                i = i + tl;
                start = i;
                proof {
                    assert(rest.subrange(tl as int, rest.len() as int) =~= s.subrange(
                        i as int,
                        n as int,
                    ));
                    assert(self@.push(s.subrange(start as int, i as int)) == self@) by {
                        assert(self@.line + s.subrange(start as int, i as int) =~= self@.line);
                    }
                }
            } else {
                proof {
                    assert(rest.drop_first() =~= s.subrange(i + 1, n as int));
                    assert(cur.push(seq![rest[0]]) == self@.push(
                        s.subrange(start as int, i + 1),
                    )) by {
                        assert(self@.line + s.subrange(start as int, i as int) + seq![rest[0]]
                            =~= self@.line + s.subrange(start as int, i + 1));
                    }
                }
                i = i + 1;
            }
        }
        proof {
            assert(s.subrange(n as int, n as int) =~= Seq::<char>::empty());
        }
        self.write_no_newline(text.substring_char(start, n));
    }

    /// Writes a block comment: `start` on a line of its own, each line of `text`, then
    /// `end` on a line of its own.
    pub fn write_block_comment(&mut self, start: &str, end: &str, text: &str)
        ensures
            final(self)@ == old(self)@.block_comment(start@, end@, text@),
            final(self)@.depth == old(self)@.depth,
    {
        self.write_str(start);
        self.new_line();
        let lines = lines_of(text);
        let ghost l1 = self@;
        let n = lines.len();
        let mut i: usize = 0;
        proof {
            assert(views(lines@).take(0) =~= Seq::<Seq<char>>::empty());
        }
        while i < n
            invariant
                n == lines@.len(),
                i <= n,
                self@ == l1.write_lines(views(lines@).take(i as int)),
                self@.depth == l1.depth,
            decreases n - i,
        {
            self.write_str(lines[i].as_str());
            self.new_line();
            proof {
                assert(views(lines@).take(i as int + 1).drop_last() =~= views(lines@).take(
                    i as int,
                ));
            }
            i += 1;
        }
        proof {
            assert(views(lines@).take(n as int) =~= views(lines@));
        }
        self.write_str(end);
        self.new_line();
    }

    /// Writes a line comment: each line of `text` after `prefix` and a space, on lines of
    /// its own, aligned with what was pending when the comment began.
    pub fn write_line_comment(&mut self, prefix: &str, text: &str)
        ensures
            final(self)@ == old(self)@.line_comment(prefix@, text@),
            final(self)@.depth == old(self)@.depth,
    {
        let line_length = self.current_line_len();
        let lines = lines_of(text);
        let ghost l0 = self@;
        let n = lines.len();
        let mut i: usize = 0;
        proof {
            assert(views(lines@).take(0) =~= Seq::<Seq<char>>::empty());
        }
        while i < n
            invariant
                n == lines@.len(),
                i <= n,
                line_length == l0.line.len(),
                self@ == l0.comment_lines(line_length as nat, prefix@, views(lines@).take(i as int)),
                self@.depth == l0.depth,
            decreases n - i,
        {
            let ghost before = self@;
            let mut k: usize = 0;
            while k < line_length
                invariant
                    k <= line_length,
                    self@ == before.push(repeat(seq![' '], k as nat)),
                decreases line_length - k,
            {
                self.space();
                proof {
                    assert(before.line + repeat(seq![' '], k as nat) + seq![' '] =~= before.line
                        + repeat(seq![' '], (k + 1) as nat));
                }
                k += 1;
            }
            self.write_str(prefix);
            self.space();
            self.write_str(lines[i].as_str());
            self.new_line();
            proof {
                assert(views(lines@).take(i as int + 1).drop_last() =~= views(lines@).take(
                    i as int,
                ));
            }
            i += 1;
        }
        proof {
            assert(views(lines@).take(n as int) =~= views(lines@));
        }
    }

    /// The whole text written so far.
    pub fn output(&self) -> (r: String)
        ensures
            r@ == self@.text(),
    {
        let term = self.whitespace.new_line.as_str();
        let mut r = String::new();
        let n = self.lines.len();
        let ghost ls = self@.lines;
        let mut i: usize = 0;
        proof {
            assert(ls.take(0) =~= Seq::<Seq<char>>::empty());
        }
        while i < n
            invariant
                n == self.lines@.len(),
                ls == self@.lines,
                term@ == self@.terminator,
                i <= n,
                r@ == terminated(ls.take(i as int), term@),
            decreases n - i,
        {
            r.append(self.lines[i].as_str());
            r.append(term);
            proof {
                assert(ls.take(i as int + 1).drop_last() =~= ls.take(i as int));
                assert(ls[i as int] == self.lines@[i as int]@);
            }
            i += 1;
        }
        proof {
            assert(ls.take(n as int) =~= ls);
        }
        r.append(self.partial.as_str());
        r
    }

    /// The column where the pending line ends: the width of the indentation plus the
    /// length of the buffer, in characters.
    pub open spec fn column(&self) -> int {
        (self@.depth * self@.indent.len() + self@.line.len()) as int
    }

    /// The number of lines ended so far, and the column where the pending line ends
    /// (or the largest `usize`, should the column not fit in one).
    pub fn current_position(&self) -> (r: (usize, usize))
        ensures
            r.0 == self@.lines.len(),
            r.1 == (if self.column() <= usize::MAX {
                self.column()
            } else {
                usize::MAX as int
            }),
    {
        let width = self.whitespace.indent.as_str().unicode_len();
        let len = self.current_line.as_str().unicode_len();
        let column = match self.indent.checked_mul(width) {
            Some(w) => w.saturating_add(len),
            None => {
                proof {
                    assert(self.indent as int * width as int + len as int > usize::MAX) by (
                    nonlinear_arith)
                        requires
                            self.indent as int * width as int > usize::MAX,
                            len >= 0,
                    ;
                }
                usize::MAX
            },
        };
        (self.lines.len(), column)
    }

    /// Opens a block as the opening marker's placement says.
    pub fn open_block(&mut self, style: &Block)
        requires
            old(self)@.depth + 2 <= usize::MAX,
        ensures
            final(self)@ == old(self)@.open_block(style.open@, style.open_placement),
    {
        let (block_marker, placement) = style.open_with();
        proof {
            reveal_strlit(" ");
            assert(" "@ =~= seq![' ']);
        }
        match placement {
            BlockPlacement::Trailing => {
                self.open_inline_block(style);
            },
            BlockPlacement::TrailingNewLine => {
                self.write_str(" ");
                self.write_str(block_marker.as_str());
                self.new_line();
                self.indent();
            },
            BlockPlacement::OwnLine => {
                self.new_line();
                self.write_str(block_marker.as_str());
                self.new_line();
                self.indent();
            },
            BlockPlacement::OwnLineIndented => {
                self.new_line();
                self.indent();
                self.write_str(block_marker.as_str());
                self.new_line();
                self.indent();
            },
        }
    }

    /// Opens a block on the current line: a space, the opening marker, a space.
    pub fn open_inline_block(&mut self, style: &Block)
        ensures
            final(self)@ == old(self)@.write(seq![' ']).write(style.open@).write(seq![' ']),
    {
        proof {
            reveal_strlit(" ");
            assert(" "@ =~= seq![' ']);
        }
        self.write_str(" ");
        self.write_str(style.open.as_str());
        self.write_str(" ");
    }

    /// Closes a block as the closing marker's placement says.
    pub fn close_block(&mut self, style: &Block)
        requires
            old(self)@.depth >= Layout::open_depth(style.close_placement),
        ensures
            final(self)@ == old(self)@.close_block(style.close@, style.close_placement),
    {
        let (block_marker, placement) = style.close_with();
        proof {
            reveal_strlit(" ");
            assert(" "@ =~= seq![' ']);
        }
        match placement {
            BlockPlacement::Trailing => {
                self.close_inline_block(style);
            },
            BlockPlacement::TrailingNewLine => {
                self.new_line();
                self.outdent();
                self.write_str(" ");
                self.write_str(block_marker.as_str());
            },
            BlockPlacement::OwnLine => {
                self.new_line();
                self.outdent();
                self.write_str(block_marker.as_str());
                self.new_line();
            },
            BlockPlacement::OwnLineIndented => {
                self.new_line();
                self.outdent();
                self.write_str(block_marker.as_str());
                self.new_line();
                self.outdent();
            },
        }
    }

    /// Closes a block on the current line: a space, then the closing marker.
    pub fn close_inline_block(&mut self, style: &Block)
        ensures
            final(self)@ == old(self)@.write(seq![' ']).write(style.close@),
    {
        proof {
            reveal_strlit(" ");
            assert(" "@ =~= seq![' ']);
        }
        self.write_str(" ");
        self.write_str(style.close.as_str());
    }
}


/// Whether a renderer call ended as its capability says: with the expected layout and
/// the depth it started at, or, for an unsupported kind, with an
/// `UnsupportedElementKind` error naming `kind` and nothing written.
pub open spec fn rendered(
    r: Result<(), Error>,
    before: Layout,
    after: Layout,
    expected: Option<Layout>,
    kind: Seq<char>,
) -> bool {
    match expected {
        Some(l) => r is Ok && after == l && after.depth == before.depth,
        None => after == before && (r matches Err(Error::UnsupportedElementKind(k)) && k@ == kind),
    }
}

/// The error for a kind of element that a renderer does not support.
pub fn unsupported(kind: &str) -> (r: Result<(), Error>)
    ensures
        r matches Err(Error::UnsupportedElementKind(k)) && k@ == kind@,
{
    Err(Error::UnsupportedElementKind(String::from_str(kind)))
}

/// A renderer: one capability per kind of model element. Each capability states, by a
/// spec function, the layout it produces from a given layout, or `None` where the
/// renderer does not support that kind; the call then fails with
/// `UnsupportedElementKind` and writes nothing. A supported call leaves the writer at
/// the depth it found.
pub trait ModuleWriter {
    /// The layout after rendering the module header `x`, if supported.
    spec fn module_layout(&self, before: Layout, x: Module) -> Option<Layout>;

    /// The layout after rendering the nested module declaration `x`, if supported.
    spec fn sub_module_layout(&self, before: Layout, x: Module) -> Option<Layout>;

    /// The layout after rendering the import `x`, if supported.
    spec fn import_layout(&self, before: Layout, x: Import) -> Option<Layout>;

    /// The layout after rendering the comment `x`, if supported.
    spec fn comment_layout(&self, before: Layout, x: Comment) -> Option<Layout>;

    /// The layout after rendering the structured type `x`, if supported.
    spec fn structured_type_layout(&self, before: Layout, x: StructuredType) -> Option<Layout>;

    /// The layout after rendering the enumeration `x`, if supported.
    spec fn enumeration_layout(&self, before: Layout, x: Enumeration) -> Option<Layout>;

    /// The layout after rendering the constant `x`, if supported.
    spec fn constant_layout(&self, before: Layout, x: NamedValue) -> Option<Layout>;

    /// The layout after rendering the variable `x`, if supported.
    spec fn variable_layout(&self, before: Layout, x: NamedValue) -> Option<Layout>;

    /// The layout after rendering the function declaration `x`, if supported.
    spec fn function_decl_layout(&self, before: Layout, x: FunctionDecl) -> Option<Layout>;

    /// The layout after rendering the type alias `x`, if supported.
    spec fn type_alias_layout(&self, before: Layout, x: TypeAlias) -> Option<Layout>;

    fn write_module(&self, writer: &mut CodeWriter, module: &Module) -> (r: Result<(), Error>)
        requires
            old(writer)@.depth < usize::MAX,
        ensures
            rendered(r, old(writer)@, final(writer)@, self.module_layout(old(writer)@, *module), "module"@),
    ;

    fn write_sub_module(&self, writer: &mut CodeWriter, module: &Module) -> (r: Result<(), Error>)
        requires
            old(writer)@.depth < usize::MAX,
        ensures
            rendered(r, old(writer)@, final(writer)@, self.sub_module_layout(old(writer)@, *module), "module"@),
    ;

    fn write_import(&self, writer: &mut CodeWriter, import: &Import) -> (r: Result<(), Error>)
        requires
            old(writer)@.depth < usize::MAX,
        ensures
            rendered(r, old(writer)@, final(writer)@, self.import_layout(old(writer)@, *import), "import"@),
    ;

    fn write_comment(&self, writer: &mut CodeWriter, comment: &Comment) -> (r: Result<(), Error>)
        requires
            old(writer)@.depth < usize::MAX,
        ensures
            rendered(r, old(writer)@, final(writer)@, self.comment_layout(old(writer)@, *comment), "comment"@),
    ;

    fn write_structured_type(&self, writer: &mut CodeWriter, structure: &StructuredType) -> (r: Result<(), Error>)
        requires
            old(writer)@.depth < usize::MAX,
        ensures
            rendered(r, old(writer)@, final(writer)@, self.structured_type_layout(old(writer)@, *structure), "record"@),
    ;

    fn write_enumeration(&self, writer: &mut CodeWriter, enumeration: &Enumeration) -> (r: Result<(), Error>)
        requires
            old(writer)@.depth < usize::MAX,
        ensures
            rendered(r, old(writer)@, final(writer)@, self.enumeration_layout(old(writer)@, *enumeration), "enumeration"@),
    ;

    fn write_constant(&self, writer: &mut CodeWriter, constant: &NamedValue) -> (r: Result<(), Error>)
        requires
            old(writer)@.depth < usize::MAX,
        ensures
            rendered(r, old(writer)@, final(writer)@, self.constant_layout(old(writer)@, *constant), "constant"@),
    ;

    fn write_variable(&self, writer: &mut CodeWriter, variable: &NamedValue) -> (r: Result<(), Error>)
        requires
            old(writer)@.depth < usize::MAX,
        ensures
            rendered(r, old(writer)@, final(writer)@, self.variable_layout(old(writer)@, *variable), "variable"@),
    ;

    fn write_function_decl(&self, writer: &mut CodeWriter, function_decl: &FunctionDecl) -> (r: Result<(), Error>)
        requires
            old(writer)@.depth < usize::MAX,
        ensures
            rendered(r, old(writer)@, final(writer)@, self.function_decl_layout(old(writer)@, *function_decl), "function_decl"@),
    ;

    fn write_type_alias(&self, writer: &mut CodeWriter, type_alias: &TypeAlias) -> (r: Result<(), Error>)
        requires
            old(writer)@.depth < usize::MAX,
        ensures
            rendered(r, old(writer)@, final(writer)@, self.type_alias_layout(old(writer)@, *type_alias), "type_alias"@),
    ;
}

/// The layout of rendering module `m` and everything in it into one stream: the
/// module's header and a blank line, then each declaration in order, each followed by a
/// blank line; a nested module is declared, followed by a blank line, and then rendered
/// in place the same way. At the first element that the renderer does not support, the
/// name of that element's kind.
pub open spec fn tree_layout<W: ModuleWriter>(w: &W, l: Layout, m: Module) -> Result<
    Layout,
    Seq<char>,
> {
    module_layout(w, l, m, true)
}

/// A capability's layout, or the name of its kind where it is not supported.
pub open spec fn supported(o: Option<Layout>, kind: Seq<char>) -> Result<Layout, Seq<char>> {
    match o {
        Some(l) => Ok(l),
        None => Err(kind),
    }
}

/// The layout of rendering module `m` as `tree_layout` says, where `expand` tells
/// whether nested modules are rendered in place or only declared.
pub open spec fn module_layout<W: ModuleWriter>(w: &W, l: Layout, m: Module, expand: bool) -> Result<
    Layout,
    Seq<char>,
>
    decreases m, m.content@.len() + 1,
{
    match supported(w.module_layout(l, m), "module"@) {
        Ok(h) => content_layout(w, h.blank_line(), m, m.content@.len(), expand),
        Err(k) => Err(k),
    }
}

/// The layout of rendering the first `n` declarations of `m`.
pub open spec fn content_layout<W: ModuleWriter>(
    w: &W,
    l: Layout,
    m: Module,
    n: nat,
    expand: bool,
) -> Result<Layout, Seq<char>>
    decreases m, n,
{
    if n == 0 || n > m.content@.len() {
        Ok(l)
    } else {
        match content_layout(w, l, m, (n - 1) as nat, expand) {
            Ok(p) => item_layout(w, p, m.content@[n - 1], expand),
            Err(k) => Err(k),
        }
    }
}

/// A capability's layout followed by a blank line, or the name of its kind.
pub open spec fn then_blank(o: Option<Layout>, kind: Seq<char>) -> Result<Layout, Seq<char>> {
    match o {
        Some(l) => Ok(l.blank_line()),
        None => Err(kind),
    }
}

/// The layout of rendering one declaration, followed by a blank line; a nested module
/// is declared, and rendered in place if `expand` says so.
pub open spec fn item_layout<W: ModuleWriter>(w: &W, l: Layout, c: ModuleContent, expand: bool) -> Result<
    Layout,
    Seq<char>,
>
    decreases c, 0nat,
{
    match c {
        ModuleContent::Import(x) => then_blank(w.import_layout(l, x), "import"@),
        ModuleContent::Comment(x) => then_blank(w.comment_layout(l, x), "comment"@),
        ModuleContent::Structure(x) => then_blank(w.structured_type_layout(l, x), "record"@),
        ModuleContent::Enumeration(x) => then_blank(w.enumeration_layout(l, x), "enumeration"@),
        ModuleContent::Constant(x) => then_blank(w.constant_layout(l, x), "constant"@),
        ModuleContent::Variable(x) => then_blank(w.variable_layout(l, x), "variable"@),
        ModuleContent::Function(x) => then_blank(w.function_decl_layout(l, x), "function_decl"@),
        ModuleContent::Alias(x) => then_blank(w.type_alias_layout(l, x), "type_alias"@),
        ModuleContent::Module(x) => match w.sub_module_layout(l, x) {
            Some(p) => if expand {
                module_layout(w, p.blank_line(), x, true)
            } else {
                Ok(p.blank_line())
            },
            None => Err("module"@),
        },
    }
}

/// Whether a traversal call ended as `expected` says: with that layout at the depth it
/// started at, or with an `UnsupportedElementKind` error naming that kind.
pub open spec fn traversed(
    r: Result<(), Error>,
    before: Layout,
    after: Layout,
    expected: Result<Layout, Seq<char>>,
) -> bool {
    match expected {
        Ok(l) => r is Ok && after == l && l.depth == before.depth,
        Err(kind) => r matches Err(Error::UnsupportedElementKind(k)) && k@ == kind,
    }
}

/// Renders module `module` and everything in it into `writer`, stopping at the first
/// element that the renderer does not support.
pub fn write_module_tree<W: ModuleWriter>(renderer: &W, writer: &mut CodeWriter, module: &Module) -> (r:
    Result<(), Error>)
    requires
        old(writer)@.depth < usize::MAX,
    ensures
        traversed(r, old(writer)@, final(writer)@, tree_layout(renderer, old(writer)@, *module)),
{
    write_module_content(renderer, writer, module, true)
}

/// Renders module `module` into `writer`: nested modules in place if `expand` says so,
/// else only their declarations.
fn write_module_content<W: ModuleWriter>(
    renderer: &W,
    writer: &mut CodeWriter,
    module: &Module,
    expand: bool,
) -> (r: Result<(), Error>)
    requires
        old(writer)@.depth < usize::MAX,
    ensures
        traversed(r, old(writer)@, final(writer)@, module_layout(renderer, old(writer)@, *module, expand)),
    decreases module,
{
    match renderer.write_module(writer, module) {
        Ok(()) => {},
        Err(e) => {
            return Err(e);
        },
    }
    let ghost header = writer@;
    writer.blank_line();
    let ghost l0 = writer@;
    assert(l0 == header.blank_line());
    let n = module.content.len();
    let mut i: usize = 0;
    while i < n
        invariant
            n == module.content@.len(),
            i <= n,
            content_layout(renderer, l0, *module, i as nat, expand) == Ok::<Layout, Seq<char>>(writer@),
            writer@.depth == l0.depth,
            l0.depth < usize::MAX,
            l0.depth == old(writer)@.depth,
            module_layout(renderer, old(writer)@, *module, expand) == content_layout(
                renderer,
                l0,
                *module,
                n as nat,
                expand,
            ),
        decreases n - i,
    {
        let ghost before = writer@;
        match write_item(renderer, writer, &module.content[i], expand) {
            Ok(()) => {},
            Err(e) => {
                proof {
                    let k = item_layout(renderer, before, module.content@[i as int], expand)->Err_0;
                    assert(content_layout(renderer, l0, *module, i as nat + 1, expand) == Err::<Layout, Seq<char>>(k));
                    lemma_content_fails(renderer, l0, *module, i as nat + 1, n as nat, expand, k);
                }
                return Err(e);
            },
        }
        i += 1;
    }
    Ok(())
}

/// Once a prefix of the declarations fails to render, every longer prefix fails the
/// same way.
proof fn lemma_content_fails<W: ModuleWriter>(
    w: &W,
    l: Layout,
    m: Module,
    k: nat,
    n: nat,
    expand: bool,
    kind: Seq<char>,
)
    requires
        k <= n <= m.content@.len(),
        content_layout(w, l, m, k, expand) == Err::<Layout, Seq<char>>(kind),
    ensures
        content_layout(w, l, m, n, expand) == Err::<Layout, Seq<char>>(kind),
    decreases n - k,
{
    if k < n {
        lemma_content_fails(w, l, m, k + 1, n, expand, kind);
    }
}

/// Renders one declaration, followed by a blank line.
fn write_item<W: ModuleWriter>(
    renderer: &W,
    writer: &mut CodeWriter,
    item: &ModuleContent,
    expand: bool,
) -> (r: Result<(), Error>)
    requires
        old(writer)@.depth < usize::MAX,
    ensures
        traversed(r, old(writer)@, final(writer)@, item_layout(renderer, old(writer)@, *item, expand)),
    decreases item,
{
    let r = match item {
        ModuleContent::Import(x) => renderer.write_import(writer, x),
        ModuleContent::Comment(x) => renderer.write_comment(writer, x),
        ModuleContent::Structure(x) => renderer.write_structured_type(writer, x),
        ModuleContent::Enumeration(x) => renderer.write_enumeration(writer, x),
        ModuleContent::Constant(x) => renderer.write_constant(writer, x),
        ModuleContent::Variable(x) => renderer.write_variable(writer, x),
        ModuleContent::Function(x) => renderer.write_function_decl(writer, x),
        ModuleContent::Alias(x) => renderer.write_type_alias(writer, x),
        ModuleContent::Module(x) => {
            match renderer.write_sub_module(writer, x) {
                Ok(()) => {},
                Err(e) => {
                    return Err(e);
                },
            }
            writer.blank_line();
            if expand {
                return write_module_content(renderer, writer, x, true);
            } else {
                return Ok(());
            }
        },
    };
    match r {
        Ok(()) => {
            writer.blank_line();
            Ok(())
        },
        Err(e) => Err(e),
    }
}

/// Renders module `module` and everything in it into one text, with the given
/// whitespace policy.
pub fn render<W: ModuleWriter>(module: &Module, renderer: &W, whitespace: WhitespaceHandling) -> (r:
    Result<String, Error>)
    ensures
        match tree_layout(renderer, start_layout(whitespace), *module) {
            Ok(l) => r matches Ok(t) && t@ == l.flushed().text(),
            Err(kind) => r matches Err(Error::UnsupportedElementKind(k)) && k@ == kind,
        },
{
    let mut writer = CodeWriter::new(whitespace);
    match write_module_tree(renderer, &mut writer, module) {
        Ok(()) => {},
        Err(e) => {
            return Err(e);
        },
    }
    writer.flush();
    Ok(writer.output())
}

/// The layout of a new writer with the given policy.
pub open spec fn start_layout(whitespace: WhitespaceHandling) -> Layout {
    Layout {
        lines: Seq::empty(),
        partial: Seq::empty(),
        line: Seq::empty(),
        depth: 0,
        indent: whitespace.indent@,
        terminator: whitespace.new_line.chars(),
        trim: whitespace.trim_trailing,
    }
}

/// The rendered text of one module of a tree, with the namespace that leads to it (the
/// top module's name, then one segment per level of nesting) and the index of the file
/// of the module it is nested in (none for the top module).
#[derive(Debug)]
pub struct ModuleFile {
    pub namespace: Namespace,
    pub parent: Option<usize>,
    pub text: String,
}

/// What a file holds: its namespace, its text and the index of its parent's file.
pub type FileView = (Seq<Identifier>, Seq<char>, Option<nat>);

/// The namespace, text and parent index of each file.
pub open spec fn file_views(files: Seq<ModuleFile>) -> Seq<FileView> {
    files.map_values(
        |f: ModuleFile|
            (
                f.namespace@,
                f.text@,
                match f.parent {
                    Some(i) => Some(i as nat),
                    None => None,
                },
            ),
    )
}

/// The files of module `m` at namespace `ns` and of every module nested in it, in
/// content order, each module before those nested in it; the first of them stands at
/// index `base` and its parent's file at index `parent`. A module's file holds its own
/// declarations, nested modules only declared. At the first element that the renderer
/// does not support, the name of that element's kind.
pub open spec fn module_files<W: ModuleWriter>(
    w: &W,
    ws: WhitespaceHandling,
    ns: Seq<Identifier>,
    m: Module,
    parent: Option<nat>,
    base: nat,
) -> Result<Seq<FileView>, Seq<char>>
    decreases m, m.content@.len() + 1,
{
    match module_layout(w, start_layout(ws), m, false) {
        Ok(l) => match sub_files(w, ws, ns, m, m.content@.len(), base) {
            Ok(rest) => Ok(seq![(ns, l.flushed().text(), parent)] + rest),
            Err(k) => Err(k),
        },
        Err(k) => Err(k),
    }
}

/// The files of the modules nested in the first `n` declarations of `m`, whose own
/// file stands at index `base`.
pub open spec fn sub_files<W: ModuleWriter>(
    w: &W,
    ws: WhitespaceHandling,
    ns: Seq<Identifier>,
    m: Module,
    n: nat,
    base: nat,
) -> Result<Seq<FileView>, Seq<char>>
    decreases m, n,
{
    if n == 0 || n > m.content@.len() {
        Ok(Seq::empty())
    } else {
        match sub_files(w, ws, ns, m, (n - 1) as nat, base) {
            Ok(p) => match m.content@[n - 1] {
                ModuleContent::Module(sub) => match module_files(
                    w,
                    ws,
                    ns.push(sub.name),
                    sub,
                    Some(base),
                    base + 1 + p.len(),
                ) {
                    Ok(q) => Ok(p + q),
                    Err(k) => Err(k),
                },
                _ => Ok(p),
            },
            Err(k) => Err(k),
        }
    }
}

/// Renders each module of the tree under `top` into a text of its own, stopping at the
/// first element that the renderer does not support. The files come in content order,
/// each module before those nested in it; where each one goes is for the caller to
/// decide from its namespace and its parent's location.
pub fn write_modules<W: ModuleWriter>(top: &Module, renderer: &W, whitespace: &WhitespaceHandling) -> (r:
    Result<Vec<ModuleFile>, Error>)
    ensures
        match module_files(renderer, *whitespace, seq![top.name], *top, None, 0) {
            Ok(fs) => r matches Ok(files) && file_views(files@) == fs,
            Err(kind) => r matches Err(Error::UnsupportedElementKind(k)) && k@ == kind,
        },
{
    let mut files: Vec<ModuleFile> = Vec::new();
    let ns = Namespace::from_identifier(top.name.clone());
    match write_module_files(renderer, whitespace, ns, None, top, &mut files) {
        Ok(()) => {
            proof {
                assert(file_views(Seq::<ModuleFile>::empty()) =~= Seq::<FileView>::empty());
                assert(file_views(files@) =~= Seq::<FileView>::empty() + module_files(
                    renderer,
                    *whitespace,
                    seq![top.name],
                    *top,
                    None,
                    0,
                )->Ok_0);
            }
            Ok(files)
        },
        Err(e) => Err(e),
    }
}

fn write_module_files<W: ModuleWriter>(
    renderer: &W,
    whitespace: &WhitespaceHandling,
    ns: Namespace,
    parent: Option<usize>,
    module: &Module,
    files: &mut Vec<ModuleFile>,
) -> (r: Result<(), Error>)
    ensures
        match module_files(
            renderer,
            *whitespace,
            ns@,
            *module,
            match parent {
                Some(i) => Some(i as nat),
                None => None,
            },
            old(files)@.len(),
        ) {
            Ok(fs) => r is Ok && file_views(final(files)@) == file_views(old(files)@) + fs,
            Err(kind) => r matches Err(Error::UnsupportedElementKind(k)) && k@ == kind,
        },
    decreases module,
{
    let mut writer = CodeWriter::new(whitespace.clone());
    match write_module_content(renderer, &mut writer, module, false) {
        Ok(()) => {},
        Err(e) => {
            return Err(e);
        },
    }
    writer.flush();
    let text = writer.output();
    let ghost parent_view: Option<nat> = match parent {
        Some(i) => Some(i as nat),
        None => None,
    };
    let ghost own = (ns@, text@, parent_view);
    let ghost start = file_views(files@);
    let base = files.len();
    let sub_ns = ns.clone();
    files.push(ModuleFile { namespace: ns, parent, text });
    proof {
        assert(file_views(files@) =~= start.push(own));
    }
    let n = module.content.len();
    let mut i: usize = 0;
    proof {
        assert(start.push(own) =~= start + seq![own] + Seq::empty());
    }
    while i < n
        invariant
            n == module.content@.len(),
            i <= n,
            sub_ns@ == ns@,
            start == file_views(old(files)@),
            base == old(files)@.len(),
            start.len() == base,
            own == (ns@, text@, parent_view),
            parent_view == (match parent {
                Some(i) => Some(i as nat),
                None => None,
            }),
            module_layout(renderer, start_layout(*whitespace), *module, false) matches Ok(l)
                && own.1 == l.flushed().text(),
            sub_files(renderer, *whitespace, ns@, *module, i as nat, base as nat) matches Ok(acc)
                && file_views(files@) == start + seq![own] + acc,
        decreases n - i,
    {
        match &module.content[i] {
            ModuleContent::Module(sub) => {
                let ghost acc = sub_files(renderer, *whitespace, ns@, *module, i as nat, base as nat)->Ok_0;
                let ghost mid = file_views(files@);
                assert(files@.len() == mid.len());
                assert(mid.len() == base + 1 + acc.len());
                let child = sub_ns.with(sub.name.clone());
                match write_module_files(renderer, whitespace, child, Some(base), sub, files) {
                    Ok(()) => {
                        proof {
                            let q = module_files(
                                renderer,
                                *whitespace,
                                ns@.push(sub.name),
                                *sub,
                                Some(base as nat),
                                (base + 1 + acc.len()) as nat,
                            )->Ok_0;
                            assert(file_views(files@) == mid + q);
                            assert(start + seq![own] + acc + q =~= start + seq![own] + (acc + q));
                        }
                    },
                    Err(e) => {
                        proof {
                            let k = module_files(
                                renderer,
                                *whitespace,
                                ns@.push(sub.name),
                                *sub,
                                Some(base as nat),
                                (base + 1 + acc.len()) as nat,
                            )->Err_0;
                            assert(sub_files(renderer, *whitespace, ns@, *module, i as nat + 1, base as nat)
                                == Err::<Seq<FileView>, Seq<char>>(k));
                            lemma_sub_files_fail(
                                renderer,
                                *whitespace,
                                ns@,
                                *module,
                                i as nat + 1,
                                n as nat,
                                base as nat,
                                k,
                            );
                        }
                        return Err(e);
                    },
                }
            },
            _ => {},
        }
        i += 1;
    }
    Ok(())
}

/// Once the files of a prefix of the declarations fail, every longer prefix fails the
/// same way.
proof fn lemma_sub_files_fail<W: ModuleWriter>(
    w: &W,
    ws: WhitespaceHandling,
    ns: Seq<Identifier>,
    m: Module,
    k: nat,
    n: nat,
    base: nat,
    kind: Seq<char>,
)
    requires
        k <= n <= m.content@.len(),
        sub_files(w, ws, ns, m, k, base) == Err::<Seq<FileView>, Seq<char>>(kind),
    ensures
        sub_files(w, ws, ns, m, n, base) == Err::<Seq<FileView>, Seq<char>>(kind),
    decreases n - k,
{
    if k < n {
        lemma_sub_files_fail(w, ws, ns, m, k + 1, n, base, kind);
    }
}

/// Whether the terminator `t` occurs nowhere in `s`, so that writing `s` ends no line.
pub open spec fn single_line(t: Seq<char>, s: Seq<char>) -> bool {
    forall|i: int| 0 <= i < s.len() ==> !holds_at(t, s, i)
}

/// Writing text that holds no terminator ends no line and keeps the written text.
pub proof fn lemma_write_single_line(l: Layout, s: Seq<char>)
    requires
        single_line(l.terminator, s),
    ensures
        l.write(s).lines == l.lines,
        l.write(s).partial == l.partial,
    decreases s.len(),
{
    if s.len() > 0 {
        assert(!l.ends_at(s, 0));
        let t = s.drop_first();
        assert forall|i: int| 0 <= i < t.len() implies !holds_at(l.terminator, t, i) by {
            if holds_at(l.terminator, t, i) {
                assert(s.subrange(i + 1, i + 1 + l.terminator.len()) =~= t.subrange(
                    i,
                    i + l.terminator.len(),
                ));
                assert(holds_at(l.terminator, s, i + 1));
            }
        }
        lemma_write_single_line(l.push(seq![s[0]]), t);
    }
}

/// The number of lines that opening and then closing a block ends.
pub open spec fn block_lines(placement: BlockPlacement) -> nat {
    match placement {
        BlockPlacement::Trailing => 0,
        BlockPlacement::TrailingNewLine => 2,
        BlockPlacement::OwnLine => 4,
        BlockPlacement::OwnLineIndented => 4,
    }
}

/// Opening and then closing a block with the same placement returns to the depth it
/// started at; with markers that hold no terminator it ends exactly `block_lines` lines.
pub proof fn lemma_block_round_trip(
    l: Layout,
    open: Seq<char>,
    close: Seq<char>,
    placement: BlockPlacement,
)
    ensures
        l.open_block(open, placement).close_block(close, placement).depth == l.depth,
        single_line(l.terminator, open) && single_line(l.terminator, close) && single_line(
            l.terminator,
            seq![' '],
        ) ==> l.open_block(open, placement).close_block(close, placement).lines.len()
            == l.lines.len() + block_lines(placement),
{
    let o = l.open_block(open, placement);
    let c = o.close_block(close, placement);
    let sp = seq![' '];
    match placement {
        BlockPlacement::Trailing => {
            let a = l.write(sp);
            let b = a.write(open);
            let d = b.write(sp);
            lemma_write_keeps(l, sp);
            lemma_write_keeps(a, open);
            lemma_write_keeps(b, sp);
            let e = d.write(sp);
            lemma_write_keeps(d, sp);
            lemma_write_keeps(e, close);
            if single_line(l.terminator, open) && single_line(l.terminator, close) && single_line(
                l.terminator,
                sp,
            ) {
                lemma_write_single_line(l, sp);
                lemma_write_single_line(a, open);
                lemma_write_single_line(b, sp);
                lemma_write_single_line(d, sp);
                lemma_write_single_line(e, close);
            }
        },
        BlockPlacement::TrailingNewLine => {
            let a = l.write(sp);
            let b = a.write(open);
            lemma_write_keeps(l, sp);
            lemma_write_keeps(a, open);
            let d = o.new_line().outdented();
            let e = d.write(sp);
            lemma_write_keeps(d, sp);
            lemma_write_keeps(e, close);
            if single_line(l.terminator, open) && single_line(l.terminator, close) && single_line(
                l.terminator,
                sp,
            ) {
                lemma_write_single_line(l, sp);
                lemma_write_single_line(a, open);
                lemma_write_single_line(d, sp);
                lemma_write_single_line(e, close);
            }
        },
        BlockPlacement::OwnLine => {
            let a = l.new_line();
            lemma_write_keeps(a, open);
            let d = o.new_line().outdented();
            lemma_write_keeps(d, close);
            if single_line(l.terminator, open) && single_line(l.terminator, close) {
                lemma_write_single_line(a, open);
                lemma_write_single_line(d, close);
            }
        },
        BlockPlacement::OwnLineIndented => {
            let a = l.new_line().indented();
            lemma_write_keeps(a, open);
            let d = o.new_line().outdented();
            lemma_write_keeps(d, close);
            if single_line(l.terminator, open) && single_line(l.terminator, close) {
                lemma_write_single_line(a, open);
                lemma_write_single_line(d, close);
            }
        },
    }
}

/// Two blank lines in a row, with nothing written between them: the second writes
/// exactly one terminator and nothing else.
pub proof fn lemma_blank_line_twice(l: Layout)
    ensures
        l.blank_line().blank_line().text() == l.blank_line().text() + l.terminator,
        l.blank_line().blank_line().lines.len() == l.blank_line().lines.len() + 1,
{
    let a = l.blank_line();
    assert(is_blank(a.line)) by {
        if !is_blank(l.line) {
            assert(a.line =~= Seq::<char>::empty());
        }
    }
    let b = a.blank_line();
    assert(b.lines == a.lines.push(Seq::empty()));
    assert(b.lines.drop_last() =~= a.lines);
    assert(terminated(b.lines, l.terminator) == terminated(a.lines, l.terminator) + Seq::<
        char,
    >::empty() + l.terminator);
    assert(b.text() =~= a.text() + l.terminator);
}

/// The namespaces of module `m` at `ns` and of every module nested in it, in content
/// order, each module before those nested in it.
pub open spec fn module_paths(ns: Seq<Identifier>, m: Module) -> Seq<Seq<Identifier>>
    decreases m, m.content@.len() + 1,
{
    seq![ns] + sub_paths(ns, m, m.content@.len())
}

/// The namespaces of the modules nested in the first `n` declarations of `m`.
pub open spec fn sub_paths(ns: Seq<Identifier>, m: Module, n: nat) -> Seq<Seq<Identifier>>
    decreases m, n,
{
    if n == 0 || n > m.content@.len() {
        Seq::empty()
    } else {
        sub_paths(ns, m, (n - 1) as nat) + match m.content@[n - 1] {
            ModuleContent::Module(sub) => module_paths(ns.push(sub.name), sub),
            _ => Seq::empty(),
        }
    }
}

/// The namespaces of a list of files.
pub open spec fn file_namespaces(fs: Seq<FileView>) -> Seq<Seq<Identifier>> {
    fs.map_values(|f: FileView| f.0)
}

/// The multi-file rendering of a tree yields exactly one file per module, in content
/// order, each module before those nested in it.
pub proof fn lemma_each_module_once<W: ModuleWriter>(
    w: &W,
    ws: WhitespaceHandling,
    ns: Seq<Identifier>,
    m: Module,
    parent: Option<nat>,
    base: nat,
)
    requires
        module_files(w, ws, ns, m, parent, base) is Ok,
    ensures
        file_namespaces(module_files(w, ws, ns, m, parent, base)->Ok_0) == module_paths(ns, m),
    decreases m, m.content@.len() + 1,
{
    let len = m.content@.len();
    lemma_sub_files_paths(w, ws, ns, m, len, base);
    let l = module_layout(w, start_layout(ws), m, false)->Ok_0;
    let rest = sub_files(w, ws, ns, m, len, base)->Ok_0;
    assert(file_namespaces(seq![(ns, l.flushed().text(), parent)] + rest) =~= seq![ns]
        + file_namespaces(rest));
}

proof fn lemma_sub_files_paths<W: ModuleWriter>(
    w: &W,
    ws: WhitespaceHandling,
    ns: Seq<Identifier>,
    m: Module,
    n: nat,
    base: nat,
)
    requires
        sub_files(w, ws, ns, m, n, base) is Ok,
    ensures
        file_namespaces(sub_files(w, ws, ns, m, n, base)->Ok_0) == sub_paths(ns, m, n),
    decreases m, n,
{
    if n == 0 || n > m.content@.len() {
        assert(file_namespaces(Seq::empty()) =~= Seq::<Seq<Identifier>>::empty());
    } else {
        lemma_sub_files_paths(w, ws, ns, m, (n - 1) as nat, base);
        let p = sub_files(w, ws, ns, m, (n - 1) as nat, base)->Ok_0;
        match m.content@[n - 1] {
            ModuleContent::Module(sub) => {
                lemma_each_module_once(w, ws, ns.push(sub.name), sub, Some(base), base + 1 + p.len());
                let q = module_files(w, ws, ns.push(sub.name), sub, Some(base), base + 1 + p.len())->Ok_0;
                assert(file_namespaces(p + q) =~= file_namespaces(p) + file_namespaces(q));
            },
            _ => {
                assert(sub_paths(ns, m, n) =~= sub_paths(ns, m, (n - 1) as nat));
            },
        }
    }
}

} // verus!
