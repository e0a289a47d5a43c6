//! The indentation-aware writer: lines and brace-delimited blocks at a
//! tracked nesting depth.

use vstd::prelude::*;

verus! {

/// One line of output: the text after the indentation and the depth it is
/// indented to.
pub struct Line {
    pub depth: nat,
    pub text: Seq<char>,
}

/// `n` spaces.
pub open spec fn spaces(n: nat) -> Seq<char> {
    Seq::new(n, |i: int| ' ')
}

/// A line as it is written with `width` spaces per level: the indentation,
/// the text, and a line feed.
pub open spec fn line_text(width: nat, line: Line) -> Seq<char> {
    spaces(width * line.depth) + line.text + seq!['\n']
}

/// The text of a sequence of lines written one after the other.
pub open spec fn layout(width: nat, lines: Seq<Line>) -> Seq<char> {
    lines.map_values(|l: Line| line_text(width, l)).flatten()
}

/// What closes a block.
pub open spec fn closing(semicolon: bool) -> Seq<char> {
    if semicolon {
        "};"@
    } else {
        "}"@
    }
}

/// The lines of a block at `depth`: the header with its opening brace, the
/// body, and the closing brace.
pub open spec fn block(depth: nat, header: Seq<char>, semicolon: bool, body: Seq<Line>) -> Seq<
    Line,
> {
    seq![Line { depth, text: header + " {"@ }] + body + seq![
        Line { depth, text: closing(semicolon) },
    ]
}

/// Laying out lines one after the other is laying out the first, then the rest.
pub proof fn lemma_layout_push(width: nat, lines: Seq<Line>, line: Line)
    ensures
        layout(width, lines.push(line)) == layout(width, lines) + line_text(width, line),
{
    let f = |l: Line| line_text(width, l);
    assert(lines.push(line).map_values(f) =~= lines.map_values(f).push(f(line)));
    lines.map_values(f).lemma_flatten_push(f(line));
}

/// The layout of two runs of lines is the layout of the first followed by
/// that of the second.
pub proof fn lemma_layout_concat(width: nat, a: Seq<Line>, b: Seq<Line>)
    ensures
        layout(width, a + b) == layout(width, a) + layout(width, b),
    decreases b.len(),
{
    if b.len() > 0 {
        let init = b.drop_last();
        lemma_layout_concat(width, a, init);
        lemma_layout_push(width, a + init, b.last());
        lemma_layout_push(width, init, b.last());
        assert(init.push(b.last()) =~= b);
    }
}

/// A text sink that indents what it is given by its current depth.
pub struct Formatter {
    out: String,
    indent_size: usize,
    indent_level: usize,
    lines: Ghost<Seq<Line>>,
}

impl Formatter {
    /// The buffer holds the layout of the lines written so far.
    pub closed spec fn wf(&self) -> bool {
        self.out@ == layout(self.indent_size as nat, self.lines@)
    }

    /// The lines written so far.
    pub closed spec fn lines(&self) -> Seq<Line> {
        self.lines@
    }

    /// The number of spaces per level.
    pub closed spec fn width(&self) -> nat {
        self.indent_size as nat
    }

    /// The current nesting depth.
    pub closed spec fn depth(&self) -> nat {
        self.indent_level as nat
    }

    /// The text written so far.
    pub open spec fn text(&self) -> Seq<char> {
        layout(self.width(), self.lines())
    }

    /// An empty sink at depth 0 that indents by `indent_size` spaces per level.
    pub fn new(indent_size: usize) -> (fmt: Self)
        ensures
            fmt.wf(),
            fmt.lines() == Seq::<Line>::empty(),
            fmt.width() == indent_size,
            fmt.depth() == 0,
    {
        let fmt = Formatter {
            out: String::new(),
            indent_size,
            indent_level: 0,
            lines: Ghost(Seq::empty()),
        };
        fmt
    }

    pub fn indent_size(&self) -> (n: usize)
        ensures
            n == self.width(),
    {
        self.indent_size
    }

    pub fn indent_level(&self) -> (n: usize)
        ensures
            n == self.depth(),
    {
        self.indent_level
    }

    /// Appends `text` as one line at the current depth.
    pub fn write_line(&mut self, text: &str)
        requires
            old(self).wf(),
        ensures
            final(self).wf(),
            final(self).lines() == old(self).lines().push(
                Line { depth: old(self).depth(), text: text@ },
            ),
            final(self).width() == old(self).width(),
            final(self).depth() == old(self).depth(),
    {
        let ghost width = self.indent_size as nat;
        let ghost depth = self.indent_level as nat;
        let ghost before = self.out@;
        let mut level: usize = 0;
        while level < self.indent_level
            invariant
                level <= self.indent_level,
                self.indent_size == width,
                self.indent_level == depth,
                self.lines@ == old(self).lines@,
                self.out@ == before + spaces(width * level as nat),
            decreases self.indent_level - level,
        {
            let mut k: usize = 0;
            while k < self.indent_size
                invariant
                    k <= self.indent_size,
                    level < self.indent_level,
                    self.indent_size == width,
                    self.indent_level == depth,
                    self.lines@ == old(self).lines@,
                    self.out@ == before + spaces(width * level as nat + k as nat),
                decreases self.indent_size - k,
            {
                self.out.push(' ');
                k += 1;
            }
            level += 1;
            assert(width * level as nat == width * (level - 1) as nat + width) by (nonlinear_arith)
                requires
                    level >= 1,
            ;
        }
        self.out.append(text);
        self.out.push('\n');
        let ghost line = Line { depth, text: text@ };
        proof {
            lemma_layout_push(width, self.lines@, line);
            assert(self.out@ =~= before + line_text(width, line));
            self.lines@ = self.lines@.push(line);
        }
    }

    /// Opens a block: writes `header` and an opening brace as one line, and
    /// goes one level deeper.
    pub fn begin_block(&mut self, header: &str)
        requires
            old(self).wf(),
            old(self).depth() < usize::MAX,
        ensures
            final(self).wf(),
            final(self).lines() == old(self).lines().push(
                Line { depth: old(self).depth(), text: header@ + " {"@ },
            ),
            final(self).width() == old(self).width(),
            final(self).depth() == old(self).depth() + 1,
    {
        let mut line = header.to_owned();
        line.append(" {");
        self.write_line(line.as_str());
        self.indent_level += 1;
    }

    /// Closes the innermost block: goes one level up and writes the closing
    /// brace, followed by a semicolon where `semicolon` is set.
    pub fn end_block(&mut self, semicolon: bool)
        requires
            old(self).wf(),
            old(self).depth() > 0,
        ensures
            final(self).wf(),
            final(self).lines() == old(self).lines().push(
                Line { depth: (old(self).depth() - 1) as nat, text: closing(semicolon) },
            ),
            final(self).width() == old(self).width(),
            final(self).depth() == old(self).depth() - 1,
    {
        self.indent_level -= 1;
        if semicolon {
            self.write_line("};");
        } else {
            self.write_line("}");
        }
    }

    /// The text written so far.
    pub fn as_str(&self) -> (s: &str)
        requires
            self.wf(),
        ensures
            s@ == self.text(),
    {
        self.out.as_str()
    }

    /// Gives up the sink for the text written to it.
    pub fn finish(self) -> (s: String)
        requires
            self.wf(),
        ensures
            s@ == self.text(),
    {
        self.out
    }
}

} // verus!
