//! Renders the tool's output: titles, sub-titles, indented content lines
//! and parameter listings, gathered into one text buffer. The caller
//! prints the buffer; nothing here touches the terminal.

use vstd::prelude::*;

verus! {

use vstd::string::StringExecFns;
use crate::command::ParamMap;

/// A title line: a leading blank line, then the title between `##` marks.
pub open spec fn title_text(t: Seq<char>) -> Seq<char> {
    "\n  ## "@ + t + " ##\n\n"@
}

/// A sub-title line under light indentation.
pub open spec fn sub_title_text(t: Seq<char>) -> Seq<char> {
    "    "@ + t + "\n"@
}

/// A content line under deeper indentation.
pub open spec fn content_text(t: Seq<char>) -> Seq<char> {
    "      "@ + t + "\n"@
}

/// `n` spaces.
pub open spec fn space_seq(n: int) -> Seq<char> {
    Seq::new(if n >= 0 {
        n as nat
    } else {
        0
    }, |i: int| ' ')
}

/// How many spaces follow a parameter name of length `l`, so that short
/// names line their values up in one column.
pub open spec fn pad_of(l: int) -> int {
    if l < 16 {
        16 - l
    } else {
        1
    }
}

/// One line of a parameter listing: the name, a colon, padding, the value.
pub open spec fn param_line(k: Seq<char>, v: Seq<char>) -> Seq<char> {
    content_text(k + ":"@ + space_seq(pad_of(k.len() as int)) + v)
}

/// The lines of the first `n` bound parameters, in order.
pub open spec fn param_lines(entries: Seq<(Seq<char>, Seq<char>)>, n: int) -> Seq<char>
    decreases n,
{
    if n <= 0 {
        Seq::empty()
    } else {
        param_lines(entries, n - 1) + param_line(entries[n - 1].0, entries[n - 1].1)
    }
}

/// The whole parameter block: nothing when no parameter is bound, else a
/// `params:` sub-title, the lines, and a closing blank line.
pub open spec fn params_block(entries: Seq<(Seq<char>, Seq<char>)>) -> Seq<char> {
    if entries.len() == 0 {
        Seq::empty()
    } else {
        sub_title_text("params:"@) + param_lines(entries, entries.len() as int) + "\n"@
    }
}

/// The output buffer the pieces are rendered into.
pub struct GUI {
    out: String,
}

impl GUI {
    /// What has been rendered so far.
    pub closed spec fn text(&self) -> Seq<char> {
        self.out@
    }

    /// An empty buffer.
    pub fn new() -> (r: GUI)
        ensures
            r.text() == Seq::<char>::empty(),
    {
        GUI { out: String::new() }
    }

    /// Hands the rendered text over.
    pub fn take(self) -> (r: String)
        ensures
            r@ == self.text(),
    {
        self.out
    }

    /// Renders a title line.
    pub fn title(&mut self, t: &str)
        ensures
            final(self).text() == old(self).text() + title_text(t@),
    {
        self.out.append("\n  ## ");
        self.out.append(t);
        self.out.append(" ##\n\n");
    }

    /// Renders a sub-title line.
    pub fn sub_title(&mut self, t: &str)
        ensures
            final(self).text() == old(self).text() + sub_title_text(t@),
    {
        self.out.append("    ");
        self.out.append(t);
        self.out.append("\n");
    }

    /// Renders a content line.
    pub fn content(&mut self, t: &str)
        ensures
            final(self).text() == old(self).text() + content_text(t@),
    {
        self.out.append("      ");
        self.out.append(t);
        self.out.append("\n");
    }

    /// Renders a blank line.
    pub fn nl(&mut self)
        ensures
            final(self).text() == old(self).text() + "\n"@,
    {
        self.out.append("\n");
    }

    /// `n` spaces as a string.
    fn spaces(n: usize) -> (r: String)
        ensures
            r@ == space_seq(n as int),
    {
        let mut s = String::new();
        let mut i: usize = 0;
        proof {
            reveal_strlit(" ");
            assert(space_seq(0) =~= Seq::<char>::empty());
        }
        while i < n
            invariant
                i <= n,
                s@ == space_seq(i as int),
            decreases n - i,
        {
            s.append(" ");
            i += 1;
            proof {
                reveal_strlit(" ");
                assert(s@ =~= space_seq(i as int));
            }
        }
        s
    }

    /// Renders the bound parameters of one invocation: nothing when none
    /// is bound, else a `params:` block with one line for each.
    pub fn print_params(&mut self, params: &ParamMap)
        ensures
            final(self).text() == old(self).text() + params_block(params.entries()),
    {
        let n = params.len();
        if n == 0 {
            proof {
                assert(old(self).text() + params_block(params.entries()) =~= old(self).text());
            }
            return ;
        }
        self.sub_title("params:");
        let mut i: usize = 0;
        while i < n
            invariant
                i <= n,
                n == params.entries().len(),
                self.text() == old(self).text() + sub_title_text("params:"@) + param_lines(
                    params.entries(),
                    i as int,
                ),
            decreases n - i,
        {
            let key = params.key_at(i);
            let val = params.val_at(i);
            let klen = key.as_str().unicode_len();
            let pad: usize = if klen < 16 {
                16 - klen
            } else {
                1
            };
            let line = key.clone().concat(":").concat(GUI::spaces(pad).as_str()).concat(
                val.as_str(),
            );
            proof {
                assert(line@ =~= params.entries()[i as int].0 + ":"@ + space_seq(
                    pad_of(params.entries()[i as int].0.len() as int),
                ) + params.entries()[i as int].1);
            }
            self.content(line.as_str());
            proof {
                assert(self.text() =~= old(self).text() + sub_title_text("params:"@)
                    + param_lines(params.entries(), i as int + 1));
            }
            i += 1;
        }
        self.nl();
        proof {
            assert(self.text() =~= old(self).text() + params_block(params.entries()));
        }
    }
}

} // verus!
