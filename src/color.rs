//! Renders a message and the chain of causes below it with terminal emphasis.
use crate::formatter::{causes_of, remaining};
use crate::frozen::FrozenTrace;
use crate::layout::{
    alarmed, blank_line, emphasized, header_text, styled_bullet_lines,
    styled_trace_text,
};
use crate::style::{bold, red_bold, stderr_colors_enabled};
use vstd::prelude::*;
use vstd::string::StringExecFns;

verus! {

/// Formats a message and its chain of causes like `ErrorTraceFormatter`, with
/// the message and each cause in bold and the header in bold red, where the
/// terminal takes styling.
pub struct ErrorTraceColorFormatter<'e> {
    msg: String,
    err: Option<&'e FrozenTrace>,
}

impl<'e> ErrorTraceColorFormatter<'e> {
    /// The message printed first.
    pub closed spec fn message(&self) -> Seq<char> {
        self.msg@
    }

    /// The texts of the causes, outermost first; empty without a first cause.
    pub closed spec fn causes(&self) -> Seq<Seq<char>> {
        causes_of(self.err)
    }

    /// A formatter for `msg`, followed by the chain that starts at `err`, if any.
    pub fn new(msg: String, err: Option<&'e FrozenTrace>) -> (r: Self)
        ensures
            r.message() == msg@,
            r.causes() == causes_of(err),
    {
        ErrorTraceColorFormatter { msg, err }
    }

    /// The rendered trace with styling on or off as `colors` says.
    pub fn render(&self, colors: bool) -> (r: String)
        ensures
            r@ == styled_trace_text(self.message(), self.causes(), colors),
    {
        let mut out = bold(self.msg.as_str(), colors);
        if let Some(first) = self.err {
            out.append("\n\n");
            let header = red_bold("Caused by:", colors);
            out.append(header.as_str());
            let mut cur: Option<&FrozenTrace> = Some(first);
            let ghost mut done: Seq<Seq<char>> = Seq::empty();
            proof {
                reveal_strlit("\n\n");
                reveal_strlit("Caused by:");
                assert(done + causes_of(cur) =~= first.levels());
            }
            while cur.is_some()
                invariant
                    out@ == emphasized(self.msg@, colors) + blank_line() + alarmed(
                        header_text(),
                        colors,
                    ) + styled_bullet_lines(done, colors),
                    done + causes_of(cur) == first.levels(),
                decreases remaining(cur),
            {
                let level = cur.unwrap();
                out.append("\n o ");
                let text = bold(level.message.as_str(), colors);
                out.append(text.as_str());
                let ghost prev = cur;
                cur = level.source();
                proof {
                    reveal_strlit("\n o ");
                    let next = done.push(level.message@);
                    assert(next.drop_last() =~= done);
                    assert(next + causes_of(cur) =~= done + causes_of(prev));
                    done = next;
                }
            }
            out.append("\n\n");
            proof {
                reveal_strlit("\n\n");
                assert(done =~= first.levels());
            }
        }
        out
    }

    /// The rendered trace, styled where standard error takes styling.
    pub fn to_string(&self) -> (r: String)
        ensures
            r@ == styled_trace_text(self.message(), self.causes(), true) || r@
                == styled_trace_text(self.message(), self.causes(), false),
    {
        let colors = stderr_colors_enabled();
        self.render(colors)
    }
}

} // verus!
