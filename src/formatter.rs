//! Renders a message and the chain of causes below it as plain text.
use crate::frozen::FrozenTrace;
use crate::layout::{blank_line, bullet_lines, header_text, trace_text};
use vstd::prelude::*;
use vstd::string::StringExecFns;

verus! {

/// The causes that follow from an optional first cause.
pub open spec fn causes_of(err: Option<&FrozenTrace>) -> Seq<Seq<char>> {
    match err {
        None => Seq::empty(),
        Some(first) => first.levels(),
    }
}

/// The number of levels that remain from an optional level on.
pub open spec fn remaining(cur: Option<&FrozenTrace>) -> nat {
    causes_of(cur).len()
}

/// Formats a message and, if a first cause is given, every level of the chain
/// that starts there.
pub struct ErrorTraceFormatter<'e> {
    msg: String,
    err: Option<&'e FrozenTrace>,
}

impl<'e> ErrorTraceFormatter<'e> {
    /// The message printed first.
    pub closed spec fn message(&self) -> Seq<char> {
        self.msg@
    }

    /// The texts of the causes, outermost first; empty without a first cause.
    pub closed spec fn causes(&self) -> Seq<Seq<char>> {
        causes_of(self.err)
    }

    /// A formatter for `msg`, followed by the chain that starts at `err`, if any.
    pub fn new(msg: String, err: Option<&'e FrozenTrace>) -> (r: Self)
        ensures
            r.message() == msg@,
            r.causes() == causes_of(err),
    {
        ErrorTraceFormatter { msg, err }
    }

    /// The rendered trace: the message, then, if there is a cause, a blank line,
    /// the header, one bullet line per cause and a final blank line.
    pub fn to_string(&self) -> (r: String)
        ensures
            r@ == trace_text(self.message(), self.causes()),
    {
        let mut out = self.msg.clone();
        if let Some(first) = self.err {
            out.append("\n\nCaused by:");
            let mut cur: Option<&FrozenTrace> = Some(first);
            let ghost mut done: Seq<Seq<char>> = Seq::empty();
            proof {
                reveal_strlit("\n\nCaused by:");
                assert(done + causes_of(cur) =~= first.levels());
            }
            while cur.is_some()
                invariant
                    out@ == self.msg@ + blank_line() + header_text() + bullet_lines(done),
                    done + causes_of(cur) == first.levels(),
                decreases remaining(cur),
            {
                let level = cur.unwrap();
                out.append("\n o ");
                out.append(level.message.as_str());
                let ghost prev = cur;
                cur = level.source();
                proof {
                    reveal_strlit("\n o ");
                    let next = done.push(level.message@);
                    assert(next.drop_last() =~= done);
                    assert(next + causes_of(cur) =~= done + causes_of(prev));
                    done = next;
                }
            }
            out.append("\n\n");
            proof {
                reveal_strlit("\n\n");
                assert(done =~= first.levels());
            }
        }
        out
    }
}

} // verus!
