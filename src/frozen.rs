//! An owned copy of a chain of error messages, and the capability of an error
//! to be traced.
use crate::color::ErrorTraceColorFormatter;
use crate::formatter::ErrorTraceFormatter;
use vstd::prelude::*;

verus! {

/// One level of a detached error chain: its message, and the next level, if any.
#[derive(Debug)]
pub struct FrozenTrace {
    /// The message of this level.
    pub message: String,
    /// The level that caused this one, if any.
    pub source: Option<Box<FrozenTrace>>,
}

impl FrozenTrace {
    /// The messages of this level and of every level below it, outermost first.
    pub open spec fn levels(&self) -> Seq<Seq<char>>
        decreases self,
    {
        match self.source {
            None => seq![self.message@],
            Some(next) => seq![self.message@] + next.levels(),
        }
    }

    /// A detached copy of `err` and of every level below it.
    pub fn new<E: ErrorTrace>(err: E) -> (r: FrozenTrace)
        ensures
            r.levels() == err.trace_levels(),
    {
        err.freeze()
    }

    /// A level with message `msg` whose cause is a detached copy of `err`.
    pub fn from_source<E: ErrorTrace>(msg: String, err: E) -> (r: FrozenTrace)
        ensures
            r.levels() == seq![msg@] + err.trace_levels(),
    {
        FrozenTrace { message: msg, source: Some(Box::new(err.freeze())) }
    }

    /// This level itself, as a value that can be traced.
    pub fn as_error(&self) -> (r: &FrozenTrace)
        ensures
            r == self,
    {
        self
    }

    /// A single level with the given message and no cause.
    pub fn from_msg(msg: String) -> (r: FrozenTrace)
        ensures
            r.levels() == seq![msg@],
    {
        FrozenTrace { message: msg, source: None }
    }

    /// The level below this one, if any.
    pub fn source(&self) -> (r: Option<&FrozenTrace>)
        ensures
            match self.source {
                None => r.is_none(),
                Some(next) => r == Some(&*next),
            },
    {
        match &self.source {
            None => None,
            Some(next) => Some(&**next),
        }
    }

    /// The message of this level alone.
    pub fn to_string(&self) -> (r: String)
        ensures
            r@ == self.message@,
    {
        self.message.clone()
    }
}

impl Clone for FrozenTrace {
    /// A deep copy: every level is copied.
    fn clone(&self) -> (r: FrozenTrace)
        ensures
            r.levels() == self.levels(),
    {
        self.freeze()
    }
}

/// An error that can be rendered with its causes, or detached from them.
pub trait ErrorTrace {
    /// The text of this error and of each cause below it, outermost first.
    spec fn trace_levels(&self) -> Seq<Seq<char>>;

    /// A detached copy of this error's chain.
    fn freeze(&self) -> (r: FrozenTrace)
        ensures
            r.levels() == self.trace_levels(),
    ;

    /// A plain formatter for this error's text followed by its causes.
    fn trace(&self) -> (r: ErrorTraceFormatter<'_>)
        ensures
            seq![r.message()] + r.causes() == self.trace_levels(),
    ;

    /// An emphasizing formatter for this error's text followed by its causes.
    fn trace_colored(&self) -> (r: ErrorTraceColorFormatter<'_>)
        ensures
            seq![r.message()] + r.causes() == self.trace_levels(),
    ;
}

impl ErrorTrace for FrozenTrace {
    open spec fn trace_levels(&self) -> Seq<Seq<char>> {
        self.levels()
    }

    fn freeze(&self) -> (r: FrozenTrace)
        decreases self,
    {
        let source = match &self.source {
            None => None,
            Some(next) => Some(Box::new(next.freeze())),
        };
        FrozenTrace { message: self.message.clone(), source }
    }

    fn trace(&self) -> (r: ErrorTraceFormatter<'_>) {
        ErrorTraceFormatter::new(self.message.clone(), self.source())
    }

    fn trace_colored(&self) -> (r: ErrorTraceColorFormatter<'_>) {
        ErrorTraceColorFormatter::new(self.message.clone(), self.source())
    }
}

} // verus!
