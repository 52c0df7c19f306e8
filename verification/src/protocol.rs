//! The records that a capture produces: exceptions, and the event that holds
//! them.

use vstd::prelude::*;

verus! {

/// Severity of an event.
#[derive(Clone, Copy, Debug, PartialEq, Eq, Structural)]
pub enum Level {
    /// Very detailed information for debugging.
    Debug,
    /// An informational message.
    Info,
    /// A warning.
    Warning,
    /// An error.
    Error,
    /// An error that usually ends the program.
    Fatal,
}

/// One exception: the name of the error's type and its message.
#[derive(Clone, Debug, PartialEq, Eq)]
pub struct Exception {
    /// The name of the error's type. Empty where no name could be read.
    pub ty: String,
    /// The error's message.
    pub value: Option<String>,
}

/// What an [`Exception`] holds, as mathematical values.
pub struct ExceptionView {
    pub ty: Seq<char>,
    pub value: Option<Seq<char>>,
}

impl View for Exception {
    type V = ExceptionView;

    open spec fn view(&self) -> ExceptionView {
        ExceptionView {
            ty: self.ty@,
            value: match self.value {
                Some(v) => Some(v@),
                None => None,
            },
        }
    }
}

/// An event: the exceptions of one error and of its causes, the root cause
/// first, and a severity.
#[derive(Clone, Debug, PartialEq, Eq)]
pub struct Event {
    /// The exceptions, the root cause first.
    pub exception: Vec<Exception>,
    /// The severity.
    pub level: Level,
}

/// What an [`Event`] holds, as mathematical values.
pub struct EventView {
    pub exception: Seq<ExceptionView>,
    pub level: Level,
}

impl View for Event {
    type V = EventView;

    open spec fn view(&self) -> EventView {
        EventView {
            exception: Seq::new(self.exception@.len(), |i: int| self.exception@[i]@),
            level: self.level,
        }
    }
}

} // verus!
