//! Builds the event of an error: one exception for the error and one for each
//! of its causes, the root cause first.

use crate::chain::{walk, ErrorInfo, Link};
use crate::debug_name::{debug_type_name, parse_type_from_debug};
use crate::protocol::{Event, EventView, Exception, ExceptionView, Level};
use vstd::prelude::*;

verus! {

/// The exception that stands for one error of a chain: the type name read
/// from its debug text, and its message, which is always present.
pub open spec fn exception_of(link: Link) -> ExceptionView {
    ExceptionView { ty: debug_type_name(link.debug), value: Some(link.display) }
}

/// The exceptions of a chain, in the opposite order: the exception at `i`
/// stands for the error that is `i` steps away from the root cause.
pub open spec fn exceptions_of(chain: Seq<Link>) -> Seq<ExceptionView> {
    Seq::new(chain.len(), |i: int| exception_of(chain[chain.len() - 1 - i]))
}

/// The event of a chain: its exceptions, and the severity `Error`.
pub open spec fn event_of(chain: Seq<Link>) -> EventView {
    EventView { exception: exceptions_of(chain), level: Level::Error }
}

/// Builds the exception of one error, without regard to its causes.
pub fn exception_from_error(err: &ErrorInfo) -> (ex: Exception)
    ensures
        ex@ == exception_of(err.link()),
{
    Exception {
        ty: parse_type_from_debug(err.debug.as_str()).to_owned(),
        value: Some(err.display.clone()),
    }
}

/// Builds the event of an error.
///
/// The chain of causes is resolved, and the exceptions are sorted from the
/// oldest to the newest: the root cause comes first, `err` itself last.
pub fn event_from_error(err: &ErrorInfo) -> (ev: Event)
    ensures
        ev@ == event_of(err@),
        ev.level == Level::Error,
        ev.exception@.len() == err@.len(),
        ev.exception@.len() >= 1,
{
    let links = walk(err);
    let mut exceptions: Vec<Exception> = Vec::new();
    let mut left: usize = links.len();
    while left > 0
        invariant
            left <= links@.len(),
            links@.len() == err@.len(),
            forall|i: int| 0 <= i < links@.len() ==> (#[trigger] links@[i]).link() == err@[i],
            exceptions@.len() == links@.len() - left,
            forall|i: int|
                0 <= i < exceptions@.len() ==> (#[trigger] exceptions@[i])@ == exceptions_of(
                    err@,
                )[i],
        decreases left,
    {
        left -= 1;
        exceptions.push(exception_from_error(links[left]));
    }
    let ev = Event { exception: exceptions, level: Level::Error };
    assert(ev@.exception =~= exceptions_of(err@));
    ev
}

} // verus!
