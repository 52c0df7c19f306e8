//! What holds of every event that is built from an error, and of every type
//! name that is read from a debug text.

use crate::assemble::{event_of, exception_of};
use crate::chain::{lemma_chain_unfold, ErrorInfo};
use crate::debug_name::{
    debug_type_name, first_token, is_delimiter, is_whitespace, lemma_token_len,
    lemma_token_len_is, lemma_trimmed_end, lemma_trimmed_start, token_len, trimmed,
    trimmed_start,
};
use crate::protocol::{Event, Level};
use vstd::prelude::*;

verus! {

/// A type name is a part of the debug text that lies before the first
/// delimiter: the part from `from` up to `to`. Only whitespace stands between
/// the start of the text and the name, and between the name and the first
/// delimiter, and the name itself neither begins nor ends with whitespace.
pub open spec fn name_lies_at(debug: Seq<char>, from: int, to: int) -> bool {
    &&& 0 <= from <= to <= token_len(debug) <= debug.len()
    &&& debug_type_name(debug) == debug.subrange(from, to)
    &&& forall|j: int| 0 <= j < from ==> is_whitespace(#[trigger] debug[j])
    &&& forall|j: int| to <= j < token_len(debug) ==> is_whitespace(#[trigger] debug[j])
    &&& from < to ==> !is_whitespace(debug[from]) && !is_whitespace(debug[to - 1])
}

/// Every debug text holds its type name, as `name_lies_at` says.
pub proof fn lemma_name_is_part_of_first_token(debug: Seq<char>) -> (at: (int, int))
    ensures
        name_lies_at(debug, at.0, at.1),
{
    let token = first_token(debug);
    lemma_token_len(debug);
    lemma_trimmed_start(token);
    let rest = trimmed_start(token);
    lemma_trimmed_end(rest);
    let from = token.len() - rest.len();
    let to = from + trimmed(token).len();
    assert(rest.take(trimmed(token).len() as int) =~= debug.subrange(from, to));
    assert forall|j: int| 0 <= j < from implies is_whitespace(#[trigger] debug[j]) by {
        assert(debug[j] == token[j]);
    }
    assert forall|j: int| to <= j < token_len(debug) implies is_whitespace(
        #[trigger] debug[j],
    ) by {
        assert(debug[j] == rest[j - from]);
    }
    if from < to {
        assert(rest.first() == debug[from]);
        assert(trimmed(token).last() == debug[to - 1]);
    }
    (from, to)
}

/// No character of a type name is a delimiter.
pub proof fn lemma_name_holds_no_delimiter(debug: Seq<char>, i: int)
    requires
        0 <= i < debug_type_name(debug).len(),
    ensures
        !is_delimiter(debug_type_name(debug)[i]),
{
    let at = lemma_name_is_part_of_first_token(debug);
    lemma_token_len(debug);
    assert(debug_type_name(debug)[i] == debug[at.0 + i]);
}

/// A type name neither begins nor ends with whitespace.
pub proof fn lemma_name_is_trimmed(debug: Seq<char>)
    requires
        debug_type_name(debug).len() > 0,
    ensures
        !is_whitespace(debug_type_name(debug).first()),
        !is_whitespace(debug_type_name(debug).last()),
{
    let at = lemma_name_is_part_of_first_token(debug);
    assert(debug_type_name(debug).first() == debug[at.0]);
    assert(debug_type_name(debug).last() == debug[at.1 - 1]);
}

/// The type name of a debug text without any delimiter is the whole text,
/// trimmed.
pub proof fn lemma_text_without_delimiter(debug: Seq<char>)
    requires
        forall|j: int| 0 <= j < debug.len() ==> !is_delimiter(#[trigger] debug[j]),
    ensures
        debug_type_name(debug) == trimmed(debug),
{
    lemma_token_len_is(debug, debug.len() as int);
    assert(first_token(debug) =~= debug);
}

/// A debug text that begins with a delimiter has the empty type name,
/// whatever follows the delimiter.
pub proof fn lemma_leading_delimiter_gives_empty_name(debug: Seq<char>)
    requires
        debug.len() > 0,
        is_delimiter(debug[0]),
    ensures
        debug_type_name(debug) == Seq::<char>::empty(),
{
    assert(first_token(debug) =~= Seq::<char>::empty());
}

/// A debug text whose first token is nothing but whitespace has the empty
/// type name.
pub proof fn lemma_blank_token_gives_empty_name(debug: Seq<char>)
    requires
        forall|j: int| 0 <= j < token_len(debug) ==> is_whitespace(#[trigger] debug[j]),
    ensures
        debug_type_name(debug) == Seq::<char>::empty(),
{
    let at = lemma_name_is_part_of_first_token(debug);
    assert(debug_type_name(debug) =~= Seq::<char>::empty());
}

/// Reading the type name of a type name changes nothing.
pub proof fn lemma_name_of_name(debug: Seq<char>)
    ensures
        debug_type_name(debug_type_name(debug)) == debug_type_name(debug),
{
    let name = debug_type_name(debug);
    assert forall|j: int| 0 <= j < name.len() implies !is_delimiter(#[trigger] name[j]) by {
        lemma_name_holds_no_delimiter(debug, j);
    }
    lemma_text_without_delimiter(name);
    lemma_trimmed_start(name);
    if name.len() > 0 {
        lemma_name_is_trimmed(debug);
    }
    assert(trimmed_start(name) == name);
    lemma_trimmed_end(name);
    assert(trimmed(name) == name);
}

/// An error without a cause gives an event with exactly one exception, and
/// the value of that exception is the error's message.
pub proof fn lemma_lone_error_gives_one_exception(err: ErrorInfo)
    requires
        err.source is None,
    ensures
        event_of(err@).exception.len() == 1,
        event_of(err@).exception[0] == exception_of(err.link()),
        event_of(err@).exception[0].value == Some(err.display@),
{
}

/// A chain of `n` errors gives `n` exceptions, the root cause first: the
/// exception at `i` stands for the error at `n - 1 - i` of the chain. So the
/// first exception stands for the innermost cause, and the last one for the
/// error that was captured.
pub proof fn lemma_exceptions_run_from_root_cause(err: ErrorInfo, i: int)
    requires
        0 <= i < err@.len(),
    ensures
        event_of(err@).exception.len() == err@.len(),
        event_of(err@).exception[i] == exception_of(err@[err@.len() - 1 - i]),
        event_of(err@).exception[0] == exception_of(err@.last()),
        event_of(err@).exception.last() == exception_of(err.link()),
{
    lemma_chain_unfold(&err);
}

/// Each exception of an event carries a message: the message of its error,
/// also where that message is the empty text.
pub proof fn lemma_every_exception_has_a_value(err: ErrorInfo, i: int)
    requires
        0 <= i < err@.len(),
    ensures
        event_of(err@).exception[i].value == Some(err@[err@.len() - 1 - i].display),
        event_of(err@).exception[i].ty == debug_type_name(err@[err@.len() - 1 - i].debug),
{
}

/// The severity of the event of an error is `Error`, whatever the error.
pub proof fn lemma_severity_is_error(err: ErrorInfo)
    ensures
        event_of(err@).level == Level::Error,
{
}

/// Building the event of one error twice gives the same event: the same
/// severity, and the same exceptions, text for text.
pub proof fn lemma_same_error_same_event(err: ErrorInfo, first: Event, second: Event)
    requires
        first@ == event_of(err@),
        second@ == event_of(err@),
    ensures
        first@ == second@,
        first.level == second.level,
        first.exception@.len() == second.exception@.len(),
        forall|i: int|
            0 <= i < first.exception@.len() ==> (#[trigger] first.exception@[i])@
                == second.exception@[i]@,
{
    assert(first@.exception.len() == first.exception@.len());
    assert(second@.exception.len() == second.exception@.len());
    assert forall|i: int| 0 <= i < first.exception@.len() implies (#[trigger] first.exception@[i])@
        == second.exception@[i]@ by {
        assert(first@.exception[i] == first.exception@[i]@);
        assert(second@.exception[i] == second.exception@[i]@);
    }
}

} // verus!
