use sentry_core::{
    event_from_error, exception_from_error, walk, ErrorInfo, Event, Exception, Level,
};
use std::error::Error;
use std::fmt;

#[derive(Debug)]
struct InnerError;

impl fmt::Display for InnerError {
    fn fmt(&self, f: &mut fmt::Formatter<'_>) -> fmt::Result {
        f.write_str("inner")
    }
}

impl Error for InnerError {}

#[derive(Debug)]
struct OuterError(InnerError);

impl fmt::Display for OuterError {
    fn fmt(&self, f: &mut fmt::Formatter<'_>) -> fmt::Result {
        f.write_str("outer")
    }
}

impl Error for OuterError {
    fn source(&self) -> Option<&(dyn Error + 'static)> {
        Some(&self.0)
    }
}

fn describe(err: &dyn Error) -> ErrorInfo {
    let info = ErrorInfo::new(&format!("{:?}", err), &err.to_string());
    match err.source() {
        Some(cause) => info.caused_by(describe(cause)),
        None => info,
    }
}

fn exception(ty: &str, value: &str) -> Exception {
    Exception {
        ty: ty.to_string(),
        value: Some(value.to_string()),
    }
}

fn chain_of(depth: usize) -> ErrorInfo {
    let mut err = ErrorInfo::new("Level0", "message 0");
    for i in 1..depth {
        err = ErrorInfo::new(&format!("Level{}(..)", i), &format!("message {}", i)).caused_by(err);
    }
    err
}

#[test]
fn lone_error_gives_one_exception() {
    let err = ErrorInfo::new("MyStruct", "something failed");
    let event = event_from_error(&err);
    assert_eq!(event.exception.len(), 1);
    assert_eq!(event.exception[0].ty, "MyStruct");
    assert_eq!(event.exception[0].value, Some("something failed".to_string()));
    assert_eq!(event.level, Level::Error);
}

#[test]
fn lone_error_with_empty_message_keeps_the_value() {
    let err = ErrorInfo::new("Empty { }", "");
    let event = event_from_error(&err);
    assert_eq!(event.exception, vec![exception("Empty", "")]);
}

#[test]
fn two_level_chain_puts_the_inner_error_first() {
    let inner = ErrorInfo::new("InnerError", "inner");
    let outer = ErrorInfo::new("OuterError(InnerError)", "outer").caused_by(inner);
    let event = event_from_error(&outer);
    assert_eq!(event.level, Level::Error);
    assert_eq!(event.exception.len(), 2);
    assert_eq!(&event.exception[0].ty, "InnerError");
    assert_eq!(event.exception[0].value, Some("inner".into()));
    assert_eq!(&event.exception[1].ty, "OuterError");
    assert_eq!(event.exception[1].value, Some("outer".into()));
}

#[test]
fn std_error_chain_gives_the_same_event() {
    let event = event_from_error(&describe(&OuterError(InnerError)));
    assert_eq!(
        event,
        Event {
            exception: vec![exception("InnerError", "inner"), exception("OuterError", "outer")],
            level: Level::Error,
        }
    );
}

#[test]
fn three_level_chain_runs_from_the_root_cause() {
    let c = ErrorInfo::new("C", "root cause");
    let b = ErrorInfo::new("B { code: 2 }", "context of c").caused_by(c);
    let a = ErrorInfo::new("A(B { code: 2 })", "context of b").caused_by(b);
    let event = event_from_error(&a);
    assert_eq!(
        event.exception,
        vec![
            exception("C", "root cause"),
            exception("B", "context of c"),
            exception("A", "context of b"),
        ]
    );
}

#[test]
fn chain_of_depth_n_gives_n_exceptions() {
    for depth in 1..40usize {
        let event = event_from_error(&chain_of(depth));
        assert_eq!(event.exception.len(), depth);
        assert_eq!(event.level, Level::Error);
        for (i, found) in event.exception.iter().enumerate() {
            assert_eq!(found.ty, format!("Level{}", i));
            assert_eq!(found.value, Some(format!("message {}", i)));
        }
    }
}

#[test]
fn long_chain_is_resolved_to_its_end() {
    let depth = 5000;
    let event = event_from_error(&chain_of(depth));
    assert_eq!(event.exception.len(), depth);
    assert_eq!(event.exception[0].ty, "Level0");
    assert_eq!(event.exception[depth - 1].ty, format!("Level{}", depth - 1));
}

#[test]
fn severity_is_always_error() {
    let texts = ["", "X", "X(1)", "\n", "low level { }"];
    for debug in texts {
        let event = event_from_error(&ErrorInfo::new(debug, "message"));
        assert_eq!(event.level, Level::Error);
        assert_ne!(event.level, Level::Fatal);
        assert_ne!(event.level, Level::Warning);
    }
}

#[test]
fn building_twice_gives_equal_events() {
    let inner = ErrorInfo::new("InnerError", "inner");
    let outer = ErrorInfo::new("OuterError(InnerError)", "outer").caused_by(inner);
    let first = event_from_error(&outer);
    let second = event_from_error(&outer);
    assert_eq!(first, second);
    assert_eq!(first, event_from_error(&describe(&OuterError(InnerError))));
}

#[test]
fn unreadable_debug_text_gives_an_empty_type() {
    let err = ErrorInfo::new(" (no name)", "still there");
    let event = event_from_error(&err);
    assert_eq!(event.exception, vec![exception("", "still there")]);
}

#[test]
fn exception_of_one_error_ignores_its_causes() {
    let inner = ErrorInfo::new("InnerError", "inner");
    let outer = ErrorInfo::new("OuterError(InnerError)", "outer").caused_by(inner);
    assert_eq!(exception_from_error(&outer), exception("OuterError", "outer"));
    assert_eq!(
        exception_from_error(&ErrorInfo::new("\tParseIntError {\n    kind: Empty,\n}", "")),
        exception("ParseIntError", "")
    );
}

#[test]
fn walk_starts_at_the_error_and_ends_at_the_root_cause() {
    let c = ErrorInfo::new("C", "c");
    let b = ErrorInfo::new("B", "b").caused_by(c);
    let a = ErrorInfo::new("A", "a").caused_by(b);
    let links = walk(&a);
    assert_eq!(links.len(), 3);
    assert!(std::ptr::eq(links[0], &a));
    assert_eq!(links[0].debug, "A");
    assert_eq!(links[1].debug, "B");
    assert_eq!(links[2].debug, "C");
    assert_eq!(links[2].display, "c");
    assert!(links[2].source().is_none());
    assert!(std::ptr::eq(links[1], a.source().unwrap()));
}

#[test]
fn walk_of_a_lone_error_holds_only_that_error() {
    let err = ErrorInfo::new("Lone", "alone");
    let links = walk(&err);
    assert_eq!(links.len(), 1);
    assert_eq!(links[0], &err);
}

#[test]
fn caused_by_replaces_an_earlier_cause() {
    let err = ErrorInfo::new("A", "a")
        .caused_by(ErrorInfo::new("Old", "old"))
        .caused_by(ErrorInfo::new("New", "new"));
    assert_eq!(err.source(), Some(&ErrorInfo::new("New", "new")));
    assert_eq!(event_from_error(&err).exception.len(), 2);
}
