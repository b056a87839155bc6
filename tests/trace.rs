use error_trace::{ErrorTrace, ErrorTraceColorFormatter, ErrorTraceFormatter, FrozenTrace};

fn chain(messages: &[&str]) -> FrozenTrace {
    let mut iter = messages.iter().rev();
    let mut trace = FrozenTrace::from_msg(iter.next().unwrap().to_string());
    for msg in iter {
        trace = FrozenTrace::from_source(msg.to_string(), trace);
    }
    trace
}

#[test]
fn test_static_trace() {
    let failure = FrozenTrace::from_msg("the test could not run".to_string());
    let text = ErrorTraceFormatter::new("Failed to test".to_string(), Some(&failure)).to_string();
    assert_eq!(text, "Failed to test\n\nCaused by:\n o the test could not run\n\n");
}

#[test]
fn single_cause_scenario() {
    let err = chain(&["Oh no, something went wrong!", "A specific reason"]);
    assert_eq!(
        err.trace().to_string(),
        "Oh no, something went wrong!\n\nCaused by:\n o A specific reason\n\n"
    );
}

#[test]
fn no_cause_scenario() {
    let err = FrozenTrace::from_msg("Hello, world!".to_string());
    assert_eq!(err.trace().to_string(), "Hello, world!");
}

#[test]
fn formatter_without_cause_is_message() {
    let text = ErrorTraceFormatter::new("just this".to_string(), None).to_string();
    assert_eq!(text, "just this");
}

#[test]
fn empty_message_without_cause() {
    assert_eq!(ErrorTraceFormatter::new(String::new(), None).to_string(), "");
}

#[test]
fn three_causes_in_order() {
    let err = chain(&["top", "first", "second", "third"]);
    let text = err.trace().to_string();
    assert_eq!(text, "top\n\nCaused by:\n o first\n o second\n o third\n\n");
    assert_eq!(text.matches("Caused by:").count(), 1);
    assert_eq!(text.matches("\n o ").count(), 3);
}

#[test]
fn formatter_starts_chain_at_given_cause() {
    let err = chain(&["a", "b"]);
    let text = ErrorTraceFormatter::new("context".to_string(), Some(&err)).to_string();
    assert_eq!(text, "context\n\nCaused by:\n o a\n o b\n\n");
}

#[test]
fn freeze_renders_like_original() {
    let err = chain(&["outer", "middle", "inner"]);
    let frozen = err.freeze();
    assert_eq!(frozen.trace().to_string(), err.trace().to_string());
    let copy = FrozenTrace::new(chain(&["outer", "middle", "inner"]));
    assert_eq!(copy.trace().to_string(), err.trace().to_string());
}

#[test]
fn freeze_copies_every_level() {
    let err = chain(&["one", "two"]);
    let frozen = err.freeze();
    assert_eq!(frozen.message, "one");
    let next = frozen.source().unwrap();
    assert_eq!(next.to_string(), "two");
    assert!(next.source().is_none());
}

#[test]
fn from_msg_traces_to_itself() {
    let trace = FrozenTrace::from_msg("Hello there!".to_string());
    assert_eq!(trace.trace().to_string(), "Hello there!");
    assert!(trace.source().is_none());
}

#[test]
fn from_source_puts_message_on_top() {
    let trace = FrozenTrace::from_source("while loading".to_string(), chain(&["disk full"]));
    assert_eq!(trace.trace().to_string(), "while loading\n\nCaused by:\n o disk full\n\n");
}

#[test]
fn as_error_is_same_trace() {
    let trace = chain(&["x", "y"]);
    assert_eq!(trace.as_error().trace().to_string(), trace.trace().to_string());
}

#[test]
fn changing_one_level_changes_only_its_line() {
    let a = chain(&["top", "first", "second"]).trace().to_string();
    let b = chain(&["top", "FIRST (detailed)", "second"]).trace().to_string();
    assert_eq!(a.replace("first", "FIRST (detailed)"), b);
}

#[test]
fn colors_off_matches_plain() {
    let err = chain(&["Oh no, something went wrong!", "A specific reason", "deeper"]);
    assert_eq!(err.trace_colored().render(false), err.trace().to_string());
    let lone = FrozenTrace::from_msg("Hello, world!".to_string());
    assert_eq!(lone.trace_colored().render(false), "Hello, world!");
}

#[test]
fn colors_on_styles_each_segment() {
    let err = chain(&["top", "cause"]);
    assert_eq!(
        err.trace_colored().render(true),
        "\u{1b}[1mtop\u{1b}[0m\n\n\u{1b}[31m\u{1b}[1mCaused by:\u{1b}[0m\n o \u{1b}[1mcause\u{1b}[0m\n\n"
    );
}

#[test]
fn colors_on_without_cause() {
    let f = ErrorTraceColorFormatter::new("plain".to_string(), None);
    assert_eq!(f.render(true), "\u{1b}[1mplain\u{1b}[0m");
}

#[test]
fn color_formatter_renders_one_of_two() {
    let err = chain(&["top", "cause"]);
    let f = err.trace_colored();
    let text = f.to_string();
    assert!(text == f.render(true) || text == f.render(false));
}

#[test]
fn clone_is_deep_copy() {
    let err = chain(&["top", "mid", "leaf"]);
    let copy = err.clone();
    drop(err);
    assert_eq!(copy.trace().to_string(), "top\n\nCaused by:\n o mid\n o leaf\n\n");
}
