use std::cell::Cell;

use err_ctx::{BoxError, Context, Describe, ErrorExt, IntoBoxError, ResultExt};

fn failing(message: &str) -> Result<u32, BoxError> {
    Err(BoxError::new(message.to_string()))
}

#[test]
fn string_error_wrapped_with_context() {
    let c = "foo".ctx("bar");
    assert_eq!(c.to_string(), "bar: foo");
}

#[test]
fn boxed_result_wrapped_with_context() {
    let x: Result<(), BoxError> = Err(BoxError::new("foo".to_string()));
    let w = x.ctx("bar");
    assert_eq!(w.unwrap_err().to_string(), "bar: foo");
}

#[test]
fn missing_file_read_wrapped_with_context() {
    let io = std::io::Error::from(std::io::ErrorKind::NotFound);
    let read: Result<Vec<u8>, BoxError> = Err(BoxError::new(io.to_string()));
    let text = read.ctx("reading foo.txt").unwrap_err().to_string();
    assert!(text.starts_with("reading foo.txt: "));
    assert!(text.len() > "reading foo.txt: ".len());
}

#[test]
fn success_passes_through_ctx() {
    let ok: Result<u32, BoxError> = Ok(42);
    let w = ok.ctx("unused");
    assert!(matches!(w, Ok(42)));
}

#[test]
fn success_skips_context_computation() {
    let ok: Result<u32, BoxError> = Ok(7);
    let w = ok.with_ctx(|_e: &BoxError| -> String { panic!("context computed on success") });
    assert!(matches!(w, Ok(7)));
}

#[test]
fn failure_computes_context_once_from_error() {
    let calls = Cell::new(0u32);
    let w = failing("code 17").with_ctx(|e: &BoxError| {
        calls.set(calls.get() + 1);
        format!("while handling [{}]", e.to_string())
    });
    assert_eq!(calls.get(), 1);
    assert_eq!(
        w.unwrap_err().to_string(),
        "while handling [code 17]: code 17"
    );
}

#[test]
fn lazy_context_matches_eager_context() {
    let lazy = failing("boom").with_ctx(|e: &BoxError| format!("{} chars", e.to_string().len()));
    let eager = failing("boom").ctx("4 chars".to_string());
    assert_eq!(lazy.unwrap_err().to_string(), "4 chars: boom");
    assert_eq!(eager.unwrap_err().to_string(), "4 chars: boom");
}

#[test]
fn cause_lookup_returns_wrapped_error() {
    let c = BoxError::new("disk full".to_string()).ctx("saving");
    let cause = c.source().expect("a context always has a cause");
    assert_eq!(cause.to_string(), "disk full");
    assert!(cause.source().is_none());
}

#[test]
fn nested_contexts_display_outermost_first() {
    let inner = failing("e").ctx("c1").unwrap_err();
    let outer = inner.ctx("c2");
    assert_eq!(outer.to_string(), "c2: c1: e");
}

#[test]
fn nested_contexts_walk_one_layer_at_a_time() {
    let outer = failing("not found").ctx("opening config").unwrap_err().ctx("starting up");
    let mut texts = vec![outer.to_string()];
    let mut next = outer.source();
    while let Some(e) = next {
        texts.push(e.to_string());
        next = e.source();
    }
    assert_eq!(
        texts,
        vec![
            "starting up: opening config: not found".to_string(),
            "opening config: not found".to_string(),
            "not found".to_string(),
        ]
    );
}

#[test]
fn new_pairs_context_with_cause() {
    let c = Context::new(String::from("parsing"), BoxError::new("bad digit".to_string()));
    assert_eq!(c.to_string(), "parsing: bad digit");
    assert_eq!(c.describe(), "parsing: bad digit");
    assert_eq!(c.source().unwrap().to_string(), "bad digit");
}

#[test]
fn empty_context_and_cause() {
    let c = "".ctx("");
    assert_eq!(c.to_string(), ": ");
}

#[test]
fn with_source_keeps_the_chain() {
    let e = BoxError::with_source("outer".to_string(), BoxError::new("inner".to_string()));
    assert_eq!(e.to_string(), "outer");
    assert_eq!(e.source().unwrap().to_string(), "inner");
    assert_eq!(e.ctx("top").to_string(), "top: outer");
}

#[test]
fn context_converts_into_box_error() {
    let b = "low".ctx("mid").into_box_error();
    assert_eq!(b.to_string(), "mid: low");
    assert_eq!(b.source().unwrap().to_string(), "low");
}

#[test]
fn owned_string_error_and_context() {
    let c = String::from("timeout").ctx(String::from("fetching"));
    assert_eq!(c.to_string(), "fetching: timeout");
    assert_eq!(String::from("x").describe(), "x");
    assert_eq!("y".describe(), "y");
}
