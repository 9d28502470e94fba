use cargo_mini_repo::err_context::{traceback, ErrContext, ErrWithContext};

#[test]
fn context_wraps_only_errors() {
    let ok: Result<u8, String> = Ok(3);
    assert_eq!(ok.context("step").ok(), Some(3));
    let err: Result<u8, String> = Err("boom".to_string());
    let e = err.context("Write archive").err().unwrap();
    assert_eq!(e.context, "Write archive");
    assert_eq!(e.source, "boom");
    assert_eq!(e.message(), "Context: Write archive");
}

#[test]
fn context_message_format() {
    let e = ErrWithContext { context: "Push to origin".to_string(), source: 0u8 };
    assert_eq!(e.message(), "Context: Push to origin");
}

#[test]
fn traceback_renders_chain() {
    let chain = vec!["top".to_string(), "middle".to_string(), "root".to_string()];
    assert_eq!(traceback(&chain), "top\nCaused by:\nmiddle\nCaused by:\nroot\n");
}

#[test]
fn traceback_of_single_and_empty() {
    assert_eq!(traceback(&["only".to_string()]), "only\n");
    assert_eq!(traceback(&[]), "");
}
