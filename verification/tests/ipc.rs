use http::{HeaderMap, HeaderValue};
use pytauri_core::app_handle::PyAppHandleStateError;
use pytauri_core::ipc::{
    bind_arguments, json_body_rejection, Answer, BindOutcome, BindRequest, Invoke, InvokePayload,
    InvokeResolver,
};
use pytauri_core::slot::ConsumedError;

fn headers_with(values: &[&[u8]]) -> HeaderMap {
    let mut headers = HeaderMap::new();
    headers.insert("content-type", HeaderValue::from_static("application/octet-stream"));
    for v in values {
        headers.append("pyfunc", HeaderValue::from_bytes(v).unwrap());
    }
    headers
}

#[test]
fn func_name_is_read_from_pyfunc_header() {
    let headers = headers_with(&[b"greet"]);
    assert_eq!(Invoke::<()>::get_func_name_from_message(&headers), Ok("greet"));
}

#[test]
fn func_name_takes_first_of_several_values() {
    let headers = headers_with(&[b"first", b"second"]);
    assert_eq!(Invoke::<()>::get_func_name_from_message(&headers), Ok("first"));
}

#[test]
fn func_name_header_lookup_ignores_case_of_inserted_name() {
    let mut headers = HeaderMap::new();
    headers.insert("PyFunc", HeaderValue::from_static("hello"));
    assert_eq!(Invoke::<()>::get_func_name_from_message(&headers), Ok("hello"));
}

#[test]
fn func_name_accepts_tab() {
    let headers = headers_with(&[b"a\tb"]);
    assert_eq!(Invoke::<()>::get_func_name_from_message(&headers), Ok("a\tb"));
}

#[test]
fn func_name_missing_header_is_rejected() {
    let headers = headers_with(&[]);
    assert_eq!(
        Invoke::<()>::get_func_name_from_message(&headers),
        Err("There is no pyfunc header".to_string())
    );
}

#[test]
fn func_name_non_ascii_header_is_rejected() {
    let headers = headers_with(&["café".as_bytes()]);
    assert_eq!(
        Invoke::<()>::get_func_name_from_message(&headers),
        Err("failed to convert header to a str".to_string())
    );
}

#[test]
fn new_invoke_keeps_command() {
    let inv = Invoke::new(7u32, Ok("greet".to_string())).ok().unwrap();
    assert_eq!(inv.command(), "greet");
}

#[test]
fn new_invoke_with_illegal_call_hands_back_rejection() {
    let headers = headers_with(&[]);
    let name = Invoke::<()>::get_func_name_from_message(&headers).map(|s| s.to_string());
    match Invoke::new(7u32, name) {
        Err((invoke, reason)) => {
            assert_eq!(invoke, 7);
            assert_eq!(reason, "There is no pyfunc header");
        }
        Ok(_) => panic!("an illegal call must be rejected"),
    }
}

#[test]
fn invoke_is_answered_once() {
    let mut inv = Invoke::new(7u32, Ok("greet".to_string())).ok().unwrap();
    match inv.resolve(vec![1, 2, 3]) {
        Ok((invoke, Answer::Resolve(bytes))) => {
            assert_eq!(invoke, 7);
            assert_eq!(bytes, vec![1, 2, 3]);
        }
        _ => panic!("first answer must succeed"),
    }
    assert!(matches!(inv.reject("late".to_string()), Err(ConsumedError)));
    assert!(matches!(inv.resolve(vec![]), Err(ConsumedError)));
    assert!(matches!(inv.bind_to(), Err(ConsumedError)));
    assert_eq!(inv.command(), "greet");
}

#[test]
fn invoke_reject_then_bind_fails() {
    let mut inv = Invoke::new("call", Ok("f".to_string())).ok().unwrap();
    match inv.reject("no".to_string()) {
        Ok(("call", Answer::Reject(msg))) => assert_eq!(msg, "no"),
        _ => panic!("first answer must succeed"),
    }
    assert!(matches!(inv.bind_to(), Err(ConsumedError)));
}

#[test]
fn invoke_bind_to_consumes() {
    let mut inv = Invoke::new(5u8, Ok("f".to_string())).ok().unwrap();
    assert_eq!(inv.bind_to(), Ok(5));
    assert!(matches!(inv.resolve(vec![0]), Err(ConsumedError)));
}

#[test]
fn resolver_answers_once_and_keeps_arguments() {
    let mut r = InvokeResolver::new(1u8, vec!["body"]);
    assert_eq!(r.arguments(), &vec!["body"]);
    match r.reject("bad".to_string()) {
        Ok((1, Answer::Reject(m))) => assert_eq!(m, "bad"),
        _ => panic!("first answer must succeed"),
    }
    assert!(matches!(r.resolve(vec![9]), Err(ConsumedError)));
    assert_eq!(r.arguments(), &vec!["body"]);
}

fn req(body: bool, app_handle: bool, webview_window: bool) -> BindRequest {
    BindRequest { body, app_handle, webview_window }
}

#[test]
fn bind_with_everything_available() {
    match bind_arguments::<&str, &str, ()>(
        req(true, true, true),
        InvokePayload::Raw(vec![4, 5]),
        Ok("handle"),
        Ok("window"),
    ) {
        BindOutcome::Bound(args) => {
            assert_eq!(args.body, Some(vec![4, 5]));
            assert_eq!(args.app_handle, Some("handle"));
            assert_eq!(args.webview_window, Some("window"));
        }
        _ => panic!("binding must succeed"),
    }
}

#[test]
fn bind_nothing_requested_ignores_failures() {
    match bind_arguments::<&str, &str, &str>(
        req(false, false, false),
        InvokePayload::Json,
        Err(PyAppHandleStateError),
        Err("no window"),
    ) {
        BindOutcome::Bound(args) => {
            assert_eq!(args.body, None);
            assert_eq!(args.app_handle, None);
            assert_eq!(args.webview_window, None);
        }
        _ => panic!("binding must succeed"),
    }
}

#[test]
fn bind_json_body_is_rejected_first() {
    let out = bind_arguments::<&str, &str, &str>(
        req(true, true, true),
        InvokePayload::Json,
        Err(PyAppHandleStateError),
        Err("no window"),
    );
    assert!(matches!(out, BindOutcome::JsonBodyRejected));
    assert_eq!(
        json_body_rejection(),
        "Please use `ArrayBuffer` or `Uint8Array` raw request, it's more efficient"
    );
}

#[test]
fn bind_missing_app_handle_before_window_error() {
    let out = bind_arguments::<&str, &str, &str>(
        req(true, true, true),
        InvokePayload::Raw(vec![]),
        Err(PyAppHandleStateError),
        Err("no window"),
    );
    assert!(matches!(out, BindOutcome::AppHandleError(PyAppHandleStateError)));
}

#[test]
fn bind_window_error_is_reported() {
    let out = bind_arguments::<&str, &str, &str>(
        req(false, true, true),
        InvokePayload::Json,
        Ok("handle"),
        Err("no window"),
    );
    assert!(matches!(out, BindOutcome::WebviewWindowError("no window")));
}
