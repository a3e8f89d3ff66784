use pytauri_core::app::{App, Context, RunCallback};
use pytauri_core::app_handle::{py_app_handle, try_py_app_handle, PyAppHandleStateError};
use pytauri_core::run_event::{RunEvent, RunEventData, RunEventEnum};
use pytauri_core::slot::{ConsumedError, Slot};

#[test]
fn slot_gives_value_back_once() {
    let mut s = Slot::new(String::from("v"));
    assert!(!s.is_consumed());
    assert_eq!(s.get(), Ok(&String::from("v")));
    assert_eq!(s.take(), Ok(String::from("v")));
    assert!(s.is_consumed());
    assert_eq!(s.take(), Err(ConsumedError));
    assert_eq!(s.get(), Err(ConsumedError));
    assert!(s.get_mut().is_err());
}

#[test]
fn slot_get_mut_changes_value() {
    let mut s = Slot::new(1u32);
    *s.get_mut().unwrap() = 5;
    assert_eq!(s.take(), Ok(5));
}

#[test]
fn consumed_error_message() {
    assert_eq!(ConsumedError.message(), "the value has already been consumed");
}

#[test]
fn app_borrows_until_run_then_consumed() {
    let mut app = App::new(vec![1u8]);
    app.run_iteration().unwrap().push(2);
    assert_eq!(app.cleanup_before_exit(), Ok(&vec![1u8, 2]));
    assert_eq!(app.handle(), Ok(&vec![1u8, 2]));
    assert_eq!(app.run(), Ok(vec![1u8, 2]));
    assert_eq!(app.run(), Err(ConsumedError));
    assert!(app.run_iteration().is_err());
    assert_eq!(app.cleanup_before_exit(), Err(ConsumedError));
    assert_eq!(app.handle(), Err(ConsumedError));
}

#[test]
fn run_callback_selection() {
    assert!(matches!(RunCallback::from_option(Some(3)), RunCallback::Python(3)));
    assert!(matches!(RunCallback::<u8>::from_option(None), RunCallback::Noop));
}

#[test]
fn context_taken_once() {
    let mut c = Context::new("ctx");
    assert_eq!(c.take(), Ok("ctx"));
    assert_eq!(c.take(), Err(ConsumedError));
}

#[test]
fn app_handle_lookup() {
    assert_eq!(try_py_app_handle(Some(3)), Ok(3));
    assert_eq!(try_py_app_handle::<u8>(None), Err(PyAppHandleStateError));
    assert_eq!(py_app_handle(Some("h")), "h");
    assert_eq!(
        PyAppHandleStateError.message(),
        "Failed to get `PyAppHandle` from state, maybe this app was not created by pytauri"
    );
}

#[test]
fn run_event_match_ref_unit_kinds() {
    let cases = vec![
        (RunEventData::Exit, RunEventEnum::Exit()),
        (RunEventData::Ready, RunEventEnum::Ready()),
        (RunEventData::Resumed, RunEventEnum::Resumed()),
        (RunEventData::MainEventsCleared, RunEventEnum::MainEventsCleared()),
        (RunEventData::MenuEvent, RunEventEnum::MenuEvent()),
    ];
    for (data, expected) in cases {
        assert_eq!(RunEvent::new(data).match_ref(), expected);
    }
}

#[test]
fn run_event_match_ref_keeps_code_and_label() {
    match RunEvent::new(RunEventData::ExitRequested { code: Some(2) }).match_ref() {
        RunEventEnum::ExitRequested { code, .. } => assert_eq!(code, Some(2)),
        other => panic!("unexpected {other:?}"),
    }
    match RunEvent::new(RunEventData::ExitRequested { code: None }).match_ref() {
        RunEventEnum::ExitRequested { code, .. } => assert_eq!(code, None),
        other => panic!("unexpected {other:?}"),
    }
    match RunEvent::new(RunEventData::WindowEvent { label: "main".to_string() }).match_ref() {
        RunEventEnum::WindowEvent { label, .. } => assert_eq!(label, "main"),
        other => panic!("unexpected {other:?}"),
    }
    match RunEvent::new(RunEventData::WebviewEvent { label: "view".to_string() }).match_ref() {
        RunEventEnum::WebviewEvent { label, .. } => assert_eq!(label, "view"),
        other => panic!("unexpected {other:?}"),
    }
}
