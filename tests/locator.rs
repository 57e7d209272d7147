use chat_assistant::locator::{locate_verdict, LocateError, WindowProbe};

#[test]
fn usable_window_is_located() {
    let p = WindowProbe { found: true, is_window: true, minimized: Some(false) };
    assert_eq!(locate_verdict(&p), Ok(()));
    let unknown = WindowProbe { found: true, is_window: true, minimized: None };
    assert_eq!(locate_verdict(&unknown), Ok(()));
}

#[test]
fn minimized_or_absent_window_is_not_found() {
    let min = WindowProbe { found: true, is_window: true, minimized: Some(true) };
    assert_eq!(locate_verdict(&min), Err(LocateError::NotFound));
    let absent = WindowProbe { found: false, is_window: false, minimized: None };
    assert_eq!(locate_verdict(&absent), Err(LocateError::NotFound));
    let not_window = WindowProbe { found: true, is_window: false, minimized: Some(false) };
    assert_eq!(locate_verdict(&not_window), Err(LocateError::NotFound));
    assert_eq!(LocateError::NotFound.message(), "未定位到微信窗口");
}

#[test]
fn repeated_locate_on_same_state_agrees() {
    for p in [
        WindowProbe { found: true, is_window: true, minimized: Some(false) },
        WindowProbe { found: true, is_window: true, minimized: Some(true) },
    ] {
        assert_eq!(locate_verdict(&p), locate_verdict(&p));
    }
}
