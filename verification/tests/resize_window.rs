use mcp_bridge::resize_window::{
    default_logical, resize_window, window_label_of, ResizeWindowParams, SetSizeOutcome,
};

#[test]
fn non_resizable_window_reports_structured_failure() {
    let params = ResizeWindowParams {
        width: 800,
        height: 600,
        window_id: None,
        logical: default_logical(),
    };
    let r = resize_window(&params, SetSizeOutcome::NotResizable);
    assert!(!r.success);
    assert_eq!(r.window_label, "main");
    assert_eq!(r.width, 800);
    assert_eq!(r.height, 600);
    assert!(r.logical);
    let err = r.error.expect("a failed resize must carry an error text");
    assert!(!err.is_empty());
    assert_eq!(err, "Window is not resizable");
}

#[test]
fn applied_resize_reports_success() {
    let params = ResizeWindowParams {
        width: 1024,
        height: 768,
        window_id: Some("settings".to_string()),
        logical: false,
    };
    let r = resize_window(&params, SetSizeOutcome::Applied);
    assert!(r.success);
    assert_eq!(r.window_label, "settings");
    assert_eq!(r.width, 1024);
    assert_eq!(r.height, 768);
    assert!(!r.logical);
    assert!(r.error.is_none());
}

#[test]
fn rejected_resize_carries_the_toolkit_reason() {
    let params = ResizeWindowParams {
        width: 640,
        height: 480,
        window_id: None,
        logical: true,
    };
    let r = resize_window(
        &params,
        SetSizeOutcome::Rejected("window is fullscreen".to_string()),
    );
    assert!(!r.success);
    let err = r.error.expect("a rejected resize must carry an error text");
    assert_eq!(err, "Failed to resize window: window is fullscreen");
}

#[test]
fn window_label_defaults_to_main() {
    let params = ResizeWindowParams {
        width: 1,
        height: 1,
        window_id: None,
        logical: true,
    };
    assert_eq!(window_label_of(&params), "main");
    let named = ResizeWindowParams {
        width: 1,
        height: 1,
        window_id: Some("editor".to_string()),
        logical: true,
    };
    assert_eq!(window_label_of(&named), "editor");
}

#[test]
fn default_logical_is_true() {
    assert!(default_logical());
}
