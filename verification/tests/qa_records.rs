use desktop_todo::qa_diagnostics::{
    format_rect, frontend_input_record, panic_record, sanitize_error, warn_if_release_without_embedded_frontend,
    QaDiagnostics,
};

#[test]
fn error_text_is_kept_on_one_line() {
    assert_eq!(sanitize_error("first\r\nsecond\nthird"), "first  second third");
    assert_eq!(panic_record(&sanitize_error("boom\nat line")), "panic=boom at line");
}

#[test]
fn frontend_inputs_are_reduced_to_the_known_vocabulary() {
    assert_eq!(frontend_input_record("pointerdown"), "frontend_input_received=pointerdown");
    assert_eq!(frontend_input_record("my secret task"), "frontend_input_received=other");
    assert_eq!(frontend_input_record("key:Enter"), "frontend_key_received=Enter");
}

#[test]
fn only_an_optimized_dev_server_build_is_warned_about() {
    assert!(warn_if_release_without_embedded_frontend(true, true).is_none());
    assert!(warn_if_release_without_embedded_frontend(false, false).is_none());
    assert!(warn_if_release_without_embedded_frontend(false, true).unwrap().contains("frontend_asset_mode=dev-server"));
}

#[test]
fn a_session_opens_with_its_marker_lines_and_records_readiness() {
    let (mut session, lines) = QaDiagnostics::from_process_args(Some("qa-diagnostics.log".to_string()), false);
    assert_eq!(lines, vec![
        "qa_session_start=true frontend_asset_mode=embedded".to_string(),
        "webview_created=false webview_navigation_started=false webview_navigation_completed=false frontend_ready=false"
            .to_string(),
    ]);
    assert!(!session.frontend_ready);
    assert_eq!(session.record_frontend_ready(1712345678901), "frontend_ready=true timestamp_ms=1712345678901");
    assert!(session.frontend_ready);
    assert_eq!(session.log_path.as_deref(), Some("qa-diagnostics.log"));
    assert_eq!(
        session.record_rendering_backend("enhanced", "standard", "stored"),
        "[rendering] requested_backend=enhanced effective_backend=standard selection_source=stored"
    );
}

#[test]
fn rectangles_print_origin_and_clamped_extent() {
    assert_eq!(format_rect(-8, 12, 1912, 1052), "-8,12,1920x1040");
    assert_eq!(format_rect(100, 100, 90, 80), "100,100,0x0");
}
