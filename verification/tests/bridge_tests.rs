use review_flow::bridge::{capture_preflight, capture_timeout_secs, CaptureOutcome};
use review_flow::model::{CoreError, ReviewComment, Severity};
use review_flow::store::AppState;

fn comment(id: &str, content: &str) -> ReviewComment {
    ReviewComment {
        id: id.to_string(),
        author: "extractor".to_string(),
        content: content.to_string(),
        file_path: None,
        line_number: None,
        severity: Severity::Suggestion,
        created_at: "2024-01-01T00:00:00Z".to_string(),
    }
}

#[test]
fn preflight_requires_open_surface() {
    assert_eq!(capture_preflight(true), Ok(()));
    assert_eq!(capture_preflight(false), Err(CoreError::SurfaceNotOpen));
}

#[test]
fn timeout_is_five_seconds() {
    assert_eq!(capture_timeout_secs(), 5);
}

#[test]
fn no_event_reports_timeout_and_leaves_store_unchanged() {
    let mut state = AppState::new();
    state.add_review_comment(comment("c0", "already there"));
    let r = state.merge_capture_outcome(CaptureOutcome::NoEvent);
    assert_eq!(r.unwrap_err(), CoreError::CaptureTimeout);
    let listed = state.get_review_comments();
    assert_eq!(listed.len(), 1);
    assert_eq!(listed[0].id, "c0");
}

#[test]
fn malformed_payload_reports_decode_error_without_merge() {
    let mut state = AppState::new();
    let r = state.merge_capture_outcome(CaptureOutcome::Malformed);
    assert_eq!(r.unwrap_err(), CoreError::CaptureDecodeError);
    assert!(state.get_review_comments().is_empty());
}

#[test]
fn decoded_payload_is_appended_and_returned() {
    let mut state = AppState::new();
    state.add_review_comment(comment("c0", "manual"));
    let captured = vec![comment("c1", "from surface"), comment("c2", "also captured")];
    let r = state.merge_capture_outcome(CaptureOutcome::Decoded(captured)).unwrap();
    assert_eq!(r.len(), 2);
    assert_eq!(r[0].id, "c1");
    let listed = state.get_review_comments();
    assert_eq!(listed.len(), 3);
    assert_eq!(listed[0].id, "c0");
    assert_eq!(listed[1].id, "c1");
    assert_eq!(listed[2].id, "c2");
}

#[test]
fn capturing_twice_accumulates_duplicates() {
    let mut state = AppState::new();
    let once = vec![comment("c1", "same")];
    let again = vec![comment("c1", "same")];
    state.merge_capture_outcome(CaptureOutcome::Decoded(once)).unwrap();
    state.merge_capture_outcome(CaptureOutcome::Decoded(again)).unwrap();
    assert_eq!(state.get_review_comments().len(), 2);
}

#[test]
fn error_messages_name_each_failure() {
    assert_eq!(CoreError::SurfaceNotOpen.message(), "CodeHub 窗口未打开");
    assert_eq!(CoreError::CaptureTimeout.message(), "获取评论超时或失败");
    assert_eq!(CoreError::CaptureDecodeError.message(), "解析评论失败");
    assert!(CoreError::UnsupportedSource.message().contains("暂不支持该地址"));
    assert_eq!(CoreError::StateUnavailable.message(), "内部状态不可用");
}
