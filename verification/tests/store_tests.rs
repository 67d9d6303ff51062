use review_flow::model::{ReviewComment, Severity};
use review_flow::store::AppState;

fn comment(id: &str, content: &str) -> ReviewComment {
    ReviewComment {
        id: id.to_string(),
        author: "li_wei".to_string(),
        content: content.to_string(),
        file_path: Some("src/main.rs".to_string()),
        line_number: Some(42),
        severity: Severity::Warning,
        created_at: "2024-01-01T00:00:00Z".to_string(),
    }
}

#[test]
fn new_store_is_empty() {
    let state = AppState::new();
    assert!(state.get_review_comments().is_empty());
    assert!(state.get_rag_pairs().is_empty());
    assert!(state.get_metrics().is_empty());
}

#[test]
fn add_review_comment_appends_in_order() {
    let mut state = AppState::new();
    state.add_review_comment(comment("c1", "first"));
    state.add_review_comment(comment("c2", "second"));
    state.add_review_comment(comment("c1", "duplicate id kept"));
    let listed = state.get_review_comments();
    assert_eq!(listed.len(), 3);
    assert_eq!(listed[0].id, "c1");
    assert_eq!(listed[0].content, "first");
    assert_eq!(listed[1].id, "c2");
    assert_eq!(listed[2].id, "c1");
    assert_eq!(listed[2].content, "duplicate id kept");
}

#[test]
fn many_adds_are_loss_free() {
    // Each add succeeds and loses nothing: after N calls the count is N.
    let mut state = AppState::new();
    for i in 0..100 {
        state.add_review_comment(comment(&format!("c{}", i), "note"));
    }
    let listed = state.get_review_comments();
    assert_eq!(listed.len(), 100);
    assert_eq!(listed[99].id, "c99");
}

#[test]
fn clear_review_comments_empties_only_comments() {
    let mut state = AppState::new();
    state.add_review_comment(comment("c1", "text"));
    state.process_rag_pairs();
    state.clear_review_comments();
    assert!(state.get_review_comments().is_empty());
    assert_eq!(state.get_rag_pairs().len(), 1);
}

#[test]
fn derive_pairs_one_per_comment_with_sources() {
    let mut state = AppState::new();
    state.add_review_comment(comment("c1", "Bad bound.\n建议: rewrite it."));
    state.add_review_comment(comment("c2", "Short note."));
    let pairs = state.process_rag_pairs();
    assert_eq!(pairs.len(), 2);
    assert_eq!(pairs[0].source_comment.id, "c1");
    assert_eq!(pairs[0].source_comment.content, "Bad bound.\n建议: rewrite it.");
    assert_eq!(pairs[0].error_logic, "Bad bound.");
    assert_eq!(pairs[0].fix_suggestion, "建议: rewrite it.");
    assert_eq!(pairs[1].source_comment.id, "c2");
    assert_eq!(pairs[1].error_logic, "Short note.");
    assert_eq!(pairs[1].fix_suggestion, "请根据上述问题检查并修复代码");
}

#[test]
fn derive_pairs_replaces_previous_pairs() {
    let mut state = AppState::new();
    state.add_review_comment(comment("c1", "one"));
    state.process_rag_pairs();
    state.process_rag_pairs();
    assert_eq!(state.get_rag_pairs().len(), 1);
    state.add_review_comment(comment("c2", "two"));
    let pairs = state.process_rag_pairs();
    assert_eq!(pairs.len(), 2);
    assert_eq!(state.get_rag_pairs().len(), 2);
}
