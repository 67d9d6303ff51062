use review_flow::rag::parse_comment_to_rag;

const DEFAULT_FIX: &str = "请根据上述问题检查并修复代码";

#[test]
fn segment_empty_content_falls_back() {
    let (problem, fix) = parse_comment_to_rag("");
    assert_eq!(problem, "");
    assert_eq!(fix, DEFAULT_FIX);
}

#[test]
fn segment_single_line_with_marker_word() {
    let content = "This breaks when X. You should fix Y.";
    let (problem, fix) = parse_comment_to_rag(content);
    assert!(problem.contains("This breaks when X."));
    assert!(fix.contains("You should fix Y."));
}

#[test]
fn segment_marker_line_routes_to_fix() {
    let (problem, fix) = parse_comment_to_rag("Bad loop bound.\n建议: use iterators.");
    assert_eq!(problem, "Bad loop bound.");
    assert_eq!(fix, "建议: use iterators.");
}

#[test]
fn segment_marker_detected_case_insensitively() {
    let (problem, fix) = parse_comment_to_rag("Null deref here.\nYou SHOULD guard it.");
    assert_eq!(problem, "Null deref here.");
    assert_eq!(fix, "You SHOULD guard it.");
}

#[test]
fn segment_midpoint_split_preserves_words() {
    // A single 80-character line holding none of the marker words.
    let line = "The parser accepts malformed headers and drops the whole trailing block sil.....";
    assert_eq!(line.chars().count(), 80);
    let (problem, fix) = parse_comment_to_rag(line);
    assert!(!fix.is_empty());
    assert_ne!(fix, DEFAULT_FIX);
    // Nothing is lost or duplicated: the two parts concatenate to the line.
    assert_eq!(format!("{}{}", problem, fix), line);
    let input_words: Vec<&str> = line.split_whitespace().collect();
    let joined = format!("{} {}", problem, fix);
    let rebuilt_words: Vec<&str> = joined.split_whitespace().collect();
    assert_eq!(input_words, rebuilt_words);
}

#[test]
fn segment_midpoint_split_without_space_cuts_exactly() {
    let line = "a".repeat(60);
    let (problem, fix) = parse_comment_to_rag(&line);
    assert_eq!(problem, "a".repeat(30));
    assert_eq!(fix, "a".repeat(30));
}

#[test]
fn segment_short_problem_keeps_default_fix() {
    let (problem, fix) = parse_comment_to_rag("Off-by-one in the loop.");
    assert_eq!(problem, "Off-by-one in the loop.");
    assert_eq!(fix, DEFAULT_FIX);
}

#[test]
fn segment_trims_each_line_and_joins_with_spaces() {
    let (problem, fix) = parse_comment_to_rag("  first point  \n\tsecond point\t");
    assert_eq!(problem, "first point second point");
    assert_eq!(fix, DEFAULT_FIX);
}

#[test]
fn segment_marker_matches_inside_words() {
    // "prefix" holds the marker "fix", so the whole line routes to the fix
    // and the problem falls back to the entire content.
    let content = "The prefix handling is wrong";
    let (problem, fix) = parse_comment_to_rag(content);
    assert_eq!(problem, content);
    assert_eq!(fix, content);
}
