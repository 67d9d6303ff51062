use review_flow::model::MetricData;
use review_flow::store::AppState;

fn sample(ai_minutes: f64, ai_lines: u32, manual_lines: u32, reviews: u32, resolved: u32) -> MetricData {
    MetricData {
        date: "2024-01-01".to_string(),
        ai_time_minutes_bits: ai_minutes.to_bits(),
        ai_lines_of_code: ai_lines,
        manual_lines_of_code: manual_lines,
        review_comments_count: reviews,
        resolved_comments_count: resolved,
    }
}

#[test]
fn summary_of_no_samples_is_all_zero() {
    let state = AppState::new();
    let s = state.get_metrics_summary();
    assert_eq!(s.total_sessions, 0);
    assert_eq!(s.total_ai_lines, 0);
    assert_eq!(s.total_manual_lines, 0);
    assert_eq!(s.total_reviews, 0);
    assert_eq!(s.total_resolved, 0);
}

#[test]
fn summary_totals_are_exact_sums() {
    let mut state = AppState::new();
    state.add_metric(sample(12.5, 120, 30, 4, 3));
    state.add_metric(sample(7.5, 80, 20, 6, 1));
    state.add_metric(sample(0.0, 0, 0, 0, 0));
    let s = state.get_metrics_summary();
    assert_eq!(s.total_sessions, 3);
    assert_eq!(s.total_ai_lines, 200);
    assert_eq!(s.total_manual_lines, 50);
    assert_eq!(s.total_reviews, 10);
    assert_eq!(s.total_resolved, 4);
}

#[test]
fn all_machine_written_lines_mean_full_efficiency() {
    let mut state = AppState::new();
    state.add_metric(sample(1.0, 100, 0, 0, 0));
    state.add_metric(sample(1.0, 0, 0, 0, 0));
    let s = state.get_metrics_summary();
    assert_eq!(s.total_ai_lines, 100);
    assert_eq!(s.total_manual_lines, 0);
    // The efficiency percentage the embedding layer derives from these
    // totals: full when no line was written by hand.
    let efficiency: f64 = if s.total_manual_lines > 0 {
        (s.total_ai_lines as f64 / (s.total_ai_lines as f64 + s.total_manual_lines as f64)) * 100.0
    } else {
        100.0
    };
    assert_eq!(efficiency, 100.0);
}

#[test]
fn samples_are_listed_in_order_with_time_bits_kept() {
    let mut state = AppState::new();
    state.add_metric(sample(2.25, 10, 5, 1, 1));
    state.add_metric(sample(4.75, 20, 5, 2, 0));
    let listed = state.get_metrics();
    assert_eq!(listed.len(), 2);
    assert_eq!(f64::from_bits(listed[0].ai_time_minutes_bits), 2.25);
    assert_eq!(f64::from_bits(listed[1].ai_time_minutes_bits), 4.75);
    assert_eq!(listed[1].ai_lines_of_code, 20);
}

#[test]
fn clear_metrics_empties_only_metrics() {
    let mut state = AppState::new();
    state.add_metric(sample(1.0, 1, 1, 1, 1));
    state.clear_metrics();
    assert!(state.get_metrics().is_empty());
    let s = state.get_metrics_summary();
    assert_eq!(s.total_sessions, 0);
}
