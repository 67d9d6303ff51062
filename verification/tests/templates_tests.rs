use review_flow::model::CoreError;
use review_flow::templates::fetch_remote_templates;

#[test]
fn demo_url_yields_builtin_templates() {
    let ts = fetch_remote_templates("https://templates.internal/demo/list").unwrap();
    assert_eq!(ts.len(), 3);
    assert_eq!(ts[0].id, "demo-api-design");
    assert_eq!(ts[0].name, "API 设计规范");
    assert!(ts[0].content.starts_with("# API 设计规范"));
    assert_eq!(ts[1].id, "demo-db-design");
    assert_eq!(ts[1].description, "数据库表结构设计模板");
    assert_eq!(ts[2].id, "demo-prd-template");
    assert!(ts[2].content.contains("验收标准"));
}

#[test]
fn example_url_is_also_recognised() {
    let ts = fetch_remote_templates("http://example.org/any").unwrap();
    assert_eq!(ts.len(), 3);
}

#[test]
fn other_urls_are_rejected_by_design() {
    let r = fetch_remote_templates("https://registry.corp/templates");
    assert_eq!(r.unwrap_err(), CoreError::UnsupportedSource);
}

#[test]
fn empty_url_is_rejected() {
    let r = fetch_remote_templates("");
    assert_eq!(r.unwrap_err(), CoreError::UnsupportedSource);
}
