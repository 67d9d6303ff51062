use review_flow::diagram::generate_plantuml;

#[test]
fn login_keywords_yield_the_login_sequence() {
    let uml = generate_plantuml("用户登录流程");
    assert!(uml.starts_with("@startuml"));
    assert!(uml.ends_with("@enduml"));
    assert!(uml.contains("认证服务"));
    assert!(uml.contains("发送登录请求"));
}

#[test]
fn login_keyword_is_matched_case_insensitively() {
    let uml = generate_plantuml("LOGIN flow for the portal");
    assert!(uml.contains("认证服务"));
}

#[test]
fn order_keywords_yield_the_order_sequence() {
    let uml = generate_plantuml("order placement journey");
    assert!(uml.contains("订单服务"));
    assert!(uml.contains("支付服务"));
}

#[test]
fn class_keywords_yield_the_class_diagram() {
    let uml = generate_plantuml("class structure of the shop");
    assert!(uml.contains("class User"));
    assert!(uml.contains("class Product"));
}

#[test]
fn login_wins_over_later_keyword_groups() {
    let uml = generate_plantuml("登录后的订单 class 设计");
    assert!(uml.contains("认证服务"));
    assert!(!uml.contains("class User"));
}

#[test]
fn other_descriptions_yield_the_default_flow() {
    let uml = generate_plantuml("随便画一个流程");
    assert!(uml.contains("业务流程图"));
}
