//! The diagram-text generator: a fixed diagram template keyed by keyword
//! match on the lowercased description.

use vstd::prelude::*;
use vstd::string::StringExecFns;

use crate::text::{chars_of, contains_chars, contains_seq, lower_chars, lower_of};

verus! {

/// The sequence diagram offered for descriptions about signing in.
pub open spec fn login_uml() -> Seq<char> {
    "@startuml\n!theme plain\nskinparam backgroundColor #FEFEFE\n\nactor 用户\nparticipant \"前端\" as FE\nparticipant \"认证服务\" as Auth\ndatabase \"用户数据库\" as DB\n\n用户 -> FE: 输入账号密码\nFE -> Auth: 发送登录请求\nAuth -> DB: 查询用户信息\nDB --> Auth: 返回用户数据\nAuth -> Auth: 验证密码\n\nalt 验证成功\n    Auth --> FE: 返回 Token\n    FE --> 用户: 登录成功\nelse 验证失败\n    Auth --> FE: 返回错误信息\n    FE --> 用户: 显示错误提示\nend\n\n@enduml"@
}

/// The sequence diagram offered for descriptions about ordering.
pub open spec fn order_uml() -> Seq<char> {
    "@startuml\n!theme plain\nskinparam backgroundColor #FEFEFE\n\nactor 用户\nparticipant \"订单服务\" as Order\nparticipant \"库存服务\" as Stock\nparticipant \"支付服务\" as Pay\ndatabase \"订单数据库\" as DB\n\n用户 -> Order: 创建订单\nOrder -> Stock: 检查库存\nStock --> Order: 库存充足\nOrder -> DB: 保存订单(待支付)\nOrder --> 用户: 订单创建成功\n\n用户 -> Pay: 发起支付\nPay -> DB: 更新订单状态\nDB --> Pay: 更新成功\nPay --> 用户: 支付成功\n\n@enduml"@
}

/// The class diagram offered for descriptions about classes.
pub open spec fn class_uml() -> Seq<char> {
    "@startuml\n!theme plain\nskinparam backgroundColor #FEFEFE\n\nclass User {\n  - id: Long\n  - username: String\n  - email: String\n  + login(): Boolean\n  + logout(): void\n}\n\nclass Order {\n  - id: Long\n  - userId: Long\n  - totalAmount: BigDecimal\n  - status: OrderStatus\n  + pay(): Boolean\n  + cancel(): Boolean\n}\n\nclass Product {\n  - id: Long\n  - name: String\n  - price: BigDecimal\n  - stock: Integer\n  + checkStock(): Boolean\n}\n\nUser \"1\" --> \"*\" Order : 拥有\nOrder \"*\" --> \"1\" Product : 包含\n\n@enduml"@
}

/// The activity diagram offered when no keyword matches.
pub open spec fn default_uml() -> Seq<char> {
    "@startuml\n!theme plain\nskinparam backgroundColor #FEFEFE\n\ntitle 业务流程图\n\n|用户|\n:start;\n:输入需求;\n\n|系统|\n:处理请求;\nif (验证通过?) then (是)\n  :执行业务逻辑;\n  :返回成功结果;\nelse (否)\n  :返回错误信息;\nendif\n\n|用户|\n:查看结果;\n:结束;\n\nstop\n\n@enduml"@
}

/// Which diagram a description earns: keyed by the first keyword group whose
/// words occur in the lowercased description.
pub open spec fn plantuml_of(description: Seq<char>) -> Seq<char> {
    let l = lower_of(description);
    if contains_seq(l, "登录"@) || contains_seq(l, "认证"@) || contains_seq(l, "login"@) {
        login_uml()
    } else if contains_seq(l, "订单"@) || contains_seq(l, "下单"@) || contains_seq(l, "order"@) {
        order_uml()
    } else if contains_seq(l, "类"@) || contains_seq(l, "class"@) {
        class_uml()
    } else {
        default_uml()
    }
}

/// The diagram text generated for `description`.
pub fn generate_plantuml(description: &str) -> (r: String)
    ensures
        r@ == plantuml_of(description@),
{
    let cs = chars_of(description);
    let l = lower_chars(&cs);
    let k_login1 = chars_of("登录");
    let k_login2 = chars_of("认证");
    let k_login3 = chars_of("login");
    if contains_chars(&l, &k_login1) || contains_chars(&l, &k_login2) || contains_chars(
        &l,
        &k_login3,
    ) {
        return String::from_str(
            "@startuml\n!theme plain\nskinparam backgroundColor #FEFEFE\n\nactor 用户\nparticipant \"前端\" as FE\nparticipant \"认证服务\" as Auth\ndatabase \"用户数据库\" as DB\n\n用户 -> FE: 输入账号密码\nFE -> Auth: 发送登录请求\nAuth -> DB: 查询用户信息\nDB --> Auth: 返回用户数据\nAuth -> Auth: 验证密码\n\nalt 验证成功\n    Auth --> FE: 返回 Token\n    FE --> 用户: 登录成功\nelse 验证失败\n    Auth --> FE: 返回错误信息\n    FE --> 用户: 显示错误提示\nend\n\n@enduml",
        );
    }
    let k_order1 = chars_of("订单");
    let k_order2 = chars_of("下单");
    let k_order3 = chars_of("order");
    if contains_chars(&l, &k_order1) || contains_chars(&l, &k_order2) || contains_chars(
        &l,
        &k_order3,
    ) {
        return String::from_str(
            "@startuml\n!theme plain\nskinparam backgroundColor #FEFEFE\n\nactor 用户\nparticipant \"订单服务\" as Order\nparticipant \"库存服务\" as Stock\nparticipant \"支付服务\" as Pay\ndatabase \"订单数据库\" as DB\n\n用户 -> Order: 创建订单\nOrder -> Stock: 检查库存\nStock --> Order: 库存充足\nOrder -> DB: 保存订单(待支付)\nOrder --> 用户: 订单创建成功\n\n用户 -> Pay: 发起支付\nPay -> DB: 更新订单状态\nDB --> Pay: 更新成功\nPay --> 用户: 支付成功\n\n@enduml",
        );
    }
    let k_class1 = chars_of("类");
    let k_class2 = chars_of("class");
    if contains_chars(&l, &k_class1) || contains_chars(&l, &k_class2) {
        return String::from_str(
            "@startuml\n!theme plain\nskinparam backgroundColor #FEFEFE\n\nclass User {\n  - id: Long\n  - username: String\n  - email: String\n  + login(): Boolean\n  + logout(): void\n}\n\nclass Order {\n  - id: Long\n  - userId: Long\n  - totalAmount: BigDecimal\n  - status: OrderStatus\n  + pay(): Boolean\n  + cancel(): Boolean\n}\n\nclass Product {\n  - id: Long\n  - name: String\n  - price: BigDecimal\n  - stock: Integer\n  + checkStock(): Boolean\n}\n\nUser \"1\" --> \"*\" Order : 拥有\nOrder \"*\" --> \"1\" Product : 包含\n\n@enduml",
        );
    }
    String::from_str(
        "@startuml\n!theme plain\nskinparam backgroundColor #FEFEFE\n\ntitle 业务流程图\n\n|用户|\n:start;\n:输入需求;\n\n|系统|\n:处理请求;\nif (验证通过?) then (是)\n  :执行业务逻辑;\n  :返回成功结果;\nelse (否)\n  :返回错误信息;\nendif\n\n|用户|\n:查看结果;\n:结束;\n\nstop\n\n@enduml",
    )
}

} // verus!
