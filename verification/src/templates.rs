//! The template lookup: a recognised source address yields the three built-in
//! document templates; any other address is a designed rejection.

use vstd::prelude::*;
use vstd::string::StringExecFns;

use crate::model::{CoreError, Template};
use crate::text::{chars_of, contains_chars, contains_seq};

verus! {

/// `ts` is exactly the built-in demonstration template list.
pub open spec fn is_demo_templates(ts: Seq<Template>) -> bool {
    &&& ts.len() == 3
    &&& ts[0].id@ == "demo-api-design"@
    &&& ts[0].name@ == "API 设计规范"@
    &&& ts[0].description@ == "RESTful API 设计规范模板"@
    &&& ts[0].content@ == "# API 设计规范\n\n## 设计原则\n1. 使用名词复数形式表示资源\n2. 使用 HTTP 方法表示操作类型\n3. 使用状态码表示请求结果"@
    &&& ts[1].id@ == "demo-db-design"@
    &&& ts[1].name@ == "数据库设计规范"@
    &&& ts[1].description@ == "数据库表结构设计模板"@
    &&& ts[1].content@ == "# 数据库设计规范\n\n## 命名规范\n- 表名：小写下划线，复数形式\n- 字段名：小写下划线\n- 索引名：idx_表名_字段名"@
    &&& ts[2].id@ == "demo-prd-template"@
    &&& ts[2].name@ == "PRD 文档模板"@
    &&& ts[2].description@ == "产品需求文档标准模板"@
    &&& ts[2].content@ == "# PRD 文档\n\n## 1. 背景\n描述项目背景和目标\n\n## 2. 需求描述\n详细描述功能需求\n\n## 3. 验收标准\n- [ ] 标准1\n- [ ] 标准2"@
}

/// A template source is recognised when its address names the demonstration
/// set: it holds "demo" or "example".
pub open spec fn is_supported_source(url: Seq<char>) -> bool {
    contains_seq(url, "demo"@) || contains_seq(url, "example"@)
}

/// The templates offered for `url`: the built-in demonstration list for a
/// recognised address, the designed rejection for any other.
pub fn fetch_remote_templates(url: &str) -> (r: Result<Vec<Template>, CoreError>)
    ensures
        is_supported_source(url@) == (r is Ok),
        r matches Ok(ts) ==> is_demo_templates(ts@),
        r matches Err(e) ==> e == CoreError::UnsupportedSource,
{
    let u = chars_of(url);
    let demo = chars_of("demo");
    let example = chars_of("example");
    if contains_chars(&u, &demo) || contains_chars(&u, &example) {
        let mut ts: Vec<Template> = Vec::new();
        ts.push(
            Template {
                id: String::from_str("demo-api-design"),
                name: String::from_str("API 设计规范"),
                description: String::from_str("RESTful API 设计规范模板"),
                content: String::from_str(
                    "# API 设计规范\n\n## 设计原则\n1. 使用名词复数形式表示资源\n2. 使用 HTTP 方法表示操作类型\n3. 使用状态码表示请求结果",
                ),
            },
        );
        ts.push(
            Template {
                id: String::from_str("demo-db-design"),
                name: String::from_str("数据库设计规范"),
                description: String::from_str("数据库表结构设计模板"),
                content: String::from_str(
                    "# 数据库设计规范\n\n## 命名规范\n- 表名：小写下划线，复数形式\n- 字段名：小写下划线\n- 索引名：idx_表名_字段名",
                ),
            },
        );
        ts.push(
            Template {
                id: String::from_str("demo-prd-template"),
                name: String::from_str("PRD 文档模板"),
                description: String::from_str("产品需求文档标准模板"),
                content: String::from_str(
                    "# PRD 文档\n\n## 1. 背景\n描述项目背景和目标\n\n## 2. 需求描述\n详细描述功能需求\n\n## 3. 验收标准\n- [ ] 标准1\n- [ ] 标准2",
                ),
            },
        );
        Ok(ts)
    } else {
        Err(CoreError::UnsupportedSource)
    }
}

} // verus!
