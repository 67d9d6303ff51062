//! Data model: review comments, derived training pairs, metric samples,
//! document templates, and the error taxonomy.

use vstd::prelude::*;
use vstd::string::StringExecFns;

verus! {

/// How severe a review comment is.
#[derive(Clone, Copy, Debug, PartialEq, Eq, Structural)]
pub enum Severity {
    Critical,
    Warning,
    Suggestion,
}

/// One captured or manually entered review comment. Identity is `id`;
/// the store does not enforce uniqueness, duplicates may coexist.
#[derive(Debug)]
pub struct ReviewComment {
    pub id: String,
    pub author: String,
    pub content: String,
    pub file_path: Option<String>,
    pub line_number: Option<u32>,
    pub severity: Severity,
    pub created_at: String,
}

impl Clone for ReviewComment {
    fn clone(&self) -> (r: Self)
        ensures
            r == *self,
    {
        ReviewComment {
            id: self.id.clone(),
            author: self.author.clone(),
            content: self.content.clone(),
            file_path: match &self.file_path {
                Some(p) => Some(p.clone()),
                None => None,
            },
            line_number: self.line_number,
            severity: self.severity,
            created_at: self.created_at.clone(),
        }
    }
}

/// A training pair derived from one review comment: the problem the comment
/// describes and the fix it suggests.
#[derive(Debug)]
pub struct RAGReviewPair {
    pub error_logic: String,
    pub fix_suggestion: String,
    pub source_comment: ReviewComment,
}

impl Clone for RAGReviewPair {
    fn clone(&self) -> (r: Self)
        ensures
            r == *self,
    {
        RAGReviewPair {
            error_logic: self.error_logic.clone(),
            fix_suggestion: self.fix_suggestion.clone(),
            source_comment: self.source_comment.clone(),
        }
    }
}

/// One productivity sample. The per-session generation time is carried as the
/// bit pattern of the caller's floating-point minutes value: the library
/// treats it as opaque payload and never computes with it.
#[derive(Debug)]
pub struct MetricData {
    pub date: String,
    pub ai_time_minutes_bits: u64,
    pub ai_lines_of_code: u32,
    pub manual_lines_of_code: u32,
    pub review_comments_count: u32,
    pub resolved_comments_count: u32,
}

impl Clone for MetricData {
    fn clone(&self) -> (r: Self)
        ensures
            r == *self,
    {
        MetricData {
            date: self.date.clone(),
            ai_time_minutes_bits: self.ai_time_minutes_bits,
            ai_lines_of_code: self.ai_lines_of_code,
            manual_lines_of_code: self.manual_lines_of_code,
            review_comments_count: self.review_comments_count,
            resolved_comments_count: self.resolved_comments_count,
        }
    }
}

/// A document template offered for a recognised template source.
#[derive(Debug)]
pub struct Template {
    pub id: String,
    pub name: String,
    pub description: String,
    pub content: String,
}

impl Clone for Template {
    fn clone(&self) -> (r: Self)
        ensures
            r == *self,
    {
        Template {
            id: self.id.clone(),
            name: self.name.clone(),
            description: self.description.clone(),
            content: self.content.clone(),
        }
    }
}

/// The error taxonomy. `StateUnavailable` is fatal store corruption; the
/// capture errors are recoverable and the caller may retry; an unsupported
/// template source is a designed rejection.
#[derive(Clone, Copy, Debug, PartialEq, Eq, Structural)]
pub enum CoreError {
    StateUnavailable,
    SurfaceNotOpen,
    CaptureTimeout,
    CaptureDecodeError,
    UnsupportedSource,
}

/// The human-readable message of each error variant.
pub open spec fn message_of(e: CoreError) -> Seq<char> {
    match e {
        CoreError::StateUnavailable => "内部状态不可用"@,
        CoreError::SurfaceNotOpen => "CodeHub 窗口未打开"@,
        CoreError::CaptureTimeout => "获取评论超时或失败"@,
        CoreError::CaptureDecodeError => "解析评论失败"@,
        CoreError::UnsupportedSource => "暂不支持该地址，请使用包含 'demo' 或 'example' 的 URL 查看演示"@,
    }
}

impl CoreError {
    /// The message surfaced to the caller for this error.
    pub fn message(&self) -> (r: String)
        ensures
            r@ == message_of(*self),
    {
        match self {
            CoreError::StateUnavailable => String::from_str("内部状态不可用"),
            CoreError::SurfaceNotOpen => String::from_str("CodeHub 窗口未打开"),
            CoreError::CaptureTimeout => String::from_str("获取评论超时或失败"),
            CoreError::CaptureDecodeError => String::from_str("解析评论失败"),
            CoreError::UnsupportedSource => String::from_str(
                "暂不支持该地址，请使用包含 'demo' 或 'example' 的 URL 查看演示",
            ),
        }
    }
}

} // verus!
