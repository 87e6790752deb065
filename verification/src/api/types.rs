//! Types shared by the platform clients.

use crate::text::{contains_str, contains_text, equals_folded, lower_text, nat_text, u64_text};
use vstd::prelude::*;
use vstd::string::*;

verus! {

/// The GLM platform a base URL belongs to.
#[derive(Debug, Clone, Copy, PartialEq, Eq, Structural)]
pub enum Platform {
    Zai,
    Zhipu,
}

/// The platform that a base URL names: `api.z.ai` is ZAI; `bigmodel.cn` or
/// `zhipu` is ZHIPU; ZAI is tried first.
pub open spec fn platform_of(url: Seq<char>) -> Option<Platform> {
    if contains_text(url, "api.z.ai"@) {
        Some(Platform::Zai)
    } else if contains_text(url, "bigmodel.cn"@) || contains_text(url, "zhipu"@) {
        Some(Platform::Zhipu)
    } else {
        None
    }
}

impl Platform {
    /// Detects the platform from a base URL.
    pub fn detect_from_url(base_url: &str) -> (r: Option<Platform>)
        ensures
            r == platform_of(base_url@),
    {
        if contains_str(base_url, "api.z.ai") {
            Some(Platform::Zai)
        } else if contains_str(base_url, "bigmodel.cn") || contains_str(base_url, "zhipu") {
            Some(Platform::Zhipu)
        } else {
            None
        }
    }
}

/// Errors of the GLM client.
#[derive(Debug, Clone)]
pub enum ApiError {
    CredentialNotFound(String),
    HttpError(String),
    ApiResponse(String),
    ParseError(String),
    PlatformDetectionFailed,
}

/// The text that an error reads as.
pub open spec fn api_error_text(e: ApiError) -> Seq<char> {
    match e {
        ApiError::CredentialNotFound(s) => "Credential not found: "@ + s@,
        ApiError::HttpError(s) => "HTTP request failed: "@ + s@,
        ApiError::ApiResponse(s) => "API returned error: "@ + s@,
        ApiError::ParseError(s) => "Failed to parse response: "@ + s@,
        ApiError::PlatformDetectionFailed => "Platform detection failed"@,
    }
}

/// A literal followed by a detail.
fn prefixed(prefix: &str, detail: &str) -> (r: String)
    ensures
        r@ == prefix@ + detail@,
{
    let mut r = String::from_str(prefix);
    r.append(detail);
    r
}

impl ApiError {
    /// The message of the error.
    pub fn message(&self) -> (r: String)
        ensures
            r@ == api_error_text(*self),
    {
        match self {
            ApiError::CredentialNotFound(s) => prefixed("Credential not found: ", s.as_str()),
            ApiError::HttpError(s) => prefixed("HTTP request failed: ", s.as_str()),
            ApiError::ApiResponse(s) => prefixed("API returned error: ", s.as_str()),
            ApiError::ParseError(s) => prefixed("Failed to parse response: ", s.as_str()),
            ApiError::PlatformDetectionFailed => String::from_str("Platform detection failed"),
        }
    }
}

/// One limit of the GLM quota reply.
#[derive(Debug, Clone)]
pub struct QuotaLimitItem {
    pub quota_type: String,
    /// 3 = five hours, 5 = MCP, 6 = weekly.
    pub unit: i32,
    pub usage: i64,
    pub current_value: i64,
    pub percentage: i32,
    /// Milliseconds since the epoch.
    pub next_reset_time: Option<i64>,
}

/// Model usage reply (older form).
#[derive(Debug, Clone)]
pub struct ModelUsageResponse {
    pub code: Option<i32>,
    pub msg: Option<String>,
    pub data: Option<ModelUsageData>,
}

#[derive(Debug, Clone)]
pub struct ModelUsageData {
    pub total: Option<i64>,
    pub completion_tokens: Option<i64>,
    pub prompt_tokens: Option<i64>,
}

/// Model usage reply (five-hour call count).
#[derive(Debug, Clone)]
pub struct ModelUsageApiResponse {
    pub code: Option<i32>,
    pub msg: Option<String>,
    pub data: Option<ModelUsageApiData>,
}

#[derive(Debug, Clone)]
pub struct ModelUsageApiData {
    pub total_usage: Option<ModelTotalUsage>,
}

impl ModelUsageApiData {
    /// The total usage, where the reply holds one.
    pub fn get_total_usage(&self) -> (r: Option<&ModelTotalUsage>)
        ensures
            r is Some <==> self.total_usage is Some,
            r is Some ==> *r.unwrap() == self.total_usage.unwrap(),
    {
        match &self.total_usage {
            Some(t) => Some(t),
            None => None,
        }
    }
}

#[derive(Debug, Clone, Copy, PartialEq, Eq, Structural)]
pub struct ModelTotalUsage {
    pub total_model_call_count: i64,
    pub total_tokens_usage: i64,
}

/// Tool usage reply.
#[derive(Debug, Clone)]
pub struct ToolUsageResponse {
    pub code: Option<i32>,
    pub msg: Option<String>,
    pub data: Option<ToolUsageData>,
}

#[derive(Debug, Clone, Copy, PartialEq, Eq, Structural)]
pub struct ToolUsageData {
    pub total: Option<i64>,
}

/// The level of a GLM plan.
#[derive(Debug, Clone, Copy, PartialEq, Eq, Structural)]
pub enum PlanLevel {
    Lite,
    Pro,
    Max,
}

/// The level that a name denotes, whatever the case of its letters.
pub open spec fn plan_level_of(s: Seq<char>) -> Option<PlanLevel> {
    if lower_text(s) == "lite"@ {
        Some(PlanLevel::Lite)
    } else if lower_text(s) == "pro"@ {
        Some(PlanLevel::Pro)
    } else if lower_text(s) == "max"@ {
        Some(PlanLevel::Max)
    } else {
        None
    }
}

impl PlanLevel {
    /// Reads a plan level; `lite`, `pro` and `max` in any letter case.
    pub fn from_str(s: &str) -> (r: Option<PlanLevel>)
        ensures
            r == plan_level_of(s@),
    {
        if equals_folded(s, "lite") {
            Some(PlanLevel::Lite)
        } else if equals_folded(s, "pro") {
            Some(PlanLevel::Pro)
        } else if equals_folded(s, "max") {
            Some(PlanLevel::Max)
        } else {
            None
        }
    }
}

/// The plan level does not depend on the letter case of its name.
pub proof fn lemma_plan_level_ignores_case(a: Seq<char>, b: Seq<char>)
    requires
        lower_text(a) == lower_text(b),
    ensures
        plan_level_of(a) == plan_level_of(b),
{
}

/// Combined usage statistics of a GLM plan.
#[derive(Debug, Clone)]
pub struct UsageStats {
    pub token_usage: Option<QuotaUsage>,
    pub mcp_usage: Option<QuotaUsage>,
    pub weekly_usage: Option<QuotaUsage>,
    pub call_count: Option<i64>,
    pub tokens_used: Option<i64>,
    pub level: Option<PlanLevel>,
}

/// Usage of one quota.
#[derive(Debug, Clone)]
pub struct QuotaUsage {
    pub used: i64,
    pub limit: i64,
    pub percentage: u8,
    pub time_window: String,
    /// Seconds since the epoch.
    pub reset_at: Option<i64>,
}

impl QuotaUsage {
    /// The quota as it reads: its percentage followed by `%`.
    pub fn to_text(&self) -> (r: String)
        ensures
            r@ == nat_text(self.percentage as nat) + "%"@,
    {
        let mut r = u64_text(self.percentage as u64);
        r.append("%");
        r
    }

    /// A copy of the quota.
    pub fn duplicate(&self) -> (r: QuotaUsage)
        ensures
            r == *self,
    {
        QuotaUsage {
            used: self.used,
            limit: self.limit,
            percentage: self.percentage,
            time_window: self.time_window.clone(),
            reset_at: self.reset_at,
        }
    }
}

/// A copy of an optional quota.
pub fn duplicate_quota(q: &Option<QuotaUsage>) -> (r: Option<QuotaUsage>)
    ensures
        r == *q,
{
    match q {
        Some(u) => Some(u.duplicate()),
        None => None,
    }
}

impl UsageStats {
    /// A copy of the statistics.
    pub fn duplicate(&self) -> (r: UsageStats)
        ensures
            r == *self,
    {
        UsageStats {
            token_usage: duplicate_quota(&self.token_usage),
            mcp_usage: duplicate_quota(&self.mcp_usage),
            weekly_usage: duplicate_quota(&self.weekly_usage),
            call_count: self.call_count,
            tokens_used: self.tokens_used,
            level: self.level,
        }
    }
}

} // verus!
