//! The GLM client: its base URL and credentials, the requests it makes to
//! the monitor API, and how the replies become usage statistics.

use crate::api::types::{
    platform_of, ApiError, ModelUsageApiResponse, PlanLevel, Platform, QuotaLimitItem, QuotaUsage,
    UsageStats, plan_level_of,
};
use crate::api::url::{percent_encoded, url_encode};
use crate::text::{
    concat_str, contains_text, lemma_replace_absent, nat_text, occurs_at, replace_str, replace_text,
    same_text, u64_text,
};
use crate::timefmt::{format_millis_at_offset, zoned_timestamp_text};
use vstd::prelude::*;
use vstd::string::*;
use vstd::utf8::encode_utf8;

verus! {

/// Reply of the quota endpoint, with the plan level inside `data`.
#[derive(Debug)]
pub struct QuotaLimitResponseWithLevel {
    pub code: i32,
    pub msg: String,
    pub data: QuotaLimitDataWithLevel,
    pub success: bool,
}

#[derive(Debug)]
pub struct QuotaLimitDataWithLevel {
    pub level: Option<String>,
    pub limits: Vec<QuotaLimitItem>,
}

/// GLM API client: where the monitor API is, and the token it is asked with.
#[derive(Debug)]
pub struct GlmApiClient {
    pub base_url: String,
    pub token: String,
    pub platform: Platform,
}

/// The first value that is present.
pub open spec fn first_present(a: Option<String>, b: Option<String>) -> Option<String> {
    match a {
        Some(x) => Some(x),
        None => b,
    }
}

/// The views of an optional text.
pub open spec fn opt_text(o: Option<String>) -> Option<Seq<char>> {
    match o {
        Some(s) => Some(s@),
        None => None,
    }
}

/// The base URL used when none is configured.
pub open spec fn default_glm_base_url() -> Seq<char> {
    "https://open.bigmodel.cn/api/anthropic"@
}

/// The monitor API root of a base URL: `/api/anthropic` becomes `/api`,
/// then every remaining `/anthropic` is dropped.
pub open spec fn monitor_base(url: Seq<char>) -> Seq<char> {
    replace_text(replace_text(url, "/api/anthropic"@, "/api"@), "/anthropic"@, ""@)
}

/// The offset east of UTC in which each platform reads query times:
/// Beijing time for ZHIPU, UTC for ZAI.
pub open spec fn platform_offset_secs(p: Platform) -> i32 {
    match p {
        Platform::Zhipu => 28800,
        Platform::Zai => 0,
    }
}

/// The pattern of the query times.
pub open spec fn query_time_pattern() -> Seq<char> {
    "%Y-%m-%d %H:%M:%S"@
}

/// Five hours in milliseconds.
pub open spec fn five_hours_ms() -> int {
    18000000
}

/// Milliseconds to seconds, rounding toward zero.
pub open spec fn millis_to_secs(ms: int) -> int {
    if ms >= 0 {
        ms / 1000
    } else {
        -((-ms) / 1000)
    }
}

/// A reported percentage kept within 0..=100.
pub open spec fn clamp_percentage(p: i32) -> u8 {
    if p < 0 {
        0
    } else if p > 100 {
        100
    } else {
        p as u8
    }
}

/// Whether a limit is of the given type (and unit, where one is asked for).
pub open spec fn limit_matches(item: QuotaLimitItem, kind: Seq<char>, unit: Option<i32>) -> bool {
    &&& item.quota_type@ == kind
    &&& unit matches Some(u) ==> item.unit == u
}

/// `i` is the first limit of the given type and unit.
pub open spec fn is_first_limit(
    limits: Seq<QuotaLimitItem>,
    kind: Seq<char>,
    unit: Option<i32>,
    i: int,
) -> bool {
    &&& 0 <= i < limits.len()
    &&& limit_matches(limits[i], kind, unit)
    &&& forall|j: int| 0 <= j < i ==> !limit_matches(limits[j], kind, unit)
}

/// The first limit of the given type and unit, if any.
pub open spec fn first_limit(limits: Seq<QuotaLimitItem>, kind: Seq<char>, unit: Option<i32>) -> Option<
    int,
> {
    if exists|i: int| is_first_limit(limits, kind, unit, i) {
        Some(choose|i: int| is_first_limit(limits, kind, unit, i))
    } else {
        None
    }
}

/// `q` is the usage that a limit reports, over the named window.
pub open spec fn is_usage_of(q: QuotaUsage, item: QuotaLimitItem, window: Seq<char>) -> bool {
    &&& q.used == item.current_value
    &&& q.limit == item.usage
    &&& q.percentage == clamp_percentage(item.percentage)
    &&& q.time_window@ == window
    &&& q.reset_at == match item.next_reset_time {
        Some(ms) => Some(millis_to_secs(ms as int) as i64),
        None => None,
    }
}

/// `q` is the usage of the first limit of the given type and unit, or absent
/// where there is none.
pub open spec fn usage_from_limits(
    q: Option<QuotaUsage>,
    limits: Seq<QuotaLimitItem>,
    kind: Seq<char>,
    unit: Option<i32>,
    window: Seq<char>,
) -> bool {
    match first_limit(limits, kind, unit) {
        None => q is None,
        Some(i) => q matches Some(u) && is_usage_of(u, limits[i], window),
    }
}

/// The statistics that a successful quota reply gives, before the call
/// count and token totals are known.
pub open spec fn stats_from_quota(s: UsageStats, data: QuotaLimitDataWithLevel) -> bool {
    &&& usage_from_limits(s.token_usage, data.limits@, "TOKENS_LIMIT"@, Some(3i32), "5h"@)
    &&& usage_from_limits(s.mcp_usage, data.limits@, "TIME_LIMIT"@, None, "30d"@)
    &&& usage_from_limits(s.weekly_usage, data.limits@, "TOKENS_LIMIT"@, Some(6i32), "7d"@)
    &&& s.level == match data.level {
        Some(l) => plan_level_of(l@),
        None => None,
    }
    &&& s.call_count is None
    &&& s.tokens_used is None
}

/// The end of the five-hour window whose calls are counted, in milliseconds:
/// the token quota's reset time, in whole seconds.
pub open spec fn window_reset_ms(s: UsageStats) -> Option<int> {
    match s.token_usage {
        Some(t) => match t.reset_at {
            Some(secs) => Some(secs * 1000),
            None => None,
        },
        None => None,
    }
}

/// The model-usage query URL for a window given as two query times.
pub open spec fn model_usage_url(base: Seq<char>, start: Seq<char>, end: Seq<char>) -> Seq<char> {
    base + "/monitor/usage/model-usage"@ + "?startTime="@ + percent_encoded(encode_utf8(start))
        + "&endTime="@ + percent_encoded(encode_utf8(end))
}

/// The model-usage query for a window ending at `reset_ms` (or, where that
/// instant cannot be told, at `now_ms`) and starting five hours earlier,
/// with both ends read at the platform's offset; `None` where either end
/// cannot be written.
pub open spec fn model_usage_query_text(
    base: Seq<char>,
    platform: Platform,
    reset_ms: i64,
    now_ms: i64,
) -> Option<Seq<char>> {
    let off = platform_offset_secs(platform);
    let end_ms = if zoned_timestamp_text(reset_ms, off, query_time_pattern()) is Some {
        reset_ms
    } else {
        now_ms
    };
    let end = zoned_timestamp_text(end_ms, off, query_time_pattern());
    let start = if end_ms - five_hours_ms() >= i64::MIN {
        zoned_timestamp_text((end_ms - five_hours_ms()) as i64, off, query_time_pattern())
    } else {
        None
    };
    if end is Some && start is Some {
        Some(model_usage_url(base, start.unwrap(), end.unwrap()))
    } else {
        None
    }
}

/// The first limit of the given type (and unit), if any.
fn find_limit(limits: &Vec<QuotaLimitItem>, kind: &str, unit: Option<i32>) -> (r: Option<usize>)
    ensures
        match r {
            Some(i) => first_limit(limits@, kind@, unit) == Some(i as int),
            None => first_limit(limits@, kind@, unit) is None,
        },
{
    let n = limits.len();
    let mut i: usize = 0;
    while i < n
        invariant
            n == limits@.len(),
            i <= n,
            forall|j: int| 0 <= j < i ==> !limit_matches(limits@[j], kind@, unit),
        decreases n - i,
    {
        let item = &limits[i];
        let unit_ok = match unit {
            Some(u) => item.unit == u,
            None => true,
        };
        if unit_ok && same_text(item.quota_type.as_str(), kind) {
            proof {
                assert(is_first_limit(limits@, kind@, unit, i as int));
                let k = choose|k: int| is_first_limit(limits@, kind@, unit, k);
                if k < i {
                    assert(!limit_matches(limits@[k], kind@, unit));
                } else if k > i {
                    assert(!limit_matches(limits@[i as int], kind@, unit));
                }
            }
            return Some(i);
        }
        i = i + 1;
    }
    proof {
        assert(!exists|k: int| is_first_limit(limits@, kind@, unit, k));
    }
    None
}

/// Milliseconds to seconds, rounding toward zero.
fn millis_to_secs_exec(ms: i64) -> (r: i64)
    ensures
        r == millis_to_secs(ms as int),
{
    ms / 1000
}

/// The usage that a limit reports, over the named window.
fn usage_of(item: &QuotaLimitItem, window: &str) -> (q: QuotaUsage)
    ensures
        is_usage_of(q, *item, window@),
{
    let p = item.percentage;
    let percentage: u8 = if p < 0 {
        0
    } else if p > 100 {
        100
    } else {
        p as u8
    };
    let reset_at = match item.next_reset_time {
        Some(ms) => Some(millis_to_secs_exec(ms)),
        None => None,
    };
    QuotaUsage {
        used: item.current_value,
        limit: item.usage,
        percentage,
        time_window: String::from_str(window),
        reset_at,
    }
}

/// The usage of the first limit of the given type and unit.
fn usage_from(limits: &Vec<QuotaLimitItem>, kind: &str, unit: Option<i32>, window: &str) -> (r:
    Option<QuotaUsage>)
    ensures
        usage_from_limits(r, limits@, kind@, unit, window@),
{
    match find_limit(limits, kind, unit) {
        Some(i) => Some(usage_of(&limits[i], window)),
        None => None,
    }
}

impl GlmApiClient {
    /// Builds the client from the values of `GLM_AUTH_TOKEN`,
    /// `ANTHROPIC_AUTH_TOKEN`, `GLM_BASE_URL` and `ANTHROPIC_BASE_URL`
    /// (each absent where unset), falling back to the API key and base URL
    /// of the editor's `settings.json` (absent where it names none): the
    /// first token present, the first base URL present or the ZHIPU default,
    /// whose platform must be recognised.
    pub fn from_env(
        glm_token: Option<String>,
        anthropic_token: Option<String>,
        glm_base_url: Option<String>,
        anthropic_base_url: Option<String>,
        settings_token: Option<String>,
        settings_base_url: Option<String>,
    ) -> (r: Result<GlmApiClient, ApiError>)
        ensures
            match first_present(first_present(glm_token, anthropic_token), settings_token) {
                None => r matches Err(ApiError::CredentialNotFound(m)) && m@
                    == "GLM_AUTH_TOKEN or ANTHROPIC_AUTH_TOKEN"@,
                Some(t) => {
                    let base = match first_present(
                        first_present(glm_base_url, anthropic_base_url),
                        settings_base_url,
                    ) {
                        Some(b) => b@,
                        None => default_glm_base_url(),
                    };
                    match platform_of(base) {
                        None => r matches Err(ApiError::PlatformDetectionFailed),
                        Some(p) => r matches Ok(c) && c.token == t && c.platform == p
                            && c.base_url@ == monitor_base(base),
                    }
                },
            },
    {
        let token = match glm_token {
            Some(t) => t,
            None => match anthropic_token {
                Some(t) => t,
                None => match settings_token {
                    Some(t) => t,
                    None => {
                        return Err(
                            ApiError::CredentialNotFound(
                                String::from_str("GLM_AUTH_TOKEN or ANTHROPIC_AUTH_TOKEN"),
                            ),
                        );
                    },
                },
            },
        };
        let base_url = match glm_base_url {
            Some(b) => b,
            None => match anthropic_base_url {
                Some(b) => b,
                None => match settings_base_url {
                    Some(b) => b,
                    None => String::from_str("https://open.bigmodel.cn/api/anthropic"),
                },
            },
        };
        let platform = match Platform::detect_from_url(base_url.as_str()) {
            Some(p) => p,
            None => {
                return Err(ApiError::PlatformDetectionFailed);
            },
        };
        proof {
            reveal_strlit("/api/anthropic");
            reveal_strlit("/anthropic");
        }
        let step = replace_str(base_url.as_str(), "/api/anthropic", "/api");
        let base_url = replace_str(step.as_str(), "/anthropic", "");
        Ok(GlmApiClient { base_url, token, platform })
    }

    /// The quota endpoint.
    pub fn quota_limit_url(&self) -> (r: String)
        ensures
            r@ == self.base_url@ + "/monitor/usage/quota/limit"@,
    {
        concat_str(self.base_url.as_str(), "/monitor/usage/quota/limit")
    }

    /// The headers every request carries: the bearer token and the JSON
    /// content type.
    pub fn request_headers(&self) -> (r: Vec<(String, String)>)
        ensures
            r@.len() == 2,
            r@[0].0@ == "Authorization"@,
            r@[0].1@ == "Bearer "@ + self.token@,
            r@[1].0@ == "Content-Type"@,
            r@[1].1@ == "application/json"@,
    {
        let mut r = Vec::new();
        r.push((String::from_str("Authorization"), concat_str("Bearer ", self.token.as_str())));
        r.push((String::from_str("Content-Type"), String::from_str("application/json")));
        r
    }

    /// A reply other than `200` is an error naming its status and reason.
    pub fn check_status(status: u16, status_text: &str) -> (r: Result<(), ApiError>)
        ensures
            status == 200 ==> r is Ok,
            status != 200 ==> (r matches Err(ApiError::ApiResponse(m)) && m@ == "Status "@
                + nat_text(status as nat) + ": "@ + status_text@),
    {
        if status == 200 {
            Ok(())
        } else {
            let mut m = String::from_str("Status ");
            let code = u64_text(status as u64);
            m.append(code.as_str());
            m.append(": ");
            m.append(status_text);
            Err(ApiError::ApiResponse(m))
        }
    }

    /// Statistics from a quota reply: an unsuccessful reply is an error
    /// carrying its message; a successful one gives the five-hour token
    /// quota (`TOKENS_LIMIT`, unit 3), the MCP quota (`TIME_LIMIT`), the
    /// weekly token quota (`TOKENS_LIMIT`, unit 6) and the plan level.
    pub fn usage_from_quota(reply: &QuotaLimitResponseWithLevel) -> (r: Result<UsageStats, ApiError>)
        ensures
            !reply.success ==> (r matches Err(ApiError::ApiResponse(m)) && m == reply.msg),
            reply.success ==> (r matches Ok(s) && stats_from_quota(s, reply.data)),
    {
        if !reply.success {
            return Err(ApiError::ApiResponse(reply.msg.clone()));
        }
        let level = match &reply.data.level {
            Some(l) => PlanLevel::from_str(l.as_str()),
            None => None,
        };
        let limits = &reply.data.limits;
        let token_usage = usage_from(limits, "TOKENS_LIMIT", Some(3), "5h");
        let mcp_usage = usage_from(limits, "TIME_LIMIT", None, "30d");
        let weekly_usage = usage_from(limits, "TOKENS_LIMIT", Some(6), "7d");
        Ok(
            UsageStats {
                token_usage,
                mcp_usage,
                weekly_usage,
                call_count: None,
                tokens_used: None,
                level,
            },
        )
    }

    /// The end of the window whose calls are counted: the token quota's
    /// reset time, in whole seconds, as milliseconds.
    pub fn window_reset_ms(stats: &UsageStats) -> (r: Option<i64>)
        requires
            window_reset_ms(*stats) matches Some(ms) ==> i64::MIN <= ms <= i64::MAX,
        ensures
            match window_reset_ms(*stats) {
                Some(ms) => r == Some(ms as i64),
                None => r is None,
            },
    {
        match &stats.token_usage {
            Some(t) => match t.reset_at {
                Some(secs) => Some(secs * 1000),
                None => None,
            },
            None => None,
        }
    }

    /// The model-usage query for the window that ends at `reset_ms` (the
    /// reset time of the token quota) and starts five hours earlier; no
    /// query without a reset time. `now_ms` is the current time, used where
    /// the reset time is beyond what can be written.
    pub fn model_usage_query(&self, reset_ms: Option<i64>, now_ms: i64) -> (r: Option<String>)
        ensures
            match reset_ms {
                None => r is None,
                Some(ms) => opt_text(r) == model_usage_query_text(
                    self.base_url@,
                    self.platform,
                    ms,
                    now_ms,
                ),
            },
    {
        let reset = match reset_ms {
            Some(ms) => ms,
            None => {
                return None;
            },
        };
        let offset: i32 = match self.platform {
            Platform::Zhipu => 28800,
            Platform::Zai => 0,
        };
        let pattern = "%Y-%m-%d %H:%M:%S";
        let (end_ms, end) = match format_millis_at_offset(reset, offset, pattern) {
            Some(t) => (reset, t),
            None => match format_millis_at_offset(now_ms, offset, pattern) {
                Some(t) => (now_ms, t),
                None => {
                    return None;
                },
            },
        };
        if end_ms < i64::MIN + 18000000 {
            return None;
        }
        let start = match format_millis_at_offset(end_ms - 18000000, offset, pattern) {
            Some(t) => t,
            None => {
                return None;
            },
        };
        Some(Self::model_usage_url_for(self.base_url.as_str(), start.as_str(), end.as_str()))
    }

    /// The model-usage query URL for a window whose ends are already written
    /// as query times: both are percent-encoded.
    pub fn model_usage_url_for(base: &str, start: &str, end: &str) -> (r: String)
        ensures
            r@ == model_usage_url(base@, start@, end@),
    {
        let mut url = concat_str(base, "/monitor/usage/model-usage");
        url.append("?startTime=");
        let start_enc = url_encode(start);
        url.append(start_enc.as_str());
        url.append("&endTime=");
        let end_enc = url_encode(end);
        url.append(end_enc.as_str());
        url
    }

    /// The five-hour call count and token total of a model-usage reply, where
    /// it holds them.
    pub fn model_usage_totals(reply: &ModelUsageApiResponse) -> (r: Option<(i64, i64)>)
        ensures
            r == match reply.data {
                Some(d) => match d.total_usage {
                    Some(u) => Some((u.total_model_call_count, u.total_tokens_usage)),
                    None => None,
                },
                None => None,
            },
    {
        match &reply.data {
            Some(d) => match d.get_total_usage() {
                Some(u) => Some((u.total_model_call_count, u.total_tokens_usage)),
                None => None,
            },
            None => None,
        }
    }

    /// The five-hour totals that a model-usage reply gives: none unless the
    /// status is 200 and the body could be read (`reply` absent where it
    /// could not), else what `model_usage_totals` finds in it.
    pub fn model_usage_from_reply(status: u16, reply: Option<&ModelUsageApiResponse>) -> (r: Option<(i64, i64)>)
        ensures
            r == if status == 200 && reply is Some {
                match reply.unwrap().data {
                    Some(d) => match d.total_usage {
                        Some(u) => Some((u.total_model_call_count, u.total_tokens_usage)),
                        None => None,
                    },
                    None => None,
                }
            } else {
                None
            },
    {
        if status != 200 {
            return None;
        }
        match reply {
            Some(body) => Self::model_usage_totals(body),
            None => None,
        }
    }

    /// The statistics completed with the call count and token total, where
    /// the model-usage query gave them.
    pub fn with_model_usage(stats: UsageStats, totals: Option<(i64, i64)>) -> (r: UsageStats)
        ensures
            r.token_usage == stats.token_usage,
            r.mcp_usage == stats.mcp_usage,
            r.weekly_usage == stats.weekly_usage,
            r.level == stats.level,
            r.call_count == match totals {
                Some(t) => Some(t.0),
                None => None::<i64>,
            },
            r.tokens_used == match totals {
                Some(t) => Some(t.1),
                None => None::<i64>,
            },
    {
        let (call_count, tokens_used) = match totals {
            Some((cc, tk)) => (Some(cc), Some(tk)),
            None => (None, None),
        };
        UsageStats { call_count, tokens_used, ..stats }
    }
}

/// The reset time of a quota reply, taken to whole seconds and back to
/// milliseconds, never leaves the range of `i64`: the window end can always
/// be computed from what the quota reply gave.
pub proof fn lemma_window_reset_in_range(s: UsageStats, data: QuotaLimitDataWithLevel)
    requires
        stats_from_quota(s, data),
    ensures
        window_reset_ms(s) matches Some(ms) ==> i64::MIN <= ms <= i64::MAX,
        window_reset_ms(s) matches Some(ms) ==> ms % 1000 == 0,
{
    if let Some(i) = first_limit(data.limits@, "TOKENS_LIMIT"@, Some(3i32)) {
        let item = data.limits@[i];
        if let Some(ms) = item.next_reset_time {
            let secs = millis_to_secs(ms as int);
            if ms >= 0 {
                assert(secs * 1000 <= ms) by (nonlinear_arith)
                    requires secs == ms / 1000, ms >= 0;
                assert(secs >= 0) by (nonlinear_arith)
                    requires secs == ms / 1000, ms >= 0;
            } else {
                let m = -(ms as int);
                assert((m / 1000) * 1000 <= m) by (nonlinear_arith)
                    requires m >= 0;
                assert(m / 1000 >= 0) by (nonlinear_arith)
                    requires m >= 0;
            }
            assert((secs * 1000) % 1000 == 0) by (nonlinear_arith);
        }
    }
}

/// A base URL that does not mention `/anthropic` is its own monitor root.
pub proof fn lemma_monitor_base_unchanged(url: Seq<char>)
    requires
        !contains_text(url, "/anthropic"@),
    ensures
        monitor_base(url) == url,
{
    reveal_strlit("/anthropic");
    reveal_strlit("/api/anthropic");
    assert("/api/anthropic"@.subrange(4, 14) =~= "/anthropic"@);
    assert forall|i: int| !occurs_at(url, "/api/anthropic"@, i) by {
        if occurs_at(url, "/api/anthropic"@, i) {
            assert(url.subrange(i + 4, i + 14) =~= url.subrange(i, i + 14).subrange(4, 14));
            assert(occurs_at(url, "/anthropic"@, i + 4));
        }
    }
    lemma_replace_absent(url, "/api/anthropic"@, "/api"@);
    lemma_replace_absent(url, "/anthropic"@, ""@);
}

/// Every percentage that a quota reply yields lies within 0..=100.
pub proof fn lemma_quota_percentages_bounded(s: UsageStats, data: QuotaLimitDataWithLevel)
    requires
        stats_from_quota(s, data),
    ensures
        s.token_usage matches Some(t) ==> t.percentage <= 100,
        s.mcp_usage matches Some(t) ==> t.percentage <= 100,
        s.weekly_usage matches Some(t) ==> t.percentage <= 100,
{
}

} // verus!
