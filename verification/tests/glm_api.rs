use glm_plan_usage::api::client::{GlmApiClient, QuotaLimitDataWithLevel, QuotaLimitResponseWithLevel};
use glm_plan_usage::api::types::{
    ApiError, ModelTotalUsage, ModelUsageApiData, ModelUsageApiResponse, PlanLevel, Platform, QuotaLimitItem,
    QuotaUsage, UsageStats,
};
use glm_plan_usage::api::retry::{next_step, pause_millis, RetryStep};

fn s(x: &str) -> String {
    x.to_string()
}

fn item(kind: &str, unit: i32, usage: i64, current: i64, pct: i32, reset: Option<i64>) -> QuotaLimitItem {
    QuotaLimitItem {
        quota_type: s(kind),
        unit,
        usage,
        current_value: current,
        percentage: pct,
        next_reset_time: reset,
    }
}

/// The reply recorded in the API notes.
fn documented_reply() -> QuotaLimitResponseWithLevel {
    QuotaLimitResponseWithLevel {
        code: 200,
        msg: s("操作成功"),
        data: QuotaLimitDataWithLevel {
            level: Some(s("lite")),
            limits: vec![
                item("TIME_LIMIT", 5, 100, 28, 28, Some(1772615765983)),
                item("TOKENS_LIMIT", 3, 0, 0, 1, Some(1771073738808)),
            ],
        },
        success: true,
    }
}

#[test]
fn platform_detection() {
    assert_eq!(Platform::detect_from_url("https://api.z.ai/api/anthropic"), Some(Platform::Zai));
    assert_eq!(Platform::detect_from_url("https://open.bigmodel.cn/api/anthropic"), Some(Platform::Zhipu));
    assert_eq!(Platform::detect_from_url("https://zhipu.example/x"), Some(Platform::Zhipu));
    assert_eq!(Platform::detect_from_url("https://api.z.ai.bigmodel.cn"), Some(Platform::Zai));
    assert_eq!(Platform::detect_from_url("https://example.com"), None);
}

#[test]
fn plan_levels() {
    assert_eq!(PlanLevel::from_str("lite"), Some(PlanLevel::Lite));
    assert_eq!(PlanLevel::from_str("LITE"), Some(PlanLevel::Lite));
    assert_eq!(PlanLevel::from_str("Pro"), Some(PlanLevel::Pro));
    assert_eq!(PlanLevel::from_str("mAx"), Some(PlanLevel::Max));
    assert_eq!(PlanLevel::from_str("ultra"), None);
    assert_eq!(PlanLevel::from_str(""), None);
}

#[test]
fn client_from_env() {
    let c = GlmApiClient::from_env(Some(s("glm")), Some(s("anth")), None, None, None, None).unwrap();
    assert_eq!(c.token, "glm");
    assert_eq!(c.platform, Platform::Zhipu);
    assert_eq!(c.base_url, "https://open.bigmodel.cn/api");

    let c = GlmApiClient::from_env(None, Some(s("anth")), None, Some(s("https://api.z.ai/api/anthropic")), None, None).unwrap();
    assert_eq!(c.token, "anth");
    assert_eq!(c.platform, Platform::Zai);
    assert_eq!(c.base_url, "https://api.z.ai/api");

    let c = GlmApiClient::from_env(Some(s("t")), None, Some(s("https://open.bigmodel.cn/anthropic")), Some(s("https://api.z.ai")), None, None).unwrap();
    assert_eq!(c.base_url, "https://open.bigmodel.cn");

    match GlmApiClient::from_env(None, None, None, None, None, None) {
        Err(ApiError::CredentialNotFound(m)) => assert_eq!(m, "GLM_AUTH_TOKEN or ANTHROPIC_AUTH_TOKEN"),
        other => panic!("unexpected {:?}", other),
    }
    assert!(matches!(
        GlmApiClient::from_env(Some(s("t")), None, None, Some(s("https://example.com/anthropic")), None, None),
        Err(ApiError::PlatformDetectionFailed)
    ));
}

#[test]
fn requests() {
    let c = GlmApiClient::from_env(Some(s("tok")), None, None, None, None, None).unwrap();
    assert_eq!(c.quota_limit_url(), "https://open.bigmodel.cn/api/monitor/usage/quota/limit");
    let h = c.request_headers();
    assert_eq!(h, vec![(s("Authorization"), s("Bearer tok")), (s("Content-Type"), s("application/json"))]);
}

#[test]
fn status_check() {
    assert!(GlmApiClient::check_status(200, "OK").is_ok());
    match GlmApiClient::check_status(204, "No Content") {
        Err(e) => assert_eq!(e.message(), "API returned error: Status 204: No Content"),
        Ok(()) => panic!("204 accepted"),
    }
}

#[test]
fn error_messages() {
    assert_eq!(ApiError::HttpError(s("timeout")).message(), "HTTP request failed: timeout");
    assert_eq!(ApiError::ParseError(s("eof")).message(), "Failed to parse response: eof");
    assert_eq!(ApiError::CredentialNotFound(s("X")).message(), "Credential not found: X");
    assert_eq!(ApiError::PlatformDetectionFailed.message(), "Platform detection failed");
}

#[test]
fn documented_quota_reply() {
    let stats = GlmApiClient::usage_from_quota(&documented_reply()).unwrap();
    let token = stats.token_usage.as_ref().unwrap();
    assert_eq!(token.percentage, 1);
    assert_eq!(token.reset_at, Some(1771073738));
    assert_eq!(token.time_window, "5h");
    assert_eq!(token.used, 0);
    let mcp = stats.mcp_usage.as_ref().unwrap();
    assert_eq!((mcp.used, mcp.limit, mcp.percentage), (28, 100, 28));
    assert_eq!(mcp.time_window, "30d");
    assert_eq!(mcp.reset_at, Some(1772615765));
    assert!(stats.weekly_usage.is_none());
    assert_eq!(stats.level, Some(PlanLevel::Lite));
    assert_eq!(stats.call_count, None);
    assert_eq!(GlmApiClient::window_reset_ms(&stats), Some(1771073738000));
}

#[test]
fn quota_percentages_clamped_and_first_match() {
    let reply = QuotaLimitResponseWithLevel {
        code: 200,
        msg: s("ok"),
        data: QuotaLimitDataWithLevel {
            level: Some(s("PRO")),
            limits: vec![
                item("TOKENS_LIMIT", 6, 0, 0, 150, None),
                item("TOKENS_LIMIT", 3, 0, 0, -5, Some(-1500)),
                item("TOKENS_LIMIT", 3, 0, 0, 50, None),
            ],
        },
        success: true,
    };
    let stats = GlmApiClient::usage_from_quota(&reply).unwrap();
    let token = stats.token_usage.as_ref().unwrap();
    assert_eq!(token.percentage, 0);
    assert_eq!(token.reset_at, Some(-1));
    let weekly = stats.weekly_usage.as_ref().unwrap();
    assert_eq!(weekly.percentage, 100);
    assert_eq!(weekly.time_window, "7d");
    assert!(stats.mcp_usage.is_none());
    assert_eq!(stats.level, Some(PlanLevel::Pro));
}

#[test]
fn unsuccessful_quota_reply() {
    let mut reply = documented_reply();
    reply.success = false;
    reply.msg = s("token expired");
    match GlmApiClient::usage_from_quota(&reply) {
        Err(ApiError::ApiResponse(m)) => assert_eq!(m, "token expired"),
        other => panic!("unexpected {:?}", other.is_ok()),
    }
}

#[test]
fn model_usage_query_window() {
    let zhipu = GlmApiClient::from_env(Some(s("t")), None, None, None, None, None).unwrap();
    assert_eq!(zhipu.model_usage_query(None, 0), None);
    assert_eq!(
        zhipu.model_usage_query(Some(1771073738000), 0).unwrap(),
        "https://open.bigmodel.cn/api/monitor/usage/model-usage?startTime=2026-02-14%2015%3A55%3A38&endTime=2026-02-14%2020%3A55%3A38"
    );
    let zai = GlmApiClient::from_env(Some(s("t")), None, Some(s("https://api.z.ai/api/anthropic")), None, None, None).unwrap();
    assert_eq!(
        zai.model_usage_query(Some(1771073738000), 0).unwrap(),
        "https://api.z.ai/api/monitor/usage/model-usage?startTime=2026-02-14%2007%3A55%3A38&endTime=2026-02-14%2012%3A55%3A38"
    );
    // A reset time beyond the calendar falls back to the current time.
    assert_eq!(
        zai.model_usage_query(Some(i64::MAX), 1771073738000).unwrap(),
        "https://api.z.ai/api/monitor/usage/model-usage?startTime=2026-02-14%2007%3A55%3A38&endTime=2026-02-14%2012%3A55%3A38"
    );
}

#[test]
fn model_usage_totals_and_completion() {
    let reply = ModelUsageApiResponse {
        code: Some(200),
        msg: None,
        data: Some(ModelUsageApiData {
            total_usage: Some(ModelTotalUsage { total_model_call_count: 93, total_tokens_usage: 3380000 }),
        }),
    };
    assert_eq!(GlmApiClient::model_usage_totals(&reply), Some((93, 3380000)));
    let empty = ModelUsageApiResponse { code: None, msg: None, data: Some(ModelUsageApiData { total_usage: None }) };
    assert_eq!(GlmApiClient::model_usage_totals(&empty), None);
    assert!(empty.data.as_ref().unwrap().get_total_usage().is_none());
    let none = ModelUsageApiResponse { code: None, msg: None, data: None };
    assert_eq!(GlmApiClient::model_usage_totals(&none), None);

    let stats = GlmApiClient::usage_from_quota(&documented_reply()).unwrap();
    let full = GlmApiClient::with_model_usage(stats, Some((93, 3380000)));
    assert_eq!(full.call_count, Some(93));
    assert_eq!(full.tokens_used, Some(3380000));
    assert_eq!(full.token_usage.as_ref().unwrap().percentage, 1);
    let bare = GlmApiClient::with_model_usage(full, None);
    assert_eq!(bare.call_count, None);
    assert_eq!(bare.tokens_used, None);
}

#[test]
fn quota_text() {
    let q = QuotaUsage { used: 1, limit: 2, percentage: 5, time_window: s("5h"), reset_at: None };
    assert_eq!(q.to_text(), "5%");
    let stats = UsageStats {
        token_usage: Some(q),
        mcp_usage: None,
        weekly_usage: None,
        call_count: None,
        tokens_used: None,
        level: None,
    };
    assert_eq!(stats.duplicate().token_usage.unwrap().percentage, 5);
}

#[test]
fn retry_steps() {
    assert!(matches!(next_step::<u8, u8>(0, Ok(1)), RetryStep::Finish(Ok(1))));
    assert!(matches!(next_step::<u8, u8>(0, Err(1)), RetryStep::PauseThenRetry));
    assert!(matches!(next_step::<u8, u8>(1, Err(1)), RetryStep::PauseThenRetry));
    assert!(matches!(next_step::<u8, u8>(2, Err(7)), RetryStep::Finish(Err(7))));
    assert!(matches!(next_step::<u8, u8>(2, Ok(3)), RetryStep::Finish(Ok(3))));
    assert_eq!(pause_millis(), 100);
}

#[test]
fn retry_drive_three_attempts() {
    // Driving the steps as a fetch does: failures, then a success on the third try.
    let outcomes: Vec<Result<u8, u8>> = vec![Err(1), Err(2), Ok(3)];
    let mut attempt = 0u32;
    let result = loop {
        match next_step(attempt, outcomes[attempt as usize]) {
            RetryStep::Finish(r) => break r,
            RetryStep::PauseThenRetry => attempt += 1,
        }
    };
    assert_eq!(result, Ok(3));
    assert_eq!(attempt, 2);
}

#[test]
fn model_usage_url_encodes_both_ends() {
    assert_eq!(
        GlmApiClient::model_usage_url_for("https://x.test/api", "2026-02-14 10:55:38", "2026-02-14 15:55:38"),
        "https://x.test/api/monitor/usage/model-usage?startTime=2026-02-14%2010%3A55%3A38&endTime=2026-02-14%2015%3A55%3A38"
    );
    assert_eq!(
        GlmApiClient::model_usage_url_for("b", "a~b_c.d-é", ""),
        "b/monitor/usage/model-usage?startTime=a~b_c.d-%C3%A9&endTime="
    );
}

#[test]
fn client_from_settings() {
    let c = GlmApiClient::from_env(None, None, None, None, Some(s("k")), None).unwrap();
    assert_eq!(c.token, "k");
    assert_eq!(c.base_url, "https://open.bigmodel.cn/api");
    let c = GlmApiClient::from_env(Some(s("e")), None, None, None, Some(s("k")), Some(s("https://api.z.ai/api/anthropic")))
        .unwrap();
    assert_eq!(c.token, "e");
    assert_eq!(c.platform, Platform::Zai);
    assert_eq!(c.base_url, "https://api.z.ai/api");
    let c = GlmApiClient::from_env(None, None, None, Some(s("https://open.bigmodel.cn/api/anthropic")), Some(s("k")), Some(s("https://api.z.ai")))
        .unwrap();
    assert_eq!(c.platform, Platform::Zhipu);
}

#[test]
fn model_usage_reply_needs_status_200() {
    let reply = ModelUsageApiResponse {
        code: Some(200),
        msg: Some(s("ok")),
        data: Some(ModelUsageApiData {
            total_usage: Some(ModelTotalUsage { total_model_call_count: 93, total_tokens_usage: 3380000 }),
        }),
    };
    assert_eq!(GlmApiClient::model_usage_from_reply(200, Some(&reply)), Some((93, 3380000)));
    assert_eq!(GlmApiClient::model_usage_from_reply(500, Some(&reply)), None);
    assert_eq!(GlmApiClient::model_usage_from_reply(200, None), None);
}
