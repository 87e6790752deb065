use glm_plan_usage::api::kimi_client::{KimiApiClient, KimiError};
use glm_plan_usage::api::kimi_types::{KimiDetail, KimiLimit, KimiUsageStats, KimiUsagesResponse, KimiWindow};
use glm_plan_usage::api::minimax_client::{MiniMaxApiClient, MiniMaxError};
use glm_plan_usage::api::minimax_types::{MiniMaxModelRemains, MiniMaxRemainsResponse, MiniMaxUsageStats};
use glm_plan_usage::api::url::extract_domain;

fn s(x: &str) -> String {
    x.to_string()
}

fn limit(duration: i64, unit: &str, lim: i64, remaining: i64, reset: Option<&str>) -> KimiLimit {
    KimiLimit {
        window: KimiWindow { duration, time_unit: s(unit) },
        detail: KimiDetail { limit: lim, remaining, reset_time: reset.map(s) },
    }
}

fn model(name: &str, it: i64, iu: i64, wt: i64, wu: i64) -> MiniMaxModelRemains {
    MiniMaxModelRemains {
        model_name: s(name),
        current_interval_total_count: it,
        current_interval_usage_count: iu,
        end_time: Some(1771073738000),
        current_weekly_total_count: wt,
        current_weekly_usage_count: wu,
        weekly_end_time: Some(1771600000000),
    }
}

#[test]
fn domains() {
    assert_eq!(extract_domain("https://api.kimi.com/coding/"), "https://api.kimi.com");
    assert_eq!(extract_domain("https://api.minimaxi.com/anthropic"), "https://api.minimaxi.com");
    assert_eq!(extract_domain("https://api.minimax.io"), "https://api.minimax.io");
    // Without a scheme the first three bytes are dropped.
    assert_eq!(extract_domain("api.kimi.com/coding"), "api.kimi.com");
    assert_eq!(extract_domain("api.minimaxi.com/anthropic"), "api.minimaxi.com");
    assert_eq!(extract_domain("ab"), "ab");
    assert_eq!(extract_domain("é.kimi.com/x"), "é.kimi.com");
    // A separator at the very start is not kept.
    assert_eq!(extract_domain("://host/path"), "host");
    let once = extract_domain("https://api.kimi.com/coding/");
    assert_eq!(extract_domain(&once), once);
}

#[test]
fn kimi_from_env() {
    let c = KimiApiClient::from_env(Some(s("k")), s("https://api.kimi.com/coding/")).unwrap();
    assert_eq!(c.base_url, "https://api.kimi.com");
    assert_eq!(c.token, "k");
    assert_eq!(c.usages_url(), "https://api.kimi.com/coding/v1/usages");
    assert_eq!(c.request_headers()[0], (s("Authorization"), s("Bearer k")));
    assert!(matches!(KimiApiClient::from_env(None, s("https://api.kimi.com")), Err(KimiError::MissingApiKey)));
    assert!(matches!(KimiApiClient::from_env(Some(s("k")), s("")), Err(KimiError::MissingBaseUrl)));
    assert!(matches!(KimiApiClient::from_env(Some(s("k")), s("https://example.com")), Err(KimiError::NotKimiUrl)));
}

#[test]
fn kimi_errors() {
    assert!(KimiApiClient::check_status(200).is_ok());
    assert_eq!(KimiApiClient::check_status(503).unwrap_err().message(), "HTTP status 503");
    assert_eq!(KimiError::NoFiveHourWindow.message(), "No 5-hour window found in Kimi response");
    assert_eq!(KimiError::NoWeeklyWindow.message(), "No weekly window found in Kimi response");
    assert_eq!(KimiError::Parse(s("bad")).message(), "Parse error: bad");
    assert_eq!(KimiError::Http(s("down")).message(), "HTTP error: down");
}

#[test]
fn kimi_windows() {
    let reply = KimiUsagesResponse {
        usage: None,
        limits: vec![
            limit(300, "TIME_UNIT_HOUR", 10, 5, None),
            limit(10080, "TIME_UNIT_MINUTE", 1000, 920, Some("2026-02-20T00:00:00Z")),
            limit(300, "TIME_UNIT_MINUTE", 100, 88, Some("2026-02-14T18:00:00Z")),
        ],
    };
    let (f, w) = KimiApiClient::find_windows(&reply).unwrap();
    assert_eq!((f, w), (2, 1));
    assert_eq!(KimiApiClient::used_of(&reply.limits[f].detail), Some(12));
    assert_eq!(KimiApiClient::used_of(&reply.limits[w].detail), Some(80));
    assert_eq!(KimiApiClient::used_of(&KimiDetail { limit: 0, remaining: 0, reset_time: None }), None);
    let stats = KimiUsageStats::from_windows(&reply.limits[f], &reply.limits[w], 12, 8);
    assert_eq!(stats.five_hour_pct, 12);
    assert_eq!(stats.five_hour_reset.as_deref(), Some("2026-02-14T18:00:00Z"));
    assert_eq!(stats.weekly_pct, 8);
    assert_eq!(stats.weekly_reset.as_deref(), Some("2026-02-20T00:00:00Z"));

    let no_five = KimiUsagesResponse { usage: None, limits: vec![limit(10080, "", 1, 1, None)] };
    assert!(matches!(KimiApiClient::find_windows(&no_five), Err(KimiError::NoFiveHourWindow)));
    let no_week = KimiUsagesResponse { usage: None, limits: vec![limit(300, "TIME_UNIT_MINUTE", 1, 1, None)] };
    assert!(matches!(KimiApiClient::find_windows(&no_week), Err(KimiError::NoWeeklyWindow)));
}

#[test]
fn minimax_from_env() {
    let c = MiniMaxApiClient::from_env(Some(s("k")), s("https://api.minimaxi.com/anthropic"), Some(s("A=1")), Some(s("x")))
        .unwrap();
    assert_eq!(c.base_url, "https://api.minimaxi.com");
    assert_eq!(c.cookie.as_deref(), Some("A=1"));
    assert_eq!(c.remains_url(), "https://api.minimaxi.com/v1/api/openplatform/coding_plan/remains");
    let h = c.request_headers();
    assert_eq!(h.len(), 3);
    assert_eq!(h[2], (s("Cookie"), s("A=1")));

    let c = MiniMaxApiClient::from_env(Some(s("k")), s("https://api.minimax.io/v1"), None, Some(s("abc"))).unwrap();
    assert_eq!(c.cookie.as_deref(), Some("HERTZ-SESSION=abc"));
    let c = MiniMaxApiClient::from_env(Some(s("k")), s("https://api.minimax.io"), None, None).unwrap();
    assert_eq!(c.cookie, None);
    assert_eq!(c.request_headers().len(), 2);

    assert!(matches!(MiniMaxApiClient::from_env(None, s("https://api.minimax.io"), None, None), Err(MiniMaxError::MissingApiKey)));
    assert!(matches!(MiniMaxApiClient::from_env(Some(s("k")), s(""), None, None), Err(MiniMaxError::MissingBaseUrl)));
    assert!(matches!(
        MiniMaxApiClient::from_env(Some(s("k")), s("https://api.kimi.com"), None, None),
        Err(MiniMaxError::NotMiniMaxUrl)
    ));
    assert_eq!(MiniMaxError::NotMiniMaxUrl.message(), "Not a MiniMax base URL");
    assert_eq!(MiniMaxError::NoCodingModel.message(), "No coding model found in response");
    assert_eq!(MiniMaxApiClient::check_status(401).unwrap_err().message(), "HTTP status 401");
}

#[test]
fn minimax_coding_model() {
    let reply = MiniMaxRemainsResponse {
        base_resp: None,
        model_remains: vec![model("speech-02", 1, 1, 0, 0), model("MiniMax-M2", 1200, 1107, 8000, 6000)],
    };
    let i = MiniMaxApiClient::find_coding_model(&reply).unwrap();
    assert_eq!(i, 1);
    let m = &reply.model_remains[i];
    assert_eq!(MiniMaxApiClient::interval_counts(m), (93, 1200));
    assert_eq!(MiniMaxApiClient::weekly_counts(m), Some((2000, 8000)));
    let stats = MiniMaxUsageStats::from_model(m, 8, 25);
    assert_eq!(stats.interval_used, 93);
    assert_eq!(stats.interval_total, 1200);
    assert_eq!(stats.interval_pct, 8);
    assert_eq!(stats.reset_time, Some(1771073738000));
    assert_eq!(stats.weekly_used, Some(2000));
    assert_eq!(stats.weekly_total, Some(8000));
    assert_eq!(stats.weekly_pct, Some(25));
    assert_eq!(stats.weekly_reset_time, Some(1771600000000));

    let old_plan = model("MiniMax-M1", 100, 40, 0, 0);
    assert_eq!(MiniMaxApiClient::weekly_counts(&old_plan), None);
    let stats = MiniMaxUsageStats::from_model(&old_plan, 60, 99);
    assert_eq!(stats.weekly_pct, None);
    assert_eq!(stats.weekly_used, None);
    assert_eq!(stats.weekly_reset_time, None);

    let none = MiniMaxRemainsResponse { base_resp: None, model_remains: vec![model("abab", 1, 1, 0, 0)] };
    assert!(matches!(MiniMaxApiClient::find_coding_model(&none), Err(MiniMaxError::NoCodingModel)));
}
