use glm_plan_usage::cli::{apply_cli_overrides, Args};
use glm_plan_usage::config::claude::{
    get_api_key, get_base_url, read_api_key_from_claude_config, read_base_url_from_claude_config, ClaudeSettings,
    SettingsEnv,
    Provider, Providers,
};
use glm_plan_usage::config::types::{
    default_cache_enabled, default_enabled, default_retry, default_separator, default_style_mode, default_timeout,
    default_ttl, AnsiColor, Config, InputData, SegmentConfig,
};

fn s(x: &str) -> String {
    x.to_string()
}

#[test]
fn defaults() {
    let c = Config::default();
    assert_eq!(c.style.mode, "plain");
    assert_eq!(c.style.separator, " | ");
    assert_eq!(c.segments.len(), 3);
    assert_eq!(c.segments[0].id, "glm_usage");
    assert_eq!(c.segments[1].id, "minimax_usage");
    assert_eq!(c.segments[2].id, "kimi_usage");
    assert!(c.segments.iter().all(|x| x.enabled));
    assert_eq!(c.segments[0].colors, vec![(s("text"), AnsiColor::C256 { c256: 109 })]);
    assert_eq!(c.segments[1].colors, vec![(s("text"), AnsiColor::C256 { c256: 208 })]);
    assert_eq!(c.segments[2].colors, vec![(s("text"), AnsiColor::C256 { c256: 79 })]);
    assert_eq!(c.segments[0].styles, vec![(s("text_bold"), true)]);
    assert_eq!(c.api.timeout_ms, 5000);
    assert_eq!(c.api.retry_attempts, 2);
    assert!(c.cache.enabled);
    assert_eq!(c.cache.ttl_seconds, 120);
    assert_eq!(default_style_mode(), "plain");
    assert_eq!(default_separator(), " | ");
    assert!(default_enabled());
    assert_eq!(default_timeout(), 5000);
    assert_eq!(default_retry(), 2);
    assert!(default_cache_enabled());
    assert_eq!(default_ttl(), 120);
    assert_eq!(SegmentConfig::default_kimi_usage().id, "kimi_usage");
}

#[test]
fn no_cache_flag() {
    let mut c = Config::default();
    apply_cli_overrides(&mut c, &Args { init: false, verbose: true, no_cache: false });
    assert!(c.cache.enabled);
    apply_cli_overrides(&mut c, &Args { init: false, verbose: false, no_cache: true });
    assert!(!c.cache.enabled);
    assert_eq!(c.cache.ttl_seconds, 120);
}

#[test]
fn empty_input() {
    let i = InputData::empty();
    assert!(i.model.is_none() && i.workspace.is_none() && i.transcript_path.is_none());
}

fn settings(key: Option<&str>, url: Option<&str>, pkey: Option<&str>, purl: Option<&str>) -> ClaudeSettings {
    ClaudeSettings {
        api_key: key.map(s),
        base_url: url.map(s),
        providers: Some(Providers { anthropic: Some(Provider { api_key: pkey.map(s), base_url: purl.map(s) }) }),
        env: None,
    }
}

#[test]
fn settings_credentials() {
    assert_eq!(read_api_key_from_claude_config(Some(settings(Some("top"), None, Some("prov"), None))), Some(s("top")));
    assert_eq!(read_api_key_from_claude_config(Some(settings(None, None, Some("prov"), None))), Some(s("prov")));
    assert_eq!(read_api_key_from_claude_config(None), None);
    assert_eq!(read_api_key_from_claude_config(Some(ClaudeSettings { api_key: None, base_url: None, providers: None, env: None })), None);
    assert_eq!(read_base_url_from_claude_config(Some(settings(None, Some("u1"), None, Some("u2")))), Some(s("u1")));
    assert_eq!(read_base_url_from_claude_config(Some(settings(None, None, None, Some("u2")))), Some(s("u2")));
    assert_eq!(
        read_base_url_from_claude_config(Some(ClaudeSettings {
            api_key: None,
            base_url: None,
            providers: Some(Providers { anthropic: None }),
            env: None,
        })),
        None
    );
}

#[test]
fn credential_precedence() {
    assert_eq!(get_api_key(Some(s("env")), Some(s("key")), Some(s("cfg"))), Ok(s("env")));
    assert_eq!(get_api_key(None, Some(s("key")), Some(s("cfg"))), Ok(s("key")));
    assert_eq!(get_api_key(None, None, Some(s("cfg"))), Ok(s("cfg")));
    assert!(get_api_key(None, None, None).unwrap_err().starts_with("API Key not found."));
    assert_eq!(get_base_url("d", Some(s("env")), Some(s("cfg"))), "env");
    assert_eq!(get_base_url("d", None, Some(s("cfg"))), "cfg");
    assert_eq!(get_base_url("d", None, None), "d");
    assert_eq!(get_base_url("", None, None), "");
}

#[test]
fn settings_env_block() {
    let with_env = |token: Option<&str>, key: Option<&str>, url: Option<&str>| ClaudeSettings {
        api_key: None,
        base_url: None,
        providers: None,
        env: Some(SettingsEnv {
            anthropic_auth_token: token.map(s),
            anthropic_api_key: key.map(s),
            anthropic_base_url: url.map(s),
        }),
    };
    assert_eq!(
        read_api_key_from_claude_config(Some(with_env(Some("k"), None, Some("https://open.bigmodel.cn/api/anthropic")))),
        Some(s("k"))
    );
    assert_eq!(
        read_base_url_from_claude_config(Some(with_env(Some("k"), None, Some("https://open.bigmodel.cn/api/anthropic")))),
        Some(s("https://open.bigmodel.cn/api/anthropic"))
    );
    assert_eq!(read_api_key_from_claude_config(Some(with_env(None, Some("a"), None))), Some(s("a")));
    assert_eq!(read_api_key_from_claude_config(Some(with_env(Some("t"), Some("a"), None))), Some(s("t")));
    assert_eq!(read_base_url_from_claude_config(Some(with_env(None, None, None))), None);
    let mut top = with_env(Some("t"), None, Some("u"));
    top.api_key = Some(s("top"));
    top.base_url = Some(s("tu"));
    assert_eq!(read_api_key_from_claude_config(Some(top)), Some(s("top")));
}
