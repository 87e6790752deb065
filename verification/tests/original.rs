use glm_plan_usage::config::claude::get_base_url;
use glm_plan_usage::terminal::{CharMode, TerminalDetector};

#[test]
fn test_base_url_fallback() {
    let default = "https://open.bigmodel.cn/api/anthropic";
    let url = get_base_url(default, None, None);
    // Should return something (either from env, config, or default)
    assert!(!url.is_empty());
}

#[test]
fn test_detect_default() {
    let mode = TerminalDetector::detect(false, false, false, false);
    // Should be either Emoji or Ascii depending on platform
    assert!(matches!(mode, CharMode::Emoji | CharMode::Ascii));
}
