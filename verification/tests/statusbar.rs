use glm_plan_usage::api::minimax_types::MiniMaxUsageStats;
use glm_plan_usage::api::types::{QuotaUsage, UsageStats};
use glm_plan_usage::config::types::{Config, InputData, ModelInfo};
use glm_plan_usage::statusbar::segments::cache::UsageCache;
use glm_plan_usage::statusbar::segments::glm_usage::{collect, glm_stats_text, glm_style, is_glm_model, placeholder};
use glm_plan_usage::statusbar::segments::minimax_usage::MiniMaxUsageSegment;
use glm_plan_usage::statusbar::segments::{is_enabled, SegmentData, SegmentStyle};
use glm_plan_usage::statusbar::statusline::StatusLineGenerator;
use glm_plan_usage::terminal::CharMode;

fn s(x: &str) -> String {
    x.to_string()
}

fn quota(used: i64, limit: i64, pct: u8) -> QuotaUsage {
    QuotaUsage { used, limit, percentage: pct, time_window: s("5h"), reset_at: None }
}

fn stats(weekly: bool) -> UsageStats {
    UsageStats {
        token_usage: Some(quota(0, 0, 5)),
        mcp_usage: Some(quota(0, 1000, 0)),
        weekly_usage: if weekly { Some(quota(0, 0, 25)) } else { None },
        call_count: Some(93),
        tokens_used: Some(3380000),
        level: None,
    }
}

fn minimax(weekly: bool) -> MiniMaxUsageStats {
    MiniMaxUsageStats {
        interval_used: 93,
        interval_total: 1200,
        interval_pct: 5,
        reset_time: None,
        weekly_used: None,
        weekly_total: None,
        weekly_pct: if weekly { Some(25) } else { None },
        weekly_reset_time: None,
    }
}

fn input(model: Option<&str>) -> InputData {
    InputData {
        model: model.map(|m| ModelInfo { id: s(m), display_name: None }),
        workspace: None,
        transcript_path: None,
    }
}

#[test]
fn glm_text_documented_examples() {
    assert_eq!(
        glm_stats_text(&stats(false), CharMode::Emoji, false, "GLM", "23:00", None, None, Some("3.38M")),
        "GLM 🔋 5% · ⏰ 23:00 · 📊 93 · 🌐 0/1000 · ⚡ 3.38M"
    );
    assert_eq!(
        glm_stats_text(&stats(true), CharMode::Emoji, false, "GLM", "23:00", None, None, Some("3.38M")),
        "GLM 🔋 5% · ⏰ 23:00 · 📊 93 · 📅 25% · 🌐 0/1000 · ⚡ 3.38M"
    );
    assert_eq!(
        glm_stats_text(&stats(false), CharMode::Ascii, false, "GLM", "23:00", None, None, Some("3.38M")),
        "GLM $ 5% · T 23:00 · # 93 · M 0/1000 · k 3.38M"
    );
    assert_eq!(
        glm_stats_text(&stats(true), CharMode::Ascii, false, "GLM", "23:00", None, None, Some("3.38M")),
        "GLM $ 5% · T 23:00 · # 93 · % 25% · M 0/1000 · k 3.38M"
    );
}

#[test]
fn glm_text_speeds_and_empty() {
    assert_eq!(
        glm_stats_text(&stats(false), CharMode::Ascii, false, "GLM", "--:--", Some("12.5"), Some("3.0"), None),
        "GLM $ 5% · T --:-- · ↓v 12.5 · ↑^ 3.0 · # 93 · M 0/1000"
    );
    let empty = UsageStats {
        token_usage: None,
        mcp_usage: None,
        weekly_usage: None,
        call_count: None,
        tokens_used: None,
        level: None,
    };
    assert_eq!(glm_stats_text(&empty, CharMode::Emoji, false, "GLM", "--:--", None, None, None), "");
    assert!(collect(&input(Some("glm-4.6")), Some(&empty), CharMode::Emoji, false, None, None, None).is_none());
}

#[test]
fn glm_placeholder_and_collect() {
    assert_eq!(placeholder(CharMode::Ascii), "GLM $ % · T --:-- · ↓v -- · ↑^ -- · # 0 · M / · k");
    assert_eq!(placeholder(CharMode::Emoji), "GLM 🔋 % · ⏰ --:-- · ↓🚀 -- · ↑📥 -- · 📊 0 · 🌐 / · ⚡");
    let d = collect(&input(Some("GLM-4.6")), None, CharMode::Ascii, false, None, None, None).unwrap();
    assert_eq!(d.text, placeholder(CharMode::Ascii));
    assert_eq!(d.style.color_256, Some(109));
    assert!(d.style.bold);
    assert!(collect(&input(Some("gpt-5")), None, CharMode::Ascii, false, None, None, None).is_none());
    let st = stats(false);
    let d = collect(&input(None), Some(&st), CharMode::Ascii, false, None, None, Some("3.38M")).unwrap();
    assert_eq!(d.text, "GLM $ 5% · T --:-- · # 93 · M 0/1000 · k 3.38M");
    assert!(is_glm_model(&input(Some("zai/ChatGLM-6b"))));
    assert!(!is_glm_model(&input(Some("kimi-k2"))));
    let style = glm_style();
    assert_eq!((style.color, style.color_256, style.bold), (None, Some(109), true));
}

#[test]
fn minimax_text_documented_examples() {
    assert_eq!(
        MiniMaxUsageSegment::stats_text(&minimax(true), CharMode::Emoji, false, "MiniMax", "23:00"),
        "MiniMax 🔋 5% · ⏰ 23:00 · 📊 93/1200 · 📅 25%"
    );
    assert_eq!(
        MiniMaxUsageSegment::stats_text(&minimax(true), CharMode::Ascii, false, "MiniMax", "23:00"),
        "MiniMax $ 5% · T 23:00 · # 93/1200 · % 25%"
    );
    assert_eq!(
        MiniMaxUsageSegment::stats_text(&minimax(true), CharMode::Emoji, true, "MiniMax", "23:00"),
        "MiniMax 5% · 23:00 · 93/1200 · 25%"
    );
    assert_eq!(
        MiniMaxUsageSegment::stats_text(&minimax(false), CharMode::Ascii, false, "MiniMax-M2", "--:--"),
        "MiniMax-M2 $ 5% · T --:-- · # 93/1200"
    );
}

#[test]
fn minimax_collect_and_cache() {
    let config = Config::default();
    let mut seg = MiniMaxUsageSegment::new(CharMode::Ascii);
    assert!(seg.cached_stats(&config).is_none());
    assert!(seg.collect(&input(None), None, false).is_none());
    let d = seg.collect(&input(Some("MiniMax-M2")), Some(minimax(false)), false).unwrap();
    assert_eq!(d.text, "MiniMax-M2 $ 5% · T --:-- · # 93/1200");
    assert_eq!(d.style.color_256, Some(208));
    let d = seg.collect(&input(None), Some(minimax(false)), false).unwrap();
    assert!(d.text.starts_with("MiniMax $ 5%"));

    assert_eq!(seg.settle(&config, None), None);
    assert_eq!(seg.settle(&config, Some(minimax(true))), Some(minimax(true)));
    assert_eq!(seg.cached_stats(&config), Some(minimax(true)));
    assert_eq!(seg.settle(&config, None), Some(minimax(true)));

    let mut off = Config::default();
    off.cache.enabled = false;
    assert_eq!(seg.cached_stats(&off), None);
    let mut fresh = MiniMaxUsageSegment::new(CharMode::Emoji);
    assert_eq!(fresh.settle(&off, Some(minimax(false))), Some(minimax(false)));
    assert_eq!(fresh.settle(&off, None), None);
}

#[test]
fn cache_lifetime() {
    let mut c: UsageCache<MiniMaxUsageStats> = UsageCache::new();
    assert_eq!(c.serve_at_age(true, 0, 120), None);
    c.settle(true, Some(minimax(false)));
    assert_eq!(c.serve_at_age(true, 119, 120), Some(minimax(false)));
    assert_eq!(c.serve_at_age(true, 120, 120), None);
    assert_eq!(c.serve_at_age(false, 0, 120), None);
    assert_eq!(c.fresh(true, 0), None);
    assert_eq!(c.fresh(true, 120), Some(minimax(false)));
}

#[test]
fn segment_rendering() {
    let plain = SegmentData { text: s("hi"), style: SegmentStyle::default() };
    assert_eq!(StatusLineGenerator::format_segment(&plain, true), "hi\x1b[0m");
    let c256 = SegmentData { text: s("x"), style: SegmentStyle { color: Some((1, 2, 3)), color_256: Some(109), bold: true } };
    assert_eq!(StatusLineGenerator::format_segment(&c256, true), "\x1b[38;5;109m\x1b[1mx\x1b[0m");
    let rgb = SegmentData { text: s("y"), style: SegmentStyle { color: Some((255, 0, 7)), color_256: None, bold: false } };
    assert_eq!(StatusLineGenerator::format_segment(&rgb, true), "\x1b[38;2;255;0;7my\x1b[0m");
}

#[test]
fn status_line() {
    let config = Config::default();
    assert!(is_enabled(&config, "glm_usage"));
    assert!(!is_enabled(&config, "other"));
    let gen = StatusLineGenerator::new().add_segment(s("glm_usage")).add_segment(s("minimax_usage")).add_segment(s("other"));
    let a = SegmentData { text: s("A"), style: SegmentStyle::default() };
    let b = SegmentData { text: s("B"), style: SegmentStyle::default() };
    let c = SegmentData { text: s("C"), style: SegmentStyle::default() };
    assert_eq!(gen.generate(&vec![Some(a), Some(b), Some(c)], &config, true), "A\x1b[0m | B\x1b[0m");
    assert_eq!(gen.generate(&vec![None, None, None], &config, true), "");
    let mut off = Config::default();
    off.segments[0].enabled = false;
    let a = SegmentData { text: s("A"), style: SegmentStyle::default() };
    let b = SegmentData { text: s("B"), style: SegmentStyle::default() };
    assert_eq!(gen.generate(&vec![Some(a), Some(b), None], &off, true), "B\x1b[0m");
}

#[test]
fn glm_minimal_mode_documented_example() {
    assert_eq!(
        glm_stats_text(&stats(true), CharMode::Emoji, true, "glm-5.1", "23:00", None, None, Some("3.38M")),
        "glm-5.1 5% · 23:00 · 93 · 25% · 0/1000 · 3.38M"
    );
    let st = stats(true);
    let d = collect(&input(Some("glm-5.1")), Some(&st), CharMode::Ascii, true, None, None, Some("3.38M")).unwrap();
    assert_eq!(d.text, "glm-5.1 5% · --:-- · 93 · 25% · 0/1000 · 3.38M");
    let d = collect(&input(None), Some(&st), CharMode::Ascii, true, Some("1.0"), None, None).unwrap();
    assert_eq!(d.text, "GLM 5% · --:-- · ↓1.0 · 93 · 25% · 0/1000");
}

#[test]
fn minimax_hidden_for_other_models() {
    let seg = MiniMaxUsageSegment::new(CharMode::Ascii);
    assert!(seg.collect(&input(Some("glm-4.6")), Some(minimax(false)), false).is_none());
    assert!(seg.collect(&input(Some("kimi-k2")), Some(minimax(false)), false).is_none());
    assert!(seg.collect(&input(Some("minimax-m2")), Some(minimax(false)), false).is_some());
}

#[test]
fn no_color_gives_bare_text() {
    let c256 = SegmentData { text: s("x"), style: SegmentStyle { color: Some((1, 2, 3)), color_256: Some(109), bold: true } };
    assert_eq!(StatusLineGenerator::format_segment(&c256, false), "x");
    let config = Config::default();
    let gen = StatusLineGenerator::new().add_segment(s("glm_usage")).add_segment(s("minimax_usage"));
    let a = SegmentData { text: s("A"), style: SegmentStyle { color: None, color_256: Some(109), bold: true } };
    let b = SegmentData { text: s("B"), style: SegmentStyle::default() };
    assert_eq!(gen.generate(&vec![Some(a), Some(b)], &config, false), "A | B");
}

#[test]
fn added_segment_comes_last() {
    let config = Config::default();
    let gen = StatusLineGenerator::new().add_segment(s("glm_usage"));
    let a = SegmentData { text: s("A"), style: SegmentStyle::default() };
    let before = gen.generate(&vec![Some(a)], &config, false);
    let gen = gen.add_segment(s("minimax_usage"));
    let a = SegmentData { text: s("A"), style: SegmentStyle::default() };
    let b = SegmentData { text: s("B"), style: SegmentStyle::default() };
    assert_eq!(gen.generate(&vec![Some(a), Some(b)], &config, false), format!("{} | B", before));
}

#[test]
fn reset_shown_on_two_digits() {
    let mut st = stats(false);
    st.token_usage = Some(QuotaUsage { reset_at: Some(9_000_000_000_000), ..quota(0, 0, 5) });
    let text = glm_plan_usage::statusbar::segments::glm_usage::format_stats(
        &st, CharMode::Ascii, false, "GLM", None, None, None,
    );
    assert!(text.starts_with("GLM $ 5% · T --:--"));
    st.token_usage = Some(QuotaUsage { reset_at: Some(1771060000), ..quota(0, 0, 5) });
    let text = glm_plan_usage::statusbar::segments::glm_usage::format_stats(
        &st, CharMode::Ascii, false, "GLM", None, None, None,
    );
    let reset = &text["GLM $ 5% · T ".len()..];
    let clock: Vec<char> = reset.chars().take(5).collect();
    assert_eq!(clock[2], ':');
    assert!(clock.iter().enumerate().all(|(i, c)| i == 2 || c.is_ascii_digit()));
}
