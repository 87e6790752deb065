use glm_plan_usage::terminal::{parse_u32, trim_str, CharMode, TerminalDetector};

#[test]
fn mode_precedence() {
    assert_eq!(TerminalDetector::detect(true, true, true, false), CharMode::Emoji);
    assert_eq!(TerminalDetector::detect(false, true, false, true), CharMode::Ascii);
    assert_eq!(TerminalDetector::detect(false, false, true, true), CharMode::Emoji);
    assert_eq!(TerminalDetector::detect(false, false, true, false), CharMode::Ascii);
    assert_eq!(TerminalDetector::detect(false, false, false, false), CharMode::Emoji);
}

#[test]
fn windows_build_numbers() {
    assert!(TerminalDetector::is_windows_11_build("22631\r\n"));
    assert!(TerminalDetector::is_windows_11_build("22000"));
    assert!(TerminalDetector::is_windows_11_build("  +26100 "));
    assert!(!TerminalDetector::is_windows_11_build("19045\n"));
    assert!(!TerminalDetector::is_windows_11_build("21999"));
    assert!(!TerminalDetector::is_windows_11_build(""));
    assert!(!TerminalDetector::is_windows_11_build("build 22631"));
    assert!(!TerminalDetector::is_windows_11_build("4294967296"));
}

#[test]
fn parsing_like_std() {
    for text in ["0", "42", "+7", "4294967295", "4294967296", "", "+", "-1", "12a", " 1", "007"] {
        assert_eq!(parse_u32(text), text.parse::<u32>().ok(), "{:?}", text);
    }
    for text in ["  x ", "\u{3000}a\u{a0}", "", "   ", "a b"] {
        assert_eq!(trim_str(text), text.trim(), "{:?}", text);
    }
}
