//! The plugin's configuration and the input that the editor hands it.

use vstd::prelude::*;
use vstd::string::*;

verus! {

/// Input from the editor (read from stdin). The cost figures that the editor
/// also sends are not read by the status line and stay with the caller.
#[derive(Debug)]
pub struct InputData {
    pub model: Option<ModelInfo>,
    pub workspace: Option<WorkspaceInfo>,
    pub transcript_path: Option<String>,
}

impl InputData {
    /// The input used when stdin holds no valid JSON.
    pub fn empty() -> (r: InputData)
        ensures
            r.model is None,
            r.workspace is None,
            r.transcript_path is None,
    {
        InputData { model: None, workspace: None, transcript_path: None }
    }
}

#[derive(Debug)]
pub struct ModelInfo {
    pub id: String,
    pub display_name: Option<String>,
}

#[derive(Debug)]
pub struct WorkspaceInfo {
    pub current_dir: Option<String>,
}

/// Plugin configuration.
#[derive(Debug)]
pub struct Config {
    pub style: StyleConfig,
    pub segments: Vec<SegmentConfig>,
    pub api: ApiConfig,
    pub cache: CacheConfig,
}

/// `s` is the default style.
pub open spec fn is_default_style(s: StyleConfig) -> bool {
    s.mode@ == "plain"@ && s.separator@ == " | "@
}

/// `s` is the default configuration of a segment: enabled, with the given
/// 256-colour text colour and bold text.
pub open spec fn is_default_segment(s: SegmentConfig, id: Seq<char>, color: u8) -> bool {
    &&& s.id@ == id
    &&& s.enabled
    &&& s.colors@.len() == 1
    &&& s.colors@[0].0@ == "text"@
    &&& s.colors@[0].1 == AnsiColor::C256 { c256: color }
    &&& s.styles@.len() == 1
    &&& s.styles@[0].0@ == "text_bold"@
    &&& s.styles@[0].1
    &&& s.well_formed()
}

/// `c` is the default configuration: default style, the GLM, MiniMax and
/// Kimi segments in that order, a 5 s timeout with 2 retries, and a
/// 120 s cache.
pub open spec fn is_default_config(c: Config) -> bool {
    &&& is_default_style(c.style)
    &&& c.segments@.len() == 3
    &&& is_default_segment(c.segments@[0], "glm_usage"@, 109)
    &&& is_default_segment(c.segments@[1], "minimax_usage"@, 208)
    &&& is_default_segment(c.segments@[2], "kimi_usage"@, 79)
    &&& c.api.timeout_ms == 5000
    &&& c.api.retry_attempts == 2
    &&& c.cache.enabled
    &&& c.cache.ttl_seconds == 120
}

impl Default for Config {
    fn default() -> (r: Config)
        ensures
            is_default_config(r),
    {
        let mut segments = Vec::new();
        segments.push(SegmentConfig::default_glm_usage());
        segments.push(SegmentConfig::default_minimax_usage());
        segments.push(SegmentConfig::default_kimi_usage());
        Config {
            style: StyleConfig::default(),
            segments,
            api: ApiConfig::default(),
            cache: CacheConfig::default(),
        }
    }
}

/// How segments are shown.
#[derive(Debug)]
pub struct StyleConfig {
    pub mode: String,
    pub separator: String,
}

impl Default for StyleConfig {
    fn default() -> (r: StyleConfig)
        ensures
            is_default_style(r),
    {
        StyleConfig { mode: default_style_mode(), separator: default_separator() }
    }
}

/// The default style mode.
pub fn default_style_mode() -> (r: String)
    ensures
        r@ == "plain"@,
{
    String::from_str("plain")
}

/// The default separator between segments.
pub fn default_separator() -> (r: String)
    ensures
        r@ == " | "@,
{
    String::from_str(" | ")
}

/// The configuration of one segment. Colours and styles are kept as
/// name/value pairs, each name at most once (see `well_formed`): a map from
/// names to values.
#[derive(Debug)]
pub struct SegmentConfig {
    pub id: String,
    pub enabled: bool,
    pub colors: Vec<(String, AnsiColor)>,
    pub styles: Vec<(String, bool)>,
}

/// No name occurs twice among the pairs.
pub open spec fn names_unique<V>(pairs: Seq<(String, V)>) -> bool {
    forall|i: int, j: int| 0 <= i < j < pairs.len() ==> pairs[i].0@ != pairs[j].0@
}

impl SegmentConfig {
    /// The colours and the styles each name every entry once.
    pub open spec fn well_formed(self) -> bool {
        &&& names_unique(self.colors@)
        &&& names_unique(self.styles@)
    }
}

/// A segment's default configuration.
fn default_segment(id: &str, color: u8) -> (r: SegmentConfig)
    ensures
        is_default_segment(r, id@, color),
{
    let mut colors = Vec::new();
    colors.push((String::from_str("text"), AnsiColor::C256 { c256: color }));
    let mut styles = Vec::new();
    styles.push((String::from_str("text_bold"), true));
    SegmentConfig { id: String::from_str(id), enabled: default_enabled(), colors, styles }
}

impl SegmentConfig {
    /// The GLM segment: 256-colour 109, bold.
    pub fn default_glm_usage() -> (r: SegmentConfig)
        ensures
            is_default_segment(r, "glm_usage"@, 109),
    {
        default_segment("glm_usage", 109)
    }

    /// The MiniMax segment: 256-colour 208, bold.
    pub fn default_minimax_usage() -> (r: SegmentConfig)
        ensures
            is_default_segment(r, "minimax_usage"@, 208),
    {
        default_segment("minimax_usage", 208)
    }

    /// The Kimi segment: 256-colour 79, bold.
    pub fn default_kimi_usage() -> (r: SegmentConfig)
        ensures
            is_default_segment(r, "kimi_usage"@, 79),
    {
        default_segment("kimi_usage", 79)
    }
}

/// Whether a segment is enabled when its configuration does not say.
pub fn default_enabled() -> (r: bool)
    ensures
        r,
{
    true
}

/// A terminal colour: 24-bit RGB or an index of the 256-colour palette.
#[derive(Debug, Clone, Copy, PartialEq, Eq, Structural)]
pub enum AnsiColor {
    Rgb { r: u8, g: u8, b: u8 },
    C256 { c256: u8 },
}

/// How the usage APIs are called.
#[derive(Debug, Clone, Copy, PartialEq, Eq, Structural)]
pub struct ApiConfig {
    pub timeout_ms: u64,
    pub retry_attempts: u32,
}

impl Default for ApiConfig {
    fn default() -> (r: ApiConfig)
        ensures
            r.timeout_ms == 5000,
            r.retry_attempts == 2,
    {
        ApiConfig { timeout_ms: default_timeout(), retry_attempts: default_retry() }
    }
}

/// The default request timeout, in milliseconds.
pub fn default_timeout() -> (r: u64)
    ensures
        r == 5000,
{
    5000
}

/// The default number of retries.
pub fn default_retry() -> (r: u32)
    ensures
        r == 2,
{
    2
}

/// How long usage statistics are kept.
#[derive(Debug, Clone, Copy, PartialEq, Eq, Structural)]
pub struct CacheConfig {
    pub enabled: bool,
    pub ttl_seconds: u64,
}

impl Default for CacheConfig {
    fn default() -> (r: CacheConfig)
        ensures
            r.enabled,
            r.ttl_seconds == 120,
    {
        CacheConfig { enabled: default_cache_enabled(), ttl_seconds: default_ttl() }
    }
}

/// Whether caching is on by default.
pub fn default_cache_enabled() -> (r: bool)
    ensures
        r,
{
    true
}

/// The default cache lifetime, in seconds.
pub fn default_ttl() -> (r: u64)
    ensures
        r == 120,
{
    120
}

} // verus!
