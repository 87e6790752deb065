//! Credentials from the environment, falling back to the editor's
//! `settings.json`.

use vstd::prelude::*;
use vstd::string::*;

verus! {

/// The editor's `settings.json`, as far as it names credentials.
#[derive(Debug)]
pub struct ClaudeSettings {
    pub api_key: Option<String>,
    pub base_url: Option<String>,
    pub providers: Option<Providers>,
    pub env: Option<SettingsEnv>,
}

/// The `env` block of the settings: variables the editor sets for the
/// processes it starts.
#[derive(Debug)]
pub struct SettingsEnv {
    pub anthropic_auth_token: Option<String>,
    pub anthropic_api_key: Option<String>,
    pub anthropic_base_url: Option<String>,
}

#[derive(Debug)]
pub struct Providers {
    pub anthropic: Option<Provider>,
}

#[derive(Debug)]
pub struct Provider {
    pub api_key: Option<String>,
    pub base_url: Option<String>,
}

/// The Anthropic provider's entry, where the settings have one.
pub open spec fn anthropic_provider(s: ClaudeSettings) -> Option<Provider> {
    match s.providers {
        Some(p) => p.anthropic,
        None => None,
    }
}

/// The API key that the settings' `env` block gives: its
/// `ANTHROPIC_AUTH_TOKEN`, else its `ANTHROPIC_API_KEY`.
pub open spec fn env_block_key(s: ClaudeSettings) -> Option<String> {
    match s.env {
        Some(e) => match e.anthropic_auth_token {
            Some(k) => Some(k),
            None => e.anthropic_api_key,
        },
        None => None,
    }
}

/// The API key that settings give: the top-level `apiKey`, else the
/// Anthropic provider's, else the one in the `env` block.
pub open spec fn settings_api_key(s: ClaudeSettings) -> Option<String> {
    match s.api_key {
        Some(k) => Some(k),
        None => match anthropic_provider(s) {
            Some(p) => match p.api_key {
                Some(k) => Some(k),
                None => env_block_key(s),
            },
            None => env_block_key(s),
        },
    }
}

/// The base URL that the settings' `env` block gives.
pub open spec fn env_block_base_url(s: ClaudeSettings) -> Option<String> {
    match s.env {
        Some(e) => e.anthropic_base_url,
        None => None,
    }
}

/// The base URL that settings give: the top-level `baseUrl`, else the
/// Anthropic provider's, else the `env` block's `ANTHROPIC_BASE_URL`.
pub open spec fn settings_base_url(s: ClaudeSettings) -> Option<String> {
    match s.base_url {
        Some(u) => Some(u),
        None => match anthropic_provider(s) {
            Some(p) => match p.base_url {
                Some(u) => Some(u),
                None => env_block_base_url(s),
            },
            None => env_block_base_url(s),
        },
    }
}

/// The key in the `env` block.
fn env_key(env: Option<SettingsEnv>) -> (r: Option<String>)
    ensures
        r == match env {
            Some(e) => match e.anthropic_auth_token {
                Some(k) => Some(k),
                None => e.anthropic_api_key,
            },
            None => None,
        },
{
    match env {
        Some(e) => match e.anthropic_auth_token {
            Some(k) => Some(k),
            None => e.anthropic_api_key,
        },
        None => None,
    }
}

/// The base URL in the `env` block.
fn env_base_url(env: Option<SettingsEnv>) -> (r: Option<String>)
    ensures
        r == match env {
            Some(e) => e.anthropic_base_url,
            None => None,
        },
{
    match env {
        Some(e) => e.anthropic_base_url,
        None => None,
    }
}

/// The API key of the settings found (absent where none could be read).
pub fn read_api_key_from_claude_config(settings: Option<ClaudeSettings>) -> (r: Option<String>)
    ensures
        r == match settings {
            Some(s) => settings_api_key(s),
            None => None,
        },
{
    let s = match settings {
        Some(s) => s,
        None => {
            return None;
        },
    };
    match s.api_key {
        Some(k) => Some(k),
        None => match s.providers {
            Some(p) => match p.anthropic {
                Some(a) => match a.api_key {
                    Some(k) => Some(k),
                    None => env_key(s.env),
                },
                None => env_key(s.env),
            },
            None => env_key(s.env),
        },
    }
}

/// The base URL of the settings found (absent where none could be read).
pub fn read_base_url_from_claude_config(settings: Option<ClaudeSettings>) -> (r: Option<String>)
    ensures
        r == match settings {
            Some(s) => settings_base_url(s),
            None => None,
        },
{
    let s = match settings {
        Some(s) => s,
        None => {
            return None;
        },
    };
    match s.base_url {
        Some(u) => Some(u),
        None => match s.providers {
            Some(p) => match p.anthropic {
                Some(a) => match a.base_url {
                    Some(u) => Some(u),
                    None => env_base_url(s.env),
                },
                None => env_base_url(s.env),
            },
            None => env_base_url(s.env),
        },
    }
}

/// The message when no API key is found.
pub open spec fn missing_key_text() -> Seq<char> {
    "API Key not found. Set ANTHROPIC_AUTH_TOKEN environment variable or configure it in settings.json."@
}

/// The API key: `ANTHROPIC_AUTH_TOKEN` first, then `ANTHROPIC_API_KEY`
/// (the variable the Kimi platform documents), then the editor's settings;
/// otherwise an error telling where to set it.
pub fn get_api_key(env_token: Option<String>, env_api_key: Option<String>, config_key: Option<String>) -> (r:
    Result<String, String>)
    ensures
        env_token matches Some(t) ==> r == Ok::<String, String>(t),
        env_token is None && env_api_key is Some ==> r == Ok::<String, String>(env_api_key.unwrap()),
        env_token is None && env_api_key is None && config_key is Some ==> r == Ok::<String, String>(
            config_key.unwrap(),
        ),
        env_token is None && env_api_key is None && config_key is None ==> (r matches Err(m) && m@
            == missing_key_text()),
{
    match env_token {
        Some(t) => Ok(t),
        None => match env_api_key {
            Some(k) => Ok(k),
            None => match config_key {
                Some(k) => Ok(k),
                None => Err(
                    String::from_str(
                        "API Key not found. Set ANTHROPIC_AUTH_TOKEN environment variable or configure it in settings.json.",
                    ),
                ),
            },
        },
    }
}

/// The base URL: `ANTHROPIC_BASE_URL` first, then the editor's settings,
/// then the given default.
pub fn get_base_url(default: &str, env_url: Option<String>, config_url: Option<String>) -> (r: String)
    ensures
        r@ == match env_url {
            Some(u) => u@,
            None => match config_url {
                Some(u) => u@,
                None => default@,
            },
        },
{
    match env_url {
        Some(u) => u,
        None => match config_url {
            Some(u) => u,
            None => String::from_str(default),
        },
    }
}

} // verus!
