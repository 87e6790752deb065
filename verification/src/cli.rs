//! Command-line options and what they change.

use crate::config::types::Config;
use vstd::prelude::*;

verus! {

/// Command-line options: `--init`, `--verbose`, `--no-cache`.
#[derive(Debug, Clone, Copy, PartialEq, Eq, Structural)]
pub struct Args {
    pub init: bool,
    pub verbose: bool,
    pub no_cache: bool,
}

/// Applies the options to the configuration: `--no-cache` turns caching off;
/// nothing else changes.
pub fn apply_cli_overrides(config: &mut Config, args: &Args)
    ensures
        final(config).cache.enabled == (old(config).cache.enabled && !args.no_cache),
        final(config).cache.ttl_seconds == old(config).cache.ttl_seconds,
        final(config).style == old(config).style,
        final(config).segments == old(config).segments,
        final(config).api == old(config).api,
{
    if args.no_cache {
        config.cache.enabled = false;
    }
}

} // verus!
