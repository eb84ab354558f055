//! Renderer transport library: a byte-oriented channel to a guest graphics
//! endpoint, a little-endian command protocol for session-control messages,
//! a renderer session state machine, and a native-surface buffer manager.

use vstd::prelude::*;
use vstd::string::StringExecFns;

pub mod command;
pub mod endpoint;
pub mod error;
pub mod gralloc;
pub mod opengles;
pub mod pipe;
pub mod renderer;
pub mod selector;
pub mod socket_monitor;

pub use command::GLCommand;
pub use command::Command;
pub use endpoint::Endpoint;
pub use error::RendererError;

verus! {

/// The diagnostics configuration: whether debug taps and traffic dumps are
/// on, and where their log files go. Diagnostics never affect the control
/// path; turning them on is the caller's cue to attach the listeners.
pub struct DebugConfig {
    /// Whether traffic dumping and socket monitoring are enabled.
    pub enabled: bool,
    /// The directory the log files are written under.
    pub log_dir: String,
}

impl DebugConfig {
    /// Diagnostics off, with the default log directory.
    pub fn new() -> (r: DebugConfig)
        ensures
            !r.enabled,
            r.log_dir@ == "twoyi_renderer_debug"@,
    {
        DebugConfig { enabled: false, log_dir: String::from_str("twoyi_renderer_debug") }
    }
}

/// Turns diagnostic mode on or off.
pub fn set_debug_mode(config: &mut DebugConfig, enabled: bool)
    ensures
        final(config).enabled == enabled,
        final(config).log_dir == old(config).log_dir,
{
    config.enabled = enabled;
}

/// Points the diagnostic logs at a directory.
pub fn set_debug_log_dir(config: &mut DebugConfig, log_dir: String)
    ensures
        final(config).enabled == old(config).enabled,
        final(config).log_dir == log_dir,
{
    config.log_dir = log_dir;
}

/// Whether diagnostic mode is on.
pub fn is_debug_mode(config: &DebugConfig) -> (r: bool)
    ensures
        r == config.enabled,
{
    config.enabled
}

/// The directory the diagnostic logs are written under.
pub fn get_debug_log_dir(config: &DebugConfig) -> (r: String)
    ensures
        r@ == config.log_dir@,
{
    config.log_dir.clone()
}

} // verus!
