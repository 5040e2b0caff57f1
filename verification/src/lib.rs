//! LightCapture: recording configuration, pacing, audio timing, settings and tray logic.
use vstd::prelude::*;

pub mod text;
pub mod clock;
pub mod config;
pub mod adaptive;
pub mod frame_gate;
pub mod hardware;
pub mod error;
pub mod stats;
pub mod platform;
pub mod stream;
pub mod audio;
pub mod settings;
pub mod status;
pub mod notify;
pub mod tray;
pub mod session;
pub mod cli;
pub mod capture;
pub mod bar;

verus! {

/// Package version for CLI and app banners.
pub fn version() -> (r: &'static str)
    ensures
        r@ == "0.1.0"@,
{
    "0.1.0"
}

} // verus!
