//! Screen-capture pipeline with verified privacy filtering and
//! multi-monitor coordination.

pub mod ai;
pub mod app_settings;
pub mod capture;
pub mod config;
pub mod controller;
pub mod environment;
pub mod error;
pub mod frame;
pub mod monitors;
pub mod performance;
pub mod privacy;
pub mod trusted;
pub mod utils;
pub mod video;

use vstd::prelude::*;

verus! {

/// Library version string.
pub const VERSION: &'static str = "2.7.0";

/// Library authors string.
pub const AUTHORS: &'static str = "DailyDoco Pro contributors";

/// Library description string.
pub const DESCRIPTION: &'static str =
    "Screen capture with real-time privacy filtering and multi-monitor coordination";

} // verus!
