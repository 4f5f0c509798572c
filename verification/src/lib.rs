//! The decisions of the Rudder tools: how `rudderc` finds its input, output and format, and how
//! the relay treats the reports it receives.

pub mod call_rules;
pub mod config;
pub mod context;
pub mod digest;
pub mod error;
pub mod formats;
pub mod input;
pub mod insertion;
pub mod options;
pub mod output;
pub mod path;
pub mod relay;
pub mod report_call_rules;
pub mod report_rules;
pub mod reporting;
pub mod rules;
pub mod session;
pub mod step_rules;
pub mod text;
pub mod world;
