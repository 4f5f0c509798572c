//! The options of the `rudderc` command line.

use crate::path::{copy_path, FilePath};
use vstd::prelude::*;
use vstd::utf8::*;

verus! {

/// How much `rudderc` logs.
#[derive(Clone, Copy, Debug, PartialEq, Eq, Structural)]
pub enum LogLevel {
    Off,
    Trace,
    Debug,
    Info,
    Warn,
    Error,
}

/// The level that a name stands for.
pub open spec fn log_level_named(name: Seq<char>) -> Option<LogLevel> {
    if name == "off"@ {
        Some(LogLevel::Off)
    } else if name == "trace"@ {
        Some(LogLevel::Trace)
    } else if name == "debug"@ {
        Some(LogLevel::Debug)
    } else if name == "info"@ {
        Some(LogLevel::Info)
    } else if name == "warn"@ {
        Some(LogLevel::Warn)
    } else if name == "error"@ {
        Some(LogLevel::Error)
    } else {
        None
    }
}

impl LogLevel {
    /// The name of the level on the command line.
    pub open spec fn name(self) -> Seq<char> {
        match self {
            LogLevel::Off => "off"@,
            LogLevel::Trace => "trace"@,
            LogLevel::Debug => "debug"@,
            LogLevel::Info => "info"@,
            LogLevel::Warn => "warn"@,
            LogLevel::Error => "error"@,
        }
    }

    /// The level that a name stands for; no other name is accepted.
    pub fn from_name(name: &String) -> (r: Option<LogLevel>)
        ensures
            r == log_level_named(name@),
    {
        if *name == "off".to_owned() {
            Some(LogLevel::Off)
        } else if *name == "trace".to_owned() {
            Some(LogLevel::Trace)
        } else if *name == "debug".to_owned() {
            Some(LogLevel::Debug)
        } else if *name == "info".to_owned() {
            Some(LogLevel::Info)
        } else if *name == "warn".to_owned() {
            Some(LogLevel::Warn)
        } else if *name == "error".to_owned() {
            Some(LogLevel::Error)
        } else {
            None
        }
    }
}

/// The options of the command line.
#[derive(Debug, PartialEq, Eq)]
pub struct Options {
    /// Path of the configuration file to use.
    /// A configuration file is required (containing at least stdlib and generic_methods paths)
    pub config_file: FilePath,
    /// Input file path.
    ///
    /// If option path does not exist, concat config input with option.
    pub input: Option<FilePath>,
    /// Output file path.
    ///
    /// If option path does not exist, concat config output with option.
    ///
    /// Else base output on input.
    pub output: Option<FilePath>,
    /// Verbosity of the logs.
    pub log_level: LogLevel,
    /// Takes stdin as an input rather than using a file. Overwrites input file option
    pub stdin: bool,
    /// Takes stdout as an output rather than using a file. Overwrites output file option.
    /// Dismiss logs directed to stdout. Errors are kept since they are printed to stderr
    pub stdout: bool,
    /// Use json logs instead of human readable output
    pub json_logs: bool,
    /// Generates a backtrace in case an error occurs
    pub backtrace: bool,
}

/// What `Options` hold.
pub struct OptionsView {
    pub config_file: Seq<u8>,
    pub input: Option<Seq<u8>>,
    pub output: Option<Seq<u8>>,
    pub log_level: LogLevel,
    pub stdin: bool,
    pub stdout: bool,
    pub json_logs: bool,
    pub backtrace: bool,
}

impl View for Options {
    type V = OptionsView;

    open spec fn view(&self) -> OptionsView {
        OptionsView {
            config_file: self.config_file@,
            input: self.input.deep_view(),
            output: self.output.deep_view(),
            log_level: self.log_level,
            stdin: self.stdin,
            stdout: self.stdout,
            json_logs: self.json_logs,
            backtrace: self.backtrace,
        }
    }
}

impl Clone for Options {
    fn clone(&self) -> (r: Self)
        ensures
            r@ == self@,
    {
        Options {
            config_file: self.config_file.clone(),
            input: copy_path(&self.input),
            output: copy_path(&self.output),
            log_level: self.log_level,
            stdin: self.stdin,
            stdout: self.stdout,
            json_logs: self.json_logs,
            backtrace: self.backtrace,
        }
    }
}

impl Default for Options {
    /// The options of an empty command line.
    fn default() -> (r: Self)
        ensures
            r@ == (OptionsView {
                config_file: encode_utf8("/opt/rudder/etc/rudderc.conf"@),
                input: None,
                output: None,
                log_level: LogLevel::Warn,
                stdin: false,
                stdout: false,
                json_logs: false,
                backtrace: false,
            }),
    {
        Options {
            config_file: FilePath::from_text("/opt/rudder/etc/rudderc.conf"),
            input: None,
            output: None,
            log_level: LogLevel::Warn,
            stdin: false,
            stdout: false,
            json_logs: false,
            backtrace: false,
        }
    }
}

/// Every level is found again by its name, and a name that stands for a level is its name.
pub proof fn law_log_level_names(level: LogLevel, name: Seq<char>)
    ensures
        log_level_named(level.name()) == Some(level),
        log_level_named(name) matches Some(found) ==> found.name() == name,
{
    reveal_strlit("off");
    reveal_strlit("trace");
    reveal_strlit("debug");
    reveal_strlit("info");
    reveal_strlit("warn");
    reveal_strlit("error");
    assert("trace"@[0] == 't' && "debug"@[0] == 'd' && "error"@[0] == 'e');
    assert("info"@[0] == 'i' && "warn"@[0] == 'w');
}

} // verus!
