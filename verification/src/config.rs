//! The configuration file of `rudderc`.

use crate::formats::Command;
use crate::path::FilePath;
use vstd::prelude::*;

verus! {

/// What all commands share.
#[derive(Debug, PartialEq, Eq)]
pub struct LibsConfig {
    pub stdlib: FilePath,
    pub generic_methods: FilePath,
}

/// The input and the output that a command falls back on.
#[derive(Debug, PartialEq, Eq)]
pub struct IOPaths {
    pub input: Option<FilePath>,
    pub output: Option<FilePath>,
}

/// What `IOPaths` hold.
pub struct IOPathsView {
    pub input: Option<Seq<u8>>,
    pub output: Option<Seq<u8>>,
}

impl View for IOPaths {
    type V = IOPathsView;

    open spec fn view(&self) -> IOPathsView {
        IOPathsView { input: self.input.deep_view(), output: self.output.deep_view() }
    }
}

/// The content of the configuration file.
#[derive(Debug, PartialEq, Eq)]
pub struct Config {
    pub libs: LibsConfig,
    pub compile: IOPaths,
    pub lint: IOPaths,
    pub save: IOPaths,
    pub technique_generate: IOPaths,
    pub technique_read: IOPaths,
}

/// What a `Config` holds.
pub struct ConfigView {
    pub stdlib: Seq<u8>,
    pub generic_methods: Seq<u8>,
    pub compile: IOPathsView,
    pub lint: IOPathsView,
    pub save: IOPathsView,
    pub technique_generate: IOPathsView,
    pub technique_read: IOPathsView,
}

impl View for Config {
    type V = ConfigView;

    open spec fn view(&self) -> ConfigView {
        ConfigView {
            stdlib: self.libs.stdlib@,
            generic_methods: self.libs.generic_methods@,
            compile: self.compile@,
            lint: self.lint@,
            save: self.save@,
            technique_generate: self.technique_generate@,
            technique_read: self.technique_read@,
        }
    }
}

impl ConfigView {
    /// The paths that a command falls back on.
    pub open spec fn paths_of(self, command: Command) -> IOPathsView {
        match command {
            Command::Compile => self.compile,
            Command::GenerateTechnique => self.technique_generate,
            Command::Save => self.save,
            Command::ReadTechnique => self.technique_read,
            Command::Lint => self.lint,
        }
    }
}

impl Config {
    /// The path of the libraries, and the paths that a command falls back on.
    pub fn into_paths(self, command: Command) -> (r: (FilePath, IOPaths))
        ensures
            r.0@ == self@.stdlib,
            r.1@ == self@.paths_of(command),
    {
        let paths = match command {
            Command::Compile => self.compile,
            Command::GenerateTechnique => self.technique_generate,
            Command::Save => self.save,
            Command::ReadTechnique => self.technique_read,
            Command::Lint => self.lint,
        };
        (self.libs.stdlib, paths)
    }
}

} // verus!
