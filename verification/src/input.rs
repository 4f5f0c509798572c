//! Where the source that `rudderc` works on comes from.

use crate::error::{Error, ErrorView};
use crate::path;
use crate::path::{copy_path, FilePath};
use crate::text;
use vstd::prelude::*;

verus! {

/// A file whose presence decides where the input comes from.
#[derive(Debug, PartialEq, Eq)]
pub enum InputProbe {
    /// The input of the command line, with that of the configuration to fall back on.
    Given { input: FilePath, config: Option<FilePath> },
    /// The input of the command line, taken from the directory of the configuration.
    Joined(FilePath),
    /// The input of the configuration.
    Configured(FilePath),
}

/// What an `InputProbe` holds.
pub enum InputProbeView {
    Given { input: Seq<u8>, config: Option<Seq<u8>> },
    Joined(Seq<u8>),
    Configured(Seq<u8>),
}

impl View for InputProbe {
    type V = InputProbeView;

    open spec fn view(&self) -> InputProbeView {
        match *self {
            InputProbe::Given { input, config } => InputProbeView::Given {
                input: input@,
                config: config.deep_view(),
            },
            InputProbe::Joined(path) => InputProbeView::Joined(path@),
            InputProbe::Configured(path) => InputProbeView::Configured(path@),
        }
    }
}

/// How far the search for the input has come.
#[derive(Debug, PartialEq, Eq)]
pub enum InputStep {
    /// The input is the standard input.
    Stdin,
    /// It depends on whether a file is there.
    Probe(InputProbe),
    /// The input is this file.
    Found(FilePath),
    /// There is no input.
    Failed(Error),
}

/// What an `InputStep` says.
pub enum InputStepView {
    Stdin,
    Probe(InputProbeView),
    Found(Seq<u8>),
    Failed(ErrorView),
}

impl View for InputStep {
    type V = InputStepView;

    open spec fn view(&self) -> InputStepView {
        match *self {
            InputStep::Stdin => InputStepView::Stdin,
            InputStep::Probe(probe) => InputStepView::Probe(probe@),
            InputStep::Found(path) => InputStepView::Found(path@),
            InputStep::Failed(error) => InputStepView::Failed(error@),
        }
    }
}

/// The error of an input that is not in the directory of the configuration either.
pub open spec fn no_joined_input() -> ErrorView {
    ErrorView::Message("Commands: input does not match any existing file"@)
}

/// The error of a run that has no input.
pub open spec fn no_input() -> ErrorView {
    ErrorView::Message("Commands: no input or input does not match any existing file"@)
}

/// Where the search for the input starts.
pub open spec fn first_input_step(
    config: Option<Seq<u8>>,
    input: Option<Seq<u8>>,
    is_stdin: bool,
) -> InputStepView {
    if is_stdin {
        InputStepView::Stdin
    } else {
        match (input, config) {
            (Some(input), _) => InputStepView::Probe(InputProbeView::Given { input, config }),
            (None, Some(config)) => InputStepView::Probe(InputProbeView::Configured(config)),
            (None, None) => InputStepView::Failed(no_input()),
        }
    }
}

/// Where the search for the input goes once a file was looked for.
pub open spec fn next_input_step(probe: InputProbeView, is_file: bool) -> InputStepView {
    match probe {
        InputProbeView::Given { input, config } => if is_file {
            InputStepView::Found(input)
        } else {
            match config {
                Some(config) => InputStepView::Probe(
                    InputProbeView::Joined(path::join(config, input)),
                ),
                None => InputStepView::Failed(no_input()),
            }
        },
        InputProbeView::Joined(path) => if is_file {
            InputStepView::Found(path)
        } else {
            InputStepView::Failed(no_joined_input())
        },
        InputProbeView::Configured(path) => if is_file {
            InputStepView::Found(path)
        } else {
            InputStepView::Failed(no_input())
        },
    }
}

impl InputProbeView {
    /// The file to look for.
    pub open spec fn target(self) -> Seq<u8> {
        match self {
            InputProbeView::Given { input, .. } => input,
            InputProbeView::Joined(path) => path,
            InputProbeView::Configured(path) => path,
        }
    }
}

impl InputProbe {
    /// The file to look for.
    pub fn target(&self) -> (r: &FilePath)
        ensures
            r@ == self@.target(),
    {
        match self {
            InputProbe::Given { input, .. } => input,
            InputProbe::Joined(path) => path,
            InputProbe::Configured(path) => path,
        }
    }

    /// Goes on with the search for the input, `is_file` telling whether the file is there.
    pub fn resume(self, is_file: bool) -> (r: InputStep)
        ensures
            r@ == next_input_step(self@, is_file),
    {
        match self {
            InputProbe::Given { input, config } => if is_file {
                InputStep::Found(input)
            } else {
                match config {
                    Some(config) => InputStep::Probe(InputProbe::Joined(config.join(&input))),
                    None => InputStep::Failed(
                        Error::new(
                            "Commands: no input or input does not match any existing file".to_owned(),
                        ),
                    ),
                }
            },
            InputProbe::Joined(path) => if is_file {
                InputStep::Found(path)
            } else {
                InputStep::Failed(
                    Error::new("Commands: input does not match any existing file".to_owned()),
                )
            },
            InputProbe::Configured(path) => if is_file {
                InputStep::Found(path)
            } else {
                InputStep::Failed(
                    Error::new(
                        "Commands: no input or input does not match any existing file".to_owned(),
                    ),
                )
            },
        }
    }
}

/// Starts the search for the input: the standard input if it is asked for, else the file that
/// `input` and `config_path` lead to.
pub fn get_input(
    config_path: &Option<FilePath>,
    input: &Option<FilePath>,
    is_stdin: bool,
) -> (r: InputStep)
    ensures
        r@ == first_input_step(config_path.deep_view(), input.deep_view(), is_stdin),
{
    if is_stdin {
        return InputStep::Stdin;
    }
    match (input, config_path) {
        (Some(given), _) => InputStep::Probe(
            InputProbe::Given { input: given.clone(), config: copy_path(config_path) },
        ),
        (None, Some(config)) => InputStep::Probe(InputProbe::Configured(config.clone())),
        (None, None) => InputStep::Failed(
            Error::new("Commands: no input or input does not match any existing file".to_owned()),
        ),
    }
}

/// The name that a source is known by: the name of its file, or `STDIN`.
pub open spec fn source_name(path: Option<Seq<u8>>) -> Result<Seq<char>, ErrorView> {
    match path {
        Some(path) => match path::file_name(path) {
            Some(name) => Ok(text::lossy_text(name)),
            None => Err(ErrorView::InvalidFile(path)),
        },
        None => Ok("STDIN"@),
    }
}

/// The name that the source at `path` is to be read under, or why it cannot be read; no path
/// means the standard input.
pub fn get_content(path: &Option<FilePath>) -> (r: Result<String, Error>)
    ensures
        named_view(r) == source_name(path.deep_view()),
{
    match path {
        Some(path) => match path.file_name_lossy() {
            Some(name) => Ok(name),
            None => Err(Error::InvalidFile(path.clone())),
        },
        None => Ok("STDIN".to_owned()),
    }
}

/// What `get_content` gave.
pub open spec fn named_view(named: Result<String, Error>) -> Result<Seq<char>, ErrorView> {
    match named {
        Ok(name) => Ok(name@),
        Err(error) => Err(error@),
    }
}

/// A source that was read, under the name it is known by.
#[derive(Debug, PartialEq, Eq)]
pub struct Source {
    pub name: String,
    pub content: String,
}

/// What a `Source` holds.
pub struct SourceView {
    pub name: Seq<char>,
    pub content: Seq<char>,
}

impl View for Source {
    type V = SourceView;

    open spec fn view(&self) -> SourceView {
        SourceView { name: self.name@, content: self.content@ }
    }
}

/// What reading the source `name` comes to: its content, or the error that the system gave.
pub open spec fn source_read(name: Seq<char>, read: Result<Seq<char>, Seq<char>>) -> Result<
    SourceView,
    ErrorView,
> {
    match read {
        Ok(content) => Ok(SourceView { name, content }),
        Err(message) => Err(ErrorView::InFile { file: name, message }),
    }
}

/// What the system gave for a source.
pub open spec fn read_view(read: Result<String, String>) -> Result<Seq<char>, Seq<char>> {
    match read {
        Ok(content) => Ok(content@),
        Err(message) => Err(message@),
    }
}

/// What a read source comes to.
pub open spec fn source_view(source: Result<Source, Error>) -> Result<SourceView, ErrorView> {
    match source {
        Ok(source) => Ok(source@),
        Err(error) => Err(error@),
    }
}

/// Takes what the system gave for the source `name`.
pub fn read_source(name: String, read: Result<String, String>) -> (r: Result<Source, Error>)
    ensures
        source_view(r) == source_read(name@, read_view(read)),
{
    match read {
        Ok(content) => Ok(Source { name, content }),
        Err(message) => Err(Error::InFile { file: name, message }),
    }
}

} // verus!
