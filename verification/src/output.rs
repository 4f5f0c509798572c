//! Where `rudderc` writes what it makes.

use crate::error::{Error, ErrorView};
use crate::formats::Command;
use crate::path;
use crate::path::{copy_path, FilePath};
use vstd::prelude::*;

verus! {

/// A directory or a file whose presence decides where the output goes.
#[derive(Debug, PartialEq, Eq)]
pub enum OutputProbe {
    /// The directory of the output of the command line, with the output of the configuration and
    /// the input to fall back on.
    Given {
        output: FilePath,
        directory: FilePath,
        config: Option<FilePath>,
        input: Option<FilePath>,
    },
    /// The directory of the output of the command line, taken from that of the configuration, with
    /// the input to fall back on.
    Joined { output: FilePath, directory: FilePath, input: Option<FilePath> },
    /// The output file of the configuration, with the input to fall back on.
    Configured { file: FilePath, input: Option<FilePath> },
}

/// What an `OutputProbe` holds.
pub enum OutputProbeView {
    Given {
        output: Seq<u8>,
        directory: Seq<u8>,
        config: Option<Seq<u8>>,
        input: Option<Seq<u8>>,
    },
    Joined { output: Seq<u8>, directory: Seq<u8>, input: Option<Seq<u8>> },
    Configured { file: Seq<u8>, input: Option<Seq<u8>> },
}

impl View for OutputProbe {
    type V = OutputProbeView;

    open spec fn view(&self) -> OutputProbeView {
        match *self {
            OutputProbe::Given { output, directory, config, input } => OutputProbeView::Given {
                output: output@,
                directory: directory@,
                config: config.deep_view(),
                input: input.deep_view(),
            },
            OutputProbe::Joined { output, directory, input } => OutputProbeView::Joined {
                output: output@,
                directory: directory@,
                input: input.deep_view(),
            },
            OutputProbe::Configured { file, input } => OutputProbeView::Configured {
                file: file@,
                input: input.deep_view(),
            },
        }
    }
}

/// How far the search for the output has come.
#[derive(Debug, PartialEq, Eq)]
pub enum OutputStep {
    /// The output is the standard output.
    Stdout,
    /// It depends on whether a directory or a file is there.
    Probe(OutputProbe),
    /// The output file is this one, but for its extension.
    Chosen(FilePath),
    /// There is no output.
    Failed(Error),
}

/// What an `OutputStep` says.
pub enum OutputStepView {
    Stdout,
    Probe(OutputProbeView),
    Chosen(Seq<u8>),
    Failed(ErrorView),
}

impl View for OutputStep {
    type V = OutputStepView;

    open spec fn view(&self) -> OutputStepView {
        match *self {
            OutputStep::Stdout => OutputStepView::Stdout,
            OutputStep::Probe(probe) => OutputStepView::Probe(probe@),
            OutputStep::Chosen(path) => OutputStepView::Chosen(path@),
            OutputStep::Failed(error) => OutputStepView::Failed(error@),
        }
    }
}

/// The error of an output whose directory does not exist, in the configuration's either, where
/// there is no input to base the output on.
pub open spec fn no_output_directory() -> ErrorView {
    ErrorView::Message("Commands: paths do not match any existing directory"@)
}

/// The error of a run that has no output.
pub open spec fn no_output() -> ErrorView {
    ErrorView::Message(
        "Commands: no parameters or configuration output or input to base output file on"@,
    )
}

/// Whether what is made goes to the standard output: it is asked for, or a technique is generated
/// and no output is given.
pub open spec fn writes_to_stdout(
    command: Command,
    argv_output: Option<Seq<u8>>,
    is_stdout: bool,
) -> bool {
    is_stdout || (command is GenerateTechnique && argv_output is None)
}

/// The output that is based on the input.
pub open spec fn output_from_input(input: Option<Seq<u8>>) -> OutputStepView {
    match input {
        Some(input) => OutputStepView::Chosen(input),
        None => OutputStepView::Failed(no_output()),
    }
}

/// The output where the given one has no directory, in the configuration's either: it is based on
/// the input.
pub open spec fn output_without_directory(input: Option<Seq<u8>>) -> OutputStepView {
    match input {
        Some(input) => OutputStepView::Chosen(input),
        None => OutputStepView::Failed(no_output_directory()),
    }
}

/// Where the search for the output goes if the directory of the given output does not exist.
pub open spec fn output_elsewhere(
    output: Seq<u8>,
    config: Option<Seq<u8>>,
    input: Option<Seq<u8>>,
) -> OutputStepView {
    match config {
        Some(config) => {
            let joined = path::join(config, output);
            match path::parent(joined) {
                Some(directory) => OutputStepView::Probe(
                    OutputProbeView::Joined { output: joined, directory, input },
                ),
                None => output_without_directory(input),
            }
        },
        None => output_from_input(input),
    }
}

/// Where the search for the output starts.
pub open spec fn first_output_step(
    config: Option<Seq<u8>>,
    command: Command,
    input: Option<Seq<u8>>,
    argv_output: Option<Seq<u8>>,
    is_stdout: bool,
) -> OutputStepView {
    if writes_to_stdout(command, argv_output, is_stdout) {
        OutputStepView::Stdout
    } else {
        match (argv_output, config) {
            (Some(output), _) => match path::parent(output) {
                Some(directory) => OutputStepView::Probe(
                    OutputProbeView::Given { output, directory, config, input },
                ),
                None => output_elsewhere(output, config, input),
            },
            (None, Some(config)) => OutputStepView::Probe(
                OutputProbeView::Configured { file: config, input },
            ),
            (None, None) => output_from_input(input),
        }
    }
}

/// Where the search for the output goes once a directory or a file was looked for.
pub open spec fn next_output_step(probe: OutputProbeView, is_there: bool) -> OutputStepView {
    match probe {
        OutputProbeView::Given { output, config, input, .. } => if is_there {
            OutputStepView::Chosen(output)
        } else {
            output_elsewhere(output, config, input)
        },
        OutputProbeView::Joined { output, input, .. } => if is_there {
            OutputStepView::Chosen(output)
        } else {
            output_without_directory(input)
        },
        OutputProbeView::Configured { file, input } => if is_there {
            OutputStepView::Chosen(file)
        } else {
            output_from_input(input)
        },
    }
}

/// Bases the output on the input.
fn base_on_input(input: Option<FilePath>) -> (r: OutputStep)
    ensures
        r@ == output_from_input(input.deep_view()),
{
    match input {
        Some(input) => OutputStep::Chosen(input),
        None => OutputStep::Failed(
            Error::new(
                "Commands: no parameters or configuration output or input to base output file on".to_owned(),
            ),
        ),
    }
}

/// Bases the output on the input for want of a directory.
fn do_without_directory(input: Option<FilePath>) -> (r: OutputStep)
    ensures
        r@ == output_without_directory(input.deep_view()),
{
    match input {
        Some(input) => OutputStep::Chosen(input),
        None => OutputStep::Failed(
            Error::new("Commands: paths do not match any existing directory".to_owned()),
        ),
    }
}

/// Looks for the output elsewhere than in its own directory, which does not exist.
fn look_elsewhere(
    output: &FilePath,
    config: &Option<FilePath>,
    input: Option<FilePath>,
) -> (r: OutputStep)
    ensures
        r@ == output_elsewhere(output@, config.deep_view(), input.deep_view()),
{
    match config {
        Some(config) => {
            let joined = config.join(output);
            match joined.parent() {
                Some(directory) => OutputStep::Probe(
                    OutputProbe::Joined { output: joined, directory, input },
                ),
                None => do_without_directory(input),
            }
        },
        None => base_on_input(input),
    }
}

impl OutputProbe {
    /// Goes on with the search for the output, `is_there` telling whether the directory (for
    /// `Given` and `Joined`) or the file (for `Configured`) exists.
    pub fn resume(self, is_there: bool) -> (r: OutputStep)
        ensures
            r@ == next_output_step(self@, is_there),
    {
        match self {
            OutputProbe::Given { output, directory: _, config, input } => if is_there {
                OutputStep::Chosen(output)
            } else {
                look_elsewhere(&output, &config, input)
            },
            OutputProbe::Joined { output, directory: _, input } => if is_there {
                OutputStep::Chosen(output)
            } else {
                do_without_directory(input)
            },
            OutputProbe::Configured { file, input } => if is_there {
                OutputStep::Chosen(file)
            } else {
                base_on_input(input)
            },
        }
    }
}

/// Starts the search for the output: the standard output, the file that `argv_output` and
/// `config_path` lead to, or the file of the input.
pub fn get_output(
    config_path: &Option<FilePath>,
    command: Command,
    input: &Option<FilePath>,
    argv_output: &Option<FilePath>,
    is_stdout: bool,
) -> (r: OutputStep)
    ensures
        r@ == first_output_step(
            config_path.deep_view(),
            command,
            input.deep_view(),
            argv_output.deep_view(),
            is_stdout,
        ),
{
    if is_stdout || (command == Command::GenerateTechnique && argv_output.is_none()) {
        return OutputStep::Stdout;
    }
    let input = copy_path(input);
    match (argv_output, config_path) {
        (Some(output), _) => match output.parent() {
            Some(directory) => OutputStep::Probe(
                OutputProbe::Given {
                    output: output.clone(),
                    directory,
                    config: copy_path(config_path),
                    input,
                },
            ),
            None => look_elsewhere(output, config_path, input),
        },
        (None, Some(config)) => OutputStep::Probe(
            OutputProbe::Configured { file: config.clone(), input },
        ),
        (None, None) => base_on_input(input),
    }
}

} // verus!
