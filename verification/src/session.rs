//! How an `IOContext` comes about, step by step: what is to be looked at outside, and what
//! follows from what was found there.

use crate::config::{Config, ConfigView};
use crate::context::{IOContext, IOContextView};
use crate::error::{Error, ErrorView};
use crate::formats::{
    get_output_format, settle_format, Command, Format, FormatChoice, FormatChoiceView, FormatView,
};
use crate::formats;
use crate::input;
use crate::input::{
    get_content, get_input, read_source, InputProbe, InputProbeView, InputStep, InputStepView,
    Source, SourceView,
};
use crate::options::{Options, OptionsView};
use crate::output;
use crate::output::{get_output, OutputProbe, OutputProbeView, OutputStep, OutputStepView};
use crate::path;
use crate::path::{copy_path, FilePath};
use crate::text::concat;
use vstd::prelude::*;
use vstd::utf8::*;

verus! {

/// What the command line asks for.
#[derive(Debug, PartialEq, Eq)]
pub struct Request {
    pub command: Command,
    pub config_file: FilePath,
    pub input: Option<FilePath>,
    pub output: Option<FilePath>,
    pub stdin: bool,
    pub stdout: bool,
    pub format: Option<Format>,
}

/// What a `Request` holds.
pub struct RequestView {
    pub command: Command,
    pub config_file: Seq<u8>,
    pub input: Option<Seq<u8>>,
    pub output: Option<Seq<u8>>,
    pub stdin: bool,
    pub stdout: bool,
    pub format: Option<FormatView>,
}

impl View for Request {
    type V = RequestView;

    open spec fn view(&self) -> RequestView {
        RequestView {
            command: self.command,
            config_file: self.config_file@,
            input: self.input.deep_view(),
            output: self.output.deep_view(),
            stdin: self.stdin,
            stdout: self.stdout,
            format: self.format.deep_view(),
        }
    }
}

/// What is known of a context once the configuration was read.
#[derive(Debug, PartialEq, Eq)]
pub struct Draft {
    pub command: Command,
    pub stdlib: FilePath,
    /// The output that the configuration gives.
    pub config_output: Option<FilePath>,
    /// The output that the command line gives.
    pub argv_output: Option<FilePath>,
    pub stdout: bool,
    pub format: Option<Format>,
}

/// What a `Draft` holds.
pub struct DraftView {
    pub command: Command,
    pub stdlib: Seq<u8>,
    pub config_output: Option<Seq<u8>>,
    pub argv_output: Option<Seq<u8>>,
    pub stdout: bool,
    pub format: Option<FormatView>,
}

impl View for Draft {
    type V = DraftView;

    open spec fn view(&self) -> DraftView {
        DraftView {
            command: self.command,
            stdlib: self.stdlib@,
            config_output: self.config_output.deep_view(),
            argv_output: self.argv_output.deep_view(),
            stdout: self.stdout,
            format: self.format.deep_view(),
        }
    }
}

/// How far a context has come, and what is to be done for it to go on.
#[derive(Debug, PartialEq, Eq)]
pub enum Step {
    /// Read and parse the configuration file.
    ReadConfig(Request),
    /// Tell whether a file is there.
    ProbeInput { draft: Draft, probe: InputProbe },
    /// Read the source at `path`, or the standard input if there is no path.
    ReadContent { draft: Draft, path: Option<FilePath>, name: String },
    /// Tell whether a directory or a file is there.
    ProbeOutput { draft: Draft, source: Source, place: OutputProbe },
    /// Nothing but to go on; a format has to be defined.
    ChooseFormat { draft: Draft, source: Source, technique: Option<FilePath> },
    /// Tell which format an extension stands for.
    RecognizeFormat { draft: Draft, source: Source, technique: Option<FilePath>, extension: String },
    /// The context, or why there is none.
    Done(Result<IOContext, Error>),
}

/// What a `Step` says.
pub enum StepView {
    ReadConfig(RequestView),
    ProbeInput { draft: DraftView, probe: InputProbeView },
    ReadContent { draft: DraftView, path: Option<Seq<u8>>, name: Seq<char> },
    ProbeOutput { draft: DraftView, source: SourceView, place: OutputProbeView },
    ChooseFormat { draft: DraftView, source: SourceView, technique: Option<Seq<u8>> },
    RecognizeFormat {
        draft: DraftView,
        source: SourceView,
        technique: Option<Seq<u8>>,
        extension: Seq<char>,
    },
    Done(Result<IOContextView, ErrorView>),
}

impl View for Step {
    type V = StepView;

    open spec fn view(&self) -> StepView {
        match *self {
            Step::ReadConfig(request) => StepView::ReadConfig(request@),
            Step::ProbeInput { draft, probe } => StepView::ProbeInput {
                draft: draft@,
                probe: probe@,
            },
            Step::ReadContent { draft, path, name } => StepView::ReadContent {
                draft: draft@,
                path: path.deep_view(),
                name: name@,
            },
            Step::ProbeOutput { draft, source, place } => StepView::ProbeOutput {
                draft: draft@,
                source: source@,
                place: place@,
            },
            Step::ChooseFormat { draft, source, technique } => StepView::ChooseFormat {
                draft: draft@,
                source: source@,
                technique: technique.deep_view(),
            },
            Step::RecognizeFormat { draft, source, technique, extension } =>
                StepView::RecognizeFormat {
                draft: draft@,
                source: source@,
                technique: technique.deep_view(),
                extension: extension@,
            },
            Step::Done(Ok(context)) => StepView::Done(Ok(context@)),
            Step::Done(Err(error)) => StepView::Done(Err(error@)),
        }
    }
}

/// What was found outside.
#[derive(Debug, PartialEq, Eq)]
pub enum Reply {
    /// The content of the configuration file.
    Config(Config),
    /// Why the configuration file cannot be read.
    ConfigUnreadable(String),
    /// Why the configuration file cannot be parsed.
    ConfigMalformed(String),
    /// Whether something is there.
    Present(bool),
    /// The content of a source, or why it cannot be read.
    Content(Result<String, String>),
    /// Nothing had to be found.
    Proceed,
    /// The format that an extension stands for, or why it stands for none.
    Recognized(Result<Format, Error>),
}

/// What a `Reply` says.
pub enum ReplyView {
    Config(ConfigView),
    ConfigUnreadable(Seq<char>),
    ConfigMalformed(Seq<char>),
    Present(bool),
    Content(Result<Seq<char>, Seq<char>>),
    Proceed,
    Recognized(Result<FormatView, ErrorView>),
}

impl View for Reply {
    type V = ReplyView;

    open spec fn view(&self) -> ReplyView {
        match *self {
            Reply::Config(config) => ReplyView::Config(config@),
            Reply::ConfigUnreadable(message) => ReplyView::ConfigUnreadable(message@),
            Reply::ConfigMalformed(message) => ReplyView::ConfigMalformed(message@),
            Reply::Present(present) => ReplyView::Present(present),
            Reply::Content(read) => ReplyView::Content(input::read_view(read)),
            Reply::Proceed => ReplyView::Proceed,
            Reply::Recognized(recognized) => ReplyView::Recognized(
                formats::recognized_view(recognized),
            ),
        }
    }
}

/// Whether a reply is one that a step waits for.
pub open spec fn awaits(step: StepView, reply: ReplyView) -> bool {
    match step {
        StepView::ReadConfig(_) => reply is Config || reply is ConfigUnreadable
            || reply is ConfigMalformed,
        StepView::ProbeInput { .. } => reply is Present,
        StepView::ReadContent { .. } => reply is Content,
        StepView::ProbeOutput { .. } => reply is Present,
        StepView::ChooseFormat { draft, .. } => reply is Proceed && formats::format_defined(
            draft.command,
            draft.format,
        ),
        StepView::RecognizeFormat { .. } => reply is Recognized,
        StepView::Done(_) => false,
    }
}

/// What the command line asks for.
pub open spec fn requested(
    command: Command,
    options: OptionsView,
    format: Option<FormatView>,
) -> RequestView {
    RequestView {
        command,
        config_file: options.config_file,
        input: options.input,
        output: options.output,
        stdin: options.stdin,
        stdout: options.stdout,
        format,
    }
}

/// The draft of the context that is asked for, under a configuration.
pub open spec fn drafted(request: RequestView, config: ConfigView) -> DraftView {
    DraftView {
        command: request.command,
        stdlib: config.stdlib,
        config_output: config.paths_of(request.command).output,
        argv_output: request.output,
        stdout: request.stdout,
        format: request.format,
    }
}

/// The context that a draft comes to.
pub open spec fn completed(
    draft: DraftView,
    source: SourceView,
    output: Option<Seq<u8>>,
    format: FormatView,
) -> IOContextView {
    IOContextView {
        stdlib: draft.stdlib,
        input: source.name,
        input_content: source.content,
        output,
        format,
        command: draft.command,
    }
}

/// The step that a source at `path` calls for.
pub open spec fn after_source(draft: DraftView, path: Option<Seq<u8>>) -> StepView {
    match input::source_name(path) {
        Ok(name) => StepView::ReadContent { draft, path, name },
        Err(error) => StepView::Done(Err(error)),
    }
}

/// The step that the search for the input calls for.
pub open spec fn after_input(draft: DraftView, found: InputStepView) -> StepView {
    match found {
        InputStepView::Stdin => after_source(draft, None),
        InputStepView::Probe(probe) => StepView::ProbeInput { draft, probe },
        InputStepView::Found(path) => after_source(draft, Some(path)),
        InputStepView::Failed(error) => StepView::Done(Err(error)),
    }
}

/// The step that the search for the output calls for.
pub open spec fn after_output(
    draft: DraftView,
    source: SourceView,
    found: OutputStepView,
) -> StepView {
    match found {
        OutputStepView::Stdout => StepView::ChooseFormat { draft, source, technique: None },
        OutputStepView::Probe(place) => StepView::ProbeOutput { draft, source, place },
        OutputStepView::Chosen(path) => StepView::ChooseFormat {
            draft,
            source,
            technique: Some(path),
        },
        OutputStepView::Failed(error) => StepView::Done(Err(error)),
    }
}

/// The output file once its extension is known.
pub open spec fn extended(technique: Option<Seq<u8>>, extension: Seq<char>) -> Option<Seq<u8>> {
    match technique {
        Some(path) => Some(path::with_extension(path, encode_utf8(extension))),
        None => None,
    }
}

/// The step that the choice of the format calls for.
pub open spec fn after_format(
    draft: DraftView,
    source: SourceView,
    technique: Option<Seq<u8>>,
    choice: FormatChoiceView,
) -> StepView {
    match choice {
        FormatChoiceView::Settled { extension, format } => StepView::Done(
            Ok(completed(draft, source, extended(technique, extension), format)),
        ),
        FormatChoiceView::FromExtension(extension) => StepView::RecognizeFormat {
            draft,
            source,
            technique,
            extension,
        },
        FormatChoiceView::Failed(error) => StepView::Done(Err(error)),
    }
}

/// The step that follows a reply.
pub open spec fn next_step(step: StepView, reply: ReplyView) -> StepView {
    match (step, reply) {
        (StepView::ReadConfig(request), ReplyView::Config(config)) => after_input(
            drafted(request, config),
            input::first_input_step(
                config.paths_of(request.command).input,
                request.input,
                request.stdin,
            ),
        ),
        (StepView::ReadConfig(_), ReplyView::ConfigUnreadable(message)) => StepView::Done(
            Err(ErrorView::Message("Could not read toml config file: "@ + message)),
        ),
        (StepView::ReadConfig(_), ReplyView::ConfigMalformed(message)) => StepView::Done(
            Err(
                ErrorView::Message(
                    "Could not parse (probably faulty) toml config file: "@ + message,
                ),
            ),
        ),
        (StepView::ProbeInput { draft, probe }, ReplyView::Present(present)) => after_input(
            draft,
            input::next_input_step(probe, present),
        ),
        (StepView::ReadContent { draft, path, name }, ReplyView::Content(read)) =>
            match input::source_read(name, read) {
            Ok(source) => after_output(
                draft,
                source,
                output::first_output_step(
                    draft.config_output,
                    draft.command,
                    path,
                    draft.argv_output,
                    draft.stdout,
                ),
            ),
            Err(error) => StepView::Done(Err(error)),
        },
        (StepView::ProbeOutput { draft, source, place }, ReplyView::Present(present)) =>
            after_output(draft, source, output::next_output_step(place, present)),
        (StepView::ChooseFormat { draft, source, technique }, ReplyView::Proceed) => after_format(
            draft,
            source,
            technique,
            formats::output_format(draft.command, draft.format, technique),
        ),
        (
            StepView::RecognizeFormat { draft, source, technique, extension: _ },
            ReplyView::Recognized(recognized),
        ) => after_format(draft, source, technique, formats::recognized_format(recognized)),
        _ => step,
    }
}

/// Goes on to the source at `path`.
fn open_source(draft: Draft, path: Option<FilePath>) -> (r: Step)
    ensures
        r@ == after_source(draft@, path.deep_view()),
{
    match get_content(&path) {
        Ok(name) => Step::ReadContent { draft, path, name },
        Err(error) => Step::Done(Err(error)),
    }
}

/// Goes on with what the search for the input found.
fn follow_input(draft: Draft, found: InputStep) -> (r: Step)
    ensures
        r@ == after_input(draft@, found@),
{
    match found {
        InputStep::Stdin => open_source(draft, None),
        InputStep::Probe(probe) => Step::ProbeInput { draft, probe },
        InputStep::Found(path) => open_source(draft, Some(path)),
        InputStep::Failed(error) => Step::Done(Err(error)),
    }
}

/// Goes on with what the search for the output found.
fn follow_output(draft: Draft, source: Source, found: OutputStep) -> (r: Step)
    ensures
        r@ == after_output(draft@, source@, found@),
{
    match found {
        OutputStep::Stdout => Step::ChooseFormat { draft, source, technique: None },
        OutputStep::Probe(place) => Step::ProbeOutput { draft, source, place },
        OutputStep::Chosen(path) => Step::ChooseFormat { draft, source, technique: Some(path) },
        OutputStep::Failed(error) => Step::Done(Err(error)),
    }
}

/// Goes on with the choice of the format.
fn follow_format(
    draft: Draft,
    source: Source,
    technique: Option<FilePath>,
    choice: FormatChoice,
) -> (r: Step)
    ensures
        r@ == after_format(draft@, source@, technique.deep_view(), choice@),
{
    match choice {
        FormatChoice::Settled { extension, format } => {
            let output = match technique {
                Some(path) => Some(path.with_extension(extension.as_str())),
                None => None,
            };
            Step::Done(
                Ok(
                    IOContext {
                        stdlib: draft.stdlib,
                        input: source.name,
                        input_content: source.content,
                        output,
                        format,
                        command: draft.command,
                    },
                ),
            )
        },
        FormatChoice::FromExtension(extension) => Step::RecognizeFormat {
            draft,
            source,
            technique,
            extension,
        },
        FormatChoice::Failed(error) => Step::Done(Err(error)),
    }
}

impl IOContext {
    /// Starts to make a context of a command line. The configuration file is read first.
    pub fn new(command: Command, opt: &Options, format: Option<Format>) -> (r: Step)
        ensures
            r@ == StepView::ReadConfig(requested(command, opt@, format.deep_view())),
    {
        Step::ReadConfig(
            Request {
                command,
                config_file: opt.config_file.clone(),
                input: copy_path(&opt.input),
                output: copy_path(&opt.output),
                stdin: opt.stdin,
                stdout: opt.stdout,
                format,
            },
        )
    }
}

impl Draft {
    /// Whether there is a format to choose.
    pub fn format_defined(&self) -> (r: bool)
        ensures
            r == formats::format_defined(self@.command, self@.format),
    {
        self.command == Command::Compile || self.format.is_some()
    }
}

impl Step {
    /// Goes on with what was found outside.
    pub fn resume(self, reply: Reply) -> (r: Step)
        requires
            awaits(self@, reply@),
        ensures
            r@ == next_step(self@, reply@),
    {
        match (self, reply) {
            (Step::ReadConfig(request), Reply::Config(config)) => {
                let (stdlib, paths) = config.into_paths(request.command);
                let found = get_input(&paths.input, &request.input, request.stdin);
                let draft = Draft {
                    command: request.command,
                    stdlib,
                    config_output: paths.output,
                    argv_output: request.output,
                    stdout: request.stdout,
                    format: request.format,
                };
                follow_input(draft, found)
            },
            (Step::ReadConfig(_), Reply::ConfigUnreadable(message)) => Step::Done(
                Err(Error::new(concat("Could not read toml config file: ", message.as_str()))),
            ),
            (Step::ReadConfig(_), Reply::ConfigMalformed(message)) => Step::Done(
                Err(
                    Error::new(
                        concat(
                            "Could not parse (probably faulty) toml config file: ",
                            message.as_str(),
                        ),
                    ),
                ),
            ),
            (Step::ProbeInput { draft, probe }, Reply::Present(present)) => follow_input(
                draft,
                probe.resume(present),
            ),
            (Step::ReadContent { draft, path, name }, Reply::Content(read)) =>
                match read_source(name, read) {
                Ok(source) => {
                    let found = get_output(
                        &draft.config_output,
                        draft.command,
                        &path,
                        &draft.argv_output,
                        draft.stdout,
                    );
                    follow_output(draft, source, found)
                },
                Err(error) => Step::Done(Err(error)),
            },
            (Step::ProbeOutput { draft, source, place }, Reply::Present(present)) => follow_output(
                draft,
                source,
                place.resume(present),
            ),
            (Step::ChooseFormat { draft, source, technique }, Reply::Proceed) => {
                let choice = get_output_format(draft.command, &draft.format, &technique);
                follow_format(draft, source, technique, choice)
            },
            (
                Step::RecognizeFormat { draft, source, technique, extension: _ },
                Reply::Recognized(recognized),
            ) => follow_format(draft, source, technique, settle_format(recognized)),
            _ => vstd::pervasive::unreached(),
        }
    }
}

} // verus!
