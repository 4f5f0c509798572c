//! The rules of the single steps of `rudderc`: what each choice is made on, and what follows from
//! what was found outside.

use crate::config::ConfigView;
use crate::context;
use crate::context::IOContextView;
use crate::error::ErrorView;
use crate::formats;
use crate::formats::{Command, FormatChoiceView, FormatView};
use crate::input;
use crate::input::{InputProbeView, InputStepView, SourceView};
use crate::options;
use crate::options::LogLevel;
use crate::output;
use crate::output::{OutputProbeView, OutputStepView};
use crate::path;
use crate::session;
use crate::session::{DraftView, ReplyView, RequestView, StepView};
use crate::text;
use vstd::prelude::*;
use vstd::utf8::*;

verus! {

/// Six names stand for levels, and no other does.
pub proof fn law_log_levels(name: Seq<char>)
    ensures
        options::log_level_named("off"@) == Some(LogLevel::Off),
        options::log_level_named("trace"@) == Some(LogLevel::Trace),
        options::log_level_named("debug"@) == Some(LogLevel::Debug),
        options::log_level_named("info"@) == Some(LogLevel::Info),
        options::log_level_named("warn"@) == Some(LogLevel::Warn),
        options::log_level_named("error"@) == Some(LogLevel::Error),
        options::log_level_named(name) is Some <==> name == "off"@ || name == "trace"@ || name
            == "debug"@ || name == "info"@ || name == "warn"@ || name == "error"@,
{
    reveal_strlit("off");
    reveal_strlit("trace");
    reveal_strlit("debug");
    reveal_strlit("info");
    reveal_strlit("warn");
    reveal_strlit("error");
    assert("trace"@[0] == 't' && "debug"@[0] == 'd' && "error"@[0] == 'e');
    assert("info"@[0] == 'i' && "warn"@[0] == 'w');
}

/// With `--stdin` no file is looked for. Without, the file that is given is looked for first, and
/// that of the configuration only where none is given.
pub proof fn law_input_starts(config: Option<Seq<u8>>, input: Option<Seq<u8>>, file: Seq<u8>)
    ensures
        input::first_input_step(config, input, true) == InputStepView::Stdin,
        input::first_input_step(config, Some(file), false) == InputStepView::Probe(
            InputProbeView::Given { input: file, config },
        ),
        input::first_input_step(Some(file), None, false) == InputStepView::Probe(
            InputProbeView::Configured(file),
        ),
        input::first_input_step(None, None, false) == InputStepView::Failed(
            ErrorView::Message("Commands: no input or input does not match any existing file"@),
        ),
{
}

/// Whatever file is looked for is the input if it is there. A given file that is not there is
/// looked for once more, in the directory of the configuration; all else that is not there is an
/// error.
pub proof fn law_input_goes_on(
    probe: InputProbeView,
    input: Seq<u8>,
    config: Option<Seq<u8>>,
    directory: Seq<u8>,
)
    ensures
        input::next_input_step(probe, true) == InputStepView::Found(probe.target()),
        input::next_input_step(
            InputProbeView::Given { input, config: Some(directory) },
            false,
        ) == InputStepView::Probe(InputProbeView::Joined(path::join(directory, input))),
        input::next_input_step(InputProbeView::Given { input, config: None }, false)
            == InputStepView::Failed(
            ErrorView::Message("Commands: no input or input does not match any existing file"@),
        ),
        input::next_input_step(InputProbeView::Joined(input), false) == InputStepView::Failed(
            ErrorView::Message("Commands: input does not match any existing file"@),
        ),
        input::next_input_step(InputProbeView::Configured(input), false) == InputStepView::Failed(
            ErrorView::Message("Commands: no input or input does not match any existing file"@),
        ),
        (InputProbeView::Given { input, config }).target() == input,
        InputProbeView::Joined(input).target() == input,
        InputProbeView::Configured(input).target() == input,
{
}

/// A source is known by the name of its file, or as `STDIN`; it is that name that stands by what
/// was read, or by why nothing was.
pub proof fn law_source(path: Seq<u8>, name: Seq<char>, content: Seq<char>, message: Seq<char>)
    ensures
        input::source_name(None) == Ok::<Seq<char>, ErrorView>("STDIN"@),
        path::file_name(path) matches Some(bytes) ==> input::source_name(Some(path)) == Ok::<
            Seq<char>,
            ErrorView,
        >(text::lossy_text(bytes)),
        path::file_name(path) is None ==> input::source_name(Some(path)) == Err::<
            Seq<char>,
            ErrorView,
        >(ErrorView::InvalidFile(path)),
        input::source_read(name, Ok(content)) == Ok::<SourceView, ErrorView>(
            SourceView { name, content },
        ),
        input::source_read(name, Err(message)) == Err::<SourceView, ErrorView>(
            ErrorView::InFile { file: name, message },
        ),
{
}

/// Nothing is looked for where the standard output is written to: with `--stdout`, and where a
/// technique is generated and no output given. In no other case is the standard output written to:
/// a given output is looked for by its directory, and without one the file of the configuration
/// is. Where nothing can be looked for the output is that of the input.
pub proof fn law_output_starts(
    config: Option<Seq<u8>>,
    command: Command,
    input: Option<Seq<u8>>,
    argv_output: Option<Seq<u8>>,
    file: Seq<u8>,
)
    ensures
        output::first_output_step(config, command, input, argv_output, true)
            == OutputStepView::Stdout,
        output::first_output_step(config, Command::GenerateTechnique, input, None, false)
            == OutputStepView::Stdout,
        path::parent(file) matches Some(directory) ==> output::first_output_step(
            config,
            command,
            input,
            Some(file),
            false,
        ) == OutputStepView::Probe(
            OutputProbeView::Given { output: file, directory, config, input },
        ),
        path::parent(file) is None ==> output::first_output_step(
            config,
            command,
            input,
            Some(file),
            false,
        ) == output::next_output_step(
            OutputProbeView::Given { output: file, directory: file, config, input },
            false,
        ),
        !(command is GenerateTechnique) ==> output::first_output_step(
            Some(file),
            command,
            input,
            None,
            false,
        ) == OutputStepView::Probe(OutputProbeView::Configured { file, input }),
        !(command is GenerateTechnique) ==> output::first_output_step(
            None,
            command,
            input,
            None,
            false,
        ) == output::next_output_step(OutputProbeView::Configured { file, input }, false),
{
}

/// What is looked for is the output if it is there, or its directory is. A given output whose
/// directory is not there is looked for once more, in the directory of the configuration. At last
/// the output is the file of the input, and without one there is none.
pub proof fn law_output_goes_on(
    file: Seq<u8>,
    directory: Seq<u8>,
    config: Option<Seq<u8>>,
    base: Seq<u8>,
    input: Option<Seq<u8>>,
)
    ensures
        ({
            let given = OutputProbeView::Given { output: file, directory, config, input };
            let joined = OutputProbeView::Joined { output: file, directory, input };
            let configured = OutputProbeView::Configured { file, input };
            &&& output::next_output_step(given, true) == OutputStepView::Chosen(file)
            &&& output::next_output_step(joined, true) == OutputStepView::Chosen(file)
            &&& output::next_output_step(configured, true) == OutputStepView::Chosen(file)
            &&& input is Some ==> {
                let based = OutputStepView::Chosen(input->0);
                &&& output::next_output_step(joined, false) == based
                &&& output::next_output_step(configured, false) == based
                &&& config is None ==> output::next_output_step(given, false) == based
            }
            &&& input is None ==> {
                let failed = OutputStepView::Failed(
                    ErrorView::Message(
                        "Commands: no parameters or configuration output or input to base output file on"@,
                    ),
                );
                &&& output::next_output_step(joined, false) == OutputStepView::Failed(
                    ErrorView::Message("Commands: paths do not match any existing directory"@),
                )
                &&& output::next_output_step(configured, false) == failed
                &&& config is None ==> output::next_output_step(given, false) == failed
            }
            &&& config == Some(base) ==> {
                let other = path::join(base, file);
                match path::parent(other) {
                    Some(place) => output::next_output_step(given, false) == OutputStepView::Probe(
                        OutputProbeView::Joined { output: other, directory: place, input },
                    ),
                    None => output::next_output_step(given, false) == output::next_output_step(
                        joined,
                        false,
                    ),
                }
            }
        }),
{
}

/// The format that is given is written, by every command but the compiler's and, if it is for
/// CFEngine, DSC or Markdown, by the compiler's. Only what is compiled or read gets an extension
/// before that of the format. Else the compiler looks at the extension of the output, if there is
/// one that is text.
pub proof fn law_format_chosen(
    command: Command,
    given: FormatView,
    format: Option<FormatView>,
    output: Option<Seq<u8>>,
    file: Seq<u8>,
)
    ensures
        given.target is CFEngine || given.target is DSC || given.target is Markdown
            ==> formats::output_format(Command::Compile, Some(given), output) == (
        FormatChoiceView::Settled { extension: "rd."@ + given.text, format: given }),
        formats::output_format(Command::ReadTechnique, Some(given), output) == (
        FormatChoiceView::Settled { extension: "rd."@ + given.text, format: given }),
        command is Save || command is Lint || command is GenerateTechnique
            ==> formats::output_format(command, Some(given), output) == (
        FormatChoiceView::Settled { extension: given.text, format: given }),
        format is None || format->0.target is Other ==> {
            &&& path::extension_text(file) matches Some(extension) ==> formats::output_format(
                Command::Compile,
                format,
                Some(file),
            ) == FormatChoiceView::FromExtension(extension)
            &&& output is None || path::extension_text(output->0) is None
                ==> formats::output_format(Command::Compile, format, output)
                == FormatChoiceView::Failed(
                ErrorView::Message(
                    "Commands: missing or invalid format, plus unrecognized or invalid output file extension"@,
                ),
            )
        },
{
}

/// A format that an extension stands for is written with its own extension; why there is none is
/// said as it was found. Only the compiler can do without a format that is given.
pub proof fn law_format_recognized(format: FormatView, error: ErrorView, command: Command)
    ensures
        formats::recognized_format(Ok(format)) == (FormatChoiceView::Settled {
            extension: format.text,
            format,
        }),
        formats::recognized_format(Err(error)) == FormatChoiceView::Failed(error),
        formats::format_defined(command, Some(format)),
        formats::format_defined(command, None) <==> command is Compile,
{
}

/// Once the configuration was read the input is looked for, with the paths of the command's own
/// table to fall back on. Without a configuration a session ends.
pub proof fn law_step_config(request: RequestView, config: ConfigView, message: Seq<char>)
    ensures
        ({
            let reading = StepView::ReadConfig(request);
            let paths = match request.command {
                Command::Compile => config.compile,
                Command::GenerateTechnique => config.technique_generate,
                Command::Save => config.save,
                Command::ReadTechnique => config.technique_read,
                Command::Lint => config.lint,
            };
            let draft = DraftView {
                command: request.command,
                stdlib: config.stdlib,
                config_output: paths.output,
                argv_output: request.output,
                stdout: request.stdout,
                format: request.format,
            };
            let failed = StepView::Done(
                Err(
                    ErrorView::Message(
                        "Commands: no input or input does not match any existing file"@,
                    ),
                ),
            );
            &&& session::next_step(reading, ReplyView::Config(config)) == if request.stdin {
                StepView::ReadContent { draft, path: None, name: "STDIN"@ }
            } else {
                match (request.input, paths.input) {
                    (Some(input), _) => StepView::ProbeInput {
                        draft,
                        probe: InputProbeView::Given { input, config: paths.input },
                    },
                    (None, Some(file)) => StepView::ProbeInput {
                        draft,
                        probe: InputProbeView::Configured(file),
                    },
                    (None, None) => failed,
                }
            }
            &&& session::next_step(reading, ReplyView::ConfigUnreadable(message))
                == StepView::Done(
                Err(ErrorView::Message("Could not read toml config file: "@ + message)),
            )
            &&& session::next_step(reading, ReplyView::ConfigMalformed(message))
                == StepView::Done(
                Err(
                    ErrorView::Message(
                        "Could not parse (probably faulty) toml config file: "@ + message,
                    ),
                ),
            )
        }),
{
}

/// Once the input is found its source is read; one without a name is an error, and so is an input
/// that is not found.
pub proof fn law_step_input(draft: DraftView, probe: InputProbeView, present: bool)
    ensures
        session::next_step(
            StepView::ProbeInput { draft, probe },
            ReplyView::Present(present),
        ) == match input::next_input_step(probe, present) {
            InputStepView::Stdin => StepView::ReadContent { draft, path: None, name: "STDIN"@ },
            InputStepView::Probe(other) => StepView::ProbeInput { draft, probe: other },
            InputStepView::Failed(error) => StepView::Done(Err(error)),
            InputStepView::Found(path) => match path::file_name(path) {
                Some(name) => StepView::ReadContent {
                    draft,
                    path: Some(path),
                    name: text::lossy_text(name),
                },
                None => StepView::Done(Err(ErrorView::InvalidFile(path))),
            },
        },
{
}

/// Once the source was read the output is looked for, on the given output, that of the
/// configuration and the file of the source; a source that cannot be read is an error.
pub proof fn law_step_content(
    draft: DraftView,
    path: Option<Seq<u8>>,
    name: Seq<char>,
    content: Seq<char>,
    message: Seq<char>,
)
    ensures
        ({
            let reading = StepView::ReadContent { draft, path, name };
            let source = SourceView { name, content };
            &&& session::next_step(reading, ReplyView::Content(Err(message))) == StepView::Done(
                Err(ErrorView::InFile { file: name, message }),
            )
            &&& session::next_step(reading, ReplyView::Content(Ok(content)))
                == match output::first_output_step(
                draft.config_output,
                draft.command,
                path,
                draft.argv_output,
                draft.stdout,
            ) {
                OutputStepView::Stdout => StepView::ChooseFormat { draft, source, technique: None },
                OutputStepView::Probe(place) => StepView::ProbeOutput { draft, source, place },
                OutputStepView::Chosen(file) => StepView::ChooseFormat {
                    draft,
                    source,
                    technique: Some(file),
                },
                OutputStepView::Failed(error) => StepView::Done(Err(error)),
            }
        }),
{
}

/// Once the output is found the format is chosen; an output that is not found is an error.
pub proof fn law_step_output(
    draft: DraftView,
    source: SourceView,
    place: OutputProbeView,
    present: bool,
)
    ensures
        session::next_step(
            StepView::ProbeOutput { draft, source, place },
            ReplyView::Present(present),
        ) == match output::next_output_step(place, present) {
            OutputStepView::Stdout => StepView::ChooseFormat { draft, source, technique: None },
            OutputStepView::Probe(other) => StepView::ProbeOutput { draft, source, place: other },
            OutputStepView::Chosen(file) => StepView::ChooseFormat {
                draft,
                source,
                technique: Some(file),
            },
            OutputStepView::Failed(error) => StepView::Done(Err(error)),
        },
{
}

/// A context holds what was found on the way, and its output is the file that was chosen with the
/// extension that goes with the format.
pub proof fn law_step_format(
    draft: DraftView,
    source: SourceView,
    technique: Option<Seq<u8>>,
    extension: Seq<char>,
    found: FormatView,
    error: ErrorView,
)
    ensures
        ({
            let choosing = StepView::ChooseFormat { draft, source, technique };
            let recognizing = StepView::RecognizeFormat { draft, source, technique, extension };
            &&& session::next_step(choosing, ReplyView::Proceed) == match formats::output_format(
                draft.command,
                draft.format,
                technique,
            ) {
                FormatChoiceView::Settled { extension: text, format } => StepView::Done(
                    Ok(
                        IOContextView {
                            stdlib: draft.stdlib,
                            input: source.name,
                            input_content: source.content,
                            output: match technique {
                                Some(file) => Some(path::with_extension(file, encode_utf8(text))),
                                None => None,
                            },
                            format,
                            command: draft.command,
                        },
                    ),
                ),
                FormatChoiceView::FromExtension(text) => StepView::RecognizeFormat {
                    draft,
                    source,
                    technique,
                    extension: text,
                },
                FormatChoiceView::Failed(error) => StepView::Done(Err(error)),
            }
            &&& session::next_step(recognizing, ReplyView::Recognized(Ok(found)))
                == StepView::Done(
                Ok(
                    IOContextView {
                        stdlib: draft.stdlib,
                        input: source.name,
                        input_content: source.content,
                        output: match technique {
                            Some(file) => Some(
                                path::with_extension(file, encode_utf8(found.text)),
                            ),
                            None => None,
                        },
                        format: found,
                        command: draft.command,
                    },
                ),
            )
            &&& session::next_step(recognizing, ReplyView::Recognized(Err(error)))
                == StepView::Done(Err(error))
        }),
{
}

/// Only the choice of a format has to wait for something other than the outside: for a format that
/// is given, but where a technique is compiled.
pub proof fn law_step_waits(
    draft: DraftView,
    source: SourceView,
    technique: Option<Seq<u8>>,
    reply: ReplyView,
)
    ensures
        session::awaits(StepView::ChooseFormat { draft, source, technique }, reply) <==> reply
            is Proceed && (draft.command is Compile || draft.format is Some),
{
}

/// The description of a context holds its parts in order: the command, the input, the output, the
/// format and the path of the libraries.
pub proof fn law_described(
    command: Seq<char>,
    input: Seq<char>,
    output: Seq<char>,
    format: Seq<char>,
    stdlib: Seq<char>,
)
    ensures
        context::described(command, input, output, format, stdlib) == command + (" of "@ + (input
            + (" into "@ + (output + (". Output format is "@ + (format + (". Libraries path: "@ + (
        stdlib + "."@)))))))),
{
}

} // verus!
