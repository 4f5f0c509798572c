//! What callers of `rudderc`'s functions can rely on, told of the values that go in and come out.

use crate::config::{Config, IOPaths};
use crate::context;
use crate::context::IOContext;
use crate::error::{Error, ErrorView};
use crate::formats;
use crate::formats::{Command, Format, FormatChoice};
use crate::input;
use crate::input::{InputProbe, InputStep, Source};
use crate::options::{LogLevel, Options};
use crate::output;
use crate::output::{OutputProbe, OutputStep};
use crate::path;
use crate::path::FilePath;
use crate::session::{Draft, Reply, Request, Step};
use crate::text;
use vstd::prelude::*;
use vstd::utf8::*;

verus! {

/// Paths, formats and errors stand for all that they hold.
pub proof fn law_values(path: FilePath, format: Format, error: Error, source: Source)
    ensures
        path@ == path.bytes@ && path.deep_view() == path.bytes@,
        format@.target == format.target && format@.text == format.text@,
        format.deep_view() == format@,
        source@.name == source.name@ && source@.content == source.content@,
        match error {
            Error::Message(message) => error@ == ErrorView::Message(message@),
            Error::InFile { file, message } => error@ == (ErrorView::InFile {
                file: file@,
                message: message@,
            }),
            Error::InvalidFile(path) => error@ == ErrorView::InvalidFile(path.bytes@),
        },
{
}

/// A path is taken apart and put together as its bytes say.
pub proof fn law_path_calls(
    path: &FilePath,
    other: &FilePath,
    extension: &str,
    joined: FilePath,
    parent: Option<FilePath>,
    extended: FilePath,
    named: FilePath,
)
    requires
        call_ensures(FilePath::join, (path, other), joined),
        call_ensures(FilePath::parent, (path,), parent),
        call_ensures(FilePath::with_extension, (path, extension), extended),
        call_ensures(FilePath::from_text, (extension,), named),
    ensures
        joined.bytes@ == path::join(path.bytes@, other.bytes@),
        match parent {
            Some(directory) => path::parent(path.bytes@) == Some(directory.bytes@),
            None => path::parent(path.bytes@) is None,
        },
        extended.bytes@ == path::with_extension(path.bytes@, encode_utf8(extension@)),
        named.bytes@ == encode_utf8(extension@),
{
}

/// The name and the extension of a path are those of its bytes, and are text where they can be.
pub proof fn law_path_parts(
    path: &FilePath,
    name: Option<&[u8]>,
    shown: Option<String>,
    extension: Option<&[u8]>,
    read: Option<String>,
)
    requires
        call_ensures(FilePath::file_name, (path,), name),
        call_ensures(FilePath::file_name_lossy, (path,), shown),
        call_ensures(FilePath::extension, (path,), extension),
        call_ensures(FilePath::extension_text, (path,), read),
    ensures
        match name {
            Some(bytes) => path::file_name(path.bytes@) == Some(bytes@) && shown is Some
                && shown->0@ == text::lossy_text(bytes@),
            None => path::file_name(path.bytes@) is None && shown is None,
        },
        match extension {
            Some(bytes) => path::extension(path.bytes@) == Some(bytes@) && match read {
                Some(text) => text::utf8_text(bytes@) == Some(text@),
                None => text::utf8_text(bytes@) is None,
            },
            None => path::extension(path.bytes@) is None && read is None,
        },
{
}

/// An empty command line names the usual configuration file and asks for nothing else.
pub proof fn law_default_options(options: Options)
    requires
        call_ensures(Options::default, (), options),
    ensures
        options.config_file.bytes@ == encode_utf8("/opt/rudder/etc/rudderc.conf"@),
        options.input is None && options.output is None,
        options.log_level is Warn,
        !options.stdin && !options.stdout && !options.json_logs && !options.backtrace,
{
}

/// A copy holds all that is copied.
pub proof fn law_copies(
    path: &FilePath,
    other_path: FilePath,
    format: &Format,
    other_format: Format,
    options: &Options,
    other_options: Options,
    context: &IOContext,
    other_context: IOContext,
)
    requires
        call_ensures(FilePath::clone, (path,), other_path),
        call_ensures(Format::clone, (format,), other_format),
        call_ensures(Options::clone, (options,), other_options),
        call_ensures(IOContext::clone, (context,), other_context),
    ensures
        other_path.bytes@ == path.bytes@,
        other_format.target == format.target && other_format.text@ == format.text@,
        ({
            &&& other_options.config_file.bytes@ == options.config_file.bytes@
            &&& other_options.input.deep_view() == options.input.deep_view()
            &&& other_options.output.deep_view() == options.output.deep_view()
            &&& other_options.log_level == options.log_level
            &&& other_options.stdin == options.stdin
            &&& other_options.stdout == options.stdout
            &&& other_options.json_logs == options.json_logs
            &&& other_options.backtrace == options.backtrace
        }),
        ({
            &&& other_context.stdlib.bytes@ == context.stdlib.bytes@
            &&& other_context.input@ == context.input@
            &&& other_context.input_content@ == context.input_content@
            &&& other_context.output.deep_view() == context.output.deep_view()
            &&& other_context.format@ == context.format@
            &&& other_context.command == context.command
        }),
{
}

/// A level is found by its name, and by no other.
pub proof fn law_level_from_name(name: &String, level: Option<LogLevel>)
    requires
        call_ensures(LogLevel::from_name, (name,), level),
    ensures
        level == Some(LogLevel::Off) <==> name@ == "off"@,
        level == Some(LogLevel::Trace) <==> name@ == "trace"@,
        level == Some(LogLevel::Debug) <==> name@ == "debug"@,
        level == Some(LogLevel::Info) <==> name@ == "info"@,
        level == Some(LogLevel::Warn) <==> name@ == "warn"@,
        level == Some(LogLevel::Error) <==> name@ == "error"@,
{
    reveal_strlit("off");
    reveal_strlit("trace");
    reveal_strlit("debug");
    reveal_strlit("info");
    reveal_strlit("warn");
    reveal_strlit("error");
    assert("trace"@[0] == 't' && "debug"@[0] == 'd' && "error"@[0] == 'e');
    assert("info"@[0] == 'i' && "warn"@[0] == 'w');
}

/// A command gets the libraries and the paths of its own table.
pub proof fn law_into_paths(config: Config, command: Command, found: (FilePath, IOPaths))
    requires
        call_ensures(Config::into_paths, (config, command), found),
    ensures
        ({
            let paths = match command {
                Command::Compile => config.compile,
                Command::GenerateTechnique => config.technique_generate,
                Command::Save => config.save,
                Command::ReadTechnique => config.technique_read,
                Command::Lint => config.lint,
            };
            &&& found.0.bytes@ == config.libs.stdlib.bytes@
            &&& found.1.input.deep_view() == paths.input.deep_view()
            &&& found.1.output.deep_view() == paths.output.deep_view()
        }),
{
}

/// An error says the sentence that it is made of, and a path that names no file is told as such.
pub proof fn law_error_calls(message: String, shown: &str, error: Error, said: String)
    requires
        call_ensures(Error::new, (message,), error),
        call_ensures(Error::invalid_file_message, (shown,), said),
    ensures
        error matches Error::Message(sentence) && sentence@ == message@,
        said@ == shown@ + " file does not exist or is invalid"@,
{
}

/// A session starts with just what the command line says, for every command.
pub proof fn law_new(command: Command, opt: &Options, format: Option<Format>, step: Step)
    requires
        call_ensures(IOContext::new, (command, opt, format), step),
    ensures
        step matches Step::ReadConfig(request) && {
            &&& request.command == command
            &&& request.config_file.bytes@ == opt.config_file.bytes@
            &&& request.input.deep_view() == opt.input.deep_view()
            &&& request.output.deep_view() == opt.output.deep_view()
            &&& request.stdin == opt.stdin
            &&& request.stdout == opt.stdout
            &&& request.format.deep_view() == format.deep_view()
        },
{
}

/// The standard input is the input exactly where it is asked for. Else what is given is looked for,
/// or what is configured where nothing is given.
pub proof fn law_get_input(
    config_path: &Option<FilePath>,
    input: &Option<FilePath>,
    is_stdin: bool,
    step: InputStep,
)
    requires
        call_ensures(input::get_input, (config_path, input, is_stdin), step),
    ensures
        step is Stdin <==> is_stdin,
        !is_stdin ==> match (*input, *config_path) {
            (Some(given), _) => step matches InputStep::Probe(
                InputProbe::Given { input: file, config },
            ) && file.bytes@ == given.bytes@ && config.deep_view() == config_path.deep_view(),
            (None, Some(configured)) => step matches InputStep::Probe(
                InputProbe::Configured(file),
            ) && file.bytes@ == configured.bytes@,
            (None, None) => step matches InputStep::Failed(Error::Message(message)) && message@
                == "Commands: no input or input does not match any existing file"@,
        },
{
}

/// A file that is there is the input. One that is given and is not there is looked for in the
/// directory of the configuration; any other that is not there is an error.
pub proof fn law_input_resume(
    probe: InputProbe,
    is_file: bool,
    target: &FilePath,
    step: InputStep,
)
    requires
        call_ensures(InputProbe::target, (&probe,), target),
        call_ensures(InputProbe::resume, (probe, is_file), step),
    ensures
        target.bytes@ == match probe {
            InputProbe::Given { input, config: _ } => input.bytes@,
            InputProbe::Joined(path) => path.bytes@,
            InputProbe::Configured(path) => path.bytes@,
        },
        is_file ==> (step matches InputStep::Found(file) && file.bytes@ == target.bytes@),
        !is_file ==> match probe {
            InputProbe::Given { input, config: Some(directory) } => step matches InputStep::Probe(
                InputProbe::Joined(file),
            ) && file.bytes@ == path::join(directory.bytes@, input.bytes@),
            InputProbe::Joined(_) => step matches InputStep::Failed(Error::Message(message))
                && message@ == "Commands: input does not match any existing file"@,
            _ => step matches InputStep::Failed(Error::Message(message)) && message@
                == "Commands: no input or input does not match any existing file"@,
        },
{
}

/// A source is read under the name of its file or as `STDIN`, and what was read stands under that
/// name.
pub proof fn law_source_calls(
    path: &Option<FilePath>,
    named: Result<String, Error>,
    name: String,
    read: Result<String, String>,
    source: Result<Source, Error>,
)
    requires
        call_ensures(input::get_content, (path,), named),
        call_ensures(input::read_source, (name, read), source),
    ensures
        match *path {
            None => named matches Ok(known) && known@ == "STDIN"@,
            Some(file) => match path::file_name(file.bytes@) {
                Some(bytes) => named matches Ok(known) && known@ == text::lossy_text(bytes),
                None => named matches Err(Error::InvalidFile(invalid)) && invalid.bytes@
                    == file.bytes@,
            },
        },
        match read {
            Ok(content) => source matches Ok(found) && found.name@ == name@ && found.content@
                == content@,
            Err(said) => source matches Err(Error::InFile { file, message }) && file@ == name@
                && message@ == said@,
        },
{
}

/// The standard output is written to exactly where it is asked for, or a technique is generated and
/// no output given. Else a given output is looked for by its directory, and without one the output
/// of the configuration is looked for; where there is nothing to look for the output is that of the
/// input.
pub proof fn law_get_output(
    config_path: &Option<FilePath>,
    command: Command,
    input: &Option<FilePath>,
    argv_output: &Option<FilePath>,
    is_stdout: bool,
    step: OutputStep,
)
    requires
        call_ensures(
            output::get_output,
            (config_path, command, input, argv_output, is_stdout),
            step,
        ),
    ensures
        step is Stdout <==> is_stdout || (command is GenerateTechnique && *argv_output is None),
        !(step is Stdout) ==> match (*argv_output, *config_path) {
            (Some(given), _) => match path::parent(given.bytes@) {
                Some(place) => step matches OutputStep::Probe(
                    OutputProbe::Given { output, directory, config, input: base },
                ) && {
                    &&& output.bytes@ == given.bytes@
                    &&& directory.bytes@ == place
                    &&& config.deep_view() == config_path.deep_view()
                    &&& base.deep_view() == input.deep_view()
                },
                None => step@ == output::output_elsewhere(
                    given.bytes@,
                    config_path.deep_view(),
                    input.deep_view(),
                ),
            },
            (None, Some(configured)) => step matches OutputStep::Probe(
                OutputProbe::Configured { file, input: base },
            ) && file.bytes@ == configured.bytes@ && base.deep_view() == input.deep_view(),
            (None, None) => match *input {
                Some(base) => step matches OutputStep::Chosen(file) && file.bytes@ == base.bytes@,
                None => step matches OutputStep::Failed(Error::Message(message)) && message@
                    == "Commands: no parameters or configuration output or input to base output file on"@,
            },
        },
{
}

/// An output that is there, or whose directory is, is the output. A given one whose directory is
/// not there is looked for in the directory of the configuration, and at last the output is that
/// of the input.
pub proof fn law_output_resume(probe: OutputProbe, is_there: bool, step: OutputStep)
    requires
        call_ensures(OutputProbe::resume, (probe, is_there), step),
    ensures
        match probe {
            OutputProbe::Given { output, directory: _, config, input } => if is_there {
                step matches OutputStep::Chosen(file) && file.bytes@ == output.bytes@
            } else {
                match (config, input) {
                    (Some(base), _) => {
                        let joined = path::join(base.bytes@, output.bytes@);
                        match path::parent(joined) {
                            Some(place) => step matches OutputStep::Probe(
                                OutputProbe::Joined { output: other, directory, input: kept },
                            ) && {
                                &&& other.bytes@ == joined
                                &&& directory.bytes@ == place
                                &&& kept.deep_view() == input.deep_view()
                            },
                            None => match input {
                                Some(base) => step matches OutputStep::Chosen(file) && file.bytes@
                                    == base.bytes@,
                                None => step matches OutputStep::Failed(Error::Message(message))
                                    && message@
                                    == "Commands: paths do not match any existing directory"@,
                            },
                        }
                    },
                    (None, Some(base)) => step matches OutputStep::Chosen(file) && file.bytes@
                        == base.bytes@,
                    (None, None) => step matches OutputStep::Failed(Error::Message(message))
                        && message@
                        == "Commands: no parameters or configuration output or input to base output file on"@,
                }
            },
            OutputProbe::Joined { output, directory: _, input } => match (is_there, input) {
                (true, _) => step matches OutputStep::Chosen(file) && file.bytes@ == output.bytes@,
                (false, Some(base)) => step matches OutputStep::Chosen(file) && file.bytes@
                    == base.bytes@,
                (false, None) => step matches OutputStep::Failed(Error::Message(message))
                    && message@ == "Commands: paths do not match any existing directory"@,
            },
            OutputProbe::Configured { file: configured, input } => match (is_there, input) {
                (true, _) => step matches OutputStep::Chosen(file) && file.bytes@
                    == configured.bytes@,
                (false, Some(base)) => step matches OutputStep::Chosen(file) && file.bytes@
                    == base.bytes@,
                (false, None) => step matches OutputStep::Failed(Error::Message(message))
                    && message@
                    == "Commands: no parameters or configuration output or input to base output file on"@,
            },
        },
{
}

/// The format that is given is taken wherever the command writes it; only the compiler looks at the
/// extension of the output, and where there is none there is no format.
pub proof fn law_get_output_format(
    command: Command,
    format: &Option<Format>,
    output: &Option<FilePath>,
    choice: FormatChoice,
)
    requires
        call_ensures(formats::get_output_format, (command, format, output), choice),
        command is Compile || *format is Some,
    ensures
        *format is Some && (command is Compile ==> (*format)->0.target is CFEngine || (
        *format)->0.target is DSC || (*format)->0.target is Markdown) ==> {
            let given = (*format)->0;
            &&& choice is Settled
            &&& choice->format.target == given.target
            &&& choice->format.text@ == given.text@
            &&& choice->extension@ == if command is Compile || command is ReadTechnique {
                "rd."@ + given.text@
            } else {
                given.text@
            }
        },
        command is Compile && (*format is None || (*format)->0.target is Other) ==> (if *output
            is Some && path::extension_text((*output)->0.bytes@) is Some {
            choice matches FormatChoice::FromExtension(extension) && Some(extension@)
                == path::extension_text((*output)->0.bytes@)
        } else {
            choice matches FormatChoice::Failed(Error::Message(message)) && message@
                == "Commands: missing or invalid format, plus unrecognized or invalid output file extension"@
        }),
{
}

/// A format that an extension stands for is taken with its own extension, and an error as it is.
pub proof fn law_settle_format(recognized: Result<Format, Error>, choice: FormatChoice)
    requires
        call_ensures(formats::settle_format, (recognized,), choice),
    ensures
        match recognized {
            Ok(found) => choice matches FormatChoice::Settled { extension, format } && {
                &&& extension@ == found.text@
                &&& format.target == found.target
                &&& format.text@ == found.text@
            },
            Err(found) => choice matches FormatChoice::Failed(error) && error@ == found@,
        },
{
}

/// A context is described by its parts, in order, and all of it but the part that is named stays
/// when a part is replaced.
pub proof fn law_context_calls(
    context: &IOContext,
    command: &str,
    output: &str,
    stdlib: &str,
    said: String,
    text: String,
    name: &str,
    format: Format,
    contents: IOContext,
    formatted: IOContext,
    renamed: IOContext,
)
    requires
        call_ensures(IOContext::fmt, (context, command, output, stdlib), said),
        call_ensures(IOContext::with_content, (context, text), contents),
        call_ensures(IOContext::with_format, (context, format), formatted),
        call_ensures(IOContext::with_input, (context, name), renamed),
    ensures
        said@ == command@ + (" of "@ + (context::debug_text(context.input@) + (" into "@ + (output@
            + (". Output format is "@ + (context.format.text@ + (". Libraries path: "@ + (stdlib@
            + "."@)))))))),
        contents.input_content@ == text@,
        formatted.format.target == format.target && formatted.format.text@ == format.text@,
        renamed.input@ == name@,
        contents.input@ == context.input@ && formatted.input@ == context.input@,
        formatted.input_content@ == context.input_content@,
        renamed.input_content@ == context.input_content@,
        contents.format@ == context.format@ && renamed.format@ == context.format@,
        contents.stdlib@ == context.stdlib@ && formatted.stdlib@ == context.stdlib@,
        renamed.stdlib@ == context.stdlib@,
        contents.output.deep_view() == context.output.deep_view(),
        formatted.output.deep_view() == context.output.deep_view(),
        renamed.output.deep_view() == context.output.deep_view(),
        contents.command == context.command && formatted.command == context.command,
        renamed.command == context.command,
{
}

/// Once the configuration was read the standard input is read where it is asked for, and else the
/// input is looked for; what was asked for and configured for the output is kept.
pub proof fn law_resume_config(request: Request, config: Config, step: Step)
    requires
        call_ensures(Step::resume, (Step::ReadConfig(request), Reply::Config(config)), step),
    ensures
        ({
            let paths = match request.command {
                Command::Compile => config.compile,
                Command::GenerateTechnique => config.technique_generate,
                Command::Save => config.save,
                Command::ReadTechnique => config.technique_read,
                Command::Lint => config.lint,
            };
            let draft = match step {
                Step::ReadContent { draft, path: _, name: _ } => draft,
                _ => step->ProbeInput_draft,
            };
            &&& !(step is Done) ==> {
                &&& draft.command == request.command
                &&& draft.stdlib.bytes@ == config.libs.stdlib.bytes@
                &&& draft.config_output.deep_view() == paths.output.deep_view()
                &&& draft.argv_output.deep_view() == request.output.deep_view()
                &&& draft.stdout == request.stdout
                &&& draft.format.deep_view() == request.format.deep_view()
            }
            &&& if request.stdin {
                step matches Step::ReadContent { draft: _, path, name } && path is None && name@
                    == "STDIN"@
            } else {
                match (request.input, paths.input) {
                    (Some(given), _) => step matches Step::ProbeInput {
                        draft: _,
                        probe: InputProbe::Given { input, config: configured },
                    } && input.bytes@ == given.bytes@ && configured.deep_view()
                        == paths.input.deep_view(),
                    (None, Some(configured)) => step matches Step::ProbeInput {
                        draft: _,
                        probe: InputProbe::Configured(file),
                    } && file.bytes@ == configured.bytes@,
                    (None, None) => step matches Step::Done(Err(Error::Message(message)))
                        && message@
                        == "Commands: no input or input does not match any existing file"@,
                }
            }
        }),
{
}

/// A configuration that is not there or is not one ends a session, with an error that tells why.
pub proof fn law_resume_without_config(
    request: Request,
    why: String,
    unreadable: Step,
    malformed: Step,
)
    requires
        call_ensures(
            Step::resume,
            (Step::ReadConfig(request), Reply::ConfigUnreadable(why)),
            unreadable,
        ),
        call_ensures(
            Step::resume,
            (Step::ReadConfig(request), Reply::ConfigMalformed(why)),
            malformed,
        ),
    ensures
        unreadable matches Step::Done(Err(Error::Message(message))) && message@
            == "Could not read toml config file: "@ + why@,
        malformed matches Step::Done(Err(Error::Message(message))) && message@
            == "Could not parse (probably faulty) toml config file: "@ + why@,
{
}

/// The input that is found is read under the name of its file, and the draft is kept meanwhile.
pub proof fn law_resume_input(draft: Draft, file: FilePath, present: bool, step: Step)
    requires
        call_ensures(
            Step::resume,
            (
                Step::ProbeInput { draft, probe: InputProbe::Configured(file) },
                Reply::Present(present),
            ),
            step,
        ),
    ensures
        match (present, path::file_name(file.bytes@)) {
            (true, Some(bytes)) => step matches Step::ReadContent { draft: kept, path, name } && {
                &&& kept@ == draft@
                &&& path is Some && path->0.bytes@ == file.bytes@
                &&& name@ == text::lossy_text(bytes)
            },
            (true, None) => step matches Step::Done(Err(Error::InvalidFile(path))) && path.bytes@
                == file.bytes@,
            (false, _) => step matches Step::Done(Err(Error::Message(message))) && message@
                == "Commands: no input or input does not match any existing file"@,
        },
{
}

/// Once the source was read the format is chosen where the standard output is written to, and else
/// the output is found first; the source and the draft are kept meanwhile. A source that cannot be
/// read ends the session.
pub proof fn law_resume_content(
    draft: Draft,
    path: Option<FilePath>,
    name: String,
    read: Result<String, String>,
    step: Step,
)
    requires
        call_ensures(
            Step::resume,
            (Step::ReadContent { draft, path, name }, Reply::Content(read)),
            step,
        ),
    ensures
        match read {
            Err(why) => step matches Step::Done(Err(Error::InFile { file, message })) && file@
                == name@ && message@ == why@,
            Ok(content) => {
                &&& (draft.stdout || (draft.command is GenerateTechnique && draft.argv_output
                    is None)) <==> (step matches Step::ChooseFormat { technique, .. } && technique
                    is None)
                &&& step matches Step::ChooseFormat { draft: kept, source, .. } ==> kept@ == draft@
                    && source.name@ == name@ && source.content@ == content@
                &&& step matches Step::ProbeOutput { draft: kept, source, .. } ==> kept@ == draft@
                    && source.name@ == name@ && source.content@ == content@
            },
        },
{
}

/// A context holds the libraries, the source, the format and the command that were found; its
/// output is the file that was chosen with the extension of the format.
pub proof fn law_resume_format(
    draft: Draft,
    source: Source,
    technique: Option<FilePath>,
    extension: String,
    recognized: Result<Format, Error>,
    step: Step,
)
    requires
        call_ensures(
            Step::resume,
            (
                Step::RecognizeFormat { draft, source, technique, extension },
                Reply::Recognized(recognized),
            ),
            step,
        ),
    ensures
        match recognized {
            Err(why) => step matches Step::Done(Err(error)) && error@ == why@,
            Ok(found) => step matches Step::Done(Ok(context)) && {
                &&& context.stdlib.bytes@ == draft.stdlib.bytes@
                &&& context.input@ == source.name@
                &&& context.input_content@ == source.content@
                &&& context.format.target == found.target && context.format.text@ == found.text@
                &&& context.command == draft.command
                &&& match technique {
                    Some(file) => context.output is Some && context.output->0.bytes@
                        == path::with_extension(file.bytes@, encode_utf8(found.text@)),
                    None => context.output is None,
                }
            },
        },
{
}

/// A draft has a format to choose exactly where it is given one, or compiles.
pub proof fn law_draft_format(draft: &Draft, defined: bool)
    requires
        call_ensures(Draft::format_defined, (draft,), defined),
    ensures
        defined <==> draft.command is Compile || draft.format is Some,
{
}

} // verus!
