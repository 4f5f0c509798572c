//! What the steps of a session come to in a given world: the rules for input, output and format
//! taken as a whole.

use crate::config::ConfigView;
use crate::context::IOContextView;
use crate::error::ErrorView;
use crate::formats;
use crate::formats::{Command, FormatChoiceView, FormatView};
use crate::input;
use crate::input::{InputProbeView, SourceView};
use crate::options::{LogLevel, OptionsView};
use crate::output;
use crate::output::{OutputProbeView, OutputStepView};
use crate::path;
use crate::session;
use crate::session::{DraftView, ReplyView, RequestView, StepView};
use crate::text;
use vstd::prelude::*;
use vstd::utf8::*;

verus! {

/// What a configuration file comes to.
pub enum ConfigFound {
    Config(ConfigView),
    Unreadable(Seq<char>),
    Malformed(Seq<char>),
}

/// All that a session can find outside.
pub struct World {
    pub config: spec_fn(Seq<u8>) -> ConfigFound,
    pub is_file: spec_fn(Seq<u8>) -> bool,
    pub is_dir: spec_fn(Seq<u8>) -> bool,
    pub content: spec_fn(Seq<u8>) -> Result<Seq<char>, Seq<char>>,
    pub stdin: Result<Seq<char>, Seq<char>>,
    pub format_of: spec_fn(Seq<char>) -> Result<FormatView, ErrorView>,
}

/// The input: none for the standard input, else the file that exists among the one given, the
/// one given taken from the directory of the configuration and, if none is given, that of the
/// configuration.
pub open spec fn resolved_input(
    world: World,
    config: Option<Seq<u8>>,
    input: Option<Seq<u8>>,
    is_stdin: bool,
) -> Result<Option<Seq<u8>>, ErrorView> {
    if is_stdin {
        Ok(None)
    } else {
        match (input, config) {
            (Some(input), _) if (world.is_file)(input) => Ok(Some(input)),
            (Some(input), Some(config)) => if (world.is_file)(path::join(config, input)) {
                Ok(Some(path::join(config, input)))
            } else {
                Err(input::no_joined_input())
            },
            (None, Some(config)) if (world.is_file)(config) => Ok(Some(config)),
            _ => Err(input::no_input()),
        }
    }
}

/// The source that is read at `path`, or from the standard input.
pub open spec fn resolved_source(world: World, path: Option<Seq<u8>>) -> Result<
    SourceView,
    ErrorView,
> {
    match path {
        Some(path) => match input::source_name(Some(path)) {
            Ok(name) => input::source_read(name, (world.content)(path)),
            Err(error) => Err(error),
        },
        None => input::source_read("STDIN"@, world.stdin),
    }
}

/// Whether the directory of a path exists.
pub open spec fn directory_exists(world: World, path: Seq<u8>) -> bool {
    match path::parent(path) {
        Some(directory) => (world.is_dir)(directory),
        None => false,
    }
}

/// The output but for its extension: none for the standard output, else the file given if its
/// directory exists, the file given taken from the directory of the configuration if that one's
/// directory exists, the file of the configuration if no file is given, and at last the file of
/// the input.
pub open spec fn resolved_output(
    world: World,
    config: Option<Seq<u8>>,
    command: Command,
    input: Option<Seq<u8>>,
    argv_output: Option<Seq<u8>>,
    is_stdout: bool,
) -> Result<Option<Seq<u8>>, ErrorView> {
    if output::writes_to_stdout(command, argv_output, is_stdout) {
        Ok(None)
    } else {
        match (argv_output, config, input) {
            (Some(output), _, _) if directory_exists(world, output) => Ok(Some(output)),
            (Some(output), Some(config), _) if directory_exists(
                world,
                path::join(config, output),
            ) => Ok(Some(path::join(config, output))),
            (Some(_), Some(_), None) => Err(output::no_output_directory()),
            (None, Some(config), _) if (world.is_file)(config) => Ok(Some(config)),
            (_, _, Some(input)) => Ok(Some(input)),
            (_, _, None) => Err(output::no_output()),
        }
    }
}

/// The format to write and the extension of a file in it.
pub open spec fn resolved_format(
    world: World,
    command: Command,
    format: Option<FormatView>,
    output: Option<Seq<u8>>,
) -> Result<(Seq<char>, FormatView), ErrorView> {
    match formats::output_format(command, format, output) {
        FormatChoiceView::Settled { extension, format } => Ok((extension, format)),
        FormatChoiceView::FromExtension(extension) => match (world.format_of)(extension) {
            Ok(format) => Ok((format.text, format)),
            Err(error) => Err(error),
        },
        FormatChoiceView::Failed(error) => Err(error),
    }
}

/// The context that a request comes to, or why there is none. There is no outcome at all where a
/// format has to be chosen and none is defined.
pub open spec fn outcome(world: World, request: RequestView) -> Option<
    Result<IOContextView, ErrorView>,
> {
    match (world.config)(request.config_file) {
        ConfigFound::Unreadable(message) => Some(
            Err(ErrorView::Message("Could not read toml config file: "@ + message)),
        ),
        ConfigFound::Malformed(message) => Some(
            Err(
                ErrorView::Message(
                    "Could not parse (probably faulty) toml config file: "@ + message,
                ),
            ),
        ),
        ConfigFound::Config(config) => {
            let paths = config.paths_of(request.command);
            match resolved_input(world, paths.input, request.input, request.stdin) {
                Err(error) => Some(Err(error)),
                Ok(input) => match resolved_source(world, input) {
                    Err(error) => Some(Err(error)),
                    Ok(source) => match resolved_output(
                        world,
                        paths.output,
                        request.command,
                        input,
                        request.output,
                        request.stdout,
                    ) {
                        Err(error) => Some(Err(error)),
                        Ok(output) => if formats::format_defined(request.command, request.format) {
                            match resolved_format(world, request.command, request.format, output) {
                                Err(error) => Some(Err(error)),
                                Ok((extension, format)) => Some(
                                    Ok(
                                        IOContextView {
                                            stdlib: config.stdlib,
                                            input: source.name,
                                            input_content: source.content,
                                            output: session::extended(output, extension),
                                            format,
                                            command: request.command,
                                        },
                                    ),
                                ),
                            }
                        } else {
                            None
                        },
                    },
                },
            }
        },
    }
}

/// What the world replies to a step.
pub open spec fn reply_of(world: World, step: StepView) -> ReplyView {
    match step {
        StepView::ReadConfig(request) => match (world.config)(request.config_file) {
            ConfigFound::Config(config) => ReplyView::Config(config),
            ConfigFound::Unreadable(message) => ReplyView::ConfigUnreadable(message),
            ConfigFound::Malformed(message) => ReplyView::ConfigMalformed(message),
        },
        StepView::ProbeInput { probe, .. } => ReplyView::Present((world.is_file)(probe.target())),
        StepView::ReadContent { path, .. } => ReplyView::Content(
            match path {
                Some(path) => (world.content)(path),
                None => world.stdin,
            },
        ),
        StepView::ProbeOutput { place, .. } => ReplyView::Present(
            match place {
                OutputProbeView::Given { directory, .. } => (world.is_dir)(directory),
                OutputProbeView::Joined { directory, .. } => (world.is_dir)(directory),
                OutputProbeView::Configured { file, .. } => (world.is_file)(file),
            },
        ),
        StepView::RecognizeFormat { extension, .. } => ReplyView::Recognized(
            (world.format_of)(extension),
        ),
        _ => ReplyView::Proceed,
    }
}

/// How many steps there can be, at most, before the end.
pub open spec fn steps_left(step: StepView) -> nat {
    match step {
        StepView::ReadConfig(_) => 8,
        StepView::ProbeInput { probe: InputProbeView::Joined(_), .. } => 6,
        StepView::ProbeInput { .. } => 7,
        StepView::ReadContent { .. } => 5,
        StepView::ProbeOutput { place: OutputProbeView::Joined { .. }, .. } => 3,
        StepView::ProbeOutput { .. } => 4,
        StepView::ChooseFormat { .. } => 2,
        StepView::RecognizeFormat { .. } => 1,
        StepView::Done(_) => 0,
    }
}

/// Every reply that a step waits for brings the session closer to its end, whatever it says.
pub proof fn law_session_ends(step: StepView, reply: ReplyView)
    requires
        session::awaits(step, reply),
    ensures
        steps_left(session::next_step(step, reply)) < steps_left(step),
{
}

/// Where a session ends in a world, starting at a step.
pub open spec fn run(world: World, step: StepView) -> StepView
    decreases steps_left(step),
{
    let reply = reply_of(world, step);
    if session::awaits(step, reply) {
        proof {
            law_session_ends(step, reply);
        }
        run(world, session::next_step(step, reply))
    } else {
        step
    }
}

/// Where a session ends once its output is known.
proof fn lemma_run_format(
    world: World,
    draft: DraftView,
    source: SourceView,
    technique: Option<Seq<u8>>,
)
    requires
        formats::format_defined(draft.command, draft.format),
    ensures
        run(world, StepView::ChooseFormat { draft, source, technique }) == StepView::Done(
            match resolved_format(world, draft.command, draft.format, technique) {
                Ok((extension, format)) => Ok(
                    session::completed(
                        draft,
                        source,
                        session::extended(technique, extension),
                        format,
                    ),
                ),
                Err(error) => Err(error),
            },
        ),
{
    reveal_with_fuel(run, 3);
}

/// Where a session ends once its source was read.
proof fn lemma_run_output(
    world: World,
    draft: DraftView,
    source: SourceView,
    path: Option<Seq<u8>>,
)
    ensures
        run(world, session::after_output(draft, source, first_output(draft, path))) == match resolved_output(
            world,
            draft.config_output,
            draft.command,
            path,
            draft.argv_output,
            draft.stdout,
        ) {
            Ok(technique) => run(world, StepView::ChooseFormat { draft, source, technique }),
            Err(error) => StepView::Done(Err(error)),
        },
{
    let first = session::after_output(draft, source, first_output(draft, path));
    if first is ProbeOutput {
        let second = session::next_step(first, reply_of(world, first));
        assert(run(world, first) == run(world, second));
        if second is ProbeOutput {
            let third = session::next_step(second, reply_of(world, second));
            assert(run(world, second) == run(world, third));
        }
    }
}

/// Where the search for the output of a draft starts.
spec fn first_output(draft: DraftView, path: Option<Seq<u8>>) -> OutputStepView {
    output::first_output_step(
        draft.config_output,
        draft.command,
        path,
        draft.argv_output,
        draft.stdout,
    )
}

/// Where a session ends once its source is known.
proof fn lemma_run_source(world: World, draft: DraftView, path: Option<Seq<u8>>)
    ensures
        run(world, session::after_source(draft, path)) == match resolved_source(world, path) {
            Ok(source) => run(
                world,
                session::after_output(draft, source, first_output(draft, path)),
            ),
            Err(error) => StepView::Done(Err(error)),
        },
{
    let first = session::after_source(draft, path);
    if first is ReadContent {
        assert(run(world, first) == run(world, session::next_step(first, reply_of(world, first))));
    }
}

/// Where a session ends once its configuration was read.
proof fn lemma_run_input(
    world: World,
    draft: DraftView,
    config: Option<Seq<u8>>,
    input: Option<Seq<u8>>,
    is_stdin: bool,
)
    ensures
        run(
            world,
            session::after_input(draft, input::first_input_step(config, input, is_stdin)),
        ) == match resolved_input(world, config, input, is_stdin) {
            Ok(path) => run(world, session::after_source(draft, path)),
            Err(error) => StepView::Done(Err(error)),
        },
{
    let first = session::after_input(draft, input::first_input_step(config, input, is_stdin));
    if first is ProbeInput {
        let second = session::next_step(first, reply_of(world, first));
        assert(run(world, first) == run(world, second));
        if second is ProbeInput {
            let third = session::next_step(second, reply_of(world, second));
            assert(run(world, second) == run(world, third));
        }
    }
}

/// In every world a session ends with the outcome of its request; it stops short of one only to
/// choose a format where none is defined.
pub proof fn law_session_outcome(world: World, request: RequestView)
    ensures
        match run(world, StepView::ReadConfig(request)) {
            StepView::Done(result) => outcome(world, request) == Some(result),
            StepView::ChooseFormat { draft, .. } => !formats::format_defined(
                draft.command,
                draft.format,
            ) && outcome(world, request) is None,
            _ => false,
        },
{
    let first = StepView::ReadConfig(request);
    let second = session::next_step(first, reply_of(world, first));
    assert(run(world, first) == run(world, second));
    if let ConfigFound::Config(config) = (world.config)(request.config_file) {
        let draft = session::drafted(request, config);
        let paths = config.paths_of(request.command);
        lemma_run_input(world, draft, paths.input, request.input, request.stdin);
        if let Ok(path) = resolved_input(world, paths.input, request.input, request.stdin) {
            lemma_run_source(world, draft, path);
            if let Ok(source) = resolved_source(world, path) {
                lemma_run_output(world, draft, source, path);
                if let Ok(technique) = resolved_output(
                    world,
                    paths.output,
                    request.command,
                    path,
                    request.output,
                    request.stdout,
                ) {
                    if formats::format_defined(request.command, request.format) {
                        lemma_run_format(world, draft, source, technique);
                    }
                }
            }
        }
    }
}

/// A configuration file that can be read and parsed is required: without one every request ends
/// with the error that says so.
pub proof fn law_config_required(world: World, request: RequestView)
    ensures
        outcome(world, request) matches Some(Ok(_)) ==> (world.config)(
            request.config_file,
        ) is Config,
        !((world.config)(request.config_file) is Config) ==> outcome(world, request) matches Some(
            Err(_),
        ),
{
}

/// Without the standard input there is an input exactly where one of the files that the command
/// line and the configuration lead to exists, and the input is such a file.
pub proof fn law_input_found(world: World, config: Option<Seq<u8>>, input: Option<Seq<u8>>)
    ensures
        resolved_input(world, config, input, false) is Ok <==> match (input, config) {
            (Some(input), Some(config)) => (world.is_file)(input) || (world.is_file)(
                path::join(config, input),
            ),
            (Some(input), None) => (world.is_file)(input),
            (None, Some(config)) => (world.is_file)(config),
            (None, None) => false,
        },
        resolved_input(world, config, input, false) matches Ok(found) ==> found is Some
            && (world.is_file)(found->0),
{
}

/// Taking the standard input overrides the input file: the file that is given does not matter, and
/// the content is that of the standard input.
pub proof fn law_stdin_overrides_input(world: World, request: RequestView, other: Option<Seq<u8>>)
    requires
        request.stdin,
    ensures
        outcome(world, request) == outcome(world, RequestView { input: other, ..request }),
        outcome(world, request) matches Some(Ok(context)) ==> context.input == "STDIN"@
            && world.stdin == Ok::<Seq<char>, Seq<char>>(context.input_content),
{
}

/// Taking the standard output overrides the output file: the file that is given does not matter,
/// and nothing is written to a file.
pub proof fn law_stdout_overrides_output(
    world: World,
    request: RequestView,
    other: Option<Seq<u8>>,
)
    requires
        request.stdout,
    ensures
        outcome(world, request) == outcome(world, RequestView { output: other, ..request }),
        outcome(world, request) matches Some(Ok(context)) ==> context.output is None,
{
}

/// A context has no output file exactly where the standard output was asked for, or a technique is
/// generated and no output given.
pub proof fn law_no_output_file(world: World, request: RequestView)
    ensures
        outcome(world, request) matches Some(Ok(context)) ==> (context.output is None
            <==> request.stdout || (request.command is GenerateTechnique && request.output
            is None)),
{
}

/// Without `--stdout` and a given output, every command but the one that generates techniques
/// writes to a file: the one of the configuration if it exists, else that of the input. Without
/// either there is no output, and that is an error.
pub proof fn law_output_not_given(
    world: World,
    config: Option<Seq<u8>>,
    command: Command,
    input: Option<Seq<u8>>,
)
    requires
        !(command is GenerateTechnique),
    ensures
        ({
            let resolved = resolved_output(world, config, command, input, None, false);
            if config is Some && (world.is_file)(config->0) {
                resolved == Ok::<Option<Seq<u8>>, ErrorView>(config)
            } else if input is Some {
                resolved == Ok::<Option<Seq<u8>>, ErrorView>(input)
            } else {
                resolved == Err::<Option<Seq<u8>>, ErrorView>(
                    ErrorView::Message(
                        "Commands: no parameters or configuration output or input to base output file on"@,
                    ),
                )
            }
        }),
{
}

/// Unless the standard input is taken, the input of a context is a file that exists: the one that
/// is given, that one taken from the directory of the configuration, or that of the configuration.
pub proof fn law_input_exists(world: World, request: RequestView)
    requires
        !request.stdin,
        outcome(world, request) matches Some(Ok(_)),
    ensures
        ({
            let context = outcome(world, request)->0->Ok_0;
            let config = (world.config)(request.config_file)->Config_0.paths_of(
                request.command,
            ).input;
            exists|file: Seq<u8>|
                {
                    &&& #[trigger] (world.is_file)(file)
                    &&& (world.content)(file) == Ok::<Seq<char>, Seq<char>>(context.input_content)
                    &&& input::source_name(Some(file)) == Ok::<Seq<char>, ErrorView>(context.input)
                    &&& match (request.input, config) {
                        (Some(input), Some(config)) => file == input || file == path::join(
                            config,
                            input,
                        ),
                        (Some(input), None) => file == input,
                        (None, Some(config)) => file == config,
                        (None, None) => false,
                    }
                }
        }),
{
    let config = (world.config)(request.config_file)->Config_0.paths_of(request.command).input;
    let file = resolved_input(world, config, request.input, request.stdin)->Ok_0->0;
    assert((world.is_file)(file));
}

/// An input that exists is taken as it is given; one that does not is taken from the directory of
/// the configuration.
pub proof fn law_given_input(world: World, config: Seq<u8>, input: Seq<u8>)
    ensures
        (world.is_file)(input) ==> resolved_input(world, Some(config), Some(input), false) == Ok::<
            Option<Seq<u8>>,
            ErrorView,
        >(Some(input)),
        !(world.is_file)(input) && (world.is_file)(path::join(config, input)) ==> resolved_input(
            world,
            Some(config),
            Some(input),
            false,
        ) == Ok::<Option<Seq<u8>>, ErrorView>(Some(path::join(config, input))),
{
}

/// An output whose directory exists is taken as it is given; one whose directory does not is taken
/// from the directory of the configuration, if that one exists; else the output is based on the
/// input, and only without an input there is none.
pub proof fn law_given_output(
    world: World,
    config: Option<Seq<u8>>,
    command: Command,
    input: Option<Seq<u8>>,
    output: Seq<u8>,
)
    ensures
        ({
            let resolved = resolved_output(world, config, command, input, Some(output), false);
            if directory_exists(world, output) {
                resolved == Ok::<Option<Seq<u8>>, ErrorView>(Some(output))
            } else if config is Some && directory_exists(world, path::join(config->0, output)) {
                resolved == Ok::<Option<Seq<u8>>, ErrorView>(Some(path::join(config->0, output)))
            } else if input is Some {
                resolved == Ok::<Option<Seq<u8>>, ErrorView>(input)
            } else if config is Some {
                resolved == Err::<Option<Seq<u8>>, ErrorView>(output::no_output_directory())
            } else {
                resolved == Err::<Option<Seq<u8>>, ErrorView>(output::no_output())
            }
        }),
{
}

/// The output file that is chosen for a request, but for its extension.
pub open spec fn chosen_output(world: World, request: RequestView) -> Option<Seq<u8>> {
    match (world.config)(request.config_file) {
        ConfigFound::Config(config) => {
            let paths = config.paths_of(request.command);
            match resolved_input(world, paths.input, request.input, request.stdin) {
                Ok(input) => match resolved_output(
                    world,
                    paths.output,
                    request.command,
                    input,
                    request.output,
                    request.stdout,
                ) {
                    Ok(output) => output,
                    Err(_) => None,
                },
                Err(_) => None,
            }
        },
        _ => None,
    }
}

/// The format of a context is the one that was given, for every command but `Compile` and for
/// `Compile` too if the compiler writes it; else it is the one that the extension of the chosen
/// file stands for, and the output is that file with the extension of the format.
pub proof fn law_format(world: World, request: RequestView)
    ensures
        outcome(world, request) matches Some(Ok(context)) ==> (if request.command is Compile && !(
        request.format is Some && formats::is_compiled(request.format->0)) {
            &&& chosen_output(world, request) matches Some(file)
            &&& path::extension_text(file) matches Some(extension)
            &&& (world.format_of)(extension) == Ok::<FormatView, ErrorView>(context.format)
            &&& context.output == Some(
                path::with_extension(file, encode_utf8(context.format.text)),
            )
        } else {
            request.format == Some(context.format)
        }),
{
}

/// The output of a context is the file that is chosen, with the extension of its format; that
/// extension starts with `rd.` where a technique is read, or compiled to the format it is given.
pub proof fn law_output_of_chosen(world: World, request: RequestView)
    ensures
        outcome(world, request) matches Some(Ok(context)) ==> context.output == session::extended(
            chosen_output(world, request),
            if request.command is ReadTechnique || (request.command is Compile && request.format
                is Some && formats::is_compiled(request.format->0)) {
                formats::rd_extension(context.format)
            } else {
                context.format.text
            },
        ),
{
}

/// The tables of the other commands, and the path of the generic methods, have no say in the
/// outcome of a request.
pub proof fn law_own_table_alone(
    world: World,
    other: World,
    request: RequestView,
    config: ConfigView,
    other_config: ConfigView,
)
    requires
        (world.config)(request.config_file) == ConfigFound::Config(config),
        other == (World { config: other.config, ..world }),
        (other.config)(request.config_file) == ConfigFound::Config(other_config),
        config.stdlib == other_config.stdlib,
        config.paths_of(request.command) == other_config.paths_of(request.command),
    ensures
        outcome(other, request) == outcome(world, request),
{
}

/// The options on logs and backtraces have no say in the outcome of a request.
pub proof fn law_log_options_apart(
    world: World,
    command: Command,
    options: OptionsView,
    format: Option<FormatView>,
    log_level: LogLevel,
    json_logs: bool,
    backtrace: bool,
)
    ensures
        outcome(
            world,
            session::requested(
                command,
                OptionsView { log_level, json_logs, backtrace, ..options },
                format,
            ),
        ) == outcome(world, session::requested(command, options, format)),
{
}

/// An output file bears the extension of its format: where the text of the format has neither a
/// dot nor a separator, that text is what follows the last dot of the name of the file.
pub proof fn law_output_extension(world: World, request: RequestView)
    requires
        outcome(world, request) matches Some(Ok(context)) && context.output is Some
            && path::file_name(context.output->0) is Some,
    ensures
        ({
            let context = outcome(world, request)->0->Ok_0;
            let text = encode_utf8(context.format.text);
            text.len() > 0 && !text.contains(path::DOT) && !text.contains(path::SEPARATOR)
                ==> path::extension(context.output->0) == Some(text)
        }),
{
    let context = outcome(world, request)->0->Ok_0;
    let text = encode_utf8(context.format.text);
    if text.len() > 0 && !text.contains(path::DOT) && !text.contains(path::SEPARATOR) {
        let config = (world.config)(request.config_file)->Config_0;
        let paths = config.paths_of(request.command);
        let input = resolved_input(world, paths.input, request.input, request.stdin)->Ok_0;
        let technique = resolved_output(
            world,
            paths.output,
            request.command,
            input,
            request.output,
            request.stdout,
        )->Ok_0->0;
        let extension = resolved_format(
            world,
            request.command,
            request.format,
            Some(technique),
        )->Ok_0.0;
        let added = encode_utf8(extension);
        if extension == context.format.text {
            path::lemma_after_last_is(text, path::DOT, 0);
            assert(added.skip(0) =~= text);
        } else {
            let prefix = encode_utf8("rd."@);
            reveal_strlit("rd.");
            is_ascii_chars_encode_utf8("rd."@);
            assert(prefix =~= seq![114u8, 100u8, path::DOT]);
            text::lemma_encode_concat("rd."@, context.format.text);
            path::lemma_after_last_is(added, path::DOT, 3);
            assert(added.skip(3) =~= text);
            assert(!added.contains(path::SEPARATOR));
        }
        path::law_with_extension(technique, added);
    }
}

} // verus!
