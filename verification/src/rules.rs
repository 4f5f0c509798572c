//! The rules of `rudderc`, each told by what the command line, the configuration and the files that
//! exist make of a run.

use crate::config::ConfigView;
use crate::context::IOContextView;
use crate::error::ErrorView;
use crate::formats::{Command, FormatView};
use crate::options::OptionsView;
use crate::path;
use crate::session;
use crate::text;
use crate::world;
use crate::world::{ConfigFound, World};
use vstd::prelude::*;
use vstd::utf8::*;

verus! {

/// Each command falls back on the paths of its own table.
pub proof fn law_tables(config: ConfigView)
    ensures
        config.paths_of(Command::Compile) == config.compile,
        config.paths_of(Command::Lint) == config.lint,
        config.paths_of(Command::Save) == config.save,
        config.paths_of(Command::GenerateTechnique) == config.technique_generate,
        config.paths_of(Command::ReadTechnique) == config.technique_read,
{
}

/// Every command asks for just what the command line says.
pub proof fn law_request(command: Command, options: OptionsView, format: Option<FormatView>)
    ensures
        ({
            let request = session::requested(command, options, format);
            &&& request.command == command
            &&& request.config_file == options.config_file
            &&& request.input == options.input
            &&& request.output == options.output
            &&& request.stdin == options.stdin
            &&& request.stdout == options.stdout
            &&& request.format == format
        }),
{
}

/// A configuration file that cannot be read or parsed ends every run, with an error that tells
/// why.
pub proof fn law_unusable_config(
    world: World,
    command: Command,
    options: OptionsView,
    format: Option<FormatView>,
    message: Seq<char>,
)
    ensures
        ({
            let run = world::outcome(world, session::requested(command, options, format));
            let found = (world.config)(options.config_file);
            &&& found == ConfigFound::Unreadable(message) ==> run == Some(
                Err::<IOContextView, ErrorView>(
                    ErrorView::Message("Could not read toml config file: "@ + message),
                ),
            )
            &&& found == ConfigFound::Malformed(message) ==> run == Some(
                Err::<IOContextView, ErrorView>(
                    ErrorView::Message(
                        "Could not parse (probably faulty) toml config file: "@ + message,
                    ),
                ),
            )
        }),
{
}

/// With `--stdin`, whatever the command, the source is the standard input and no other: neither the
/// input that is given nor what any file holds has a say, and a standard input that cannot be read
/// is an error.
pub proof fn law_stdin_option(
    world: World,
    command: Command,
    options: OptionsView,
    format: Option<FormatView>,
    config: ConfigView,
    other_input: Option<Seq<u8>>,
    other_content: spec_fn(Seq<u8>) -> Result<Seq<char>, Seq<char>>,
    message: Seq<char>,
)
    requires
        options.stdin,
        (world.config)(options.config_file) == ConfigFound::Config(config),
    ensures
        ({
            let run = world::outcome(world, session::requested(command, options, format));
            let other_options = OptionsView { input: other_input, ..options };
            let other_world = World { content: other_content, ..world };
            &&& run == world::outcome(world, session::requested(command, other_options, format))
            &&& run == world::outcome(other_world, session::requested(command, options, format))
            &&& run matches Some(Ok(context)) ==> context.input == "STDIN"@ && world.stdin == Ok::<
                Seq<char>,
                Seq<char>,
            >(context.input_content)
            &&& world.stdin == Err::<Seq<char>, Seq<char>>(message) ==> run == Some(
                Err::<IOContextView, ErrorView>(
                    ErrorView::InFile { file: "STDIN"@, message },
                ),
            )
        }),
{
}

/// Without `--stdin`, an input file that exists is the source: it is known by its name, holds what
/// the file holds, and is an error where it has no name or cannot be read. The standard input has
/// no say.
pub proof fn law_input_option(
    world: World,
    command: Command,
    options: OptionsView,
    format: Option<FormatView>,
    config: ConfigView,
    file: Seq<u8>,
    message: Seq<char>,
    other_stdin: Result<Seq<char>, Seq<char>>,
)
    requires
        !options.stdin,
        options.input == Some(file),
        (world.is_file)(file),
        (world.config)(options.config_file) == ConfigFound::Config(config),
    ensures
        ({
            let run = world::outcome(world, session::requested(command, options, format));
            let other_world = World { stdin: other_stdin, ..world };
            let read = (world.content)(file);
            &&& run == world::outcome(other_world, session::requested(command, options, format))
            &&& path::file_name(file) is None ==> run == Some(
                Err::<IOContextView, ErrorView>(
                    ErrorView::InvalidFile(file),
                ),
            )
            &&& path::file_name(file) matches Some(name) ==> {
                &&& run matches Some(Ok(context)) ==> context.input == text::lossy_text(name)
                    && read == Ok::<Seq<char>, Seq<char>>(context.input_content)
                &&& read == Err::<Seq<char>, Seq<char>>(message) ==> run == Some(
                    Err::<IOContextView, ErrorView>(
                        ErrorView::InFile { file: text::lossy_text(name), message },
                    ),
                )
            }
        }),
{
}

/// Without `--stdin`, an input that does not exist but does in the directory of the configuration
/// is as good as that file given; so is the configured input where none is given. Else there is no
/// input, and that is an error.
pub proof fn law_input_fallbacks(
    world: World,
    command: Command,
    options: OptionsView,
    format: Option<FormatView>,
    config: ConfigView,
)
    requires
        !options.stdin,
        (world.config)(options.config_file) == ConfigFound::Config(config),
    ensures
        ({
            let run = world::outcome(world, session::requested(command, options, format));
            match (options.input, config.paths_of(command).input) {
                (Some(input), Some(directory)) if !(world.is_file)(input) => {
                    let joined = path::join(directory, input);
                    run == if (world.is_file)(joined) {
                        world::outcome(
                            world,
                            session::requested(
                                command,
                                OptionsView { input: Some(joined), ..options },
                                format,
                            ),
                        )
                    } else {
                        Some(
                            Err::<IOContextView, ErrorView>(
                                ErrorView::Message(
                                    "Commands: input does not match any existing file"@,
                                ),
                            ),
                        )
                    }
                },
                (None, Some(file)) if (world.is_file)(file) => run == world::outcome(
                    world,
                    session::requested(
                        command,
                        OptionsView { input: Some(file), ..options },
                        format,
                    ),
                ),
                (Some(input), _) if (world.is_file)(input) => true,
                _ => run == Some(
                    Err::<IOContextView, ErrorView>(
                        ErrorView::Message(
                            "Commands: no input or input does not match any existing file"@,
                        ),
                    ),
                ),
            }
        }),
{
}

/// With `--stdout`, whatever the command, nothing is written to a file, and the output that is
/// given has no say.
pub proof fn law_stdout_overrides(
    world: World,
    command: Command,
    options: OptionsView,
    format: Option<FormatView>,
    other_output: Option<Seq<u8>>,
)
    requires
        options.stdout,
    ensures
        ({
            let run = world::outcome(world, session::requested(command, options, format));
            let other_options = OptionsView { output: other_output, ..options };
            &&& run == world::outcome(world, session::requested(command, other_options, format))
            &&& run matches Some(Ok(context)) ==> context.output is None
        }),
{
}

/// What goes to the standard output, which is what `--stdout` asks for and a technique that is
/// generated without an output does, has no output file, whatever is configured. It is in the
/// format that is given, if the compiler writes that one where it has to; else the compiler has no
/// format.
pub proof fn law_stdout_option(
    world: World,
    command: Command,
    options: OptionsView,
    format: Option<FormatView>,
    config: ConfigView,
    path: Option<Seq<u8>>,
    name: Seq<char>,
    content: Seq<char>,
    given: FormatView,
)
    requires
        (world.config)(options.config_file) == ConfigFound::Config(config),
        options.stdout || (command is GenerateTechnique && options.output is None),
        match path {
            None => options.stdin && name == "STDIN"@ && world.stdin == Ok::<Seq<char>, Seq<char>>(
                content,
            ),
            Some(file) => {
                &&& !options.stdin && options.input == Some(file) && (world.is_file)(file)
                &&& path::file_name(file) is Some
                &&& name == text::lossy_text(path::file_name(file)->0)
                &&& (world.content)(file) == Ok::<Seq<char>, Seq<char>>(content)
            },
        },
    ensures
        ({
            let run = world::outcome(world, session::requested(command, options, format));
            &&& format == Some(given) && (command is Compile ==> !(given.target is Other)) ==> run
                == Some(
                    Ok::<IOContextView, ErrorView>(
                        IOContextView {
                            stdlib: config.stdlib,
                            input: name,
                            input_content: content,
                            output: None,
                            format: given,
                            command,
                        },
                    ),
                )
            &&& command is Compile && (format is None || (format == Some(given) && given.target
                is Other)) ==> run == Some(
                    Err::<IOContextView, ErrorView>(
                        ErrorView::Message(
                            "Commands: missing or invalid format, plus unrecognized or invalid output file extension"@,
                        ),
                    ),
                )
            &&& !(command is Compile) && format is None ==> run is None
        }),
{
}

/// What goes to a file goes to the output that is given if its directory exists; else to that one
/// in the directory of the configuration if its directory exists; without a given output to the
/// configured file if it exists; and at last to the file of the input. The file bears the
/// extension of the format that is given, after `rd.` where a technique is compiled or read.
pub proof fn law_output_option(
    world: World,
    command: Command,
    options: OptionsView,
    format: Option<FormatView>,
    config: ConfigView,
    path: Option<Seq<u8>>,
    name: Seq<char>,
    content: Seq<char>,
    technique: Seq<u8>,
    given: FormatView,
)
    requires
        (world.config)(options.config_file) == ConfigFound::Config(config),
        match path {
            None => options.stdin && name == "STDIN"@ && world.stdin == Ok::<Seq<char>, Seq<char>>(
                content,
            ),
            Some(file) => {
                &&& !options.stdin && options.input == Some(file) && (world.is_file)(file)
                &&& path::file_name(file) is Some
                &&& name == text::lossy_text(path::file_name(file)->0)
                &&& (world.content)(file) == Ok::<Seq<char>, Seq<char>>(content)
            },
        },
        !options.stdout,
        ({
            let configured = config.paths_of(command).output;
            match options.output {
                Some(output) => {
                    let joined = path::join(configured->0, output);
                    if path::parent(output) is Some && (world.is_dir)(path::parent(output)->0) {
                        technique == output
                    } else if configured is Some && path::parent(joined) is Some && (world.is_dir)(
                        path::parent(joined)->0,
                    ) {
                        technique == joined
                    } else {
                        path == Some(technique)
                    }
                },
                None => {
                    &&& !(command is GenerateTechnique)
                    &&& if configured is Some && (world.is_file)(configured->0) {
                        technique == configured->0
                    } else {
                        path == Some(technique)
                    }
                },
            }
        }),
    ensures
        ({
            let run = world::outcome(world, session::requested(command, options, format));
            &&& format == Some(given) && (command is ReadTechnique || (command is Compile && !(
            given.target is Other))) ==> run == Some(
                Ok::<IOContextView, ErrorView>(
                    IOContextView {
                        stdlib: config.stdlib,
                        input: name,
                        input_content: content,
                        output: Some(
                            path::with_extension(technique, encode_utf8("rd."@ + given.text)),
                        ),
                        format: given,
                        command,
                    },
                ),
            )
            &&& format == Some(given) && !(command is Compile) && !(command is ReadTechnique)
                ==> run == Some(
                    Ok::<IOContextView, ErrorView>(
                        IOContextView {
                            stdlib: config.stdlib,
                            input: name,
                            input_content: content,
                            output: Some(path::with_extension(technique, encode_utf8(given.text))),
                            format: given,
                            command,
                        },
                    ),
                )
            &&& !(command is Compile) && format is None ==> run is None
        }),
{
}

/// A compilation that is given no format that the compiler writes takes the one that the extension
/// of the output stands for, and the output bears the extension of that format; an extension that
/// is none, is no text or stands for no format is an error.
pub proof fn law_format_by_extension(
    world: World,
    command: Command,
    options: OptionsView,
    format: Option<FormatView>,
    config: ConfigView,
    path: Option<Seq<u8>>,
    name: Seq<char>,
    content: Seq<char>,
    technique: Seq<u8>,
    found: FormatView,
    error: ErrorView,
)
    requires
        (world.config)(options.config_file) == ConfigFound::Config(config),
        match path {
            None => options.stdin && name == "STDIN"@ && world.stdin == Ok::<Seq<char>, Seq<char>>(
                content,
            ),
            Some(file) => {
                &&& !options.stdin && options.input == Some(file) && (world.is_file)(file)
                &&& path::file_name(file) is Some
                &&& name == text::lossy_text(path::file_name(file)->0)
                &&& (world.content)(file) == Ok::<Seq<char>, Seq<char>>(content)
            },
        },
        !options.stdout,
        ({
            let configured = config.paths_of(command).output;
            match options.output {
                Some(output) => {
                    let joined = path::join(configured->0, output);
                    if path::parent(output) is Some && (world.is_dir)(path::parent(output)->0) {
                        technique == output
                    } else if configured is Some && path::parent(joined) is Some && (world.is_dir)(
                        path::parent(joined)->0,
                    ) {
                        technique == joined
                    } else {
                        path == Some(technique)
                    }
                },
                None => {
                    &&& !(command is GenerateTechnique)
                    &&& if configured is Some && (world.is_file)(configured->0) {
                        technique == configured->0
                    } else {
                        path == Some(technique)
                    }
                },
            }
        }),
        command is Compile,
        format matches Some(given) ==> given.target is Other,
    ensures
        ({
            let run = world::outcome(world, session::requested(command, options, format));
            match path::extension_text(technique) {
                None => run == Some(
                    Err::<IOContextView, ErrorView>(
                        ErrorView::Message(
                            "Commands: missing or invalid format, plus unrecognized or invalid output file extension"@,
                        ),
                    ),
                ),
                Some(extension) => {
                    let recognized = (world.format_of)(extension);
                    &&& recognized == Ok::<FormatView, ErrorView>(found) ==> run == Some(
                        Ok::<IOContextView, ErrorView>(
                            IOContextView {
                                stdlib: config.stdlib,
                                input: name,
                                input_content: content,
                                output: Some(
                                    path::with_extension(technique, encode_utf8(found.text)),
                                ),
                                format: found,
                                command,
                            },
                        ),
                    )
                    &&& recognized == Err::<FormatView, ErrorView>(error) ==> run == Some(
                        Err::<IOContextView, ErrorView>(error),
                    )
                },
            }
        }),
{
}

/// Without an input file there is nothing to base an output on: a given output without a directory
/// is an error, and so is no output at all.
pub proof fn law_no_output_to_base_on(
    world: World,
    command: Command,
    options: OptionsView,
    format: Option<FormatView>,
    config: ConfigView,
    content: Seq<char>,
)
    requires
        (world.config)(options.config_file) == ConfigFound::Config(config),
        options.stdin,
        world.stdin == Ok::<Seq<char>, Seq<char>>(content),
        !options.stdout,
        options.output is None ==> !(command is GenerateTechnique),
    ensures
        ({
            let run = world::outcome(world, session::requested(command, options, format));
            let configured = config.paths_of(command).output;
            match options.output {
                Some(output) => {
                    let joined = path::join(configured->0, output);
                    ||| path::parent(output) is Some && (world.is_dir)(path::parent(output)->0)
                    ||| configured is Some && path::parent(joined) is Some && (world.is_dir)(
                        path::parent(joined)->0,
                    )
                    ||| configured is Some && run == Some(
                        Err::<IOContextView, ErrorView>(
                            ErrorView::Message(
                                "Commands: paths do not match any existing directory"@,
                            ),
                        ),
                    )
                    ||| configured is None && run == Some(
                        Err::<IOContextView, ErrorView>(
                            ErrorView::Message(
                                "Commands: no parameters or configuration output or input to base output file on"@,
                            ),
                        ),
                    )
                },
                None => {
                    ||| configured is Some && (world.is_file)(configured->0)
                    ||| run == Some(
                        Err::<IOContextView, ErrorView>(
                            ErrorView::Message(
                                "Commands: no parameters or configuration output or input to base output file on"@,
                            ),
                        ),
                    )
                },
            }
        }),
{
}

/// Every run has an outcome, but one that is given no format and does not compile.
pub proof fn law_outcome_defined(
    world: World,
    command: Command,
    options: OptionsView,
    format: Option<FormatView>,
)
    requires
        command is Compile || format is Some,
    ensures
        world::outcome(world, session::requested(command, options, format)) is Some,
{
}

} // verus!
