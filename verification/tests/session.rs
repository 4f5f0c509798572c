use rudder::config::{Config, IOPaths, LibsConfig};
use rudder::context::IOContext;
use rudder::error::Error;
use rudder::formats::{Command, Format, Target};
use rudder::input::{get_content, get_input, read_source, InputStep};
use rudder::options::{LogLevel, Options};
use rudder::output::{get_output, OutputProbe, OutputStep};
use rudder::path::FilePath;
use rudder::session::{Reply, Step};

struct World {
    files: Vec<&'static str>,
    directories: Vec<&'static str>,
    config: fn() -> Reply,
}

fn path(text: &str) -> FilePath {
    FilePath::from_text(text)
}

fn spelled(path: &FilePath) -> String {
    String::from_utf8(path.bytes.clone()).unwrap()
}

fn format_of(target: Target, text: &str) -> Format {
    Format { target, text: text.to_owned() }
}

fn none() -> IOPaths {
    IOPaths { input: None, output: None }
}

fn bare_config() -> Reply {
    Reply::Config(Config {
        libs: LibsConfig { stdlib: path("/libs"), generic_methods: path("/methods") },
        compile: none(),
        lint: none(),
        save: none(),
        technique_generate: none(),
        technique_read: none(),
    })
}

fn full_config() -> Reply {
    let paths = |name: &str| IOPaths {
        input: Some(path(&format!("/in/{}", name))),
        output: Some(path(&format!("/out/{}", name))),
    };
    Reply::Config(Config {
        libs: LibsConfig { stdlib: path("/libs"), generic_methods: path("/methods") },
        compile: paths("compile"),
        lint: paths("lint"),
        save: paths("save"),
        technique_generate: paths("generate"),
        technique_read: paths("read"),
    })
}

impl World {
    fn reply(&self, step: &Step) -> Option<Reply> {
        let is_file = |p: &FilePath| Reply::Present(self.files.contains(&spelled(p).as_str()));
        let is_dir = |p: &FilePath| Reply::Present(self.directories.contains(&spelled(p).as_str()));
        match step {
            Step::ReadConfig(_) => Some((self.config)()),
            Step::ProbeInput { probe, .. } => Some(is_file(probe.target())),
            Step::ReadContent { path: Some(p), .. } => Some(Reply::Content(
                if spelled(p).contains("locked") {
                    Err("permission denied".to_owned())
                } else {
                    Ok(format!("content of {}", spelled(p)))
                },
            )),
            Step::ReadContent { path: None, .. } => Some(Reply::Content(Ok("typed".to_owned()))),
            Step::ProbeOutput { place, .. } => Some(match place {
                OutputProbe::Given { directory, .. } => is_dir(directory),
                OutputProbe::Joined { directory, .. } => is_dir(directory),
                OutputProbe::Configured { file, .. } => is_file(file),
            }),
            Step::ChooseFormat { draft, .. } => {
                if draft.format_defined() {
                    Some(Reply::Proceed)
                } else {
                    None
                }
            }
            Step::RecognizeFormat { extension, .. } => Some(Reply::Recognized(
                match extension.as_str() {
                    "cf" => Ok(format_of(Target::CFEngine, "cf")),
                    _ => Err(Error::new(format!("unknown format {}", extension))),
                },
            )),
            Step::Done(_) => None,
        }
    }

    fn run(&self, command: Command, options: &Options, format: Option<Format>) -> Step {
        let mut step = IOContext::new(command, options, format);
        let mut left = 8;
        while let Some(reply) = self.reply(&step) {
            assert!(left > 0);
            left -= 1;
            step = step.resume(reply);
        }
        step
    }

    fn outcome(
        &self,
        command: Command,
        options: &Options,
        format: Option<Format>,
    ) -> Result<IOContext, Error> {
        match self.run(command, options, format) {
            Step::Done(result) => result,
            _ => panic!("no outcome"),
        }
    }
}

fn message(text: &str) -> Error {
    Error::Message(text.to_owned())
}

fn cf() -> Option<Format> {
    Some(format_of(Target::CFEngine, "cf"))
}

fn options(input: Option<&str>, output: Option<&str>) -> Options {
    let mut options = Options::default();
    options.input = input.map(path);
    options.output = output.map(path);
    options
}

fn world(files: Vec<&'static str>, directories: Vec<&'static str>, config: fn() -> Reply) -> World {
    World { files, directories, config }
}

#[test]
fn a_file_is_compiled_beside_itself() {
    let world = world(vec!["/src/a.rd"], vec![], bare_config);
    let context = world.outcome(Command::Compile, &options(Some("/src/a.rd"), None), cf()).unwrap();
    assert_eq!(context.stdlib, path("/libs"));
    assert_eq!(context.input, "a.rd");
    assert_eq!(context.input_content, "content of /src/a.rd");
    assert_eq!(context.output, Some(path("/src/a.rd.cf")));
    assert_eq!(context.format, format_of(Target::CFEngine, "cf"));
    assert_eq!(context.command, Command::Compile);
}

#[test]
fn an_input_is_looked_for_in_the_configuration() {
    let world = world(vec!["/in/compile/a.rd"], vec!["/o"], full_config);
    let options = options(Some("a.rd"), Some("/o/b"));
    let context = world.outcome(Command::Compile, &options, cf()).unwrap();
    assert_eq!(context.input_content, "content of /in/compile/a.rd");
    assert_eq!(context.output, Some(path("/o/b.rd.cf")));
}

#[test]
fn the_configured_input_is_a_fallback() {
    let world = world(vec!["/in/save"], vec!["/o"], full_config);
    let json = Some(format_of(Target::Other, "json"));
    let context = world.outcome(Command::Save, &options(None, Some("/o/b.x")), json).unwrap();
    assert_eq!(context.input, "save");
    assert_eq!(context.output, Some(path("/o/b.json")));
}

#[test]
fn every_command_has_its_own_paths() {
    for (command, name) in [
        (Command::Compile, "compile"),
        (Command::Lint, "lint"),
        (Command::Save, "save"),
        (Command::GenerateTechnique, "generate"),
        (Command::ReadTechnique, "read"),
    ] {
        let files = vec!["/in/compile", "/in/lint", "/in/save", "/in/generate", "/in/read"];
        let mut options = options(None, None);
        options.stdout = true;
        let context = world(files, vec![], full_config).outcome(command, &options, cf()).unwrap();
        assert_eq!(context.input, name);
        assert_eq!(context.command, command);
    }
}

#[test]
fn the_standard_input_overrides_the_input_file() {
    let world = world(vec!["/src/a.rd"], vec!["/o"], bare_config);
    let mut options = options(Some("/src/a.rd"), Some("/o/b"));
    options.stdin = true;
    let context = world.outcome(Command::Compile, &options, cf()).unwrap();
    assert_eq!(context.input, "STDIN");
    assert_eq!(context.input_content, "typed");
    options.input = None;
    assert_eq!(world.outcome(Command::Compile, &options, cf()).unwrap(), context);
}

#[test]
fn the_standard_output_overrides_the_output_file() {
    let world = world(vec!["/src/a.rd"], vec!["/o"], bare_config);
    let mut options = options(Some("/src/a.rd"), Some("/o/b"));
    options.stdout = true;
    let context = world.outcome(Command::Compile, &options, cf()).unwrap();
    assert_eq!(context.output, None);
    options.output = None;
    assert_eq!(world.outcome(Command::Compile, &options, cf()).unwrap(), context);
}

#[test]
fn a_generated_technique_goes_to_the_standard_output() {
    let world = world(vec!["/in/generate"], vec!["/o"], full_config);
    let json = || Some(format_of(Target::Other, "json"));
    let context =
        world.outcome(Command::GenerateTechnique, &options(None, None), json()).unwrap();
    assert_eq!(context.output, None);
    let context =
        world.outcome(Command::GenerateTechnique, &options(None, Some("/o/t")), json()).unwrap();
    assert_eq!(context.output, Some(path("/o/t.json")));
}

#[test]
fn an_output_is_looked_for_in_the_configuration() {
    let world = world(vec!["/in/compile"], vec!["/out/compile"], full_config);
    let context = world.outcome(Command::Compile, &options(None, Some("b")), cf()).unwrap();
    assert_eq!(context.output, Some(path("/out/compile/b.rd.cf")));
}

#[test]
fn a_configured_output_is_a_fallback() {
    let world = world(vec!["/in/compile", "/out/compile"], vec![], full_config);
    let context = world.outcome(Command::Compile, &options(None, None), cf()).unwrap();
    assert_eq!(context.output, Some(path("/out/compile.rd.cf")));
}

#[test]
fn an_output_without_directory_is_based_on_the_input() {
    let world = world(vec!["/src/a.rd"], vec![], bare_config);
    let options = options(Some("/src/a.rd"), Some("/nowhere/b"));
    let context = world.outcome(Command::Compile, &options, cf()).unwrap();
    assert_eq!(context.output, Some(path("/src/a.rd.cf")));
}

#[test]
fn an_output_in_no_directory_is_based_on_the_input() {
    let world = world(vec!["/in/compile"], vec![], full_config);
    for output in ["b", "/nowhere/b", "/"] {
        let context = world.outcome(Command::Compile, &options(None, Some(output)), cf()).unwrap();
        assert_eq!(context.output, Some(path("/in/compile.rd.cf")), "{}", output);
    }
}

#[test]
fn an_output_in_no_directory_without_input_is_an_error() {
    let world = world(vec![], vec![], full_config);
    for output in ["b", "/nowhere/b", "/"] {
        let mut options = options(None, Some(output));
        options.stdin = true;
        assert_eq!(
            world.outcome(Command::Compile, &options, cf()),
            Err(message("Commands: paths do not match any existing directory"))
        );
    }
}

fn other_tables_config() -> Reply {
    let strange = || IOPaths { input: Some(path("/x")), output: Some(path("/y")) };
    Reply::Config(Config {
        libs: LibsConfig { stdlib: path("/libs"), generic_methods: path("/elsewhere") },
        compile: none(),
        lint: strange(),
        save: strange(),
        technique_generate: strange(),
        technique_read: strange(),
    })
}

#[test]
fn a_command_looks_at_its_own_table_alone() {
    let run = |config| {
        world(vec!["/src/a.rd", "/x", "/y"], vec![], config).outcome(
            Command::Compile,
            &options(Some("/src/a.rd"), None),
            cf(),
        )
    };
    assert!(run(bare_config).is_ok());
    assert_eq!(run(bare_config), run(other_tables_config));
}

#[test]
fn log_options_do_not_change_the_context() {
    let world = world(vec!["/src/a.rd"], vec![], bare_config);
    let mut options = options(Some("/src/a.rd"), None);
    let expected = world.outcome(Command::Compile, &options, cf());
    assert!(expected.is_ok());
    options.log_level = LogLevel::Trace;
    options.json_logs = true;
    options.backtrace = true;
    assert_eq!(world.outcome(Command::Compile, &options, cf()), expected);
}

#[test]
fn a_run_without_output_is_an_error() {
    let world = world(vec![], vec![], bare_config);
    let mut options = options(None, None);
    options.stdin = true;
    assert_eq!(
        world.outcome(Command::Compile, &options, cf()),
        Err(message(
            "Commands: no parameters or configuration output or input to base output file on"
        ))
    );
}

#[test]
fn a_run_without_input_is_an_error() {
    let text = "Commands: no input or input does not match any existing file";
    let bare = world(vec![], vec![], bare_config);
    for input in [None, Some("/src/a.rd")] {
        assert_eq!(
            bare.outcome(Command::Compile, &options(input, None), cf()),
            Err(message(text))
        );
    }
    let full = world(vec![], vec![], full_config);
    assert_eq!(full.outcome(Command::Lint, &options(None, None), cf()), Err(message(text)));
    assert_eq!(
        full.outcome(Command::Lint, &options(Some("a"), None), cf()),
        Err(message("Commands: input does not match any existing file"))
    );
}

#[test]
fn a_source_that_cannot_be_read_is_an_error() {
    let world = world(vec!["/src/locked.rd"], vec![], bare_config);
    assert_eq!(
        world.outcome(Command::Compile, &options(Some("/src/locked.rd"), None), cf()),
        Err(Error::InFile {
            file: "locked.rd".to_owned(),
            message: "permission denied".to_owned()
        })
    );
}

#[test]
fn a_configuration_that_cannot_be_used_is_an_error() {
    let unreadable = world(vec![], vec![], || Reply::ConfigUnreadable("not found".to_owned()));
    assert_eq!(
        unreadable.outcome(Command::Save, &options(None, None), None),
        Err(message("Could not read toml config file: not found"))
    );
    let malformed = world(vec![], vec![], || Reply::ConfigMalformed("line 1".to_owned()));
    assert_eq!(
        malformed.outcome(Command::Save, &options(None, None), None),
        Err(message("Could not parse (probably faulty) toml config file: line 1"))
    );
}

#[test]
fn the_format_comes_from_the_extension_of_the_output() {
    let world = world(vec!["/src/a.rd"], vec!["/o"], bare_config);
    let context =
        world.outcome(Command::Compile, &options(Some("/src/a.rd"), Some("/o/b.cf")), None).unwrap();
    assert_eq!(context.format, format_of(Target::CFEngine, "cf"));
    assert_eq!(context.output, Some(path("/o/b.cf")));
    assert_eq!(
        world.outcome(Command::Compile, &options(Some("/src/a.rd"), Some("/o/b.doc")), None),
        Err(message("unknown format doc"))
    );
    assert_eq!(
        world.outcome(Command::Compile, &options(Some("/src/a.rd"), Some("/o/b")), None),
        Err(message(
            "Commands: missing or invalid format, plus unrecognized or invalid output file extension"
        ))
    );
}

#[test]
fn a_session_does_not_choose_an_undefined_format() {
    let world = world(vec!["/src/a.rd"], vec![], bare_config);
    let step = world.run(Command::Lint, &options(Some("/src/a.rd"), None), None);
    assert!(matches!(step, Step::ChooseFormat { .. }));
}

#[test]
fn the_search_for_an_input_looks_where_it_says() {
    let step = get_input(&Some(path("/in")), &Some(path("a.rd")), false);
    let InputStep::Probe(probe) = step else { panic!("no probe") };
    assert_eq!(probe.target(), &path("a.rd"));
    let InputStep::Probe(probe) = probe.resume(false) else { panic!("no probe") };
    assert_eq!(probe.target(), &path("/in/a.rd"));
    assert_eq!(probe.resume(true), InputStep::Found(path("/in/a.rd")));
}

#[test]
fn a_bare_output_name_has_the_empty_directory() {
    let step = get_output(&None, Command::Compile, &None, &Some(path("b.cf")), false);
    let OutputStep::Probe(OutputProbe::Given { directory, .. }) = step else { panic!("no probe") };
    assert_eq!(directory, path(""));
    let step = get_output(&None, Command::Compile, &None, &Some(path("/")), false);
    assert!(matches!(step, OutputStep::Failed(_)));
}

#[test]
fn sources_are_known_by_their_names() {
    assert_eq!(get_content(&Some(path("/src/a.rd"))), Ok("a.rd".to_owned()));
    assert_eq!(get_content(&None), Ok("STDIN".to_owned()));
    assert_eq!(get_content(&Some(path("/src/.."))), Err(Error::InvalidFile(path("/src/.."))));
    assert_eq!(
        Error::invalid_file_message("Some(\"/src/..\")"),
        "Some(\"/src/..\") file does not exist or is invalid"
    );
    let source = read_source("a.rd".to_owned(), Ok("x".to_owned())).unwrap();
    assert_eq!((source.name.as_str(), source.content.as_str()), ("a.rd", "x"));
}
