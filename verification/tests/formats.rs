use rudder::error::Error;
use rudder::formats::{get_output_format, settle_format, Command, Format, FormatChoice, Target};
use rudder::path::FilePath;

fn format_of(target: Target, text: &str) -> Format {
    Format { target, text: text.to_owned() }
}

fn settled(extension: &str, format: Format) -> FormatChoice {
    FormatChoice::Settled { extension: extension.to_owned(), format }
}

#[test]
fn the_compiler_writes_the_formats_it_knows() {
    for (target, text, extension) in [
        (Target::CFEngine, "cf", "rd.cf"),
        (Target::DSC, "ps1", "rd.ps1"),
        (Target::Markdown, "md", "rd.md"),
    ] {
        let format = format_of(target, text);
        let choice = get_output_format(Command::Compile, &Some(format.clone()), &None);
        assert_eq!(choice, settled(extension, format));
    }
}

#[test]
fn the_compiler_looks_at_the_output_for_other_formats() {
    let output = Some(FilePath::from_text("dir/technique.cf"));
    let expected = FormatChoice::FromExtension("cf".to_owned());
    assert_eq!(get_output_format(Command::Compile, &None, &output), expected);
    let other = Some(format_of(Target::Other, "json"));
    assert_eq!(get_output_format(Command::Compile, &other, &output), expected);
}

#[test]
fn the_compiler_needs_a_format() {
    let expected = FormatChoice::Failed(Error::Message(
        "Commands: missing or invalid format, plus unrecognized or invalid output file extension"
            .to_owned(),
    ));
    assert_eq!(get_output_format(Command::Compile, &None, &None), expected);
    let output = Some(FilePath::from_text("technique"));
    assert_eq!(get_output_format(Command::Compile, &None, &output), expected);
    let output = Some(FilePath { bytes: vec![b'a', b'.', 0xff] });
    assert_eq!(get_output_format(Command::Compile, &None, &output), expected);
}

#[test]
fn other_commands_write_the_format_they_are_given() {
    let json = format_of(Target::Other, "json");
    let output = Some(FilePath::from_text("a.rd"));
    let given = Some(json.clone());
    assert_eq!(
        get_output_format(Command::ReadTechnique, &given, &output),
        settled("rd.json", json.clone())
    );
    for command in [Command::GenerateTechnique, Command::Save, Command::Lint] {
        assert_eq!(get_output_format(command, &given, &output), settled("json", json.clone()));
    }
}

#[test]
fn a_recognized_format_is_its_own_extension() {
    let format = format_of(Target::DSC, "ps1");
    assert_eq!(settle_format(Ok(format.clone())), settled("ps1", format));
    let error = Error::new("unknown format".to_owned());
    let expected = FormatChoice::Failed(Error::Message("unknown format".to_owned()));
    assert_eq!(settle_format(Err(error)), expected);
}
