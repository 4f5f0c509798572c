use rudder::context::{describe, IOContext};
use rudder::formats::{Command, Format, Target};
use rudder::path::FilePath;

fn context() -> IOContext {
    IOContext {
        stdlib: FilePath::from_text("/opt/libs"),
        input: "it's.rd".to_owned(),
        input_content: "@format = 0".to_owned(),
        output: Some(FilePath::from_text("/out/a.rd.cf")),
        format: Format { target: Target::CFEngine, text: "cf".to_owned() },
        command: Command::Compile,
    }
}

#[test]
fn a_context_with_another_content_keeps_the_rest() {
    let changed = context().with_content("new".to_owned());
    let mut expected = context();
    expected.input_content = "new".to_owned();
    assert_eq!(changed, expected);
    assert_eq!(changed.with_content("@format = 0".to_owned()), context());
}

#[test]
fn a_context_with_another_format_keeps_the_rest() {
    let format = Format { target: Target::DSC, text: "ps1".to_owned() };
    let mut expected = context();
    expected.format = format.clone();
    assert_eq!(context().with_format(format), expected);
}

#[test]
fn a_context_with_another_input_keeps_the_rest() {
    let mut expected = context();
    expected.input = "b.rd".to_owned();
    assert_eq!(context().with_input("b.rd"), expected);
}

#[test]
fn a_context_is_described() {
    let context = context().with_input("say \"a\".rd");
    assert_eq!(
        context.fmt("compile", "Some(\"/out/a.rd.cf\")", "\"/opt/libs\""),
        "compile of \"say \\\"a\\\".rd\" into Some(\"/out/a.rd.cf\"). Output format is cf. \
         Libraries path: \"/opt/libs\"."
    );
    assert_eq!(
        describe("c", "i", "o", "f", "l"),
        "c of i into o. Output format is f. Libraries path: l."
    );
}
