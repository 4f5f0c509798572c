//! The I/O context of a run of `rudderc`, deduced from the command line and the configuration.

use crate::formats::{Command, Format, FormatView};
use crate::path::{copy_path, FilePath};
use vstd::prelude::*;

verus! {

/// Where a run of `rudderc` reads and writes, and what.
#[derive(Debug, PartialEq, Eq)]
pub struct IOContext {
    pub stdlib: FilePath,
    pub input: String,
    pub input_content: String,
    pub output: Option<FilePath>,
    pub format: Format,
    pub command: Command,
}

/// What an `IOContext` holds.
pub struct IOContextView {
    pub stdlib: Seq<u8>,
    pub input: Seq<char>,
    pub input_content: Seq<char>,
    pub output: Option<Seq<u8>>,
    pub format: FormatView,
    pub command: Command,
}

impl View for IOContext {
    type V = IOContextView;

    open spec fn view(&self) -> IOContextView {
        IOContextView {
            stdlib: self.stdlib@,
            input: self.input@,
            input_content: self.input_content@,
            output: self.output.deep_view(),
            format: self.format@,
            command: self.command,
        }
    }
}

impl Clone for IOContext {
    fn clone(&self) -> (r: Self)
        ensures
            r@ == self@,
    {
        IOContext {
            stdlib: self.stdlib.clone(),
            input: self.input.clone(),
            input_content: self.input_content.clone(),
            output: copy_path(&self.output),
            format: self.format.clone(),
            command: self.command,
        }
    }
}

/// The sentence that describes a context whose parts are shown as the arguments say.
pub open spec fn described(
    command: Seq<char>,
    input: Seq<char>,
    output: Seq<char>,
    format: Seq<char>,
    stdlib: Seq<char>,
) -> Seq<char> {
    command + " of "@ + input + " into "@ + output + ". Output format is "@ + format
        + ". Libraries path: "@ + stdlib + "."@
}

/// Describes a context whose parts are shown as the arguments say.
pub fn describe(
    command: &str,
    input: &str,
    output: &str,
    format: &str,
    stdlib: &str,
) -> (r: String)
    ensures
        r@ == described(command@, input@, output@, format@, stdlib@),
{
    let mut r: String = command.to_owned();
    r.append(" of ");
    r.append(input);
    r.append(" into ");
    r.append(output);
    r.append(". Output format is ");
    r.append(format);
    r.append(". Libraries path: ");
    r.append(stdlib);
    r.append(".");
    r
}

/// What `{:?}` shows of a text.
pub uninterp spec fn debug_text(text: Seq<char>) -> Seq<char>;

/// Formats a text with `{:?}`, that is with `<str as Debug>::fmt`. Trusted: what is shown is a
/// function of the text alone.
#[verifier::external_body]
fn show_text(text: &str) -> (r: String)
    ensures
        r@ == debug_text(text@),
{
    format!("{:?}", text)
}

impl IOContext {
    /// Describes the context, `command`, `output` and `stdlib` being how its command and its
    /// paths are shown.
    pub fn fmt(&self, command: &str, output: &str, stdlib: &str) -> (r: String)
        ensures
            r@ == described(
                command@,
                debug_text(self@.input),
                output@,
                self@.format.text,
                stdlib@,
            ),
    {
        let input = show_text(self.input.as_str());
        describe(command, input.as_str(), output, self.format.text.as_str(), stdlib)
    }

    /// The context with another content of the input.
    pub fn with_content(&self, input_content: String) -> (r: Self)
        ensures
            r@ == (IOContextView { input_content: input_content@, ..self@ }),
    {
        let mut r = self.clone();
        r.input_content = input_content;
        r
    }

    /// The context with another format.
    pub fn with_format(&self, format: Format) -> (r: Self)
        ensures
            r@ == (IOContextView { format: format@, ..self@ }),
    {
        let mut r = self.clone();
        r.format = format;
        r
    }

    /// The context with another name of the input.
    pub fn with_input(&self, input: &str) -> (r: Self)
        ensures
            r@ == (IOContextView { input: input@, ..self@ }),
    {
        let mut r = self.clone();
        r.input = input.to_owned();
        r
    }
}

} // verus!
