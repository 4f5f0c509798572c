//! The formats that `rudderc` writes, and how one is chosen.

use crate::error::{Error, ErrorView};
use crate::path;
use crate::path::FilePath;
use crate::text::concat;
use vstd::prelude::*;

verus! {

/// What `rudderc` is asked to do.
#[derive(Clone, Copy, Debug, PartialEq, Eq, Structural)]
pub enum Command {
    Compile,
    GenerateTechnique,
    Save,
    ReadTechnique,
    Lint,
}

/// What a format is written for.
#[derive(Clone, Copy, Debug, PartialEq, Eq, Structural)]
pub enum Target {
    CFEngine,
    DSC,
    Markdown,
    /// A format that the compiler does not write.
    Other,
}

/// An output format: what it is written for, and the text that it is shown as.
#[derive(Debug, PartialEq, Eq)]
pub struct Format {
    pub target: Target,
    pub text: String,
}

/// What a `Format` holds.
pub struct FormatView {
    pub target: Target,
    pub text: Seq<char>,
}

impl View for Format {
    type V = FormatView;

    open spec fn view(&self) -> FormatView {
        FormatView { target: self.target, text: self.text@ }
    }
}

impl DeepView for Format {
    type V = FormatView;

    open spec fn deep_view(&self) -> FormatView {
        self@
    }
}

impl Clone for Format {
    fn clone(&self) -> (r: Self)
        ensures
            r@ == self@,
    {
        Format { target: self.target, text: self.text.clone() }
    }
}

/// How far the choice of a format has come.
#[derive(Debug, PartialEq, Eq)]
pub enum FormatChoice {
    /// The format, and the extension of an output file in it.
    Settled { extension: String, format: Format },
    /// The format is the one that this extension of the output file stands for.
    FromExtension(String),
    /// There is no format to write.
    Failed(Error),
}

/// What a `FormatChoice` says.
pub enum FormatChoiceView {
    Settled { extension: Seq<char>, format: FormatView },
    FromExtension(Seq<char>),
    Failed(ErrorView),
}

impl View for FormatChoice {
    type V = FormatChoiceView;

    open spec fn view(&self) -> FormatChoiceView {
        match *self {
            FormatChoice::Settled { extension, format } => FormatChoiceView::Settled {
                extension: extension@,
                format: format@,
            },
            FormatChoice::FromExtension(extension) => FormatChoiceView::FromExtension(extension@),
            FormatChoice::Failed(error) => FormatChoiceView::Failed(error@),
        }
    }
}

/// Whether the compiler writes a format.
pub open spec fn is_compiled(format: FormatView) -> bool {
    format.target is CFEngine || format.target is DSC || format.target is Markdown
}

/// Whether there is a format to choose: every command but `Compile` has to be given one.
pub open spec fn format_defined(command: Command, format: Option<FormatView>) -> bool {
    command is Compile || format is Some
}

/// The extension of a file that is made of a `.rd` file.
pub open spec fn rd_extension(format: FormatView) -> Seq<char> {
    "rd."@ + format.text
}

/// The choice of a format. `Compile` writes the format it is given if the compiler knows it, and
/// otherwise looks at the extension of the output file; the other commands write the format they
/// are given.
pub open spec fn output_format(
    command: Command,
    format: Option<FormatView>,
    output: Option<Seq<u8>>,
) -> FormatChoiceView {
    let extension = match output {
        Some(path) => path::extension_text(path),
        None => None,
    };
    match (command, format) {
        (Command::Compile, Some(given)) if is_compiled(given) => FormatChoiceView::Settled {
            extension: rd_extension(given),
            format: given,
        },
        (Command::Compile, _) => match extension {
            Some(text) => FormatChoiceView::FromExtension(text),
            None => FormatChoiceView::Failed(
                ErrorView::Message(
                    "Commands: missing or invalid format, plus unrecognized or invalid output file extension"@,
                ),
            ),
        },
        (Command::ReadTechnique, Some(given)) => FormatChoiceView::Settled {
            extension: rd_extension(given),
            format: given,
        },
        (_, Some(given)) => FormatChoiceView::Settled { extension: given.text, format: given },
        (_, None) => arbitrary(),
    }
}

/// Chooses the format to write, and the extension of an output file in it.
pub fn get_output_format(
    command: Command,
    format: &Option<Format>,
    output: &Option<FilePath>,
) -> (r: FormatChoice)
    requires
        format_defined(command, format.deep_view()),
    ensures
        r@ == output_format(command, format.deep_view(), output.deep_view()),
{
    match (command, format) {
        (Command::Compile, Some(given)) if given.target == Target::CFEngine || given.target
            == Target::DSC || given.target == Target::Markdown => FormatChoice::Settled {
            extension: concat("rd.", given.text.as_str()),
            format: given.clone(),
        },
        (Command::Compile, _) => {
            let extension = match output {
                Some(path) => path.extension_text(),
                None => None,
            };
            match extension {
                Some(text) => FormatChoice::FromExtension(text),
                None => FormatChoice::Failed(
                    Error::new(
                        "Commands: missing or invalid format, plus unrecognized or invalid output file extension".to_owned(),
                    ),
                ),
            }
        },
        (Command::ReadTechnique, Some(given)) => FormatChoice::Settled {
            extension: concat("rd.", given.text.as_str()),
            format: given.clone(),
        },
        (_, Some(given)) => FormatChoice::Settled {
            extension: given.text.clone(),
            format: given.clone(),
        },
        (_, None) => vstd::pervasive::unreached(),
    }
}

/// The choice of a format once the extension of the output file was looked at.
pub open spec fn recognized_format(
    recognized: Result<FormatView, ErrorView>,
) -> FormatChoiceView {
    match recognized {
        Ok(format) => FormatChoiceView::Settled { extension: format.text, format },
        Err(error) => FormatChoiceView::Failed(error),
    }
}

/// Ends the choice of a format that rests on the extension of the output file: `recognized` is
/// the format that the extension stands for, or why it stands for none.
pub fn settle_format(recognized: Result<Format, Error>) -> (r: FormatChoice)
    ensures
        r@ == recognized_format(recognized_view(recognized)),
{
    match recognized {
        Ok(format) => FormatChoice::Settled { extension: format.text.clone(), format },
        Err(error) => FormatChoice::Failed(error),
    }
}

/// What the look at an extension gave.
pub open spec fn recognized_view(recognized: Result<Format, Error>) -> Result<
    FormatView,
    ErrorView,
> {
    match recognized {
        Ok(format) => Ok(format@),
        Err(error) => Err(error@),
    }
}

} // verus!
