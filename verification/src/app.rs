//! What is asked of a run, and the checks on the input that come before any
//! file is touched.

use crate::error::{Failure, X2YError};
use crate::fs::{
    file_conversion, process_file, Conversion, ConversionView, EntryKind, ReplyView, Request,
    RequestView, Step, StepView,
};
use crate::paths::{debug_text, text_debug};
use vstd::prelude::*;
use vstd::string::StringExecFns;

verus! {

/// The arguments of a run.
#[derive(Debug)]
pub struct Args {
    /// A file system entry: the file to convert, or the directory below which
    /// to convert.
    pub input: String,
    /// The format of the input files. Needed for a directory; a single file
    /// tells its format by its name.
    pub input_format: Option<String>,
    /// The format to convert to.
    pub output_format: String,
}

/// The arguments of a run as contracts speak of them.
pub struct ArgsView {
    pub input: Seq<char>,
    pub input_format: Option<Seq<char>>,
    pub output_format: Seq<char>,
}

impl View for Args {
    type V = ArgsView;

    open spec fn view(&self) -> ArgsView {
        ArgsView {
            input: self.input@,
            input_format: match self.input_format {
                Some(format) => Some(format@),
                None => None,
            },
            output_format: self.output_format@,
        }
    }
}

impl ArgsView {
    /// How a run begins: by asking what kind of entry the input is.
    pub open spec fn begun(self) -> StepView {
        StepView::Ask(ConversionView::Probing(self), RequestView::Probe(self.input))
    }

    /// How a run goes on once the input has been looked up; `found` is `None`
    /// where its metadata could not be had.
    ///
    /// A directory is listed, if an input format was given, and refused if
    /// none was. A file is converted. A symbolic link is refused: links are
    /// never followed. For any other kind of entry there is nothing to do.
    pub open spec fn dispatched(self, found: Option<EntryKind>) -> StepView {
        match found {
            None => StepView::End(
                Err(
                    Failure::InvalidInput(
                        "failed to get input metadata: "@ + text_debug(self.input),
                    ),
                ),
            ),
            Some(EntryKind::Directory) => match self.input_format {
                Some(input_format) => StepView::Ask(
                    ConversionView::Listing {
                        directory: self.input,
                        input_format,
                        output_format: self.output_format,
                    },
                    RequestView::List(self.input),
                ),
                None => StepView::End(
                    Err(
                        Failure::InvalidInput(
                            "an input format is needed to convert a directory: "@ + text_debug(
                                self.input,
                            ),
                        ),
                    ),
                ),
            },
            Some(EntryKind::File) => file_conversion(self.input, self.output_format),
            Some(EntryKind::Symlink) => StepView::End(
                Err(
                    Failure::InvalidInput(
                        "unable to perform operations on file type: symbolic link"@,
                    ),
                ),
            ),
            Some(EntryKind::Other) => StepView::End(Ok(())),
        }
    }
}

/// A symbolic link is never converted: once the input is known to be one,
/// the run ends as invalid input, and no request to read, remove or write is
/// ever made.
pub proof fn lemma_symlink_refused(args: ArgsView)
    ensures
        args.dispatched(Some(EntryKind::Symlink)) matches StepView::End(
            Err(Failure::InvalidInput(_)),
        ),
        ConversionView::Probing(args).next(ReplyView::Kind(EntryKind::Symlink))
            == args.dispatched(Some(EntryKind::Symlink)),
        args.begun() matches StepView::Ask(_, RequestView::Probe(_)),
{
}

/// A directory is not converted without an input format: the run ends as
/// invalid input before the directory is listed.
pub proof fn lemma_directory_needs_input_format(args: ArgsView)
    requires
        args.input_format is None,
    ensures
        args.dispatched(Some(EntryKind::Directory)) matches StepView::End(
            Err(Failure::InvalidInput(_)),
        ),
{
}

impl Args {
    /// Begins a run: asks for the kind of entry that the input is, without
    /// following a symbolic link.
    pub fn run(&self) -> (step: Step)
        ensures
            step@ == self@.begun(),
    {
        let args = Args {
            input: self.input.clone(),
            input_format: match &self.input_format {
                Some(format) => Some(format.clone()),
                None => None,
            },
            output_format: self.output_format.clone(),
        };
        let input = self.input.clone();
        Step::Ask(Conversion::Probing(args), Request::Probe(input))
    }

    /// Goes on with a run once the input has been looked up; `found` is
    /// `None` where its metadata could not be had.
    pub fn dispatch(self, found: Option<EntryKind>) -> (step: Step)
        ensures
            step@ == self@.dispatched(found),
    {
        match found {
            None => {
                let mut description = "failed to get input metadata: ".to_owned();
                description.append(debug_text(self.input.as_str()).as_str());
                Step::End(Err(X2YError::InvalidInput(description)))
            },
            Some(EntryKind::Directory) => match self.input_format {
                Some(input_format) => {
                    let input = self.input.clone();
                    Step::Ask(
                        Conversion::Listing {
                            directory: self.input,
                            input_format,
                            output_format: self.output_format,
                        },
                        Request::List(input),
                    )
                },
                None => {
                    let mut description =
                        "an input format is needed to convert a directory: ".to_owned();
                    description.append(debug_text(self.input.as_str()).as_str());
                    Step::End(Err(X2YError::InvalidInput(description)))
                },
            },
            Some(EntryKind::File) => process_file(
                self.input.as_str(),
                self.output_format.as_str(),
            ),
            Some(EntryKind::Symlink) => Step::End(
                Err(
                    X2YError::InvalidInput(
                        "unable to perform operations on file type: symbolic link".to_owned(),
                    ),
                ),
            ),
            Some(EntryKind::Other) => Step::End(Ok(())),
        }
    }
}

} // verus!
