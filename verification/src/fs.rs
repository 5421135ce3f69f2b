//! The rewriting of files: which operation on the file system comes next,
//! given how the last one went.
//!
//! A file is read, its text is converted, the file is removed, and the
//! converted text is written under the new name, in this order. The file is
//! removed before the new one is written: a failure to convert leaves the
//! file in place, a failure to write leaves neither.

use crate::app::{Args, ArgsView};
use crate::error::{outcome_view, text_outcome_view, Failure, X2YError};
use crate::formats::Format;
use crate::paths::{debug_path, path_debug};
use crate::text::{ends_with, strip_suffix};
use crate::transcoder::{transcode, transcoded};
use crate::traversal::{
    candidates, lemma_walk_finds_matching_files, matching_files, walk_dir, Candidate,
    CandidateView, Entry,
};
use std::collections::VecDeque;
use vstd::prelude::*;
use vstd::string::StringExecFns;

verus! {

/// The kind of a file system entry, a symbolic link not being followed.
#[derive(Copy, Clone, Debug, PartialEq, Eq, Structural)]
pub enum EntryKind {
    File,
    Directory,
    Symlink,
    Other,
}

/// An operation on the file system that a conversion asks for.
#[derive(Debug)]
pub enum Request {
    /// Look up the kind of the entry at this path, without following a
    /// symbolic link.
    Probe(String),
    /// List the tree below the directory at this path.
    List(String),
    /// Read the whole text of the file at this path.
    Read(String),
    /// Remove the file at this path.
    Remove(String),
    /// Create a file at this path and write this text into it.
    Write(String, String),
}

/// A request as contracts speak of it.
pub enum RequestView {
    Probe(Seq<char>),
    List(Seq<char>),
    Read(Seq<char>),
    Remove(Seq<char>),
    Write(Seq<char>, Seq<char>),
}

impl View for Request {
    type V = RequestView;

    open spec fn view(&self) -> RequestView {
        match *self {
            Request::Probe(path) => RequestView::Probe(path@),
            Request::List(path) => RequestView::List(path@),
            Request::Read(path) => RequestView::Read(path@),
            Request::Remove(path) => RequestView::Remove(path@),
            Request::Write(path, text) => RequestView::Write(path@, text@),
        }
    }
}

/// How an operation on the file system went.
pub enum Reply {
    /// The kind of the entry that was looked up.
    Kind(EntryKind),
    /// The tree below the directory that was listed.
    Listing(Vec<Entry>),
    /// The text of the file that was read.
    Text(String),
    /// The file was removed, or written.
    Done,
    /// The operation failed.
    Failed(std::io::Error),
}

/// A reply as contracts speak of it.
pub enum ReplyView {
    Kind(EntryKind),
    Listing(Seq<Entry>),
    Text(Seq<char>),
    Done,
    Failed(std::io::Error),
}

impl View for Reply {
    type V = ReplyView;

    open spec fn view(&self) -> ReplyView {
        match *self {
            Reply::Kind(kind) => ReplyView::Kind(kind),
            Reply::Listing(entries) => ReplyView::Listing(entries@),
            Reply::Text(text) => ReplyView::Text(text@),
            Reply::Done => ReplyView::Done,
            Reply::Failed(error) => ReplyView::Failed(error),
        }
    }
}

/// The characters of each text of a list.
pub open spec fn texts(list: Seq<String>) -> Seq<Seq<char>> {
    list.map_values(|text: String| text@)
}

/// The files that are being converted from one format to another: the one
/// that is at work, and those that wait, in the order in which their turn
/// comes.
pub struct Job {
    pub path: String,
    pub rest: VecDeque<String>,
    pub input: Format,
    pub output: Format,
}

/// A job as contracts speak of it.
pub struct JobView {
    pub path: Seq<char>,
    pub rest: Seq<Seq<char>>,
    pub input: Format,
    pub output: Format,
}

impl View for Job {
    type V = JobView;

    open spec fn view(&self) -> JobView {
        JobView {
            path: self.path@,
            rest: texts(self.rest@),
            input: self.input,
            output: self.output,
        }
    }
}

/// A conversion that waits for the reply to the request it has made.
pub enum Conversion {
    /// The kind of the input has been asked for.
    Probing(Args),
    /// The listing of the input directory has been asked for.
    Listing { directory: String, input_format: String, output_format: String },
    /// The text of the job's file has been asked for.
    Reading(Job),
    /// The removal of the job's file has been asked for; the text is its
    /// converted form, to be written next.
    Removing(Job, String),
    /// The writing of the converted file has been asked for.
    Writing(Job),
}

/// A conversion as contracts speak of it.
pub enum ConversionView {
    Probing(ArgsView),
    Listing { directory: Seq<char>, input_format: Seq<char>, output_format: Seq<char> },
    Reading(JobView),
    Removing(JobView, Seq<char>),
    Writing(JobView),
}

impl View for Conversion {
    type V = ConversionView;

    open spec fn view(&self) -> ConversionView {
        match *self {
            Conversion::Probing(args) => ConversionView::Probing(args@),
            Conversion::Listing { directory, input_format, output_format } => {
                ConversionView::Listing {
                    directory: directory@,
                    input_format: input_format@,
                    output_format: output_format@,
                }
            },
            Conversion::Reading(job) => ConversionView::Reading(job@),
            Conversion::Removing(job, text) => ConversionView::Removing(job@, text@),
            Conversion::Writing(job) => ConversionView::Writing(job@),
        }
    }
}

/// What comes next in a conversion: a request, with the conversion that
/// waits for the reply, or the end.
pub enum Step {
    Ask(Conversion, Request),
    End(Result<(), X2YError>),
}

/// A step as contracts speak of it.
pub enum StepView {
    Ask(ConversionView, RequestView),
    End(Result<(), Failure>),
}

impl View for Step {
    type V = StepView;

    open spec fn view(&self) -> StepView {
        match *self {
            Step::Ask(conversion, request) => StepView::Ask(conversion@, request@),
            Step::End(outcome) => StepView::End(outcome_view(outcome)),
        }
    }
}

/// What is left of a path when the name of `format` is taken off its end, or
/// the failure where the path does not end with it.
pub open spec fn stem(path: Seq<char>, format: Format) -> Result<Seq<char>, Failure> {
    if ends_with(path, format.name()) {
        Ok(path.take(path.len() - format.name().len()))
    } else {
        Err(Failure::InvalidInput("unable to strip suffix: "@ + path_debug(path)))
    }
}

/// The path under which the converted form of the file at `path` is written:
/// the name of the input format at its end gives way to the name of the
/// output format.
pub open spec fn target(path: Seq<char>, input: Format, output: Format) -> Result<
    Seq<char>,
    Failure,
> {
    match stem(path, input) {
        Ok(front) => Ok(front + output.name()),
        Err(failure) => Err(failure),
    }
}

impl JobView {
    /// The job begins with its file: the text is asked for.
    pub open spec fn start(self) -> StepView {
        StepView::Ask(ConversionView::Reading(self), RequestView::Read(self.path))
    }

    /// The text has been read and converted, with this outcome. Only a
    /// converted text lets the removal of the file go ahead.
    pub open spec fn converted(self, outcome: Result<Seq<char>, Failure>) -> StepView {
        match outcome {
            Ok(text) => StepView::Ask(
                ConversionView::Removing(self, text),
                RequestView::Remove(self.path),
            ),
            Err(failure) => StepView::End(Err(failure)),
        }
    }

    /// The file has been removed: the converted text is to be written at the
    /// target, where the path has one.
    pub open spec fn removed(self, text: Seq<char>) -> StepView {
        match target(self.path, self.input, self.output) {
            Ok(path) => StepView::Ask(ConversionView::Writing(self), RequestView::Write(path, text)),
            Err(failure) => StepView::End(Err(failure)),
        }
    }

    /// The converted file has been written: the next file's turn comes, or
    /// the job is done.
    pub open spec fn written(self) -> StepView {
        if self.rest.len() > 0 {
            JobView { path: self.rest[0], rest: self.rest.skip(1), ..self }.start()
        } else {
            StepView::End(Ok(()))
        }
    }
}

/// How the conversion of a single file begins: the formats are told from the
/// file's path and from the name given for the output, the input first; then
/// the file is read.
pub open spec fn file_conversion(file: Seq<char>, output_format: Seq<char>) -> StepView {
    match Format::of_path(file) {
        Err(failure) => StepView::End(Err(failure)),
        Ok(input) => match Format::of_path(output_format) {
            Err(failure) => StepView::End(Err(failure)),
            Ok(output) => JobView { path: file, rest: seq![], input, output }.start(),
        },
    }
}

/// The paths of candidates.
pub open spec fn paths(files: Seq<CandidateView>) -> Seq<Seq<char>> {
    files.map_values(|file: CandidateView| file.path)
}

/// How the conversion of the files below a directory begins. The candidates
/// are the files of the listing whose name yields a format; without any, the
/// conversion is refused. Every candidate is converted from the one format
/// given to the other, whatever its own name says.
pub open spec fn directory_conversion(
    directory: Seq<char>,
    input_format: Seq<char>,
    output_format: Seq<char>,
    listing: Seq<Entry>,
) -> StepView {
    let files = paths(candidates(listing));
    if files.len() == 0 {
        StepView::End(
            Err(
                Failure::InvalidInput(
                    "Directory: "@ + path_debug(directory) + " contains no files with this: "@
                        + path_debug(input_format) + " format"@,
                ),
            ),
        )
    } else {
        match Format::of_path(input_format) {
            Err(failure) => StepView::End(Err(failure)),
            Ok(input) => match Format::of_path(output_format) {
                Err(failure) => StepView::End(Err(failure)),
                Ok(output) => JobView { path: files[0], rest: files.skip(1), input, output }.start(),
            },
        }
    }
}

/// The end of a conversion that was handed a reply to another request than
/// the one it had made.
pub open spec fn out_of_turn() -> StepView {
    StepView::End(Err(Failure::InvalidInput("the reply does not answer the request"@)))
}

impl ConversionView {
    /// What comes next when the request that the conversion waits on is
    /// answered by `reply`.
    pub open spec fn next(self, reply: ReplyView) -> StepView {
        match self {
            ConversionView::Probing(args) => match reply {
                ReplyView::Kind(kind) => args.dispatched(Some(kind)),
                ReplyView::Failed(_) => args.dispatched(None),
                _ => out_of_turn(),
            },
            ConversionView::Listing { directory, input_format, output_format } => match reply {
                ReplyView::Listing(listing) => directory_conversion(
                    directory,
                    input_format,
                    output_format,
                    listing,
                ),
                ReplyView::Failed(error) => StepView::End(Err(Failure::IO(error))),
                _ => out_of_turn(),
            },
            ConversionView::Reading(job) => match reply {
                ReplyView::Text(text) => job.converted(transcoded(text, job.input, job.output)),
                ReplyView::Failed(error) => StepView::End(Err(Failure::IO(error))),
                _ => out_of_turn(),
            },
            ConversionView::Removing(job, text) => match reply {
                ReplyView::Done => job.removed(text),
                ReplyView::Failed(error) => StepView::End(Err(Failure::IO(error))),
                _ => out_of_turn(),
            },
            ConversionView::Writing(job) => match reply {
                ReplyView::Done => job.written(),
                ReplyView::Failed(error) => StepView::End(Err(Failure::IO(error))),
                _ => out_of_turn(),
            },
        }
    }
}

/// The target of a path that ends with the name of the input format is the
/// same path with the name of the output format in its place. Nothing is put
/// between what comes before the name and the new name.
pub proof fn lemma_target_replaces_the_name(front: Seq<char>, input: Format, output: Format)
    ensures
        stem(front + input.name(), input) == Ok::<Seq<char>, Failure>(front),
        target(front + input.name(), input, output) == Ok::<Seq<char>, Failure>(
            front + output.name(),
        ),
{
    let path = front + input.name();
    assert(path.skip(path.len() - input.name().len()) == input.name());
    assert(path.take(path.len() - input.name().len()) == front);
}

/// The rewriting of a single file whose path ends with the name of its
/// format and whose text converts: the file is read, then removed, then the
/// converted text is written at the target, and with that the conversion
/// ends well.
pub proof fn lemma_file_rewritten(
    front: Seq<char>,
    input: Format,
    output: Format,
    text: Seq<char>,
    converted: Seq<char>,
)
    requires
        transcoded(text, input, output) == Ok::<Seq<char>, Failure>(converted),
    ensures
        ({
            let job = JobView { path: front + input.name(), rest: seq![], input, output };
            &&& job.start() == StepView::Ask(ConversionView::Reading(job), RequestView::Read(job.path))
            &&& ConversionView::Reading(job).next(ReplyView::Text(text)) == StepView::Ask(
                ConversionView::Removing(job, converted),
                RequestView::Remove(job.path),
            )
            &&& ConversionView::Removing(job, converted).next(ReplyView::Done) == StepView::Ask(
                ConversionView::Writing(job),
                RequestView::Write(front + output.name(), converted),
            )
            &&& ConversionView::Writing(job).next(ReplyView::Done) == StepView::End(Ok(()))
        }),
{
    lemma_target_replaces_the_name(front, input, output);
}

/// A directory below which no file's name yields a format has nothing to
/// convert: the conversion is refused as invalid input, whatever formats were
/// asked for, and no request is made. An empty directory is the plainest case.
pub proof fn lemma_nothing_to_convert(
    directory: Seq<char>,
    input_format: Seq<char>,
    output_format: Seq<char>,
    listing: Seq<Entry>,
)
    requires
        matching_files(listing) == 0,
    ensures
        directory_conversion(directory, input_format, output_format, listing) matches StepView::End(
            Err(Failure::InvalidInput(_)),
        ),
        listing.len() == 0 ==> matching_files(listing) == 0,
{
    lemma_walk_finds_matching_files(listing);
}

/// A file is removed only once its text has been converted: a request to
/// remove a file answers a text that was read for the job at work and that
/// the transcoder turned into another, and it names that job's file. A text
/// that fails to convert ends the conversion with the file untouched.
pub proof fn lemma_removal_follows_conversion(conversion: ConversionView, reply: ReplyView)
    ensures
        conversion.next(reply) matches StepView::Ask(_, RequestView::Remove(path)) ==> {
            &&& conversion matches ConversionView::Reading(job)
            &&& reply matches ReplyView::Text(text)
            &&& transcoded(text, job.input, job.output) is Ok
            &&& path == job.path
        },
        conversion matches ConversionView::Reading(job) ==> (reply matches ReplyView::Text(text)
            ==> (transcoded(text, job.input, job.output) matches Err(failure) ==> conversion.next(
            reply,
        ) == StepView::End(Err(failure)))),
{
}

/// The converted text is written only once the file it came from has been
/// removed: a request to write answers the removal of the file at work,
/// carries the text that was converted from it, and names the target of that
/// file's path.
pub proof fn lemma_writing_follows_removal(conversion: ConversionView, reply: ReplyView)
    ensures
        conversion.next(reply) matches StepView::Ask(_, RequestView::Write(path, text)) ==> {
            &&& conversion matches ConversionView::Removing(job, converted)
            &&& reply is Done
            &&& text == converted
            &&& target(job.path, job.input, job.output) == Ok::<Seq<char>, Failure>(path)
        },
{
}

/// Files are converted one after the other: once a job is at work, the next
/// file is read only when the writing of the one before it has been
/// confirmed, and it is the first of those that waited.
pub proof fn lemma_one_file_at_a_time(conversion: ConversionView, reply: ReplyView)
    requires
        conversion is Reading || conversion is Removing || conversion is Writing,
    ensures
        conversion.next(reply) matches StepView::Ask(after, RequestView::Read(path)) ==> {
            &&& conversion matches ConversionView::Writing(job)
            &&& reply is Done
            &&& job.rest.len() > 0
            &&& path == job.rest[0]
            &&& after == ConversionView::Reading(
                JobView { path: job.rest[0], rest: job.rest.skip(1), ..job },
            )
        },
{
}

/// A failure on the file system ends the conversion at once with an error,
/// whatever it was waiting for; no later file is taken up.
pub proof fn lemma_failure_ends_the_conversion(conversion: ConversionView, error: std::io::Error)
    ensures
        conversion.next(ReplyView::Failed(error)) matches StepView::End(Err(_)),
        !(conversion is Probing) ==> conversion.next(ReplyView::Failed(error)) == StepView::End(
            Err(Failure::IO(error)),
        ),
{
}

/// Takes the name of `input_format` off the end of a file's path.
pub fn new_path<'a>(file_path: &'a str, input_format: Format) -> (outcome: Result<
    &'a str,
    X2YError,
>)
    ensures
        match outcome {
            Ok(front) => stem(file_path@, input_format) == Ok::<Seq<char>, Failure>(front@),
            Err(error) => stem(file_path@, input_format) == Err::<Seq<char>, Failure>(error@),
        },
{
    let name = input_format.to_string();
    match strip_suffix(file_path, name.as_str()) {
        Some(front) => {
            assert(front@ == file_path@.take(file_path@.len() - name@.len()));
            Ok(front)
        },
        None => {
            let mut description = "unable to strip suffix: ".to_owned();
            description.append(debug_path(file_path).as_str());
            Err(X2YError::InvalidInput(description))
        },
    }
}

impl Job {
    /// Begins the job with its file.
    pub fn start(self) -> (step: Step)
        ensures
            step@ == self@.start(),
    {
        let path = self.path.clone();
        Step::Ask(Conversion::Reading(self), Request::Read(path))
    }

    /// Goes on once the text of the file has been read and converted, with
    /// this outcome.
    pub fn converted(self, outcome: Result<String, X2YError>) -> (step: Step)
        ensures
            step@ == self@.converted(text_outcome_view(outcome)),
    {
        match outcome {
            Ok(text) => {
                let path = self.path.clone();
                Step::Ask(Conversion::Removing(self, text), Request::Remove(path))
            },
            Err(error) => Step::End(Err(error)),
        }
    }

    /// Goes on once the file has been removed: `text` is its converted form.
    pub fn removed(self, text: String) -> (step: Step)
        ensures
            step@ == self@.removed(text@),
    {
        match new_path(self.path.as_str(), self.input) {
            Ok(front) => {
                let mut path = front.to_owned();
                path.append(self.output.to_string().as_str());
                Step::Ask(Conversion::Writing(self), Request::Write(path, text))
            },
            Err(error) => Step::End(Err(error)),
        }
    }

    /// Goes on once the converted file has been written.
    pub fn written(self) -> (step: Step)
        ensures
            step@ == self@.written(),
    {
        let mut job = self;
        match job.rest.pop_front() {
            Some(path) => {
                assert(texts(job.rest@) == texts(self.rest@).skip(1));
                job.path = path;
                job.start()
            },
            None => Step::End(Ok(())),
        }
    }
}

/// Begins the conversion of the file at `file` into the format that
/// `output_format` names.
pub fn process_file(file: &str, output_format: &str) -> (step: Step)
    ensures
        step@ == file_conversion(file@, output_format@),
{
    let input = match Format::try_from(file) {
        Ok(format) => format,
        Err(error) => return Step::End(Err(error)),
    };
    let output = match Format::try_from(output_format) {
        Ok(format) => format,
        Err(error) => return Step::End(Err(error)),
    };
    let job = Job { path: file.to_owned(), rest: VecDeque::new(), input, output };
    assert(texts(job.rest@) == Seq::<Seq<char>>::empty());
    job.start()
}

/// Begins the conversion of the files below the directory at `directory`,
/// whose listing is `listing`, from the format that `input_format` names into
/// the one that `output_format` names.
pub fn process_directory(
    directory: &str,
    input_format: &str,
    output_format: &str,
    listing: &Vec<Entry>,
) -> (step: Step)
    ensures
        step@ == directory_conversion(directory@, input_format@, output_format@, listing@),
{
    let mut files: Vec<Candidate> = Vec::new();
    walk_dir(listing, &mut files);
    let ghost found = paths(candidates(listing@));
    if files.len() == 0 {
        let mut description = "Directory: ".to_owned();
        description.append(debug_path(directory).as_str());
        description.append(" contains no files with this: ");
        description.append(debug_path(input_format).as_str());
        description.append(" format");
        return Step::End(Err(X2YError::InvalidInput(description)));
    }
    let input = match Format::try_from(input_format) {
        Ok(format) => format,
        Err(error) => return Step::End(Err(error)),
    };
    let output = match Format::try_from(output_format) {
        Ok(format) => format,
        Err(error) => return Step::End(Err(error)),
    };
    let mut rest: VecDeque<String> = VecDeque::new();
    let mut i: usize = 1;
    while i < files.len()
        invariant
            1 <= i <= files.len(),
            found == texts(files@.map_values(|file: Candidate| file.path)),
            texts(rest@) == found.subrange(1, i as int),
        decreases files.len() - i,
    {
        let ghost earlier = rest@;
        rest.push_back(files[i].path.clone());
        assert(texts(rest@) == texts(earlier).push(files@[i as int].path@));
        i += 1;
    }
    let job = Job { path: files[0].path.clone(), rest, input, output };
    job.start()
}

impl Conversion {
    /// Takes the reply to the request that the conversion waits on, and says
    /// what comes next.
    pub fn step(self, reply: Reply) -> (step: Step)
        ensures
            step@ == self@.next(reply@),
    {
        match self {
            Conversion::Probing(args) => match reply {
                Reply::Kind(kind) => args.dispatch(Some(kind)),
                Reply::Failed(_) => args.dispatch(None),
                _ => refuse(),
            },
            Conversion::Listing { directory, input_format, output_format } => match reply {
                Reply::Listing(listing) => process_directory(
                    directory.as_str(),
                    input_format.as_str(),
                    output_format.as_str(),
                    &listing,
                ),
                Reply::Failed(error) => Step::End(Err(X2YError::from(error))),
                _ => refuse(),
            },
            Conversion::Reading(job) => match reply {
                Reply::Text(text) => {
                    let outcome = transcode(text.as_str(), job.input, job.output);
                    job.converted(outcome)
                },
                Reply::Failed(error) => Step::End(Err(X2YError::from(error))),
                _ => refuse(),
            },
            Conversion::Removing(job, text) => match reply {
                Reply::Done => job.removed(text),
                Reply::Failed(error) => Step::End(Err(X2YError::from(error))),
                _ => refuse(),
            },
            Conversion::Writing(job) => match reply {
                Reply::Done => job.written(),
                Reply::Failed(error) => Step::End(Err(X2YError::from(error))),
                _ => refuse(),
            },
        }
    }
}

/// Ends a conversion that was handed a reply to another request than the
/// one it had made.
fn refuse() -> (step: Step)
    ensures
        step@ == out_of_turn(),
{
    Step::End(Err(X2YError::InvalidInput("the reply does not answer the request".to_owned())))
}

} // verus!
