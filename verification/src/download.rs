//! Download: the picture is requested, a file named after the day and the
//! response's content type is created in the destination directory, which is
//! created too if it is missing, and the body is read and written to the file.

use crate::date::{date_text, get_date, is_date_text};
use crate::extension::{download_file_name, extension_or_default_of, file_name_of};
use vstd::prelude::*;
use vstd::string::StringExecFns;

verus! {

/// Why a download was given up.
#[derive(Debug, Clone, Copy, PartialEq, Eq, Structural)]
pub enum DownloadError {
    /// The request could not be completed.
    Request,
    /// The destination file could not be created.
    FileCreate,
    /// The body of the response could not be read to its end.
    BodyRead,
    /// The body could not be written to the file.
    Write,
}

/// The sentence that tells of a failed download: it names the address for a
/// failed request or body, the destination directory for a file that could not
/// be created, and the cause for a failed write.
pub open spec fn download_message(
    error: DownloadError,
    target: Seq<char>,
    destination: Seq<char>,
    reason: Seq<char>,
) -> Seq<char> {
    match error {
        DownloadError::Request => "Could not get response from "@ + target,
        DownloadError::FileCreate => "Could not create file in destination "@ + destination,
        DownloadError::BodyRead => "Could not get bytes from "@ + target,
        DownloadError::Write => "Could not write to file "@ + reason,
    }
}

impl DownloadError {
    /// A sentence for the person who runs the program.
    pub fn message(&self, target: &str, destination: &str, reason: &str) -> (text: String)
        ensures
            text@ == download_message(*self, target@, destination@, reason@),
    {
        match self {
            DownloadError::Request => String::from_str("Could not get response from ").concat(
                target,
            ),
            DownloadError::FileCreate => String::from_str(
                "Could not create file in destination ",
            ).concat(destination),
            DownloadError::BodyRead => String::from_str("Could not get bytes from ").concat(target),
            DownloadError::Write => String::from_str("Could not write to file ").concat(reason),
        }
    }
}

/// Where a download stands: the step that was asked for last.
#[derive(Debug, Clone, Copy, PartialEq, Eq, Structural)]
pub enum DownloadStage {
    /// The picture is being requested.
    Requesting,
    /// The destination directory is being made sure to exist.
    CreatingDirectory,
    /// The destination file is being created.
    CreatingFile,
    /// The body of the response is being read.
    ReadingBody,
    /// The body is being written to the file.
    Writing,
    /// The file holds the picture.
    Done,
    /// The download was given up.
    Failed(DownloadError),
}

/// The state of a download as plain values.
pub struct DownloadModel {
    /// The address of the picture.
    pub target: Seq<char>,
    /// The directory the file is created in.
    pub destination: Seq<char>,
    pub stage: DownloadStage,
    /// The name of the file, once the response has arrived; empty before.
    pub file_name: Seq<char>,
    /// The sentence that tells of the failure, once there is one; empty
    /// before.
    pub message: Seq<char>,
}

/// A step that a download asks its driver to perform.
#[derive(Debug, Clone, PartialEq, Eq)]
pub enum DownloadAction {
    /// Send a GET request to the address.
    Request { url: String },
    /// Create the directory and its missing parents, unless it exists.
    EnsureDirectory { path: String },
    /// Create the file in the directory, or empty it if it exists.
    CreateFile { directory: String, file_name: String },
    /// Read the whole body of the response.
    ReadBody,
    /// Write the body to the file.
    WriteBody,
    /// Nothing is left to do.
    Finish,
    /// The download failed; nothing more will be asked for.
    Abort { error: DownloadError, message: String },
}

/// A [`DownloadAction`] as plain text.
pub enum DownloadActionView {
    Request { url: Seq<char> },
    EnsureDirectory { path: Seq<char> },
    CreateFile { directory: Seq<char>, file_name: Seq<char> },
    ReadBody,
    WriteBody,
    Finish,
    Abort { error: DownloadError, message: Seq<char> },
}

impl View for DownloadAction {
    type V = DownloadActionView;

    open spec fn view(&self) -> DownloadActionView {
        match *self {
            DownloadAction::Request { url } => DownloadActionView::Request { url: url@ },
            DownloadAction::EnsureDirectory { path } => DownloadActionView::EnsureDirectory {
                path: path@,
            },
            DownloadAction::CreateFile { directory, file_name } => DownloadActionView::CreateFile {
                directory: directory@,
                file_name: file_name@,
            },
            DownloadAction::ReadBody => DownloadActionView::ReadBody,
            DownloadAction::WriteBody => DownloadActionView::WriteBody,
            DownloadAction::Finish => DownloadActionView::Finish,
            DownloadAction::Abort { error, message } => DownloadActionView::Abort {
                error,
                message: message@,
            },
        }
    }
}

/// How the step that a download asked for ended.
#[derive(Debug, Clone, PartialEq, Eq)]
pub enum DownloadEvent {
    /// The response arrived, with the value of its `content-type` header if it
    /// has one.
    Response { content_type: Option<Vec<u8>> },
    /// The step was carried out.
    Succeeded,
    /// The step could not be carried out, for the reason given.
    Failed { reason: String },
}

/// A [`DownloadEvent`] as plain values.
pub enum DownloadEventView {
    Response { content_type: Option<Seq<u8>> },
    Succeeded,
    Failed { reason: Seq<char> },
}

impl View for DownloadEvent {
    type V = DownloadEventView;

    open spec fn view(&self) -> DownloadEventView {
        match *self {
            DownloadEvent::Response { content_type } => DownloadEventView::Response {
                content_type: match content_type {
                    Some(value) => Some(value@),
                    None => None,
                },
            },
            DownloadEvent::Succeeded => DownloadEventView::Succeeded,
            DownloadEvent::Failed { reason } => DownloadEventView::Failed { reason: reason@ },
        }
    }
}

/// The state in which a download of `target` into `destination` begins.
pub open spec fn download_start(target: Seq<char>, destination: Seq<char>) -> DownloadModel {
    DownloadModel {
        target,
        destination,
        stage: DownloadStage::Requesting,
        file_name: Seq::empty(),
        message: Seq::empty(),
    }
}

/// The reason that an event gives for a failure: its own if it is a failure,
/// none otherwise.
pub open spec fn failure_reason(event: DownloadEventView) -> Seq<char> {
    match event {
        DownloadEventView::Failed { reason } => reason,
        _ => Seq::empty(),
    }
}

/// A download that gives up with `error` after `event`.
pub open spec fn download_failure(
    model: DownloadModel,
    error: DownloadError,
    event: DownloadEventView,
) -> (DownloadModel, DownloadActionView) {
    let message = download_message(
        error,
        model.target,
        model.destination,
        failure_reason(event),
    );
    (
        DownloadModel { stage: DownloadStage::Failed(error), message, ..model },
        DownloadActionView::Abort { error, message },
    )
}

/// A download that goes on to `stage` and asks for `action`.
pub open spec fn download_next(
    model: DownloadModel,
    stage: DownloadStage,
    action: DownloadActionView,
) -> (DownloadModel, DownloadActionView) {
    (DownloadModel { stage, ..model }, action)
}

/// The rule of a download: the state it goes to and the step it asks for when,
/// in state `model` and on the day `today`, it is told that the step it asked
/// for last ended in `event`.
///
/// The file is named when the response arrives, after the day and the
/// response's content type. Then the destination directory is made sure to
/// exist and the file is created in it, before the body is read. Whatever is
/// not the success of the step in hand ends the download with that step's
/// error; a directory that cannot be had is a file that cannot be created.
pub open spec fn download_step(
    model: DownloadModel,
    event: DownloadEventView,
    today: Seq<char>,
) -> (DownloadModel, DownloadActionView) {
    match model.stage {
        DownloadStage::Requesting => match event {
            DownloadEventView::Response { content_type } => {
                let file_name = file_name_of(today, extension_or_default_of(content_type));
                (
                    DownloadModel { stage: DownloadStage::CreatingDirectory, file_name, ..model },
                    DownloadActionView::EnsureDirectory { path: model.destination },
                )
            },
            _ => download_failure(model, DownloadError::Request, event),
        },
        DownloadStage::CreatingDirectory => if event is Succeeded {
            download_next(
                model,
                DownloadStage::CreatingFile,
                DownloadActionView::CreateFile {
                    directory: model.destination,
                    file_name: model.file_name,
                },
            )
        } else {
            download_failure(model, DownloadError::FileCreate, event)
        },
        DownloadStage::CreatingFile => if event is Succeeded {
            download_next(model, DownloadStage::ReadingBody, DownloadActionView::ReadBody)
        } else {
            download_failure(model, DownloadError::FileCreate, event)
        },
        DownloadStage::ReadingBody => if event is Succeeded {
            download_next(model, DownloadStage::Writing, DownloadActionView::WriteBody)
        } else {
            download_failure(model, DownloadError::BodyRead, event)
        },
        DownloadStage::Writing => if event is Succeeded {
            download_next(model, DownloadStage::Done, DownloadActionView::Finish)
        } else {
            download_failure(model, DownloadError::Write, event)
        },
        DownloadStage::Done => (model, DownloadActionView::Finish),
        DownloadStage::Failed(error) => (
            model,
            DownloadActionView::Abort { error, message: model.message },
        ),
    }
}

/// A download in progress. It performs nothing itself: it names one step at a
/// time and is told how the step ended.
#[derive(Debug)]
pub struct Download {
    target: String,
    destination: String,
    stage: DownloadStage,
    file_name: String,
    message: String,
}

impl View for Download {
    type V = DownloadModel;

    closed spec fn view(&self) -> DownloadModel {
        DownloadModel {
            target: self.target@,
            destination: self.destination@,
            stage: self.stage,
            file_name: self.file_name@,
            message: self.message@,
        }
    }
}

impl Download {
    /// Begins the download of `target` into the directory `destination`. The
    /// first step is to request `target`.
    pub fn begin(target: String, destination: String) -> (started: (Download, DownloadAction))
        ensures
            started.0@ == download_start(target@, destination@),
            started.1@ == (DownloadActionView::Request { url: target@ }),
    {
        let action = DownloadAction::Request { url: target.clone() };
        let download = Download {
            target,
            destination,
            stage: DownloadStage::Requesting,
            file_name: String::new(),
            message: String::new(),
        };
        (download, action)
    }

    /// Where the download stands.
    pub fn stage(&self) -> (stage: DownloadStage)
        ensures
            stage == self@.stage,
    {
        self.stage
    }

    /// The name of the file, once the response has arrived; empty before.
    pub fn file_name(&self) -> (name: &String)
        ensures
            name@ == self@.file_name,
    {
        &self.file_name
    }

    fn fail(&mut self, error: DownloadError, event: DownloadEvent) -> (action: DownloadAction)
        ensures
            (final(self)@, action@) == download_failure(old(self)@, error, event@),
    {
        let message = match event {
            DownloadEvent::Failed { reason } => error.message(
                self.target.as_str(),
                self.destination.as_str(),
                reason.as_str(),
            ),
            _ => error.message(self.target.as_str(), self.destination.as_str(), ""),
        };
        proof {
            reveal_strlit("");
            assert(""@ =~= Seq::<char>::empty());
        }
        self.stage = DownloadStage::Failed(error);
        self.message = message.clone();
        DownloadAction::Abort { error, message }
    }

    /// Tells the download how the step it asked for last ended, `today` being
    /// the text of the day's date, and returns the step to perform next.
    pub fn step_on(&mut self, event: DownloadEvent, today: &str) -> (action: DownloadAction)
        ensures
            (final(self)@, action@) == download_step(old(self)@, event@, today@),
    {
        match self.stage {
            DownloadStage::Requesting => match event {
                DownloadEvent::Response { content_type } => {
                    let name = match &content_type {
                        Some(value) => download_file_name(today, Some(value.as_slice())),
                        None => download_file_name(today, None),
                    };
                    self.stage = DownloadStage::CreatingDirectory;
                    self.file_name = name;
                    DownloadAction::EnsureDirectory { path: self.destination.clone() }
                },
                _ => self.fail(DownloadError::Request, event),
            },
            DownloadStage::CreatingDirectory => match event {
                DownloadEvent::Succeeded => {
                    self.stage = DownloadStage::CreatingFile;
                    DownloadAction::CreateFile {
                        directory: self.destination.clone(),
                        file_name: self.file_name.clone(),
                    }
                },
                _ => self.fail(DownloadError::FileCreate, event),
            },
            DownloadStage::CreatingFile => match event {
                DownloadEvent::Succeeded => {
                    self.stage = DownloadStage::ReadingBody;
                    DownloadAction::ReadBody
                },
                _ => self.fail(DownloadError::FileCreate, event),
            },
            DownloadStage::ReadingBody => match event {
                DownloadEvent::Succeeded => {
                    self.stage = DownloadStage::Writing;
                    DownloadAction::WriteBody
                },
                _ => self.fail(DownloadError::BodyRead, event),
            },
            DownloadStage::Writing => match event {
                DownloadEvent::Succeeded => {
                    self.stage = DownloadStage::Done;
                    DownloadAction::Finish
                },
                _ => self.fail(DownloadError::Write, event),
            },
            DownloadStage::Done => DownloadAction::Finish,
            DownloadStage::Failed(error) => DownloadAction::Abort {
                error,
                message: self.message.clone(),
            },
        }
    }

    /// [`Download::step_on`] today. The date is read off the clock, in UTC,
    /// at the moment the response arrives; no other step looks at it.
    pub fn step(&mut self, event: DownloadEvent) -> (action: DownloadAction)
        ensures
            exists|today: Seq<char>|
                is_date_text(today) && (final(self)@, action@) == #[trigger] download_step(
                    old(self)@,
                    event@,
                    today,
                ),
    {
        if self.names_file(&event) {
            let today = get_date();
            self.step_on(event, today.as_str())
        } else {
            let ghost any_day = date_text(1970i32 as int, 1u32 as nat, 1u32 as nat);
            proof {
                assert(is_date_text(any_day));
                assert(download_step(self@, event@, any_day) == download_step(self@, event@, ""@));
            }
            self.step_on(event, "")
        }
    }

    /// Whether `event` is the response that the download waits for: the
    /// moment at which the file gets its name.
    pub(crate) fn names_file(&self, event: &DownloadEvent) -> (named: bool)
        ensures
            named == (self@.stage is Requesting && event@ is Response),
    {
        match (self.stage, event) {
            (DownloadStage::Requesting, DownloadEvent::Response { .. }) => true,
            _ => false,
        }
    }
}

/// A response without a `content-type` header is saved as `<date>.txt`, in
/// the destination directory.
pub proof fn lemma_missing_content_type_gives_txt(model: DownloadModel, today: Seq<char>)
    requires
        model.stage is Requesting,
    ensures
        ({
            let response = DownloadEventView::Response { content_type: None };
            let (named, first) = download_step(model, response, today);
            let (creating, second) = download_step(named, DownloadEventView::Succeeded, today);
            &&& named.file_name == today + seq!['.', 't', 'x', 't']
            &&& second == (DownloadActionView::CreateFile {
                directory: model.destination,
                file_name: today + seq!['.', 't', 'x', 't'],
            })
        }),
{
    assert(today + seq!['.'] + seq!['t', 'x', 't'] =~= today + seq!['.', 't', 'x', 't']);
}

/// A download does not fail for want of its destination directory: once the
/// response has arrived, whatever its content type, the first thing asked for
/// is the directory, and the file is created in it only when the directory is
/// there.
pub proof fn lemma_directory_comes_before_file(
    model: DownloadModel,
    content_type: Option<Seq<u8>>,
    today: Seq<char>,
    outcome: DownloadEventView,
)
    requires
        model.stage is Requesting,
    ensures
        ({
            let response = DownloadEventView::Response { content_type };
            let (named, first) = download_step(model, response, today);
            let (next, second) = download_step(named, outcome, today);
            &&& first == (DownloadActionView::EnsureDirectory { path: model.destination })
            &&& second is CreateFile <==> outcome is Succeeded
            &&& !(outcome is Succeeded) ==> next.stage == DownloadStage::Failed(
                DownloadError::FileCreate,
            )
        }),
{
}

/// The file is created before the body is read, and the body is read before
/// it is written: a download that has come to create its file asks, while
/// each step succeeds, to read the body, to write it, and then finishes.
pub proof fn lemma_body_follows_file(model: DownloadModel, today: Seq<char>)
    requires
        model.stage is CreatingFile,
    ensures
        ({
            let (reading, first) = download_step(model, DownloadEventView::Succeeded, today);
            let (writing, second) = download_step(reading, DownloadEventView::Succeeded, today);
            let (done, third) = download_step(writing, DownloadEventView::Succeeded, today);
            &&& first == DownloadActionView::ReadBody
            &&& second == DownloadActionView::WriteBody
            &&& third == DownloadActionView::Finish
            &&& done.stage is Done
            &&& done.file_name == model.file_name
        }),
{
}

/// A download that has failed stays as it is and asks for nothing more.
pub proof fn lemma_failed_download_stays_failed(
    model: DownloadModel,
    event: DownloadEventView,
    today: Seq<char>,
)
    requires
        model.stage is Failed,
    ensures
        download_step(model, event, today) == (
            model,
            DownloadActionView::Abort { error: model.stage->Failed_0, message: model.message },
        ),
{
}

/// How far a download has come: a later stage has a higher rank.
pub open spec fn download_rank(stage: DownloadStage) -> nat {
    match stage {
        DownloadStage::Requesting => 0,
        DownloadStage::CreatingDirectory => 1,
        DownloadStage::CreatingFile => 2,
        DownloadStage::ReadingBody => 3,
        DownloadStage::Writing => 4,
        DownloadStage::Done => 5,
        DownloadStage::Failed(_) => 5,
    }
}

/// A download comes to an end, and it creates one file at most. Once it is
/// done or has failed nothing changes any more; before that every step takes
/// it to a later stage, and only the step that leaves the stage
/// `CreatingDirectory` asks for a file.
pub proof fn lemma_download_advances(
    model: DownloadModel,
    event: DownloadEventView,
    today: Seq<char>,
)
    ensures
        ({
            let (next, action) = download_step(model, event, today);
            &&& if model.stage is Done || model.stage is Failed {
                next == model
            } else {
                download_rank(next.stage) > download_rank(model.stage)
            }
            &&& action is CreateFile ==> model.stage is CreatingDirectory
        }),
{
}

} // verus!
