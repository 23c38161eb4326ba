//! One cycle of the picture of the day: the address of the picture is
//! resolved, the files of earlier days are rotated into the archive, and the
//! picture is downloaded. A step that fails ends the cycle.

use crate::date::{date_text, get_date, is_date_text};
use crate::download::{
    download_message, download_start, download_step, Download, DownloadAction,
    DownloadActionView, DownloadError, DownloadEvent, DownloadEventView, DownloadModel,
};
use crate::resolver::{
    picture_url_of, resolve_picture_url, resolver_message, MetadataResponse,
    MetadataResponseView, ResolverError, METADATA_ENDPOINT,
};
use crate::rotation::{
    io_message, rotation_start, rotation_step, IoError, Rotation, RotationAction,
    RotationActionView, RotationEvent, RotationEventView, RotationModel,
};
use vstd::prelude::*;
use vstd::string::StringExecFns;

verus! {

/// Why a cycle was given up: the part that failed, and its error.
#[derive(Debug, Clone, Copy, PartialEq, Eq, Structural)]
pub enum CycleError {
    /// The address of the picture could not be resolved.
    Resolve(ResolverError),
    /// The files of earlier days could not be rotated.
    Rotate(IoError),
    /// The picture could not be downloaded.
    Download(DownloadError),
}

/// The sentence that tells of a failed cycle: the part that failed, a colon,
/// and `detail`, the sentence of that part's own error.
pub open spec fn cycle_message(error: CycleError, detail: Seq<char>) -> Seq<char> {
    match error {
        CycleError::Resolve(_) => "Could not get picture of the day url: "@ + detail,
        CycleError::Rotate(_) => "Could not move older files to archive: "@ + detail,
        CycleError::Download(_) => "Could not download file: "@ + detail,
    }
}

impl CycleError {
    /// A sentence for the person who runs the program, which ends in
    /// `detail`.
    pub fn message(&self, detail: &str) -> (text: String)
        ensures
            text@ == cycle_message(*self, detail@),
    {
        match self {
            CycleError::Resolve(_) => String::from_str(
                "Could not get picture of the day url: ",
            ).concat(detail),
            CycleError::Rotate(_) => String::from_str(
                "Could not move older files to archive: ",
            ).concat(detail),
            CycleError::Download(_) => String::from_str("Could not download file: ").concat(
                detail,
            ),
        }
    }
}

/// Where a cycle stands.
pub enum CycleState {
    /// The metadata endpoint is being asked.
    Resolving,
    /// The rotation is under way; `url` is the address that was resolved.
    Rotating { url: Seq<char>, rotation: RotationModel },
    /// The download is under way.
    Downloading { download: DownloadModel },
    /// The picture was saved under `file_name`.
    Done { file_name: Seq<char> },
    /// The cycle was given up.
    Failed { error: CycleError, message: Seq<char> },
}

/// The state of a cycle as plain values.
pub struct CycleModel {
    /// The directory the picture is saved in.
    pub download_dir: Seq<char>,
    /// The directory the files of earlier days are moved to.
    pub archive_dir: Seq<char>,
    pub state: CycleState,
}

/// A step that a cycle asks its driver to perform.
#[derive(Debug, Clone, PartialEq, Eq)]
pub enum CycleAction {
    /// Send a GET request to the endpoint and decode the JSON object in the
    /// body of the response.
    Resolve { endpoint: String },
    /// Perform a step of the rotation.
    Rotate(RotationAction),
    /// Perform a step of the download.
    Download(DownloadAction),
    /// The picture was saved under `file_name`; nothing is left to do.
    Finish { file_name: String },
    /// The cycle failed; nothing more will be asked for.
    Abort { error: CycleError, message: String },
}

/// A [`CycleAction`] as plain text.
pub enum CycleActionView {
    Resolve { endpoint: Seq<char> },
    Rotate(RotationActionView),
    Download(DownloadActionView),
    Finish { file_name: Seq<char> },
    Abort { error: CycleError, message: Seq<char> },
}

impl View for CycleAction {
    type V = CycleActionView;

    open spec fn view(&self) -> CycleActionView {
        match *self {
            CycleAction::Resolve { endpoint } => CycleActionView::Resolve { endpoint: endpoint@ },
            CycleAction::Rotate(action) => CycleActionView::Rotate(action@),
            CycleAction::Download(action) => CycleActionView::Download(action@),
            CycleAction::Finish { file_name } => CycleActionView::Finish { file_name: file_name@ },
            CycleAction::Abort { error, message } => CycleActionView::Abort {
                error,
                message: message@,
            },
        }
    }
}

/// How the step that a cycle asked for ended.
#[derive(Debug, Clone)]
pub enum CycleEvent {
    /// The answer of the metadata endpoint.
    Resolved(MetadataResponse),
    /// The end of a step of the rotation.
    Rotation(RotationEvent),
    /// The end of a step of the download.
    Download(DownloadEvent),
}

/// A [`CycleEvent`] as plain values.
pub enum CycleEventView {
    Resolved(MetadataResponseView),
    Rotation(RotationEventView),
    Download(DownloadEventView),
}

impl View for CycleEvent {
    type V = CycleEventView;

    open spec fn view(&self) -> CycleEventView {
        match *self {
            CycleEvent::Resolved(response) => CycleEventView::Resolved(response@),
            CycleEvent::Rotation(event) => CycleEventView::Rotation(event@),
            CycleEvent::Download(event) => CycleEventView::Download(event@),
        }
    }
}

/// The state in which a cycle begins.
pub open spec fn cycle_start(download_dir: Seq<char>, archive_dir: Seq<char>) -> CycleModel {
    CycleModel { download_dir, archive_dir, state: CycleState::Resolving }
}

/// A cycle that gives up with `error`, of which `detail` tells.
pub open spec fn cycle_failure(model: CycleModel, error: CycleError, detail: Seq<char>) -> (
    CycleModel,
    CycleActionView,
) {
    let message = cycle_message(error, detail);
    (
        CycleModel { state: CycleState::Failed { error, message }, ..model },
        CycleActionView::Abort { error, message },
    )
}

/// What an event tells of the address: what the endpoint's answer stands for
/// if the event is that answer, a failed request otherwise.
pub open spec fn resolution_news(event: CycleEventView) -> Result<Seq<char>, ResolverError> {
    match event {
        CycleEventView::Resolved(response) => picture_url_of(response),
        _ => Err(ResolverError::Request),
    }
}

/// What an event tells a rotation: its own news if it is about the rotation,
/// a failure otherwise.
pub open spec fn rotation_news(event: CycleEventView) -> RotationEventView {
    match event {
        CycleEventView::Rotation(news) => news,
        _ => RotationEventView::Failed,
    }
}

/// What an event tells a download: its own news if it is about the download,
/// a failure without a reason otherwise.
pub open spec fn download_news(event: CycleEventView) -> DownloadEventView {
    match event {
        CycleEventView::Download(news) => news,
        _ => DownloadEventView::Failed { reason: Seq::empty() },
    }
}

/// Whether `event` is the response that the download of a cycle in state
/// `model` waits for.
pub open spec fn cycle_names_file(model: CycleModel, event: CycleEventView) -> bool {
    match model.state {
        CycleState::Downloading { download } => download.stage is Requesting && event is Download
            && download_news(event) is Response,
        _ => false,
    }
}

/// The rule of a cycle: the state it goes to and the step it asks for when, in
/// state `model` and on the day `today`, it is told that the step it asked for
/// last ended in `event`.
///
/// The rotation begins when the address is resolved and not before; the
/// download begins when the rotation has finished and not before. The first
/// failure ends the cycle.
pub open spec fn cycle_step(model: CycleModel, event: CycleEventView, today: Seq<char>) -> (
    CycleModel,
    CycleActionView,
) {
    match model.state {
        CycleState::Resolving => match resolution_news(event) {
            Ok(url) => (
                CycleModel {
                    state: CycleState::Rotating {
                        url,
                        rotation: rotation_start(model.download_dir, model.archive_dir),
                    },
                    ..model
                },
                CycleActionView::Rotate(
                    RotationActionView::EnsureDirectory { path: model.download_dir },
                ),
            ),
            Err(error) => cycle_failure(
                model,
                CycleError::Resolve(error),
                resolver_message(error, METADATA_ENDPOINT@),
            ),
        },
        CycleState::Rotating { url, rotation } => {
            let (next, action) = rotation_step(rotation, rotation_news(event));
            match action {
                RotationActionView::Finish => (
                    CycleModel {
                        state: CycleState::Downloading {
                            download: download_start(url, model.download_dir),
                        },
                        ..model
                    },
                    CycleActionView::Download(DownloadActionView::Request { url }),
                ),
                RotationActionView::Abort { error } => cycle_failure(
                    model,
                    CycleError::Rotate(error),
                    io_message(error),
                ),
                _ => (
                    CycleModel { state: CycleState::Rotating { url, rotation: next }, ..model },
                    CycleActionView::Rotate(action),
                ),
            }
        },
        CycleState::Downloading { download } => {
            let (next, action) = download_step(download, download_news(event), today);
            match action {
                DownloadActionView::Finish => (
                    CycleModel { state: CycleState::Done { file_name: next.file_name }, ..model },
                    CycleActionView::Finish { file_name: next.file_name },
                ),
                DownloadActionView::Abort { error, message } => cycle_failure(
                    model,
                    CycleError::Download(error),
                    message,
                ),
                _ => (
                    CycleModel { state: CycleState::Downloading { download: next }, ..model },
                    CycleActionView::Download(action),
                ),
            }
        },
        CycleState::Done { file_name } => (model, CycleActionView::Finish { file_name }),
        CycleState::Failed { error, message } => (
            model,
            CycleActionView::Abort { error, message },
        ),
    }
}

#[derive(Debug)]
enum Progress {
    Resolving,
    Rotating { url: String, rotation: Rotation },
    Downloading { download: Download },
    Done { file_name: String },
    Failed { error: CycleError, message: String },
}

/// A cycle in progress. It performs nothing itself: it names one step at a
/// time and is told how the step ended.
#[derive(Debug)]
pub struct Cycle {
    download_dir: String,
    archive_dir: String,
    progress: Progress,
}

impl View for Cycle {
    type V = CycleModel;

    closed spec fn view(&self) -> CycleModel {
        CycleModel {
            download_dir: self.download_dir@,
            archive_dir: self.archive_dir@,
            state: match self.progress {
                Progress::Resolving => CycleState::Resolving,
                Progress::Rotating { url, rotation } => CycleState::Rotating {
                    url: url@,
                    rotation: rotation@,
                },
                Progress::Downloading { download } => CycleState::Downloading {
                    download: download@,
                },
                Progress::Done { file_name } => CycleState::Done { file_name: file_name@ },
                Progress::Failed { error, message } => CycleState::Failed {
                    error,
                    message: message@,
                },
            },
        }
    }
}

impl Cycle {
    /// Begins a cycle that saves the picture in `download_dir` and moves the
    /// files of earlier days to `archive_dir`. The first step is to ask the
    /// metadata endpoint.
    pub fn begin(download_dir: String, archive_dir: String) -> (started: (Cycle, CycleAction))
        ensures
            started.0@ == cycle_start(download_dir@, archive_dir@),
            started.1@ == (CycleActionView::Resolve { endpoint: METADATA_ENDPOINT@ }),
    {
        let action = CycleAction::Resolve { endpoint: String::from_str(METADATA_ENDPOINT) };
        (Cycle { download_dir, archive_dir, progress: Progress::Resolving }, action)
    }

    /// Whether the cycle has ended, in success or in failure.
    pub fn is_over(&self) -> (over: bool)
        ensures
            over == (self@.state is Done || self@.state is Failed),
    {
        match self.progress {
            Progress::Done { .. } => true,
            Progress::Failed { .. } => true,
            _ => false,
        }
    }

    fn fail(download_dir: String, archive_dir: String, error: CycleError, detail: &str) -> (failed:
        (Cycle, CycleAction))
        ensures
            (failed.0@, failed.1@) == cycle_failure(
                cycle_start(download_dir@, archive_dir@),
                error,
                detail@,
            ),
    {
        let message = error.message(detail);
        let action = CycleAction::Abort { error, message: message.clone() };
        (Cycle { download_dir, archive_dir, progress: Progress::Failed { error, message } }, action)
    }

    /// Tells the cycle how the step it asked for last ended, `today` being the
    /// text of the day's date, and returns the cycle as it then stands with
    /// the step to perform next.
    pub fn step_on(self, event: CycleEvent, today: &str) -> (next: (Cycle, CycleAction))
        ensures
            (next.0@, next.1@) == cycle_step(self@, event@, today@),
    {
        let Cycle { download_dir, archive_dir, progress } = self;
        match progress {
            Progress::Resolving => {
                let resolved = match event {
                    CycleEvent::Resolved(response) => resolve_picture_url(&response),
                    _ => Err(ResolverError::Request),
                };
                match resolved {
                    Ok(url) => {
                        let (rotation, first) = Rotation::begin(
                            download_dir.clone(),
                            archive_dir.clone(),
                        );
                        (
                            Cycle {
                                download_dir,
                                archive_dir,
                                progress: Progress::Rotating { url, rotation },
                            },
                            CycleAction::Rotate(first),
                        )
                    },
                    Err(error) => {
                        let detail = error.message(METADATA_ENDPOINT);
                        Cycle::fail(
                            download_dir,
                            archive_dir,
                            CycleError::Resolve(error),
                            detail.as_str(),
                        )
                    },
                }
            },
            Progress::Rotating { url, rotation } => {
                let mut rotation = rotation;
                let news = match event {
                    CycleEvent::Rotation(news) => news,
                    _ => RotationEvent::Failed,
                };
                let action = rotation.step(news);
                match action {
                    RotationAction::Finish => {
                        let (download, first) = Download::begin(url, download_dir.clone());
                        (
                            Cycle {
                                download_dir,
                                archive_dir,
                                progress: Progress::Downloading { download },
                            },
                            CycleAction::Download(first),
                        )
                    },
                    RotationAction::Abort { error } => {
                        let detail = error.message();
                        Cycle::fail(
                            download_dir,
                            archive_dir,
                            CycleError::Rotate(error),
                            detail.as_str(),
                        )
                    },
                    _ => (
                        Cycle {
                            download_dir,
                            archive_dir,
                            progress: Progress::Rotating { url, rotation },
                        },
                        CycleAction::Rotate(action),
                    ),
                }
            },
            Progress::Downloading { download } => {
                let mut download = download;
                let news = match event {
                    CycleEvent::Download(news) => news,
                    _ => DownloadEvent::Failed { reason: String::new() },
                };
                let action = download.step_on(news, today);
                match action {
                    DownloadAction::Finish => {
                        let file_name = download.file_name().clone();
                        (
                            Cycle {
                                download_dir,
                                archive_dir,
                                progress: Progress::Done { file_name: file_name.clone() },
                            },
                            CycleAction::Finish { file_name },
                        )
                    },
                    DownloadAction::Abort { error, message } => Cycle::fail(
                        download_dir,
                        archive_dir,
                        CycleError::Download(error),
                        message.as_str(),
                    ),
                    _ => (
                        Cycle {
                            download_dir,
                            archive_dir,
                            progress: Progress::Downloading { download },
                        },
                        CycleAction::Download(action),
                    ),
                }
            },
            Progress::Done { file_name } => {
                let action = CycleAction::Finish { file_name: file_name.clone() };
                (Cycle { download_dir, archive_dir, progress: Progress::Done { file_name } }, action)
            },
            Progress::Failed { error, message } => {
                let action = CycleAction::Abort { error, message: message.clone() };
                (
                    Cycle { download_dir, archive_dir, progress: Progress::Failed { error, message } },
                    action,
                )
            },
        }
    }

    /// Whether `event` is the response that the cycle's download waits for:
    /// the moment at which the file gets its name.
    fn names_file(&self, event: &CycleEvent) -> (named: bool)
        ensures
            named == cycle_names_file(self@, event@),
    {
        match (&self.progress, event) {
            (Progress::Downloading { download }, CycleEvent::Download(news)) => download.names_file(
                news,
            ),
            _ => false,
        }
    }

    /// [`Cycle::step_on`] today. The date is read off the clock, in UTC, at
    /// the moment the response to the download arrives; no other step looks
    /// at it.
    pub fn step(self, event: CycleEvent) -> (next: (Cycle, CycleAction))
        ensures
            exists|today: Seq<char>|
                is_date_text(today) && (next.0@, next.1@) == #[trigger] cycle_step(
                    self@,
                    event@,
                    today,
                ),
    {
        if self.names_file(&event) {
            let today = get_date();
            self.step_on(event, today.as_str())
        } else {
            let ghost any_day = date_text(1970i32 as int, 1u32 as nat, 1u32 as nat);
            proof {
                assert(is_date_text(any_day));
                assert(cycle_step(self@, event@, any_day) == cycle_step(self@, event@, ""@));
            }
            self.step_on(event, "")
        }
    }
}

/// A cycle that has failed stays as it is and asks for nothing more.
pub proof fn lemma_failed_cycle_stays_failed(
    model: CycleModel,
    event: CycleEventView,
    today: Seq<char>,
)
    requires
        model.state is Failed,
    ensures
        cycle_step(model, event, today) == (
            model,
            CycleActionView::Abort {
                error: model.state->Failed_error,
                message: model.state->Failed_message,
            },
        ),
{
}

/// When the address cannot be resolved the cycle ends there: it fails with
/// the resolver's error, and whatever it is told afterwards it asks for no
/// directory, no move and no download.
pub proof fn lemma_unresolved_cycle_ends(
    model: CycleModel,
    response: MetadataResponseView,
    error: ResolverError,
    today: Seq<char>,
    later: CycleEventView,
    later_day: Seq<char>,
)
    requires
        model.state is Resolving,
        picture_url_of(response) == Err::<Seq<char>, ResolverError>(error),
    ensures
        ({
            let (failed, action) = cycle_step(model, CycleEventView::Resolved(response), today);
            let message = cycle_message(
                CycleError::Resolve(error),
                resolver_message(error, METADATA_ENDPOINT@),
            );
            &&& action == (CycleActionView::Abort { error: CycleError::Resolve(error), message })
            &&& cycle_step(failed, later, later_day) == (failed, action)
        }),
{
}

/// The parts of a cycle keep their order. A step of the rotation is asked for
/// only once the address is resolved, and a step of the download only once
/// the rotation is done.
pub proof fn lemma_cycle_keeps_order(model: CycleModel, event: CycleEventView, today: Seq<char>)
    ensures
        ({
            let (next, action) = cycle_step(model, event, today);
            &&& action is Rotate ==> next.state is Rotating && match model.state {
                CycleState::Resolving => resolution_news(event) == Ok::<
                    Seq<char>,
                    ResolverError,
                >(next.state->Rotating_url),
                CycleState::Rotating { .. } => true,
                _ => false,
            }
            &&& action is Download ==> next.state is Downloading && match model.state {
                CycleState::Rotating { url, rotation } => rotation_step(
                    rotation,
                    rotation_news(event),
                ).0.stage is Done && next.state->Downloading_download.target == url,
                CycleState::Downloading { .. } => true,
                _ => false,
            }
        }),
{
}

} // verus!
