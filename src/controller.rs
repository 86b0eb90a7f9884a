//! The orchestration controller: it makes sure both binaries are present
//! before any download, then admits one download request at a time and
//! reports its outcome.

use crate::config::opt_chars;
use crate::download::{download, starts, Action, Binary, DownloadError, FilePath, Pipeline};
use crate::fetch_deps::DepError;
use crate::parse_url::{parse_video_url, video_link_id};
use crate::text::concat;
use crate::types::ContentType;
use vstd::prelude::*;

verus! {

/// What the user is shown.
pub enum Status {
    /// The binaries are being checked or fetched.
    Pending,
    /// Downloads may be requested.
    Ready,
    /// A download is in flight.
    Running,
    /// The last download succeeded, with a message naming where it went.
    Succeeded(String),
    /// Startup or the last download failed, with the message.
    Failed(String),
}

/// What to do with an extractor that is already installed.
#[derive(Debug, Clone, Copy, PartialEq, Eq, Structural)]
pub enum UpdatePolicy {
    /// Leave it as it is.
    Skip,
    /// Update it; a failed update does not stop startup.
    Tolerate,
    /// Update it; a failed update fails startup.
    Require,
}

/// Where startup stands.
#[derive(Debug, Clone, Copy, PartialEq, Eq, Structural)]
pub enum StartupStep {
    CheckExtractor,
    FetchExtractor,
    UpdateExtractor,
    CheckTranscoder,
    FetchTranscoder,
    /// Both binaries are present.
    Complete,
    /// Startup failed; nothing more happens.
    Aborted,
}

/// The next outside action of startup.
#[derive(Debug, Clone, Copy, PartialEq, Eq, Structural)]
pub enum StartupAction {
    /// Check whether the binary is installed (no network).
    CheckExists { binary: Binary },
    /// Fetch and install the binary (network).
    Fetch { binary: Binary },
    /// Run the extractor's self-update (network).
    Update,
    /// Startup is over.
    Done,
}

/// The outcome of a startup action.
pub enum StartupEvent {
    Exists { outcome: Result<bool, DepError> },
    Fetched { outcome: Result<(), DepError> },
    Updated { outcome: Result<(), DepError> },
}

/// The controller's state.
pub struct Controller {
    pub policy: UpdatePolicy,
    pub step: StartupStep,
    pub status: Status,
}

/// Startup moves on to `step` with the action `a`, still pending.
pub open spec fn proceeds(
    d: Controller,
    a: StartupAction,
    step: StartupStep,
    action: StartupAction,
) -> bool {
    d.step == step && a == action && d.status is Pending
}

/// Startup is over: both binaries are present.
pub open spec fn becomes_ready(d: Controller, a: StartupAction) -> bool {
    d.step == StartupStep::Complete && d.status is Ready && a == StartupAction::Done
}

/// Startup fails with the message of `err`, for good.
pub open spec fn aborts(d: Controller, a: StartupAction, err: DepError) -> bool {
    d.step == StartupStep::Aborted && (d.status matches Status::Failed(m) && m@ == err.spec_message())
        && a == StartupAction::Done
}

/// After the extractor is in place, the transcoder is checked.
pub open spec fn check_transcoder(d: Controller, a: StartupAction) -> bool {
    proceeds(
        d,
        a,
        StartupStep::CheckTranscoder,
        StartupAction::CheckExists { binary: Binary::Transcoder },
    )
}

/// One step of startup: in state `c`, the outcome `e` leads to state `d` and
/// the next action `a`.
pub open spec fn startup_next(c: Controller, e: StartupEvent, d: Controller, a: StartupAction) -> bool {
    &&& d.policy == c.policy
    &&& match (c.step, e) {
        (StartupStep::CheckExtractor, StartupEvent::Exists { outcome }) => match outcome {
            Ok(true) => if c.policy == UpdatePolicy::Skip {
                check_transcoder(d, a)
            } else {
                proceeds(d, a, StartupStep::UpdateExtractor, StartupAction::Update)
            },
            Ok(false) => proceeds(
                d,
                a,
                StartupStep::FetchExtractor,
                StartupAction::Fetch { binary: Binary::Extractor },
            ),
            Err(err) => aborts(d, a, err),
        },
        (StartupStep::FetchExtractor, StartupEvent::Fetched { outcome }) => match outcome {
            Ok(_) => check_transcoder(d, a),
            Err(err) => aborts(d, a, err),
        },
        (StartupStep::UpdateExtractor, StartupEvent::Updated { outcome }) => match outcome {
            Ok(_) => check_transcoder(d, a),
            Err(err) => if c.policy == UpdatePolicy::Require {
                aborts(d, a, err)
            } else {
                check_transcoder(d, a)
            },
        },
        (StartupStep::CheckTranscoder, StartupEvent::Exists { outcome }) => match outcome {
            Ok(true) => becomes_ready(d, a),
            Ok(false) => proceeds(
                d,
                a,
                StartupStep::FetchTranscoder,
                StartupAction::Fetch { binary: Binary::Transcoder },
            ),
            Err(err) => aborts(d, a, err),
        },
        (StartupStep::FetchTranscoder, StartupEvent::Fetched { outcome }) => match outcome {
            Ok(_) => becomes_ready(d, a),
            Err(err) => aborts(d, a, err),
        },
        _ => false,
    }
}

/// Whether startup waits for an outcome of the kind of `e`.
pub open spec fn startup_accepts(step: StartupStep, e: StartupEvent) -> bool {
    match step {
        StartupStep::CheckExtractor => e is Exists,
        StartupStep::FetchExtractor => e is Fetched,
        StartupStep::UpdateExtractor => e is Updated,
        StartupStep::CheckTranscoder => e is Exists,
        StartupStep::FetchTranscoder => e is Fetched,
        StartupStep::Complete => false,
        StartupStep::Aborted => false,
    }
}

/// A controller that has not yet checked anything.
pub open spec fn is_initial(c: Controller, policy: UpdatePolicy) -> bool {
    c.policy == policy && c.step == StartupStep::CheckExtractor && c.status is Pending
}

/// Whether a download may be requested: startup is complete and no download
/// is in flight.
pub open spec fn download_allowed(c: Controller) -> bool {
    c.step == StartupStep::Complete && !(c.status is Running)
}

/// `e` reports that the binary checked is installed.
pub open spec fn found(e: StartupEvent) -> bool {
    e matches StartupEvent::Exists { outcome: Ok(b) } && b
}

/// `e` reports that the binary checked is missing.
pub open spec fn missing(e: StartupEvent) -> bool {
    e matches StartupEvent::Exists { outcome: Ok(b) } && !b
}

/// Without updates, when both binaries are present startup checks the two and
/// is ready: it never fetches or updates anything, so it makes no network
/// call.
pub proof fn lemma_startup_both_present(
    c0: Controller,
    e1: StartupEvent,
    c1: Controller,
    a1: StartupAction,
    e2: StartupEvent,
    c2: Controller,
    a2: StartupAction,
)
    requires
        is_initial(c0, UpdatePolicy::Skip),
        found(e1),
        startup_next(c0, e1, c1, a1),
        found(e2),
        startup_next(c1, e2, c2, a2),
    ensures
        a1 == (StartupAction::CheckExists { binary: Binary::Transcoder }),
        a2 == StartupAction::Done,
        c2.status is Ready,
        download_allowed(c2),
{
}

/// A missing extractor is fetched before anything else; if the fetch fails,
/// startup fails for good, and if it succeeds startup goes on to the
/// transcoder, which, when present, makes it ready.
pub proof fn lemma_startup_fetches_missing_extractor(
    policy: UpdatePolicy,
    c0: Controller,
    e1: StartupEvent,
    c1: Controller,
    a1: StartupAction,
    e2: StartupEvent,
    c2: Controller,
    a2: StartupAction,
    e3: StartupEvent,
    c3: Controller,
    a3: StartupAction,
)
    requires
        is_initial(c0, policy),
        missing(e1),
        startup_next(c0, e1, c1, a1),
        startup_next(c1, e2, c2, a2),
    ensures
        a1 == (StartupAction::Fetch { binary: Binary::Extractor }),
        e2 matches StartupEvent::Fetched { outcome: Err(err) } ==> aborts(c2, a2, err)
            && !startup_accepts(c2.step, e3) && !download_allowed(c2),
        e2 matches StartupEvent::Fetched { outcome: Ok(_) } ==> check_transcoder(c2, a2),
        e2 matches StartupEvent::Fetched { outcome: Ok(_) } && found(e3) && startup_next(
            c2,
            e3,
            c3,
            a3,
        ) ==> becomes_ready(c3, a3),
{
}

/// A missing transcoder is fetched, whatever the update policy; startup is
/// ready only if the fetch succeeds, and fails for good otherwise: it takes no
/// further outcome and admits no download.
pub proof fn lemma_startup_fetches_missing_transcoder(
    c: Controller,
    e1: StartupEvent,
    c1: Controller,
    a1: StartupAction,
    e2: StartupEvent,
    c2: Controller,
    a2: StartupAction,
)
    requires
        c.step == StartupStep::CheckTranscoder,
        missing(e1),
        startup_next(c, e1, c1, a1),
        startup_next(c1, e2, c2, a2),
    ensures
        a1 == (StartupAction::Fetch { binary: Binary::Transcoder }),
        e2 matches StartupEvent::Fetched { outcome: Ok(_) } ==> becomes_ready(c2, a2),
        e2 matches StartupEvent::Fetched { outcome: Err(err) } ==> aborts(c2, a2, err)
            && !download_allowed(c2) && forall|e3: StartupEvent| !startup_accepts(c2.step, e3),
{
}

/// Startup becomes ready only once the transcoder is found or fetched, and a
/// failed startup takes no further outcome.
pub proof fn lemma_ready_only_after_transcoder(
    c: Controller,
    e: StartupEvent,
    d: Controller,
    a: StartupAction,
)
    requires
        startup_next(c, e, d, a),
    ensures
        d.status is Ready ==> (c.step == StartupStep::CheckTranscoder && found(e)) || (c.step
            == StartupStep::FetchTranscoder && e matches StartupEvent::Fetched { outcome: Ok(_) }),
        d.step == StartupStep::Aborted ==> forall|e2: StartupEvent| !startup_accepts(d.step, e2),
{
}

/// The status after a download that ended with `result`, its file placed in
/// the folder named `folder` (`None` when the path names none).
pub open spec fn finished_as(
    status: Status,
    result: Result<FilePath, DownloadError>,
    folder: Option<Seq<char>>,
) -> bool {
    match result {
        Ok(_) => status matches Status::Succeeded(m) && m@ == "Saved to "@ + (match folder {
            Some(c) => c,
            None => "folder"@,
        }),
        Err(e) => status matches Status::Failed(m) && m@ == e.spec_message(),
    }
}

/// Relies on `std::path::Path::components`: the last component of the path,
/// as text; an empty path has none.
#[verifier::external_body]
fn last_component(path: &str) -> (r: Option<String>)
    ensures
        path@.len() == 0 ==> r is None,
{
    std::path::Path::new(path).components().last().map(|c| c.as_os_str().to_string_lossy().into_owned())
}

impl Controller {
    /// A controller in startup, and its first action: checking the extractor.
    pub fn new(policy: UpdatePolicy) -> (r: (Controller, StartupAction))
        ensures
            is_initial(r.0, policy),
            r.1 == (StartupAction::CheckExists { binary: Binary::Extractor }),
    {
        (
            Controller { policy, step: StartupStep::CheckExtractor, status: Status::Pending },
            StartupAction::CheckExists { binary: Binary::Extractor },
        )
    }

    /// Whether startup waits for an outcome of the kind of `e`.
    pub fn accepts(&self, e: &StartupEvent) -> (r: bool)
        ensures
            r == startup_accepts(self.step, *e),
    {
        match (self.step, e) {
            (StartupStep::CheckExtractor, StartupEvent::Exists { .. }) => true,
            (StartupStep::FetchExtractor, StartupEvent::Fetched { .. }) => true,
            (StartupStep::UpdateExtractor, StartupEvent::Updated { .. }) => true,
            (StartupStep::CheckTranscoder, StartupEvent::Exists { .. }) => true,
            (StartupStep::FetchTranscoder, StartupEvent::Fetched { .. }) => true,
            _ => false,
        }
    }

    fn abort(&mut self, err: DepError) -> (a: StartupAction)
        ensures
            final(self).policy == old(self).policy,
            aborts(*final(self), a, err),
    {
        self.step = StartupStep::Aborted;
        self.status = Status::Failed(err.message());
        StartupAction::Done
    }

    fn go(&mut self, step: StartupStep, action: StartupAction) -> (a: StartupAction)
        requires
            old(self).status is Pending,
        ensures
            final(self).policy == old(self).policy,
            proceeds(*final(self), a, step, action),
    {
        self.step = step;
        action
    }

    fn ready(&mut self) -> (a: StartupAction)
        ensures
            final(self).policy == old(self).policy,
            becomes_ready(*final(self), a),
    {
        self.step = StartupStep::Complete;
        self.status = Status::Ready;
        StartupAction::Done
    }

    /// Feeds the outcome of the last startup action and returns the next one.
    pub fn startup_step(&mut self, e: StartupEvent) -> (a: StartupAction)
        requires
            startup_accepts(old(self).step, e),
            old(self).status is Pending,
        ensures
            startup_next(*old(self), e, *final(self), a),
    {
        let check_transcoder = StartupAction::CheckExists { binary: Binary::Transcoder };
        match (self.step, e) {
            (StartupStep::CheckExtractor, StartupEvent::Exists { outcome }) => match outcome {
                Ok(true) => if self.policy == UpdatePolicy::Skip {
                    self.go(StartupStep::CheckTranscoder, check_transcoder)
                } else {
                    self.go(StartupStep::UpdateExtractor, StartupAction::Update)
                },
                Ok(false) => self.go(
                    StartupStep::FetchExtractor,
                    StartupAction::Fetch { binary: Binary::Extractor },
                ),
                Err(err) => self.abort(err),
            },
            (StartupStep::FetchExtractor, StartupEvent::Fetched { outcome }) => match outcome {
                Ok(_) => self.go(StartupStep::CheckTranscoder, check_transcoder),
                Err(err) => self.abort(err),
            },
            (StartupStep::UpdateExtractor, StartupEvent::Updated { outcome }) => match outcome {
                Ok(_) => self.go(StartupStep::CheckTranscoder, check_transcoder),
                Err(err) => if self.policy == UpdatePolicy::Require {
                    self.abort(err)
                } else {
                    self.go(StartupStep::CheckTranscoder, check_transcoder)
                },
            },
            (StartupStep::CheckTranscoder, StartupEvent::Exists { outcome }) => match outcome {
                Ok(true) => self.ready(),
                Ok(false) => self.go(
                    StartupStep::FetchTranscoder,
                    StartupAction::Fetch { binary: Binary::Transcoder },
                ),
                Err(err) => self.abort(err),
            },
            (StartupStep::FetchTranscoder, StartupEvent::Fetched { outcome }) => match outcome {
                Ok(_) => self.ready(),
                Err(err) => self.abort(err),
            },
            // Ruled out by the precondition.
            (_, _) => StartupAction::Done,
        }
    }

    /// Whether a download may be requested now.
    pub fn can_download(&self) -> (r: bool)
        ensures
            r == download_allowed(*self),
    {
        match (self.step, &self.status) {
            (StartupStep::Complete, Status::Running) => false,
            (StartupStep::Complete, _) => true,
            _ => false,
        }
    }

    /// Requests a download of the video linked by `video_url`. Refused, with
    /// nothing changed, unless a download is allowed; otherwise the status
    /// becomes `Running` and the request starts, or the status tells why the
    /// link or the missing output directory stops it.
    pub fn begin_download(
        &mut self,
        video_url: &str,
        content_type: ContentType,
        output_directory: &Option<String>,
    ) -> (r: Option<(Pipeline, Action)>)
        ensures
            final(self).policy == old(self).policy,
            final(self).step == old(self).step,
            !download_allowed(*old(self)) ==> r is None && final(self).status == old(self).status,
            download_allowed(*old(self)) ==> match video_link_id(video_url@) {
                None => r is None && (final(self).status matches Status::Failed(m) && m@
                    == "unknown video URL format"@),
                Some(id) => match output_directory {
                    None => r is None && (final(self).status matches Status::Failed(m) && m@
                        == "no output directory specified"@),
                    Some(dir) => final(self).status is Running && (r matches Some(x) && starts(
                        id,
                        content_type,
                        dir@,
                        x.0,
                        x.1,
                    )),
                },
            },
    {
        if !self.can_download() {
            return None;
        }
        match parse_video_url(video_url) {
            None => {
                self.status = Status::Failed(String::from_str("unknown video URL format"));
                None
            },
            Some(id) => match output_directory {
                None => {
                    self.status = Status::Failed(String::from_str("no output directory specified"));
                    None
                },
                Some(dir) => {
                    self.status = Status::Running;
                    Some(download(id.as_str(), content_type, dir.as_str()))
                },
            },
        }
    }

    /// Records the outcome of the download in flight, whose file went to the
    /// folder named `folder`: `Saved to <folder>` (or `Saved to folder` when
    /// it has no name), or the error's message.
    pub fn record_download(
        &mut self,
        result: &Result<FilePath, DownloadError>,
        folder: Option<String>,
    )
        requires
            old(self).status is Running,
        ensures
            final(self).policy == old(self).policy,
            final(self).step == old(self).step,
            finished_as(final(self).status, *result, opt_chars(folder)),
    {
        match result {
            Ok(_) => {
                let name = match folder {
                    Some(c) => c,
                    None => String::from_str("folder"),
                };
                self.status = Status::Succeeded(concat("Saved to ", name.as_str()));
            },
            Err(e) => {
                self.status = Status::Failed(e.message());
            },
        }
    }

    /// Records the outcome of the download in flight: the message names the
    /// last component of the directory the file went to.
    pub fn finish_download(&mut self, result: &Result<FilePath, DownloadError>)
        requires
            old(self).status is Running,
        ensures
            final(self).policy == old(self).policy,
            final(self).step == old(self).step,
            exists|folder: Option<Seq<char>>| finished_as(final(self).status, *result, folder),
            result matches Ok(f) && f.directory@.len() == 0 ==> finished_as(
                final(self).status,
                *result,
                None,
            ),
    {
        let folder = match result {
            Ok(f) => last_component(f.directory.as_str()),
            Err(_) => None,
        };
        self.record_download(result, folder);
    }
}

} // verus!
