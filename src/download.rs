//! The download pipeline. A request for a thumbnail, an audio file or a video
//! is a small state machine: each step names the next outside action (run a
//! binary, fetch bytes, write a file, make or remove a temporary directory)
//! and is fed the outcome of the previous one.

use crate::parse_url::is_valid_video_id;
use crate::text::{
    concat, filename_video_title, lossy_utf8, output_line, read_output_line, replace_extension,
    sanitized, utf8_lossy, with_extension,
};
use crate::types::ContentType;
use vstd::prelude::*;

verus! {

/// A file named by its directory and its name within that directory.
pub struct FilePath {
    pub directory: String,
    pub name: String,
}

/// One of the two external binaries.
#[derive(Debug, Clone, Copy, PartialEq, Eq, Structural)]
pub enum Binary {
    /// The video-extraction binary (youtube-dl).
    Extractor,
    /// The media-transcoding binary (ffmpeg).
    Transcoder,
}

/// One command-line argument of an external binary.
pub enum Arg {
    /// A plain argument.
    Text(String),
    /// A file path, to be joined from its directory and name.
    File(FilePath),
}

/// The captured result of a process that was launched.
pub struct ProcessResult {
    /// Whether the process exited successfully.
    pub success: bool,
    /// Its standard output.
    pub stdout: Vec<u8>,
    /// Its standard error.
    pub stderr: Vec<u8>,
}

/// An error occurring during a download operation.
pub struct DownloadError {
    /// A description of the error.
    description: String,
    /// The output of the failed step, typically the standard error of the
    /// binary that was run.
    output: String,
}

impl DownloadError {
    /// The description, as characters.
    pub closed spec fn spec_description(&self) -> Seq<char> {
        self.description@
    }

    /// The output, as characters.
    pub closed spec fn spec_output(&self) -> Seq<char> {
        self.output@
    }

    /// The error whose description is `description` and output is `output`.
    pub open spec fn is(&self, description: Seq<char>, output: Seq<char>) -> bool {
        self.spec_description() == description && self.spec_output() == output
    }

    /// The text shown for the error: `description: output`.
    pub open spec fn spec_message(&self) -> Seq<char> {
        self.spec_description() + ": "@ + self.spec_output()
    }

    fn new(description: &str, output: String) -> (r: DownloadError)
        ensures
            r.is(description@, output@),
    {
        DownloadError { description: String::from_str(description), output }
    }

    /// A description of the error.
    pub fn description(&self) -> (r: &String)
        ensures
            r@ == self.spec_description(),
    {
        &self.description
    }

    /// The output of the step that failed.
    pub fn output(&self) -> (r: &String)
        ensures
            r@ == self.spec_output(),
    {
        &self.output
    }

    /// The text shown for the error: `description: output`.
    pub fn message(&self) -> (r: String)
        ensures
            r@ == self.spec_message(),
    {
        let head = concat(self.description.as_str(), ": ");
        concat(head.as_str(), self.output.as_str())
    }
}

/// The next outside action of a download request.
pub enum Action {
    /// Run a binary, from the directory of the running executable, with these
    /// arguments, and report what it came to.
    Run { binary: Binary, args: Vec<Arg> },
    /// Fetch the bytes at a URL.
    FetchBytes { url: String },
    /// Write bytes to a file.
    WriteFile { file: FilePath, bytes: Vec<u8> },
    /// Create a fresh temporary directory.
    CreateTempDir,
    /// Remove a temporary directory and everything in it.
    RemoveDir { directory: String },
    /// The request is over, with the file produced or the error.
    Finish { result: Result<FilePath, DownloadError> },
}

/// The outcome of an outside action, handed back to the pipeline.
pub enum Event {
    /// The outcome of `Run`: the captured result, or why the binary could not
    /// be launched.
    Ran { outcome: Result<ProcessResult, String> },
    /// The outcome of `FetchBytes`.
    Fetched { outcome: Result<Vec<u8>, String> },
    /// The outcome of `WriteFile`.
    Wrote { outcome: Result<(), String> },
    /// The outcome of `CreateTempDir`: the directory's path.
    TempDirCreated { outcome: Result<String, String> },
    /// `RemoveDir` was performed (its failure is not reported).
    DirRemoved,
}

/// Where a download request stands.
pub enum Phase {
    /// Waiting for the temporary directory of an audio request.
    AwaitTempDir,
    /// Waiting for the title; the video, if any, goes to `directory`.
    AwaitTitle { directory: String },
    /// Waiting for the thumbnail URL.
    AwaitThumbnailUrl { stem: String },
    /// Waiting for the thumbnail bytes.
    AwaitThumbnailBytes { stem: String },
    /// Waiting for the converted thumbnail to be written.
    AwaitImageWritten { stem: String },
    /// Waiting for the video download into `video`.
    AwaitVideo { video: FilePath },
    /// Waiting for the conversion of the video in `temp_dir` into `audio`.
    AwaitTranscode { temp_dir: String, audio: FilePath },
    /// Waiting for the temporary directory to be removed.
    AwaitCleanup { result: Result<FilePath, DownloadError> },
    /// The request is over.
    Done,
}

/// A download request in progress.
pub struct Pipeline {
    pub video_id: String,
    pub content_type: ContentType,
    pub output_directory: String,
    pub phase: Phase,
}

/// Why thumbnail bytes could not be turned into PNG bytes.
enum ImageFailure {
    /// The bytes are no image the decoder knows.
    Decode(String),
    /// The decoded image could not be encoded as PNG.
    Encode(String),
}

/// Whether the image decoder recognises and decodes `b`.
pub uninterp spec fn image_decodes(b: Seq<u8>) -> bool;

/// The PNG encoding of the image decoded from `b`, when the encoder succeeds.
pub uninterp spec fn png_encoding(b: Seq<u8>) -> Option<Seq<u8>>;

/// Relies on `image::load_from_memory`, which guesses the format from the
/// bytes and decodes them, then on `DynamicImage::write_to` with
/// `ImageFormat::Png`; both results depend on the bytes alone.
#[verifier::external_body]
fn reencode_png(bytes: &Vec<u8>) -> (r: Result<Vec<u8>, ImageFailure>)
    ensures
        r matches Err(ImageFailure::Decode(_)) <==> !image_decodes(bytes@),
        r matches Err(ImageFailure::Encode(_)) ==> png_encoding(bytes@) is None,
        r matches Ok(png) ==> png_encoding(bytes@) == Some(png@),
{
    let img = image::load_from_memory(bytes).map_err(|e| ImageFailure::Decode(e.to_string()))?;
    let mut out = std::io::Cursor::new(Vec::new());
    img.write_to(&mut out, image::ImageFormat::Png).map_err(|e| ImageFailure::Encode(e.to_string()))?;
    Ok(out.into_inner())
}

/// The file name of the downloaded video.
pub open spec fn video_name(stem: Seq<char>) -> Seq<char> {
    stem + ".mp4"@
}

/// The file name of the saved thumbnail.
pub open spec fn image_name(stem: Seq<char>) -> Seq<char> {
    stem + ".png"@
}

/// The file name of the audio extracted from the video file `video`.
pub open spec fn audio_name(video: Seq<char>) -> Seq<char> {
    with_extension(video, "mp3"@)
}

/// `a` is the plain argument `t`.
pub open spec fn is_text(a: Arg, t: Seq<char>) -> bool {
    a matches Arg::Text(s) && s@ == t
}

/// `a` is the file `name` in `directory`.
pub open spec fn is_file_arg(a: Arg, directory: Seq<char>, name: Seq<char>) -> bool {
    a matches Arg::File(f) && f.directory@ == directory && f.name@ == name
}

/// `f` is the file `name` in `directory`.
pub open spec fn is_path(f: FilePath, directory: Seq<char>, name: Seq<char>) -> bool {
    f.directory@ == directory && f.name@ == name
}

/// `a` runs the extractor with `--get-title <id>`.
pub open spec fn is_title_query(a: Action, id: Seq<char>) -> bool {
    a matches Action::Run { binary, args } && binary == Binary::Extractor && args@.len() == 2
        && is_text(args@[0], "--get-title"@) && is_text(args@[1], id)
}

/// `a` runs the extractor with `--get-thumbnail <id>`.
pub open spec fn is_thumbnail_query(a: Action, id: Seq<char>) -> bool {
    a matches Action::Run { binary, args } && binary == Binary::Extractor && args@.len() == 2
        && is_text(args@[0], "--get-thumbnail"@) && is_text(args@[1], id)
}

/// `a` runs the extractor with `--format mp4 --output <directory/name> <id>`.
pub open spec fn is_video_download(
    a: Action,
    id: Seq<char>,
    directory: Seq<char>,
    name: Seq<char>,
) -> bool {
    a matches Action::Run { binary, args } && binary == Binary::Extractor && args@.len() == 5
        && is_text(args@[0], "--format"@) && is_text(args@[1], "mp4"@) && is_text(
        args@[2],
        "--output"@,
    ) && is_file_arg(args@[3], directory, name) && is_text(args@[4], id)
}

/// `a` runs the transcoder with `-i <input> <output>`.
pub open spec fn is_transcode(
    a: Action,
    in_directory: Seq<char>,
    in_name: Seq<char>,
    out_directory: Seq<char>,
    out_name: Seq<char>,
) -> bool {
    a matches Action::Run { binary, args } && binary == Binary::Transcoder && args@.len() == 3
        && is_text(args@[0], "-i"@) && is_file_arg(args@[1], in_directory, in_name)
        && is_file_arg(args@[2], out_directory, out_name)
}

/// The error, as description and output, that a process outcome means for a
/// step described by `description`; `None` when the process succeeded.
pub open spec fn process_error(o: Result<ProcessResult, String>, description: Seq<char>) -> Option<
    (Seq<char>, Seq<char>),
> {
    match o {
        Err(m) => Some(("failed to launch external binary"@, m@)),
        Ok(r) => if r.success {
            None
        } else {
            Some((description, lossy_utf8(r.stderr@)))
        },
    }
}

/// The temporary directory that an audio request holds in phase `p`.
pub open spec fn temp_dir_of(p: Pipeline) -> Option<Seq<char>> {
    if p.content_type == ContentType::Audio {
        match p.phase {
            Phase::AwaitTitle { directory } => Some(directory@),
            Phase::AwaitVideo { video } => Some(video.directory@),
            Phase::AwaitTranscode { temp_dir, .. } => Some(temp_dir@),
            _ => None,
        }
    } else {
        None
    }
}

/// The request fails with this description and output: it ends at once, or
/// first removes the temporary directory that it holds.
pub open spec fn fails_with(
    p: Pipeline,
    q: Pipeline,
    a: Action,
    description: Seq<char>,
    output: Seq<char>,
) -> bool {
    match temp_dir_of(p) {
        Some(t) => q.phase matches Phase::AwaitCleanup { result: Err(e) } && e.is(
            description,
            output,
        ) && (a matches Action::RemoveDir { directory } && directory@ == t),
        None => q.phase is Done && (a matches Action::Finish { result: Err(e) } && e.is(
            description,
            output,
        )),
    }
}

/// The request fails with `err` when it is `Some`, else `ok` holds.
pub open spec fn fails_or(
    p: Pipeline,
    q: Pipeline,
    a: Action,
    err: Option<(Seq<char>, Seq<char>)>,
    ok: bool,
) -> bool {
    match err {
        Some(e) => fails_with(p, q, a, e.0, e.1),
        None => ok,
    }
}

/// Whether `e` is the kind of outcome that phase `p` waits for.
pub open spec fn accepts(p: Phase, e: Event) -> bool {
    match p {
        Phase::AwaitTempDir => e is TempDirCreated,
        Phase::AwaitTitle { .. } => e is Ran,
        Phase::AwaitThumbnailUrl { .. } => e is Ran,
        Phase::AwaitThumbnailBytes { .. } => e is Fetched,
        Phase::AwaitImageWritten { .. } => e is Wrote,
        Phase::AwaitVideo { .. } => e is Ran,
        Phase::AwaitTranscode { .. } => e is Ran,
        Phase::AwaitCleanup { .. } => e is DirRemoved,
        Phase::Done => false,
    }
}

/// What becomes of a title lookup's outcome `o` in phase `p`, waiting for the
/// title with the video bound for `directory`.
pub open spec fn on_title(
    p: Pipeline,
    directory: Seq<char>,
    o: Result<ProcessResult, String>,
    q: Pipeline,
    a: Action,
) -> bool {
    let d = "failed to fetch video title"@;
    fails_or(
        p,
        q,
        a,
        process_error(o, d),
        match output_line(o->Ok_0.stdout@) {
            None => fails_with(p, q, a, d, "output is not valid UTF-8"@),
            Some(title) => {
                let stem = sanitized(title);
                if p.content_type == ContentType::Thumbnail {
                    q.phase matches Phase::AwaitThumbnailUrl { stem: s } && s@ == stem
                        && is_thumbnail_query(a, p.video_id@)
                } else {
                    q.phase matches Phase::AwaitVideo { video } && is_path(
                        video,
                        directory,
                        video_name(stem),
                    ) && is_video_download(a, p.video_id@, directory, video_name(stem))
                }
            },
        },
    )
}

/// One step of a download request: in state `p`, the outcome `e` leads to
/// state `q` and the next action `a`.
pub open spec fn next(p: Pipeline, e: Event, q: Pipeline, a: Action) -> bool {
    &&& q.video_id == p.video_id
    &&& q.content_type == p.content_type
    &&& q.output_directory == p.output_directory
    &&& match (p.phase, e) {
        (Phase::AwaitTempDir, Event::TempDirCreated { outcome }) => match outcome {
            Ok(t) => q.phase matches Phase::AwaitTitle { directory } && directory@ == t@
                && is_title_query(a, p.video_id@),
            Err(m) => fails_with(p, q, a, "failed to create temporary directory"@, m@),
        },
        (Phase::AwaitTitle { directory }, Event::Ran { outcome }) => on_title(
            p,
            directory@,
            outcome,
            q,
            a,
        ),
        (Phase::AwaitThumbnailUrl { stem }, Event::Ran { outcome }) => {
            let d = "failed to fetch video thumbnail URL"@;
            fails_or(
                p,
                q,
                a,
                process_error(outcome, d),
                match output_line(outcome->Ok_0.stdout@) {
                    None => fails_with(p, q, a, d, "output is not valid UTF-8"@),
                    Some(url) => q.phase matches Phase::AwaitThumbnailBytes { stem: s } && s@
                        == stem@ && (a matches Action::FetchBytes { url: u } && u@ == url),
                },
            )
        },
        (Phase::AwaitThumbnailBytes { stem }, Event::Fetched { outcome }) => match outcome {
            Err(m) => fails_with(p, q, a, "failed to download video thumbnail"@, m@),
            Ok(bytes) => if !image_decodes(bytes@) {
                q.phase is Done && (a matches Action::Finish { result: Err(e) }
                    && e.spec_description() == "failed to decode video thumbnail"@)
            } else {
                match png_encoding(bytes@) {
                    None => q.phase is Done && (a matches Action::Finish { result: Err(e) }
                        && e.spec_description() == "failed to encode video thumbnail"@),
                    Some(png) => q.phase matches Phase::AwaitImageWritten { stem: s } && s@
                        == stem@ && (a matches Action::WriteFile { file, bytes: w } && is_path(
                        file,
                        p.output_directory@,
                        image_name(stem@),
                    ) && w@ == png),
                }
            },
        },
        (Phase::AwaitImageWritten { stem }, Event::Wrote { outcome }) => match outcome {
            Err(m) => fails_with(p, q, a, "failed to save video thumbnail"@, m@),
            Ok(_) => q.phase is Done && (a matches Action::Finish { result: Ok(f) } && is_path(
                f,
                p.output_directory@,
                image_name(stem@),
            )),
        },
        (Phase::AwaitVideo { video }, Event::Ran { outcome }) => fails_or(
            p,
            q,
            a,
            process_error(outcome, "failed to perform video download"@),
            if p.content_type == ContentType::Audio {
                q.phase matches Phase::AwaitTranscode { temp_dir, audio } && temp_dir
                    == video.directory && is_path(
                    audio,
                    p.output_directory@,
                    audio_name(video.name@),
                ) && is_transcode(
                    a,
                    video.directory@,
                    video.name@,
                    p.output_directory@,
                    audio_name(video.name@),
                )
            } else {
                q.phase is Done && a == Action::Finish { result: Ok(video) }
            },
        ),
        (Phase::AwaitTranscode { temp_dir, audio }, Event::Ran { outcome }) => fails_or(
            p,
            q,
            a,
            process_error(outcome, "failed to convert video to audio file"@),
            q.phase == (Phase::AwaitCleanup { result: Ok(audio) }) && (
            a matches Action::RemoveDir { directory } && directory == temp_dir),
        ),
        (Phase::AwaitCleanup { result }, Event::DirRemoved) => q.phase is Done && a
            == Action::Finish { result },
        _ => false,
    }
}

/// The state and first action of a new request.
pub open spec fn starts(
    id: Seq<char>,
    content_type: ContentType,
    output_directory: Seq<char>,
    p: Pipeline,
    a: Action,
) -> bool {
    &&& p.video_id@ == id
    &&& p.content_type == content_type
    &&& p.output_directory@ == output_directory
    &&& if content_type == ContentType::Audio {
        p.phase is AwaitTempDir && a is CreateTempDir
    } else {
        p.phase matches Phase::AwaitTitle { directory } && directory@ == output_directory
            && is_title_query(a, id)
    }
}

/// `e` reports a binary that ran and exited successfully.
pub open spec fn ran_ok(e: Event) -> bool {
    e matches Event::Ran { outcome: Ok(r) } && r.success
}

/// `e` reports a binary that could not be launched or exited unsuccessfully.
pub open spec fn ran_failed(e: Event) -> bool {
    e matches Event::Ran { outcome } && (outcome is Err || !outcome->Ok_0.success)
}

/// The request has failed: it is over with an error, or it removes its
/// temporary directory before reporting one.
pub open spec fn ends_failed(q: Pipeline, a: Action) -> bool {
    (q.phase is Done && a matches Action::Finish { result: Err(_) }) || (
    q.phase matches Phase::AwaitCleanup { result: Err(_) } && a is RemoveDir)
}

/// An audio request whose steps all succeed makes the temporary directory,
/// looks up the title, downloads the video into the temporary directory,
/// converts that file into the output directory, removes the temporary
/// directory and reports the audio file, in this order; the audio file's name
/// carries the `mp3` extension.
pub proof fn lemma_audio_request_order(
    id: Seq<char>,
    out: Seq<char>,
    p0: Pipeline,
    a0: Action,
    e1: Event,
    p1: Pipeline,
    a1: Action,
    e2: Event,
    p2: Pipeline,
    a2: Action,
    e3: Event,
    p3: Pipeline,
    a3: Action,
    e4: Event,
    p4: Pipeline,
    a4: Action,
    e5: Event,
    p5: Pipeline,
    a5: Action,
)
    requires
        starts(id, ContentType::Audio, out, p0, a0),
        e1 matches Event::TempDirCreated { outcome: Ok(_) },
        next(p0, e1, p1, a1),
        ran_ok(e2),
        output_line(e2->Ran_outcome->Ok_0.stdout@) is Some,
        next(p1, e2, p2, a2),
        ran_ok(e3),
        next(p2, e3, p3, a3),
        ran_ok(e4),
        next(p3, e4, p4, a4),
        next(p4, e5, p5, a5),
    ensures
        ({
            let t = e1->TempDirCreated_outcome->Ok_0@;
            let stem = sanitized(output_line(e2->Ran_outcome->Ok_0.stdout@)->0);
            let audio = audio_name(video_name(stem));
            &&& a0 is CreateTempDir
            &&& is_title_query(a1, id)
            &&& is_video_download(a2, id, t, video_name(stem))
            &&& is_transcode(a3, t, video_name(stem), out, audio)
            &&& a4 matches Action::RemoveDir { directory } && directory@ == t
            &&& a5 matches Action::Finish { result: Ok(f) } && is_path(f, out, audio)
            &&& p5.phase is Done
            &&& audio.subrange(audio.len() - 4, audio.len() as int) == seq!['.'] + "mp3"@
        }),
{
    crate::text::lemma_with_extension_ends_with(
        video_name(sanitized(output_line(e2->Ran_outcome->Ok_0.stdout@)->0)),
        "mp3"@,
    );
    reveal_strlit("mp3");
}

/// In every request the transcoder runs only in answer to a successful video
/// download of an audio request: its input is that video file, and its output,
/// in the output directory, carries the `mp3` extension whatever the video's
/// extension was.
pub proof fn lemma_transcode_follows_video(p: Pipeline, e: Event, q: Pipeline, a: Action)
    requires
        next(p, e, q, a),
        a matches Action::Run { binary, .. } && binary == Binary::Transcoder,
    ensures
        p.content_type == ContentType::Audio,
        ran_ok(e),
        p.phase matches Phase::AwaitVideo { video } && is_transcode(
            a,
            video.directory@,
            video.name@,
            p.output_directory@,
            audio_name(video.name@),
        ),
        ({
            let audio = audio_name(p.phase->video.name@);
            audio.subrange(audio.len() - 4, audio.len() as int) == seq!['.'] + "mp3"@
        }),
{
    crate::text::lemma_with_extension_ends_with(p.phase->video.name@, "mp3"@);
    reveal_strlit("mp3");
}

/// A binary that fails to launch or exits unsuccessfully fails the request at
/// once: the next action runs nothing, fetches nothing and writes nothing.
pub proof fn lemma_failed_run_ends_request(p: Pipeline, e: Event, q: Pipeline, a: Action)
    requires
        next(p, e, q, a),
        ran_failed(e),
    ensures
        ends_failed(q, a),
        !(a is Run),
{
}

/// After a failure only the removal of the temporary directory is left, and
/// then the request reports that same failure.
pub proof fn lemma_cleanup_reports_failure(q: Pipeline, e: Event, r: Pipeline, a: Action)
    requires
        q.phase matches Phase::AwaitCleanup { result: Err(_) },
        next(q, e, r, a),
    ensures
        r.phase is Done,
        a == (Action::Finish { result: q.phase->result }),
{
}

/// A title lookup that exits unsuccessfully fails the request with the
/// description of that step and the binary's standard error.
pub proof fn lemma_title_failure_reported(p: Pipeline, e: Event, q: Pipeline, a: Action)
    requires
        p.phase is AwaitTitle,
        e matches Event::Ran { outcome: Ok(r) } && !r.success,
        next(p, e, q, a),
    ensures
        ends_failed(q, a),
        ({
            let err = if q.phase is Done {
                a->result->Err_0
            } else {
                q.phase->result->Err_0
            };
            err.is("failed to fetch video title"@, lossy_utf8(e->Ran_outcome->Ok_0.stderr@))
        }),
{
}

/// Every error that a request holds or reports has a non-empty description.
pub open spec fn failures_described(p: Pipeline) -> bool {
    p.phase matches Phase::AwaitCleanup { result: Err(e) } ==> e.spec_description().len() > 0
}

/// A download failure always carries a non-empty description: each step keeps
/// that true of the error it holds, and of the error it reports.
pub proof fn lemma_failures_described(p: Pipeline, e: Event, q: Pipeline, a: Action)
    requires
        failures_described(p),
        next(p, e, q, a),
    ensures
        failures_described(q),
        a matches Action::Finish { result: Err(err) } ==> err.spec_description().len() > 0,
{
    reveal_strlit("failed to launch external binary");
    reveal_strlit("failed to create temporary directory");
    reveal_strlit("failed to fetch video title");
    reveal_strlit("failed to fetch video thumbnail URL");
    reveal_strlit("failed to download video thumbnail");
    reveal_strlit("failed to decode video thumbnail");
    reveal_strlit("failed to encode video thumbnail");
    reveal_strlit("failed to save video thumbnail");
    reveal_strlit("failed to perform video download");
    reveal_strlit("failed to convert video to audio file");
}

fn text_arg(s: &str) -> (r: Arg)
    ensures
        is_text(r, s@),
{
    Arg::Text(String::from_str(s))
}

fn file_arg(directory: &String, name: &String) -> (r: Arg)
    ensures
        is_file_arg(r, directory@, name@),
{
    Arg::File(FilePath { directory: directory.clone(), name: name.clone() })
}

fn query(flag: &str, id: &String) -> (a: Action)
    ensures
        a matches Action::Run { binary, args } && binary == Binary::Extractor && args@.len()
            == 2 && is_text(args@[0], flag@) && is_text(args@[1], id@),
{
    let mut args: Vec<Arg> = Vec::new();
    args.push(text_arg(flag));
    args.push(Arg::Text(id.clone()));
    Action::Run { binary: Binary::Extractor, args }
}

fn video_download(id: &String, directory: &String, name: &String) -> (a: Action)
    ensures
        is_video_download(a, id@, directory@, name@),
{
    let mut args: Vec<Arg> = Vec::new();
    args.push(text_arg("--format"));
    args.push(text_arg("mp4"));
    args.push(text_arg("--output"));
    args.push(file_arg(directory, name));
    args.push(Arg::Text(id.clone()));
    Action::Run { binary: Binary::Extractor, args }
}

fn transcode(video: &FilePath, out_directory: &String, out_name: &String) -> (a: Action)
    ensures
        is_transcode(a, video.directory@, video.name@, out_directory@, out_name@),
{
    let mut args: Vec<Arg> = Vec::new();
    args.push(text_arg("-i"));
    args.push(file_arg(&video.directory, &video.name));
    args.push(file_arg(out_directory, out_name));
    Action::Run { binary: Binary::Transcoder, args }
}

/// The state and action that end a request with `err`: at once, or after the
/// temporary directory `temp` is removed.
fn failure(temp: Option<String>, err: DownloadError) -> (r: (Phase, Action))
    ensures
        match temp {
            Some(t) => r.0 matches Phase::AwaitCleanup { result: Err(e) } && e == err && (
            r.1 matches Action::RemoveDir { directory } && directory@ == t@),
            None => r.0 is Done && r.1 == (Action::Finish { result: Err(err) }),
        },
{
    match temp {
        Some(t) => (Phase::AwaitCleanup { result: Err(err) }, Action::RemoveDir { directory: t }),
        None => (Phase::Done, Action::Finish { result: Err(err) }),
    }
}

/// The error for a process outcome that is no success.
fn process_failure(outcome: &Result<ProcessResult, String>, description: &str) -> (r: Option<
    DownloadError,
>)
    ensures
        match process_error(*outcome, description@) {
            Some(x) => r matches Some(e) && e.is(x.0, x.1),
            None => r is None,
        },
{
    match outcome {
        Err(m) => Some(DownloadError::new("failed to launch external binary", m.clone())),
        Ok(r) => if r.success {
            None
        } else {
            Some(DownloadError::new(description, utf8_lossy(&r.stderr)))
        },
    }
}

/// Starts a download request for the video `video_id`: a thumbnail image, an
/// audio file or a video file in `output_directory`. Returns the request and
/// its first action.
pub fn download(video_id: &str, content_type: ContentType, output_directory: &str) -> (r: (
    Pipeline,
    Action,
))
    requires
        is_valid_video_id(video_id@),
    ensures
        starts(video_id@, content_type, output_directory@, r.0, r.1),
{
    let id = String::from_str(video_id);
    let out = String::from_str(output_directory);
    match content_type {
        ContentType::Audio => (
            Pipeline { video_id: id, content_type, output_directory: out, phase: Phase::AwaitTempDir },
            Action::CreateTempDir,
        ),
        _ => {
            let a = query("--get-title", &id);
            let directory = out.clone();
            (
                Pipeline {
                    video_id: id,
                    content_type,
                    output_directory: out,
                    phase: Phase::AwaitTitle { directory },
                },
                a,
            )
        },
    }
}

impl Pipeline {
    /// Whether `e` is the kind of outcome that the request waits for.
    pub fn accepts(&self, e: &Event) -> (r: bool)
        ensures
            r == accepts(self.phase, *e),
    {
        match (&self.phase, e) {
            (Phase::AwaitTempDir, Event::TempDirCreated { .. }) => true,
            (Phase::AwaitTitle { .. }, Event::Ran { .. }) => true,
            (Phase::AwaitThumbnailUrl { .. }, Event::Ran { .. }) => true,
            (Phase::AwaitThumbnailBytes { .. }, Event::Fetched { .. }) => true,
            (Phase::AwaitImageWritten { .. }, Event::Wrote { .. }) => true,
            (Phase::AwaitVideo { .. }, Event::Ran { .. }) => true,
            (Phase::AwaitTranscode { .. }, Event::Ran { .. }) => true,
            (Phase::AwaitCleanup { .. }, Event::DirRemoved) => true,
            _ => false,
        }
    }

    /// Whether the request is over.
    pub fn is_done(&self) -> (r: bool)
        ensures
            r == self.phase is Done,
    {
        match self.phase {
            Phase::Done => true,
            _ => false,
        }
    }

    /// Feeds the outcome of the last action to the request and returns the
    /// next action.
    pub fn step(&mut self, e: Event) -> (a: Action)
        requires
            accepts(old(self).phase, e),
        ensures
            next(*old(self), e, *final(self), a),
    {
        let mut phase = Phase::Done;
        std::mem::swap(&mut self.phase, &mut phase);
        let is_audio = self.content_type == ContentType::Audio;
        let (q, a) = match (phase, e) {
            (Phase::AwaitTempDir, Event::TempDirCreated { outcome }) => match outcome {
                Ok(t) => (Phase::AwaitTitle { directory: t }, query("--get-title", &self.video_id)),
                Err(m) => failure(
                    None,
                    DownloadError::new("failed to create temporary directory", m),
                ),
            },
            (Phase::AwaitTitle { directory }, Event::Ran { outcome }) => {
                let temp = if is_audio {
                    Some(directory.clone())
                } else {
                    None
                };
                match process_failure(&outcome, "failed to fetch video title") {
                    Some(err) => failure(temp, err),
                    None => {
                        let line = match &outcome {
                            Ok(r) => read_output_line(&r.stdout),
                            Err(_) => None,
                        };
                        match line {
                            None => failure(
                                temp,
                                DownloadError::new(
                                    "failed to fetch video title",
                                    String::from_str("output is not valid UTF-8"),
                                ),
                            ),
                            Some(title) => {
                                let stem = filename_video_title(title.as_str());
                                if self.content_type == ContentType::Thumbnail {
                                    (
                                        Phase::AwaitThumbnailUrl { stem },
                                        query("--get-thumbnail", &self.video_id),
                                    )
                                } else {
                                    let name = concat(stem.as_str(), ".mp4");
                                    let a = video_download(&self.video_id, &directory, &name);
                                    (Phase::AwaitVideo { video: FilePath { directory, name } }, a)
                                }
                            },
                        }
                    },
                }
            },
            (Phase::AwaitThumbnailUrl { stem }, Event::Ran { outcome }) => {
                match process_failure(&outcome, "failed to fetch video thumbnail URL") {
                    Some(err) => failure(None, err),
                    None => {
                        let line = match &outcome {
                            Ok(r) => read_output_line(&r.stdout),
                            Err(_) => None,
                        };
                        match line {
                            None => failure(
                                None,
                                DownloadError::new(
                                    "failed to fetch video thumbnail URL",
                                    String::from_str("output is not valid UTF-8"),
                                ),
                            ),
                            Some(url) => (
                                Phase::AwaitThumbnailBytes { stem },
                                Action::FetchBytes { url },
                            ),
                        }
                    },
                }
            },
            (Phase::AwaitThumbnailBytes { stem }, Event::Fetched { outcome }) => match outcome {
                Err(m) => failure(None, DownloadError::new("failed to download video thumbnail", m)),
                Ok(bytes) => match reencode_png(&bytes) {
                    Err(ImageFailure::Decode(m)) => failure(
                        None,
                        DownloadError::new("failed to decode video thumbnail", m),
                    ),
                    Err(ImageFailure::Encode(m)) => failure(
                        None,
                        DownloadError::new("failed to encode video thumbnail", m),
                    ),
                    Ok(png) => {
                        let name = concat(stem.as_str(), ".png");
                        let file = FilePath { directory: self.output_directory.clone(), name };
                        (Phase::AwaitImageWritten { stem }, Action::WriteFile { file, bytes: png })
                    },
                },
            },
            (Phase::AwaitImageWritten { stem }, Event::Wrote { outcome }) => match outcome {
                Err(m) => failure(None, DownloadError::new("failed to save video thumbnail", m)),
                Ok(_) => {
                    let name = concat(stem.as_str(), ".png");
                    let file = FilePath { directory: self.output_directory.clone(), name };
                    (Phase::Done, Action::Finish { result: Ok(file) })
                },
            },
            (Phase::AwaitVideo { video }, Event::Ran { outcome }) => {
                let temp = if is_audio {
                    Some(video.directory.clone())
                } else {
                    None
                };
                match process_failure(&outcome, "failed to perform video download") {
                    Some(err) => failure(temp, err),
                    None => if is_audio {
                        let name = replace_extension(video.name.as_str(), "mp3");
                        let a = transcode(&video, &self.output_directory, &name);
                        let audio_file = FilePath { directory: self.output_directory.clone(), name };
                        (Phase::AwaitTranscode { temp_dir: video.directory, audio: audio_file }, a)
                    } else {
                        (Phase::Done, Action::Finish { result: Ok(video) })
                    },
                }
            },
            (Phase::AwaitTranscode { temp_dir, audio }, Event::Ran { outcome }) => {
                let temp = if is_audio {
                    Some(temp_dir.clone())
                } else {
                    None
                };
                match process_failure(&outcome, "failed to convert video to audio file") {
                    Some(err) => failure(temp, err),
                    None => (
                        Phase::AwaitCleanup { result: Ok(audio) },
                        Action::RemoveDir { directory: temp_dir },
                    ),
                }
            },
            (Phase::AwaitCleanup { result }, Event::DirRemoved) => (
                Phase::Done,
                Action::Finish { result },
            ),
            // Ruled out by the precondition.
            (_, _) => (Phase::Done, Action::CreateTempDir),
        };
        self.phase = q;
        a
    }
}

} // verus!
