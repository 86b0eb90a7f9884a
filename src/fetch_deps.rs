//! The two external binaries: where they live, whether they are there, and
//! the steps that fetch or update them.

use crate::download::{is_text, process_error, Action, Arg, Binary, FilePath, ProcessResult};
use crate::text::{concat, utf8_lossy};
use vstd::prelude::*;

verus! {

/// The platform the application runs on, which decides file names and
/// download sources.
#[derive(Debug, Clone, Copy, PartialEq, Eq, Structural)]
pub enum Platform {
    Windows,
    Linux,
}

/// Where an external binary comes from and how it is installed.
pub struct BinaryDescriptor {
    /// The tool's name, used in messages.
    pub name: String,
    /// The file name of the installed binary.
    pub file_name: String,
    /// Where the binary, or the archive holding it, is downloaded from.
    pub url: String,
    /// The path components of the binary inside the archive, when the
    /// download is an archive rather than the binary itself.
    pub archive_entry: Option<Vec<String>>,
}

/// An error occurring during a dependency operation.
pub struct DepError {
    /// A description of the error.
    description: String,
    /// The output of the operation.
    output: String,
}

impl DepError {
    /// The description, as characters.
    pub closed spec fn spec_description(&self) -> Seq<char> {
        self.description@
    }

    /// The output, as characters.
    pub closed spec fn spec_output(&self) -> Seq<char> {
        self.output@
    }

    /// The error whose description is `description` and output is `output`.
    pub open spec fn is(&self, description: Seq<char>, output: Seq<char>) -> bool {
        self.spec_description() == description && self.spec_output() == output
    }

    /// The text shown for the error: `description: output`.
    pub open spec fn spec_message(&self) -> Seq<char> {
        self.spec_description() + ": "@ + self.spec_output()
    }

    fn new(description: String, output: String) -> (r: DepError)
        ensures
            r.is(description@, output@),
    {
        DepError { description, output }
    }

    /// A description of the error.
    pub fn description(&self) -> (r: &String)
        ensures
            r@ == self.spec_description(),
    {
        &self.description
    }

    /// The output of the operation that failed.
    pub fn output(&self) -> (r: &String)
        ensures
            r@ == self.spec_output(),
    {
        &self.output
    }

    /// The text shown for the error: `description: output`.
    pub fn message(&self) -> (r: String)
        ensures
            r@ == self.spec_message(),
    {
        let head = concat(self.description.as_str(), ": ");
        concat(head.as_str(), self.output.as_str())
    }
}

fn text(s: &str) -> (r: String)
    ensures
        r@ == s@,
{
    String::from_str(s)
}

/// The file name of the transcoder on `platform`.
pub open spec fn ffmpeg_file_name(platform: Platform) -> Seq<char> {
    if platform == Platform::Windows {
        "ffmpeg.exe"@
    } else {
        "ffmpeg"@
    }
}

/// The file name of the extractor on `platform`.
pub open spec fn youtube_dl_file_name(platform: Platform) -> Seq<char> {
    if platform == Platform::Windows {
        "youtube-dl.exe"@
    } else {
        "youtube-dl"@
    }
}

/// Where the transcoder's release archive is downloaded from.
pub open spec fn ffmpeg_url(platform: Platform) -> Seq<char> {
    if platform == Platform::Windows {
        "https://github.com/BtbN/FFmpeg-Builds/releases/download/latest/ffmpeg-master-latest-win64-gpl.zip"@
    } else {
        "https://github.com/BtbN/FFmpeg-Builds/releases/download/latest/ffmpeg-master-latest-linux64-gpl.tar.xz"@
    }
}

/// The top directory of the transcoder's release archive.
pub open spec fn ffmpeg_archive_dir(platform: Platform) -> Seq<char> {
    if platform == Platform::Windows {
        "ffmpeg-master-latest-win64-gpl"@
    } else {
        "ffmpeg-master-latest-linux64-gpl"@
    }
}

/// Where the extractor's release binary is downloaded from.
pub open spec fn youtube_dl_url(platform: Platform) -> Seq<char> {
    if platform == Platform::Windows {
        "https://github.com/ytdl-org/ytdl-nightly/releases/download/2024.08.07/youtube-dl.exe"@
    } else {
        "https://github.com/ytdl-org/ytdl-nightly/releases/download/2024.08.07/youtube-dl"@
    }
}

/// `d` describes the transcoder on `platform`: a release archive holding the
/// binary at `<top>/bin/<file name>`.
pub open spec fn is_ffmpeg_descriptor(d: BinaryDescriptor, platform: Platform) -> bool {
    &&& d.name@ == "ffmpeg"@
    &&& d.file_name@ == ffmpeg_file_name(platform)
    &&& d.url@ == ffmpeg_url(platform)
    &&& d.archive_entry matches Some(entry) && strings_view(entry@) == seq![
        ffmpeg_archive_dir(platform),
        "bin"@,
        ffmpeg_file_name(platform),
    ]
}

/// `d` describes the extractor on `platform`: the binary itself is
/// downloaded.
pub open spec fn is_youtube_dl_descriptor(d: BinaryDescriptor, platform: Platform) -> bool {
    &&& d.name@ == "youtube-dl"@
    &&& d.file_name@ == youtube_dl_file_name(platform)
    &&& d.url@ == youtube_dl_url(platform)
    &&& d.archive_entry is None
}

/// The transcoder: a release archive that holds the binary under `bin`.
pub fn ffmpeg_descriptor(platform: Platform) -> (r: BinaryDescriptor)
    ensures
        is_ffmpeg_descriptor(r, platform),
{
    let mut entry: Vec<String> = Vec::new();
    let r = match platform {
        Platform::Windows => {
            entry.push(text("ffmpeg-master-latest-win64-gpl"));
            entry.push(text("bin"));
            entry.push(text("ffmpeg.exe"));
            BinaryDescriptor {
                name: text("ffmpeg"),
                file_name: text("ffmpeg.exe"),
                url: text(
                    "https://github.com/BtbN/FFmpeg-Builds/releases/download/latest/ffmpeg-master-latest-win64-gpl.zip",
                ),
                archive_entry: Some(entry),
            }
        },
        Platform::Linux => {
            entry.push(text("ffmpeg-master-latest-linux64-gpl"));
            entry.push(text("bin"));
            entry.push(text("ffmpeg"));
            BinaryDescriptor {
                name: text("ffmpeg"),
                file_name: text("ffmpeg"),
                url: text(
                    "https://github.com/BtbN/FFmpeg-Builds/releases/download/latest/ffmpeg-master-latest-linux64-gpl.tar.xz",
                ),
                archive_entry: Some(entry),
            }
        },
    };
    assert(strings_view(r.archive_entry->0@) =~= seq![
        ffmpeg_archive_dir(platform),
        "bin"@,
        ffmpeg_file_name(platform),
    ]);
    r
}

/// The extractor: the binary itself is downloaded.
pub fn youtube_dl_descriptor(platform: Platform) -> (r: BinaryDescriptor)
    ensures
        is_youtube_dl_descriptor(r, platform),
{
    match platform {
        Platform::Windows => BinaryDescriptor {
            name: text("youtube-dl"),
            file_name: text("youtube-dl.exe"),
            url: text(
                "https://github.com/ytdl-org/ytdl-nightly/releases/download/2024.08.07/youtube-dl.exe",
            ),
            archive_entry: None,
        },
        Platform::Linux => BinaryDescriptor {
            name: text("youtube-dl"),
            file_name: text("youtube-dl"),
            url: text(
                "https://github.com/ytdl-org/ytdl-nightly/releases/download/2024.08.07/youtube-dl",
            ),
            archive_entry: None,
        },
    }
}

/// The descriptor of `binary` on `platform`.
pub fn descriptor(binary: Binary, platform: Platform) -> (r: BinaryDescriptor)
    ensures
        binary == Binary::Transcoder ==> is_ffmpeg_descriptor(r, platform),
        binary == Binary::Extractor ==> is_youtube_dl_descriptor(r, platform),
{
    match binary {
        Binary::Transcoder => ffmpeg_descriptor(platform),
        Binary::Extractor => youtube_dl_descriptor(platform),
    }
}

/// Where a binary is installed: beside the running executable, in `exe_dir`,
/// never relative to the working directory.
pub fn binary_path(d: &BinaryDescriptor, exe_dir: &str) -> (r: FilePath)
    ensures
        r.directory@ == exe_dir@,
        r.name@ == d.file_name@,
{
    FilePath { directory: String::from_str(exe_dir), name: d.file_name.clone() }
}

/// Relies on `std::path::Path::try_exists` on the joined path: `Ok(false)` for
/// a missing file, an error when the file system cannot tell.
#[verifier::external_body]
fn try_exists(path: &FilePath) -> (r: Result<bool, String>) {
    std::path::Path::new(&path.directory).join(&path.name).try_exists().map_err(|e| e.to_string())
}

/// What the outcome of looking for the binary `d` means: presence or absence
/// as found, and a file system error handed on as an error, never taken for
/// absence.
pub fn existence_result(d: &BinaryDescriptor, outcome: Result<bool, String>) -> (r: Result<
    bool,
    DepError,
>)
    ensures
        match outcome {
            Ok(b) => r == Ok::<bool, DepError>(b),
            Err(m) => r matches Err(e) && e.is("failed to look for "@ + d.name@, m@),
        },
{
    match outcome {
        Ok(b) => Ok(b),
        Err(m) => Err(DepError::new(concat("failed to look for ", d.name.as_str()), m)),
    }
}

/// Whether the binary is installed beside the executable in `exe_dir`; a file
/// system error is handed on, not taken for absence.
pub fn binary_exists(d: &BinaryDescriptor, exe_dir: &str) -> (r: Result<bool, DepError>)
    ensures
        r matches Err(e) ==> e.spec_description() == "failed to look for "@ + d.name@,
{
    let path = binary_path(d, exe_dir);
    existence_result(d, try_exists(&path))
}

/// Whether the transcoder is installed beside the executable in `exe_dir`.
pub fn ffmpeg_binary_exists(exe_dir: &str, platform: Platform) -> (r: Result<bool, DepError>)
    ensures
        r matches Err(e) ==> e.spec_description() == "failed to look for "@ + "ffmpeg"@,
{
    binary_exists(&ffmpeg_descriptor(platform), exe_dir)
}

/// Whether the extractor is installed beside the executable in `exe_dir`.
pub fn youtube_dl_binary_exists(exe_dir: &str, platform: Platform) -> (r: Result<bool, DepError>)
    ensures
        r matches Err(e) ==> e.spec_description() == "failed to look for "@ + "youtube-dl"@,
{
    binary_exists(&youtube_dl_descriptor(platform), exe_dir)
}

/// The action that updates the installed extractor in place: `-U`.
pub fn update_youtube_dl_binary() -> (a: Action)
    ensures
        a matches Action::Run { binary, args } && binary == Binary::Extractor && args@.len() == 1
            && is_text(args@[0], "-U"@),
{
    let mut args: Vec<Arg> = Vec::new();
    args.push(Arg::Text(text("-U")));
    Action::Run { binary: Binary::Extractor, args }
}

/// What the outcome of the update run means: success, or the error carrying
/// the binary's standard error.
pub fn update_result(outcome: &Result<ProcessResult, String>) -> (r: Result<(), DepError>)
    ensures
        match process_error(*outcome, "failed to update youtube-dl binary"@) {
            Some(x) => r matches Err(e) && e.is(x.0, x.1),
            None => r is Ok,
        },
{
    match outcome {
        Err(m) => Err(DepError::new(text("failed to launch external binary"), m.clone())),
        Ok(r) => if r.success {
            Ok(())
        } else {
            Err(DepError::new(text("failed to update youtube-dl binary"), utf8_lossy(&r.stderr)))
        },
    }
}

/// The next outside action of a binary acquisition.
pub enum AcquireAction {
    /// Stream the bytes at `url` into a fresh temporary file, chunk by chunk.
    Download { url: String },
    /// Extract the archive file `archive` into a fresh temporary directory,
    /// away from the latency-sensitive tasks.
    Extract { archive: String },
    /// Copy the file found under `base` at the path `entry` (`base` itself
    /// when `entry` is empty) to `target`.
    Install { base: String, entry: Vec<String>, target: FilePath },
    /// The acquisition is over.
    Finish { result: Result<(), DepError> },
}

/// The outcome of an acquisition action.
pub enum AcquireEvent {
    /// The outcome of `Download`: the temporary file's path.
    Downloaded { outcome: Result<String, String> },
    /// The outcome of `Extract`: the temporary directory's path.
    Extracted { outcome: Result<String, String> },
    /// The outcome of `Install`.
    Installed { outcome: Result<(), String> },
}

/// Where an acquisition stands.
pub enum AcquirePhase {
    AwaitDownload,
    AwaitExtract,
    AwaitInstall,
    Done,
}

/// A binary being fetched and installed at `target`.
pub struct Acquisition {
    pub descriptor: BinaryDescriptor,
    pub target: FilePath,
    pub phase: AcquirePhase,
}

/// The characters of each string of `v`.
pub open spec fn strings_view(v: Seq<String>) -> Seq<Seq<char>> {
    v.map_values(|s: String| s@)
}

/// `a` installs the file under `base` at `entry` to `target`.
pub open spec fn installs(
    a: AcquireAction,
    base: Seq<char>,
    entry: Seq<Seq<char>>,
    target: FilePath,
) -> bool {
    a matches AcquireAction::Install { base: b, entry: en, target: t } && b@ == base
        && strings_view(en@) == entry && t.directory@ == target.directory@ && t.name@
        == target.name@
}

/// The acquisition ends with the error `description: m`.
pub open spec fn acquire_fails(
    q: Acquisition,
    a: AcquireAction,
    description: Seq<char>,
    m: Seq<char>,
) -> bool {
    q.phase is Done && (a matches AcquireAction::Finish { result: Err(e) } && e.is(description, m))
}

/// One step of an acquisition: in state `p`, the outcome `e` leads to state
/// `q` and the next action `a`. The target is only written once the whole
/// download, and extraction where there is one, has succeeded.
pub open spec fn acquire_next(
    p: Acquisition,
    e: AcquireEvent,
    q: Acquisition,
    a: AcquireAction,
) -> bool {
    let name = p.descriptor.name@;
    &&& q.descriptor == p.descriptor
    &&& q.target == p.target
    &&& match (p.phase, e) {
        (AcquirePhase::AwaitDownload, AcquireEvent::Downloaded { outcome }) => match outcome {
            Ok(f) => match p.descriptor.archive_entry {
                Some(_) => q.phase is AwaitExtract && (a matches AcquireAction::Extract { archive }
                    && archive@ == f@),
                None => q.phase is AwaitInstall && installs(a, f@, seq![], p.target),
            },
            Err(m) => acquire_fails(q, a, "failed to download "@ + name, m@),
        },
        (AcquirePhase::AwaitExtract, AcquireEvent::Extracted { outcome }) => match outcome {
            Ok(dir) => match p.descriptor.archive_entry {
                Some(entry) => q.phase is AwaitInstall && installs(
                    a,
                    dir@,
                    strings_view(entry@),
                    p.target,
                ),
                None => acquire_fails(q, a, "failed to extract "@ + name, "no archive entry"@),
            },
            Err(m) => acquire_fails(q, a, "failed to extract "@ + name, m@),
        },
        (AcquirePhase::AwaitInstall, AcquireEvent::Installed { outcome }) => match outcome {
            Ok(_) => q.phase is Done && a matches AcquireAction::Finish { result: Ok(_) },
            Err(m) => acquire_fails(q, a, "failed to install "@ + name, m@),
        },
        _ => false,
    }
}

/// Whether `e` is the kind of outcome that phase `p` waits for.
pub open spec fn acquire_accepts(p: AcquirePhase, e: AcquireEvent) -> bool {
    match p {
        AcquirePhase::AwaitDownload => e is Downloaded,
        AcquirePhase::AwaitExtract => e is Extracted,
        AcquirePhase::AwaitInstall => e is Installed,
        AcquirePhase::Done => false,
    }
}

fn clone_strings(v: &Vec<String>) -> (r: Vec<String>)
    ensures
        r@ == v@,
{
    let mut r: Vec<String> = Vec::new();
    let mut i: usize = 0;
    while i < v.len()
        invariant
            i <= v@.len(),
            r@ == v@.subrange(0, i as int),
        decreases v@.len() - i,
    {
        r.push(v[i].clone());
        assert(r@ =~= v@.subrange(0, i + 1));
        i += 1;
    }
    assert(r@ =~= v@);
    r
}

fn copy_path(f: &FilePath) -> (r: FilePath)
    ensures
        r.directory@ == f.directory@,
        r.name@ == f.name@,
{
    FilePath { directory: f.directory.clone(), name: f.name.clone() }
}

/// Starts fetching the binary `d` into `exe_dir`: its first action downloads
/// the artifact to a temporary file.
pub fn fetch_binary(d: BinaryDescriptor, exe_dir: &str) -> (r: (Acquisition, AcquireAction))
    ensures
        r.0.descriptor == d,
        r.0.target.directory@ == exe_dir@,
        r.0.target.name@ == d.file_name@,
        r.0.phase is AwaitDownload,
        r.1 matches AcquireAction::Download { url } && url@ == d.url@,
{
    let target = binary_path(&d, exe_dir);
    let url = d.url.clone();
    (
        Acquisition { descriptor: d, target, phase: AcquirePhase::AwaitDownload },
        AcquireAction::Download { url },
    )
}

/// Starts fetching the transcoder for `platform` into `exe_dir`.
pub fn fetch_ffmpeg_binary(exe_dir: &str, platform: Platform) -> (r: (
    Acquisition,
    AcquireAction,
))
    ensures
        r.0.target.directory@ == exe_dir@,
        r.0.target.name@ == ffmpeg_file_name(platform),
        is_ffmpeg_descriptor(r.0.descriptor, platform),
        r.0.phase is AwaitDownload,
        r.1 matches AcquireAction::Download { url } && url@ == r.0.descriptor.url@,
{
    fetch_binary(ffmpeg_descriptor(platform), exe_dir)
}

/// Starts fetching the extractor for `platform` into `exe_dir`.
pub fn fetch_youtube_dl_binary(exe_dir: &str, platform: Platform) -> (r: (
    Acquisition,
    AcquireAction,
))
    ensures
        r.0.target.directory@ == exe_dir@,
        r.0.target.name@ == youtube_dl_file_name(platform),
        is_youtube_dl_descriptor(r.0.descriptor, platform),
        r.0.phase is AwaitDownload,
        r.1 matches AcquireAction::Download { url } && url@ == r.0.descriptor.url@,
{
    fetch_binary(youtube_dl_descriptor(platform), exe_dir)
}

impl Acquisition {
    /// Whether `e` is the kind of outcome that the acquisition waits for.
    pub fn accepts(&self, e: &AcquireEvent) -> (r: bool)
        ensures
            r == acquire_accepts(self.phase, *e),
    {
        match (&self.phase, e) {
            (AcquirePhase::AwaitDownload, AcquireEvent::Downloaded { .. }) => true,
            (AcquirePhase::AwaitExtract, AcquireEvent::Extracted { .. }) => true,
            (AcquirePhase::AwaitInstall, AcquireEvent::Installed { .. }) => true,
            _ => false,
        }
    }

    /// The end of the acquisition with the error `<what><name>: m`.
    fn failed(&self, what: &str, m: String) -> (r: (AcquirePhase, AcquireAction))
        ensures
            r.0 is Done,
            r.1 matches AcquireAction::Finish { result: Err(e) } && e.is(
                what@ + self.descriptor.name@,
                m@,
            ),
    {
        let description = concat(what, self.descriptor.name.as_str());
        (AcquirePhase::Done, AcquireAction::Finish { result: Err(DepError::new(description, m)) })
    }

    /// Feeds the outcome of the last action and returns the next one.
    pub fn step(&mut self, e: AcquireEvent) -> (a: AcquireAction)
        requires
            acquire_accepts(old(self).phase, e),
        ensures
            acquire_next(*old(self), e, *final(self), a),
    {
        let (q, a) = match (&self.phase, e) {
            (AcquirePhase::AwaitDownload, AcquireEvent::Downloaded { outcome }) => match outcome {
                Ok(f) => match &self.descriptor.archive_entry {
                    Some(_) => (AcquirePhase::AwaitExtract, AcquireAction::Extract { archive: f }),
                    None => {
                        let entry: Vec<String> = Vec::new();
                        assert(strings_view(entry@) =~= seq![]);
                        (
                            AcquirePhase::AwaitInstall,
                            AcquireAction::Install { base: f, entry, target: copy_path(&self.target) },
                        )
                    },
                },
                Err(m) => self.failed("failed to download ", m),
            },
            (AcquirePhase::AwaitExtract, AcquireEvent::Extracted { outcome }) => match outcome {
                Ok(dir) => match &self.descriptor.archive_entry {
                    Some(entry) => (
                        AcquirePhase::AwaitInstall,
                        AcquireAction::Install {
                            base: dir,
                            entry: clone_strings(entry),
                            target: copy_path(&self.target),
                        },
                    ),
                    None => self.failed("failed to extract ", text("no archive entry")),
                },
                Err(m) => self.failed("failed to extract ", m),
            },
            (AcquirePhase::AwaitInstall, AcquireEvent::Installed { outcome }) => match outcome {
                Ok(_) => (AcquirePhase::Done, AcquireAction::Finish { result: Ok(()) }),
                Err(m) => self.failed("failed to install ", m),
            },
            // Ruled out by the precondition.
            (_, _) => (AcquirePhase::Done, AcquireAction::Finish { result: Ok(()) }),
        };
        self.phase = q;
        a
    }
}

/// The target is written only by `Install`, and only in answer to a complete
/// download of a raw binary or a complete extraction of an archive.
pub proof fn lemma_install_after_complete_download(
    p: Acquisition,
    e: AcquireEvent,
    q: Acquisition,
    a: AcquireAction,
)
    requires
        acquire_next(p, e, q, a),
        a is Install,
    ensures
        (e matches AcquireEvent::Downloaded { outcome: Ok(_) } && p.descriptor.archive_entry is None)
            || (e matches AcquireEvent::Extracted { outcome: Ok(_) } && p.descriptor.archive_entry is Some),
{
}

} // verus!
