use ytdl::controller::{Controller, StartupAction, StartupEvent, Status, UpdatePolicy};
use ytdl::download::{Action, Binary, FilePath};
use ytdl::fetch_deps::{fetch_youtube_dl_binary, AcquireAction, AcquireEvent, Platform};
use ytdl::types::ContentType;

fn presence(b: bool) -> StartupEvent {
    StartupEvent::Exists { outcome: Ok(b) }
}

fn ready_controller() -> Controller {
    let (mut c, _) = Controller::new(UpdatePolicy::Skip);
    c.startup_step(presence(true));
    c.startup_step(presence(true));
    c
}

#[test]
fn both_present_is_ready_without_network() {
    let (mut c, a0) = Controller::new(UpdatePolicy::Skip);
    assert_eq!(a0, StartupAction::CheckExists { binary: Binary::Extractor });
    let a1 = c.startup_step(presence(true));
    assert_eq!(a1, StartupAction::CheckExists { binary: Binary::Transcoder });
    let a2 = c.startup_step(presence(true));
    assert_eq!(a2, StartupAction::Done);
    assert!(matches!(c.status, Status::Ready));
    assert!(c.can_download());
}

#[test]
fn missing_extractor_is_fetched_first() {
    let (mut c, _) = Controller::new(UpdatePolicy::Skip);
    assert_eq!(c.startup_step(presence(false)), StartupAction::Fetch { binary: Binary::Extractor });
    assert!(matches!(c.status, Status::Pending));
    assert_eq!(
        c.startup_step(StartupEvent::Fetched { outcome: Ok(()) }),
        StartupAction::CheckExists { binary: Binary::Transcoder }
    );
    assert_eq!(c.startup_step(presence(true)), StartupAction::Done);
    assert!(matches!(c.status, Status::Ready));
}

fn failed_fetch() -> ytdl::fetch_deps::DepError {
    let (mut acq, _) = fetch_youtube_dl_binary("/app", Platform::Linux);
    match acq.step(AcquireEvent::Downloaded { outcome: Err("offline".to_owned()) }) {
        AcquireAction::Finish { result: Err(e) } => e,
        _ => panic!("expected a failure"),
    }
}

#[test]
fn failed_fetch_fails_startup() {
    let (mut c, _) = Controller::new(UpdatePolicy::Skip);
    c.startup_step(presence(true));
    assert_eq!(c.startup_step(presence(false)), StartupAction::Fetch { binary: Binary::Transcoder });
    assert_eq!(c.startup_step(StartupEvent::Fetched { outcome: Err(failed_fetch()) }), StartupAction::Done);
    match &c.status {
        Status::Failed(m) => assert_eq!(m, "failed to download youtube-dl: offline"),
        _ => panic!("expected failure"),
    }
    assert!(!c.can_download());
    assert!(!c.accepts(&presence(true)));
}

#[test]
fn update_policy_decides_on_failed_update() {
    let (mut c, _) = Controller::new(UpdatePolicy::Tolerate);
    assert_eq!(c.startup_step(presence(true)), StartupAction::Update);
    assert_eq!(
        c.startup_step(StartupEvent::Updated { outcome: Err(failed_fetch()) }),
        StartupAction::CheckExists { binary: Binary::Transcoder }
    );
    let (mut c, _) = Controller::new(UpdatePolicy::Require);
    c.startup_step(presence(true));
    assert_eq!(c.startup_step(StartupEvent::Updated { outcome: Err(failed_fetch()) }), StartupAction::Done);
    assert!(matches!(c.status, Status::Failed(_)));
}

#[test]
fn no_download_before_ready() {
    let (mut c, _) = Controller::new(UpdatePolicy::Skip);
    assert!(c.begin_download("https://youtu.be/dQw4w9WgXcQ", ContentType::Video, &Some("/out".to_owned())).is_none());
    assert!(matches!(c.status, Status::Pending));
}

#[test]
fn download_runs_and_succeeds() {
    let mut c = ready_controller();
    let started = c.begin_download("https://youtu.be/dQw4w9WgXcQ", ContentType::Video, &Some("/home/u/Downloads".to_owned()));
    let (p, a) = started.expect("download starts");
    assert_eq!(p.video_id, "dQw4w9WgXcQ");
    assert!(matches!(a, Action::Run { .. }));
    assert!(matches!(c.status, Status::Running));
    assert!(!c.can_download());
    assert!(c.begin_download("https://youtu.be/dQw4w9WgXcQ", ContentType::Video, &Some("/o".to_owned())).is_none());
    c.finish_download(&Ok(FilePath { directory: "/home/u/Downloads".to_owned(), name: "x.mp4".to_owned() }));
    match &c.status {
        Status::Succeeded(m) => assert_eq!(m, "Saved to Downloads"),
        _ => panic!("expected success"),
    }
    assert!(c.can_download());
}

#[test]
fn invalid_link_or_missing_directory_fail_the_request() {
    let mut c = ready_controller();
    assert!(c.begin_download("https://example.com/watch?v=dQw4w9WgXcQ", ContentType::Audio, &Some("/o".to_owned())).is_none());
    match &c.status {
        Status::Failed(m) => assert_eq!(m, "unknown video URL format"),
        _ => panic!("expected failure"),
    }
    assert!(c.begin_download("https://youtu.be/dQw4w9WgXcQ", ContentType::Audio, &None).is_none());
    match &c.status {
        Status::Failed(m) => assert_eq!(m, "no output directory specified"),
        _ => panic!("expected failure"),
    }
    assert!(c.can_download());
}

#[test]
fn failed_download_reports_message() {
    let mut c = ready_controller();
    let (mut p, _) = c.begin_download("https://youtu.be/dQw4w9WgXcQ", ContentType::Video, &Some("/o".to_owned())).unwrap();
    let a = p.step(ytdl::download::Event::Ran { outcome: Err("missing".to_owned()) });
    match a {
        Action::Finish { result } => c.finish_download(&result),
        _ => panic!("expected finish"),
    }
    match &c.status {
        Status::Failed(m) => assert_eq!(m, "failed to launch external binary: missing"),
        _ => panic!("expected failure"),
    }
}

#[test]
fn recorded_outcome_names_folder() {
    let mut c = ready_controller();
    c.begin_download("https://youtu.be/dQw4w9WgXcQ", ContentType::Video, &Some("/o".to_owned()));
    let ok = Ok(FilePath { directory: "/o".to_owned(), name: "x.mp4".to_owned() });
    c.record_download(&ok, Some("Music".to_owned()));
    match &c.status {
        Status::Succeeded(m) => assert_eq!(m, "Saved to Music"),
        _ => panic!("expected success"),
    }
    c.begin_download("https://youtu.be/dQw4w9WgXcQ", ContentType::Video, &Some("/o".to_owned()));
    c.record_download(&ok, None);
    match &c.status {
        Status::Succeeded(m) => assert_eq!(m, "Saved to folder"),
        _ => panic!("expected success"),
    }
    c.begin_download("https://youtu.be/dQw4w9WgXcQ", ContentType::Video, &Some("/o".to_owned()));
    c.finish_download(&Ok(FilePath { directory: String::new(), name: "x.mp4".to_owned() }));
    match &c.status {
        Status::Succeeded(m) => assert_eq!(m, "Saved to folder"),
        _ => panic!("expected success"),
    }
}
