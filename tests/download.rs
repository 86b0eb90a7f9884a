use ytdl::download::{download, Action, Arg, Binary, Event, FilePath, ProcessResult};
use ytdl::types::ContentType;

fn ran(success: bool, stdout: &str, stderr: &str) -> Event {
    Event::Ran {
        outcome: Ok(ProcessResult {
            success,
            stdout: stdout.as_bytes().to_vec(),
            stderr: stderr.as_bytes().to_vec(),
        }),
    }
}

fn render(args: &[Arg]) -> Vec<String> {
    args.iter()
        .map(|a| match a {
            Arg::Text(t) => t.clone(),
            Arg::File(f) => format!("{}/{}", f.directory, f.name),
        })
        .collect()
}

fn run_of(a: &Action) -> (Binary, Vec<String>) {
    match a {
        Action::Run { binary, args } => (*binary, render(args)),
        _ => panic!("expected a run action"),
    }
}

fn finished(a: Action) -> Result<(String, String), (String, String)> {
    match a {
        Action::Finish { result: Ok(FilePath { directory, name }) } => Ok((directory, name)),
        Action::Finish { result: Err(e) } => Err((e.description().clone(), e.output().clone())),
        _ => panic!("expected the request to finish"),
    }
}

#[test]
fn video_request_downloads_to_sanitised_name() {
    let (mut p, a) = download("dQw4w9WgXcQ", ContentType::Video, "/out");
    assert_eq!(run_of(&a), (Binary::Extractor, vec!["--get-title".to_owned(), "dQw4w9WgXcQ".to_owned()]));
    let a = p.step(ran(true, "Never Gonna Give You Up!\n", ""));
    assert_eq!(
        run_of(&a),
        (
            Binary::Extractor,
            vec![
                "--format".to_owned(),
                "mp4".to_owned(),
                "--output".to_owned(),
                "/out/Never_Gonna_Give_You_Up_.mp4".to_owned(),
                "dQw4w9WgXcQ".to_owned()
            ]
        )
    );
    let a = p.step(ran(true, "", ""));
    assert_eq!(finished(a), Ok(("/out".to_owned(), "Never_Gonna_Give_You_Up_.mp4".to_owned())));
    assert!(p.is_done());
}

#[test]
fn audio_request_runs_video_then_transcode() {
    let (mut p, a) = download("dQw4w9WgXcQ", ContentType::Audio, "/out");
    assert!(matches!(a, Action::CreateTempDir));
    let a = p.step(Event::TempDirCreated { outcome: Ok("/tmp/x".to_owned()) });
    assert_eq!(run_of(&a).1, vec!["--get-title", "dQw4w9WgXcQ"]);
    let a = p.step(ran(true, "Song\n", ""));
    assert_eq!(
        run_of(&a),
        (
            Binary::Extractor,
            vec![
                "--format".to_owned(),
                "mp4".to_owned(),
                "--output".to_owned(),
                "/tmp/x/Song.mp4".to_owned(),
                "dQw4w9WgXcQ".to_owned()
            ]
        )
    );
    let a = p.step(ran(true, "", ""));
    assert_eq!(
        run_of(&a),
        (Binary::Transcoder, vec!["-i".to_owned(), "/tmp/x/Song.mp4".to_owned(), "/out/Song.mp3".to_owned()])
    );
    let a = p.step(ran(true, "", ""));
    assert!(matches!(a, Action::RemoveDir { ref directory } if directory == "/tmp/x"));
    let a = p.step(Event::DirRemoved);
    assert_eq!(finished(a), Ok(("/out".to_owned(), "Song.mp3".to_owned())));
}

#[test]
fn audio_title_failure_never_transcodes() {
    let (mut p, _) = download("dQw4w9WgXcQ", ContentType::Audio, "/out");
    p.step(Event::TempDirCreated { outcome: Ok("/tmp/y".to_owned()) });
    let a = p.step(ran(false, "", "ERROR: video unavailable"));
    assert!(matches!(a, Action::RemoveDir { ref directory } if directory == "/tmp/y"));
    let a = p.step(Event::DirRemoved);
    assert_eq!(
        finished(a),
        Err(("failed to fetch video title".to_owned(), "ERROR: video unavailable".to_owned()))
    );
    assert!(p.is_done());
}

#[test]
fn audio_video_failure_never_transcodes() {
    let (mut p, _) = download("dQw4w9WgXcQ", ContentType::Audio, "/out");
    p.step(Event::TempDirCreated { outcome: Ok("/tmp/z".to_owned()) });
    p.step(ran(true, "Song", ""));
    let a = p.step(ran(false, "", "network down"));
    assert!(matches!(a, Action::RemoveDir { .. }));
    let a = p.step(Event::DirRemoved);
    assert_eq!(
        finished(a),
        Err(("failed to perform video download".to_owned(), "network down".to_owned()))
    );
}

#[test]
fn audio_transcode_failure_still_cleans_up() {
    let (mut p, _) = download("dQw4w9WgXcQ", ContentType::Audio, "/out");
    p.step(Event::TempDirCreated { outcome: Ok("/tmp/w".to_owned()) });
    p.step(ran(true, "Song", ""));
    p.step(ran(true, "", ""));
    let a = p.step(ran(false, "", "bad codec"));
    assert!(matches!(a, Action::RemoveDir { ref directory } if directory == "/tmp/w"));
    let a = p.step(Event::DirRemoved);
    assert_eq!(
        finished(a),
        Err(("failed to convert video to audio file".to_owned(), "bad codec".to_owned()))
    );
}

#[test]
fn temp_dir_failure_ends_audio_request() {
    let (mut p, _) = download("dQw4w9WgXcQ", ContentType::Audio, "/out");
    let a = p.step(Event::TempDirCreated { outcome: Err("disk full".to_owned()) });
    assert_eq!(
        finished(a),
        Err(("failed to create temporary directory".to_owned(), "disk full".to_owned()))
    );
}

#[test]
fn video_title_failure_ends_request() {
    let (mut p, _) = download("dQw4w9WgXcQ", ContentType::Video, "/out");
    let a = p.step(ran(false, "", "oops"));
    assert_eq!(finished(a), Err(("failed to fetch video title".to_owned(), "oops".to_owned())));
    assert!(p.is_done());
}

#[test]
fn launch_failure_is_reported() {
    let (mut p, _) = download("dQw4w9WgXcQ", ContentType::Video, "/out");
    let a = p.step(Event::Ran { outcome: Err("No such file or directory".to_owned()) });
    assert_eq!(
        finished(a),
        Err(("failed to launch external binary".to_owned(), "No such file or directory".to_owned()))
    );
}

#[test]
fn title_that_is_not_utf8_fails() {
    let (mut p, _) = download("dQw4w9WgXcQ", ContentType::Video, "/out");
    let a = p.step(Event::Ran {
        outcome: Ok(ProcessResult { success: true, stdout: vec![0xc3, 0x28], stderr: vec![] }),
    });
    assert_eq!(
        finished(a),
        Err(("failed to fetch video title".to_owned(), "output is not valid UTF-8".to_owned()))
    );
}

#[test]
fn stderr_is_decoded_lossily() {
    let (mut p, _) = download("dQw4w9WgXcQ", ContentType::Video, "/out");
    let a = p.step(Event::Ran {
        outcome: Ok(ProcessResult { success: false, stdout: vec![], stderr: vec![b'a', 0xff, b'b'] }),
    });
    assert_eq!(finished(a), Err(("failed to fetch video title".to_owned(), "a\u{fffd}b".to_owned())));
}

fn tiny_png() -> Vec<u8> {
    let img = image::DynamicImage::ImageRgb8(image::RgbImage::new(2, 2));
    let mut out = std::io::Cursor::new(Vec::new());
    img.write_to(&mut out, image::ImageFormat::Png).unwrap();
    out.into_inner()
}

#[test]
fn thumbnail_request_converts_and_writes_png() {
    let (mut p, _) = download("dQw4w9WgXcQ", ContentType::Thumbnail, "/out");
    let a = p.step(ran(true, "My Video\n", ""));
    assert_eq!(run_of(&a).1, vec!["--get-thumbnail", "dQw4w9WgXcQ"]);
    let a = p.step(ran(true, "https://i.ytimg.com/vi/dQw4w9WgXcQ/maxresdefault.jpg\n", ""));
    match a {
        Action::FetchBytes { url } => assert_eq!(url, "https://i.ytimg.com/vi/dQw4w9WgXcQ/maxresdefault.jpg"),
        _ => panic!("expected a fetch"),
    }
    let a = p.step(Event::Fetched { outcome: Ok(tiny_png()) });
    match a {
        Action::WriteFile { file, bytes } => {
            assert_eq!(file.directory, "/out");
            assert_eq!(file.name, "My_Video.png");
            assert_eq!(&bytes[..8], &[0x89, b'P', b'N', b'G', 0x0d, 0x0a, 0x1a, 0x0a]);
            let back = image::load_from_memory(&bytes).unwrap();
            assert_eq!((back.width(), back.height()), (2, 2));
        }
        _ => panic!("expected a write"),
    }
    let a = p.step(Event::Wrote { outcome: Ok(()) });
    assert_eq!(finished(a), Ok(("/out".to_owned(), "My_Video.png".to_owned())));
}

#[test]
fn thumbnail_with_undecodable_bytes_fails() {
    let (mut p, _) = download("dQw4w9WgXcQ", ContentType::Thumbnail, "/out");
    p.step(ran(true, "T", ""));
    p.step(ran(true, "https://example.com/t.jpg", ""));
    let a = p.step(Event::Fetched { outcome: Ok(b"not an image".to_vec()) });
    let err = finished(a).unwrap_err();
    assert_eq!(err.0, "failed to decode video thumbnail");
    assert!(!err.1.is_empty());
}

#[test]
fn thumbnail_fetch_and_save_failures() {
    let (mut p, _) = download("dQw4w9WgXcQ", ContentType::Thumbnail, "/out");
    p.step(ran(true, "T", ""));
    let a = p.step(ran(false, "", "no thumbnail"));
    assert_eq!(
        finished(a),
        Err(("failed to fetch video thumbnail URL".to_owned(), "no thumbnail".to_owned()))
    );

    let (mut p, _) = download("dQw4w9WgXcQ", ContentType::Thumbnail, "/out");
    p.step(ran(true, "T", ""));
    p.step(ran(true, "https://example.com/t.jpg", ""));
    let a = p.step(Event::Fetched { outcome: Err("timeout".to_owned()) });
    assert_eq!(finished(a), Err(("failed to download video thumbnail".to_owned(), "timeout".to_owned())));

    let (mut p, _) = download("dQw4w9WgXcQ", ContentType::Thumbnail, "/out");
    p.step(ran(true, "T", ""));
    p.step(ran(true, "https://example.com/t.jpg", ""));
    p.step(Event::Fetched { outcome: Ok(tiny_png()) });
    let a = p.step(Event::Wrote { outcome: Err("read-only".to_owned()) });
    assert_eq!(finished(a), Err(("failed to save video thumbnail".to_owned(), "read-only".to_owned())));
}

#[test]
fn pipeline_accepts_only_expected_outcomes() {
    let (p, _) = download("dQw4w9WgXcQ", ContentType::Audio, "/out");
    assert!(p.accepts(&Event::TempDirCreated { outcome: Ok("/t".to_owned()) }));
    assert!(!p.accepts(&Event::DirRemoved));
    assert!(!p.accepts(&ran(true, "", "")));
}

#[test]
fn error_message_joins_description_and_output() {
    let (mut p, _) = download("dQw4w9WgXcQ", ContentType::Video, "/out");
    match p.step(ran(false, "", "boom")) {
        Action::Finish { result: Err(e) } => assert_eq!(e.message(), "failed to fetch video title: boom"),
        _ => panic!("expected a failure"),
    }
}

#[test]
fn audio_request_with_empty_title_names_mp3() {
    let (mut p, _) = download("dQw4w9WgXcQ", ContentType::Audio, "/out");
    p.step(Event::TempDirCreated { outcome: Ok("/tmp/e".to_owned()) });
    let a = p.step(ran(true, "\n", ""));
    assert_eq!(run_of(&a).1[3], "/tmp/e/.mp4");
    let a = p.step(ran(true, "", ""));
    assert_eq!(run_of(&a).1, vec!["-i", "/tmp/e/.mp4", "/out/.mp3"]);
}
