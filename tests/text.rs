use ytdl::text::{filename_video_title, read_output_line, replace_extension};

#[test]
fn sanitises_title() {
    assert_eq!(filename_video_title("Hello, World!"), "Hello__World_");
    assert_eq!(filename_video_title("abcXYZ019"), "abcXYZ019");
}

#[test]
fn sanitising_keeps_length_per_character() {
    let title = "héllo wörld";
    let stem = filename_video_title(title);
    assert_eq!(stem, "h_llo_w_rld");
    assert_eq!(stem.chars().count(), title.chars().count());
    assert!(stem.chars().all(|c| c.is_ascii_alphanumeric() || c == '_'));
}

#[test]
fn sanitises_empty_title() {
    assert_eq!(filename_video_title(""), "");
}

#[test]
fn replaces_extension() {
    assert_eq!(replace_extension("song.mp4", "mp3"), "song.mp3");
    assert_eq!(replace_extension("song.webm", "mp3"), "song.mp3");
    assert_eq!(replace_extension("a.b.mkv", "mp3"), "a.b.mp3");
    assert_eq!(replace_extension("noext", "mp3"), "noext.mp3");
    assert_eq!(replace_extension(".mp4", "mp3"), ".mp3");
    assert_eq!(replace_extension("x.", "mp3"), "x.mp3");
}

#[test]
fn reads_trimmed_output_line() {
    assert_eq!(read_output_line(&b"  My Title \n".to_vec()), Some("My Title".to_owned()));
    assert_eq!(read_output_line(&Vec::new()), Some(String::new()));
    assert_eq!(read_output_line(&vec![0xff, 0xfe]), None);
}

#[test]
fn trims_unicode_white_space() {
    assert_eq!(read_output_line(&"\u{3000}\tTitle\u{a0}\r\n".as_bytes().to_vec()), Some("Title".to_owned()));
    assert_eq!(read_output_line(&" a b ".as_bytes().to_vec()), Some("a b".to_owned()));
}
