use ytdl::config::{default_output_directory, video_url_error, Config, ConfigOpt, SaveDebouncer};
use ytdl::types::ContentType;

fn config(url: &str) -> Config {
    Config { video_url: url.to_owned(), content_type: ContentType::Audio, output_directory: None }
}

#[test]
fn missing_fields_take_defaults() {
    let c = Config::from_opt(
        ConfigOpt { video_url: None, content_type: None, output_directory: None },
        Some("/home/u/Downloads".to_owned()),
    );
    assert_eq!(c.video_url, "https://www.youtube.com/watch?v=dQw4w9WgXcQ");
    assert_eq!(c.content_type, ContentType::Video);
    assert_eq!(c.output_directory, Some("/home/u/Downloads".to_owned()));
}

#[test]
fn stored_fields_win() {
    let c = Config::from_opt(
        ConfigOpt {
            video_url: Some("https://youtu.be/aaaaaaaaaaa".to_owned()),
            content_type: Some(ContentType::Thumbnail),
            output_directory: Some("/data".to_owned()),
        },
        Some("/home/u".to_owned()),
    );
    assert_eq!(c.video_url, "https://youtu.be/aaaaaaaaaaa");
    assert_eq!(c.content_type, ContentType::Thumbnail);
    assert_eq!(c.output_directory, Some("/data".to_owned()));
    let o = c.to_opt();
    assert_eq!(o.video_url, Some("https://youtu.be/aaaaaaaaaaa".to_owned()));
    assert_eq!(o.content_type, Some(ContentType::Thumbnail));
}

#[test]
fn default_directory_prefers_downloads() {
    assert_eq!(
        default_output_directory(Some("/home/u".to_owned()), Some("/home/u/Downloads".to_owned())),
        Some("/home/u/Downloads".to_owned())
    );
    assert_eq!(default_output_directory(Some("/home/u".to_owned()), None), Some("/home/u".to_owned()));
    assert_eq!(default_output_directory(None, None), None);
}

#[test]
fn link_field_messages() {
    assert_eq!(video_url_error(""), Some("No URL provided".to_owned()));
    assert_eq!(video_url_error("https://vimeo.com/1"), Some("Invalid YouTube URL".to_owned()));
    assert_eq!(video_url_error("https://youtu.be/dQw4w9WgXcQ"), None);
}

#[test]
fn burst_of_edits_saves_once_with_last() {
    let mut d = SaveDebouncer::new();
    let t1 = d.edit(config("a"));
    let t2 = d.edit(config("b"));
    let t3 = d.edit(config("c"));
    let saved: Vec<Option<Config>> = vec![d.fire(t1), d.fire(t2), d.fire(t3)];
    assert!(saved[0].is_none());
    assert!(saved[1].is_none());
    assert_eq!(saved[2].as_ref().map(|c| c.video_url.as_str()), Some("c"));
    assert!(d.fire(t3).is_none());
}

#[test]
fn single_edit_saves() {
    let mut d = SaveDebouncer::new();
    let t = d.edit(config("only"));
    assert_eq!(d.fire(t).map(|c| c.video_url), Some("only".to_owned()));
}
