use ytdl::components::{
    button_class, content_type_option_class, error_class, loading_container_class,
    loading_svg_class, output_directory_error, text_input_class, text_input_container_class,
    ButtonStyle, LoadingSpinnerSize,
};
use ytdl::types::ContentType;

#[test]
fn spinner_size_names() {
    assert_eq!(LoadingSpinnerSize::Small.size_name(), "small");
    assert_eq!(LoadingSpinnerSize::Medium.size_name(), "medium");
    assert_eq!(LoadingSpinnerSize::Large.size_name(), "large");
    assert_eq!(LoadingSpinnerSize::Max.size_name(), "max");
}

#[test]
fn button_classes() {
    assert_eq!(
        button_class(Some(ButtonStyle::Primary), Some("download-button".to_owned())),
        "button primary download-button"
    );
    assert_eq!(button_class(Some(ButtonStyle::Secondary), None), "button secondary");
    assert_eq!(button_class(None, None), "button");
}

#[test]
fn spinner_classes() {
    assert_eq!(loading_container_class(None), "loading-spinner-container");
    assert_eq!(
        loading_container_class(Some("dep-fetch-status-pending".to_owned())),
        "loading-spinner-container dep-fetch-status-pending"
    );
    assert_eq!(loading_svg_class(LoadingSpinnerSize::Small), "loading-spinner loading-spinner-small");
}

#[test]
fn selector_and_input_classes() {
    assert_eq!(
        content_type_option_class(ContentType::Audio, ContentType::Audio),
        "content-type-selector-option content-type-selector-option-selected"
    );
    assert_eq!(content_type_option_class(ContentType::Video, ContentType::Audio), "content-type-selector-option");
    assert_eq!(text_input_container_class(true), "text-input-container text-input-container-disabled");
    assert_eq!(text_input_container_class(false), "text-input-container");
    assert_eq!(text_input_class(true), "text-input text-input-invalid");
    assert_eq!(error_class(Some("dep-fetch-status-failed".to_owned())), "error dep-fetch-status-failed");
    assert_eq!(error_class(None), "error");
}

#[test]
fn output_directory_message() {
    assert_eq!(output_directory_error(&None), Some("No output directory selected".to_owned()));
    assert_eq!(output_directory_error(&Some("/data".to_owned())), None);
}
