//! The class names of the interface's components, built with [`Classes`].

use crate::classes::{joined, Classes};
use crate::text::concat;
use crate::types::ContentType;
use vstd::prelude::*;

verus! {

/// A button style.
#[derive(Debug, Clone, Copy, PartialEq, Eq, Structural, PartialOrd, Ord, Hash)]
pub enum ButtonStyle {
    /// Primary button style.
    Primary,
    /// Secondary button style.
    Secondary,
}

/// Loading spinner size.
#[derive(Debug, Clone, Copy, PartialEq, Eq, Structural)]
pub enum LoadingSpinnerSize {
    /// A small spinner.
    Small,
    /// A medium size spinner.
    Medium,
    /// A large spinner.
    Large,
    /// A spinner that grows to the size of the container.
    Max,
}

/// The name of a spinner size.
pub open spec fn spec_size_name(size: LoadingSpinnerSize) -> Seq<char> {
    match size {
        LoadingSpinnerSize::Small => "small"@,
        LoadingSpinnerSize::Medium => "medium"@,
        LoadingSpinnerSize::Large => "large"@,
        LoadingSpinnerSize::Max => "max"@,
    }
}

impl LoadingSpinnerSize {
    /// Gets the name of the loading spinner size.
    pub fn size_name(self) -> (r: &'static str)
        ensures
            r@ == spec_size_name(self),
    {
        match self {
            LoadingSpinnerSize::Small => "small",
            LoadingSpinnerSize::Medium => "medium",
            LoadingSpinnerSize::Large => "large",
            LoadingSpinnerSize::Max => "max",
        }
    }
}

/// The class of a button style.
pub open spec fn style_class(style: Option<ButtonStyle>) -> Seq<Seq<char>> {
    match style {
        Some(ButtonStyle::Primary) => seq!["primary"@],
        Some(ButtonStyle::Secondary) => seq!["secondary"@],
        None => seq![],
    }
}

/// The caller's extra class, if any.
pub open spec fn extra_class(class: Option<String>) -> Seq<Seq<char>> {
    match class {
        Some(c) => seq![c@],
        None => seq![],
    }
}

/// The classes of a button: `button`, its style's class, then the caller's.
pub fn button_class(style: Option<ButtonStyle>, class: Option<String>) -> (r: String)
    ensures
        r@ == joined(seq!["button"@] + style_class(style) + extra_class(class)),
{
    let mut c = Classes::from_str("button");
    let style_name = match style {
        Some(ButtonStyle::Primary) => Some(String::from_str("primary")),
        Some(ButtonStyle::Secondary) => Some(String::from_str("secondary")),
        None => None,
    };
    c.add(Classes::from_option(style_name));
    c.add(Classes::from_option(class));
    proof {
        assert(seq!["button"@] + style_class(style) + extra_class(class) =~= c@);
    }
    c.into_classes()
}

/// The classes of a spinner's container: `loading-spinner-container`, then
/// the caller's.
pub fn loading_container_class(class: Option<String>) -> (r: String)
    ensures
        r@ == joined(seq!["loading-spinner-container"@] + extra_class(class)),
{
    let mut c = Classes::from_str("loading-spinner-container");
    c.add(Classes::from_option(class));
    proof {
        assert(seq!["loading-spinner-container"@] + extra_class(class) =~= c@);
    }
    c.into_classes()
}

/// The classes of a spinner's image: `loading-spinner` and
/// `loading-spinner-<size>`.
pub fn loading_svg_class(size: LoadingSpinnerSize) -> (r: String)
    ensures
        r@ == joined(seq!["loading-spinner"@, "loading-spinner-"@ + spec_size_name(size)]),
{
    let mut c = Classes::from_str("loading-spinner");
    c.add(Classes::from_string(concat("loading-spinner-", size.size_name())));
    proof {
        assert(seq!["loading-spinner"@, "loading-spinner-"@ + spec_size_name(size)] =~= c@);
    }
    c.into_classes()
}

/// A class that is present only when `on` holds.
pub open spec fn flag_class(on: bool, name: Seq<char>) -> Seq<Seq<char>> {
    if on {
        seq![name]
    } else {
        seq![]
    }
}

fn with_flag(base: &str, on: bool, name: &str) -> (r: String)
    ensures
        r@ == joined(seq![base@] + flag_class(on, name@)),
{
    let mut c = Classes::from_str(base);
    if on {
        c.add(Classes::from_str(name));
    }
    proof {
        assert(seq![base@] + flag_class(on, name@) =~= c@);
    }
    c.into_classes()
}

/// The classes of the selector option for `option`, marked selected when it
/// is the current content type.
pub fn content_type_option_class(option: ContentType, current: ContentType) -> (r: String)
    ensures
        r@ == joined(
            seq!["content-type-selector-option"@] + flag_class(
                option == current,
                "content-type-selector-option-selected"@,
            ),
        ),
{
    with_flag(
        "content-type-selector-option",
        option == current,
        "content-type-selector-option-selected",
    )
}

/// The classes of a text input's container, marked when disabled.
pub fn text_input_container_class(disabled: bool) -> (r: String)
    ensures
        r@ == joined(
            seq!["text-input-container"@] + flag_class(disabled, "text-input-container-disabled"@),
        ),
{
    with_flag("text-input-container", disabled, "text-input-container-disabled")
}

/// The classes of a text input, marked invalid when it shows an error.
pub fn text_input_class(has_error: bool) -> (r: String)
    ensures
        r@ == joined(seq!["text-input"@] + flag_class(has_error, "text-input-invalid"@)),
{
    with_flag("text-input", has_error, "text-input-invalid")
}

/// The classes of an error panel: `error`, then the caller's.
pub fn error_class(class: Option<String>) -> (r: String)
    ensures
        r@ == joined(seq!["error"@] + extra_class(class)),
{
    let mut c = Classes::from_str("error");
    c.add(Classes::from_option(class));
    proof {
        assert(seq!["error"@] + extra_class(class) =~= c@);
    }
    c.into_classes()
}

/// The message under the output directory selector: shown only when no
/// directory is selected.
pub fn output_directory_error(directory: &Option<String>) -> (r: Option<String>)
    ensures
        directory is Some <==> r is None,
        r matches Some(m) ==> m@ == "No output directory selected"@,
{
    match directory {
        Some(_) => None,
        None => Some(String::from_str("No output directory selected")),
    }
}

} // verus!
