//! Types shared across the library.

use vstd::prelude::*;

verus! {

/// The kind of content a download produces.
#[derive(Debug, Clone, Copy, PartialEq, Eq, Structural, PartialOrd, Ord, Hash)]
pub enum ContentType {
    /// The video thumbnail, saved as an image.
    Thumbnail,
    /// The audio track of the video.
    Audio,
    /// The entire video, with audio.
    Video,
}

} // verus!
