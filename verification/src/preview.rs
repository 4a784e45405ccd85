use vstd::prelude::*;

use crate::browser::FileBrowser;
use crate::fs_path::FsPath;
use crate::model::FileKind;

verus! {

/// What the preview of a file can be made from, as its name tells.
#[derive(Debug, Clone, Copy, PartialEq, Eq, Structural)]
pub struct PreviewFormats {
    /// A document format with a preview of its own.
    pub document: bool,
    /// Audio that can be played.
    pub audio: bool,
    /// Video that can be played.
    pub video: bool,
    /// An image with frames to animate.
    pub animated_image: bool,
    /// An image that thumbnails can be made of.
    pub thumbnail_image: bool,
}

/// How a preview is produced.
#[derive(Debug, Clone, Copy, PartialEq, Eq, Structural)]
pub enum PreviewRoute {
    Document,
    AnimatedImage,
    Image,
    Video,
    Audio,
    Regular,
}

/// The route for a file of `kind` with `formats`: only files have a
/// document, media or image preview; a document wins, then an animated
/// image, a still image (not a video or animation), a video, audio; anything
/// else has the regular preview.
pub open spec fn route_for(kind: FileKind, formats: PreviewFormats) -> PreviewRoute {
    let file = kind == FileKind::File;
    if file && formats.document {
        PreviewRoute::Document
    } else if file && formats.animated_image {
        PreviewRoute::AnimatedImage
    } else if file && formats.thumbnail_image && !formats.video {
        PreviewRoute::Image
    } else if file && formats.video {
        PreviewRoute::Video
    } else if file && formats.audio {
        PreviewRoute::Audio
    } else {
        PreviewRoute::Regular
    }
}

/// The route for a file of `kind` with `formats`: see [`route_for`].
pub fn preview_route(kind: FileKind, formats: PreviewFormats) -> (r: PreviewRoute)
    ensures
        r == route_for(kind, formats),
{
    let file = kind == FileKind::File;
    if file && formats.document {
        PreviewRoute::Document
    } else if file && formats.animated_image {
        PreviewRoute::AnimatedImage
    } else if file && formats.thumbnail_image && !formats.video {
        PreviewRoute::Image
    } else if file && formats.video {
        PreviewRoute::Video
    } else if file && formats.audio {
        PreviewRoute::Audio
    } else {
        PreviewRoute::Regular
    }
}

impl FileBrowser {
    /// Starts the preview of `path`, of `kind`, by its route. A document is
    /// handed to its own previewer and nothing else changes here; any other
    /// route starts loading the preview of `path` and clears the error shown.
    /// The preview of an image, an animated image or audio changes the
    /// session: the caller then asks for a session save
    /// ([`FileBrowser::request_browser_session_save`]), which reads the clock.
    pub fn open_preview_for_resolved_path(&mut self, path: FsPath, kind: FileKind, formats: PreviewFormats) -> (r: PreviewRoute)
        ensures
            r == route_for(kind, formats),
            r is Document ==> *final(self) == *old(self),
            !(r is Document) ==> *final(self) == (FileBrowser {
                preview: final(self).preview,
                error: None,
                ..*old(self)
            }),
            !(r is Document) ==> (final(self).preview matches Some(p) && p@ == path@),
    {
        let route = preview_route(kind, formats);
        if route == PreviewRoute::Document {
            return route;
        }
        self.preview = Some(path);
        self.error = None;
        route
    }
}

} // verus!
