//! The records the catalog works with, and their mathematical views.

use vstd::prelude::*;

verus! {

/// Descriptive metadata of one remote media item, as the acquisition tool reports it.
///
/// `id` and `title` are always present and non-empty in a record produced by
/// this library; every other field is passed through as reported, and `None`
/// when the tool did not report it.
#[derive(Debug, Clone, PartialEq, Eq)]
pub struct VideoMetadata {
    pub id: String,
    pub title: String,
    pub uploader: Option<String>,
    pub description: Option<String>,
    pub duration: Option<u64>,
    pub thumbnail: Option<String>,
    pub webpage_url: Option<String>,
}

/// The value of a [`VideoMetadata`], with every string as a sequence of characters.
pub struct MetadataView {
    pub id: Seq<char>,
    pub title: Seq<char>,
    pub uploader: Option<Seq<char>>,
    pub description: Option<Seq<char>>,
    pub duration: Option<u64>,
    pub thumbnail: Option<Seq<char>>,
    pub webpage_url: Option<Seq<char>>,
}

impl View for VideoMetadata {
    type V = MetadataView;

    open spec fn view(&self) -> MetadataView {
        MetadataView {
            id: self.id@,
            title: self.title@,
            uploader: self.uploader.deep_view(),
            description: self.description.deep_view(),
            duration: self.duration,
            thumbnail: self.thumbnail.deep_view(),
            webpage_url: self.webpage_url.deep_view(),
        }
    }
}

/// One catalog entry: the metadata kept of an acquired item, where its audio
/// file lies, and when it entered the catalog (seconds since the Unix epoch).
#[derive(Debug, Clone, PartialEq, Eq)]
pub struct Track {
    pub id: String,
    pub title: String,
    pub uploader: Option<String>,
    pub description: Option<String>,
    pub duration: Option<u64>,
    pub thumbnail: Option<String>,
    pub file_path: String,
    pub added_at: u64,
}

/// The value of a [`Track`], with every string as a sequence of characters.
pub struct TrackView {
    pub id: Seq<char>,
    pub title: Seq<char>,
    pub uploader: Option<Seq<char>>,
    pub description: Option<Seq<char>>,
    pub duration: Option<u64>,
    pub thumbnail: Option<Seq<char>>,
    pub file_path: Seq<char>,
    pub added_at: u64,
}

impl View for Track {
    type V = TrackView;

    open spec fn view(&self) -> TrackView {
        TrackView {
            id: self.id@,
            title: self.title@,
            uploader: self.uploader.deep_view(),
            description: self.description.deep_view(),
            duration: self.duration,
            thumbnail: self.thumbnail.deep_view(),
            file_path: self.file_path@,
            added_at: self.added_at,
        }
    }
}

/// A copy of an optional string.
pub fn copy_text(text: &Option<String>) -> (copy: Option<String>)
    ensures
        copy == *text,
{
    match text {
        Some(s) => Some(s.clone()),
        None => None,
    }
}

/// A copy of a track, field for field.
pub fn copy_track(track: &Track) -> (copy: Track)
    ensures
        copy == *track,
{
    Track {
        id: track.id.clone(),
        title: track.title.clone(),
        uploader: copy_text(&track.uploader),
        description: copy_text(&track.description),
        duration: track.duration,
        thumbnail: copy_text(&track.thumbnail),
        file_path: track.file_path.clone(),
        added_at: track.added_at,
    }
}

} // verus!
