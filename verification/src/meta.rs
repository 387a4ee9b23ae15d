//! The metadata records: raw records as the engine hands them over, and
//! normalized records in which every field is display-ready.

use vstd::prelude::*;

verus! {

/// Presentation-ready directory metadata.
///
/// `path` is the queried path rendered as text, `disk_size` is the engine's
/// pre-formatted human-readable size string (passed through untouched), and
/// `num_files` is the file count under the directory.
#[derive(Debug, Clone, PartialEq, Eq)]
pub struct DirMeta {
    pub path: String,
    pub disk_size: String,
    pub num_files: u64,
}

/// Mathematical model of a [`DirMeta`].
pub ghost struct DirMetaView {
    pub path: Seq<char>,
    pub disk_size: Seq<char>,
    pub num_files: u64,
}

impl View for DirMeta {
    type V = DirMetaView;

    open spec fn view(&self) -> DirMetaView {
        DirMetaView {
            path: self.path@,
            disk_size: self.disk_size@,
            num_files: self.num_files,
        }
    }
}

impl DeepView for DirMeta {
    type V = DirMetaView;

    open spec fn deep_view(&self) -> DirMetaView {
        self.view()
    }
}

/// Raw media metadata, modelled with every engine-internal value already
/// rendered to its text form: `duration` holds the fixed structural
/// (debug-style) rendering of the engine's duration value, `date` the
/// canonical string form of its date value, and each `stats` entry the text
/// form of one statistic, in original order.
///
/// Absence is meaningful everywhere: `None` means the engine produced no
/// value, and is distinct from an empty string or an empty sequence.
#[derive(Debug, Clone, PartialEq, Eq)]
pub struct RawMediaMeta {
    pub file_name: String,
    pub title: Option<String>,
    pub author: Option<String>,
    pub duration: Option<String>,
    pub date: Option<String>,
    pub stats: Option<Vec<String>>,
    pub display_extra: bool,
    pub extra: Option<String>,
}

/// Mathematical model of a [`RawMediaMeta`].
pub ghost struct RawMediaMetaView {
    pub file_name: Seq<char>,
    pub title: Option<Seq<char>>,
    pub author: Option<Seq<char>>,
    pub duration: Option<Seq<char>>,
    pub date: Option<Seq<char>>,
    pub stats: Option<Seq<Seq<char>>>,
    pub display_extra: bool,
    pub extra: Option<Seq<char>>,
}

impl View for RawMediaMeta {
    type V = RawMediaMetaView;

    open spec fn view(&self) -> RawMediaMetaView {
        RawMediaMetaView {
            file_name: self.file_name@,
            title: self.title.deep_view(),
            author: self.author.deep_view(),
            duration: self.duration.deep_view(),
            date: self.date.deep_view(),
            stats: self.stats.deep_view(),
            display_extra: self.display_extra,
            extra: self.extra.deep_view(),
        }
    }
}

/// Presentation-ready media metadata: the normalized form of a
/// [`RawMediaMeta`]. `stats` has collapsed to one newline-joined string
/// (`None` exactly when the raw record had no statistics at all).
#[derive(Debug, Clone, PartialEq, Eq)]
pub struct MediaMeta {
    pub file_name: String,
    pub title: Option<String>,
    pub author: Option<String>,
    pub duration: Option<String>,
    pub media_date: Option<String>,
    pub stats: Option<String>,
    pub display_extra: bool,
    pub extra: Option<String>,
}

/// Mathematical model of a [`MediaMeta`].
pub ghost struct MediaMetaView {
    pub file_name: Seq<char>,
    pub title: Option<Seq<char>>,
    pub author: Option<Seq<char>>,
    pub duration: Option<Seq<char>>,
    pub media_date: Option<Seq<char>>,
    pub stats: Option<Seq<char>>,
    pub display_extra: bool,
    pub extra: Option<Seq<char>>,
}

impl View for MediaMeta {
    type V = MediaMetaView;

    open spec fn view(&self) -> MediaMetaView {
        MediaMetaView {
            file_name: self.file_name@,
            title: self.title.deep_view(),
            author: self.author.deep_view(),
            duration: self.duration.deep_view(),
            media_date: self.media_date.deep_view(),
            stats: self.stats.deep_view(),
            display_extra: self.display_extra,
            extra: self.extra.deep_view(),
        }
    }
}

impl DeepView for MediaMeta {
    type V = MediaMetaView;

    open spec fn deep_view(&self) -> MediaMetaView {
        self.view()
    }
}

} // verus!
