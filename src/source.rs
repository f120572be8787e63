//! What is known of a source when it is verified.
use vstd::prelude::*;

verus! {

/// A format that a source may be transcoded to.
#[derive(Debug, Clone, Copy, PartialEq, Eq, Structural)]
pub enum TargetFormat {
    Flac,
    Mp3V0,
    Mp3Cbr320,
}

/// The tracker's metadata of the torrent that holds the source.
#[derive(Debug, Clone, Copy, PartialEq, Eq, Structural)]
pub struct TorrentInfo {
    /// The identifier the tracker assigned to the torrent.
    pub id: u64,
    /// Whether the release is a scene release.
    pub scene: bool,
    /// The lossy master approval flag, where the tracker gives one.
    pub lossy_master_approved: Option<bool>,
    /// The lossy web approval flag, where the tracker gives one.
    pub lossy_web_approved: Option<bool>,
}

/// One release under evaluation.
#[derive(Debug, Clone, PartialEq, Eq)]
pub struct Source {
    /// The directory that holds the release's files.
    pub directory: String,
    /// The torrent's metadata.
    pub torrent: TorrentInfo,
}

/// The tags read from one audio file.
#[derive(Debug, Clone, PartialEq, Eq)]
pub struct TrackTags {
    pub artist: Option<String>,
    pub album: Option<String>,
    pub title: Option<String>,
    pub track_number: Option<String>,
}

/// What a decoder found in one audio file's stream.
#[derive(Debug, Clone, Copy, PartialEq, Eq, Structural)]
pub struct StreamInfo {
    /// Whether the whole stream decoded without error.
    pub decoded: bool,
    /// Samples per second.
    pub sample_rate: u32,
    /// Number of channels.
    pub channels: u32,
}

/// Everything the file-content checks read of one audio file.
#[derive(Debug, Clone, PartialEq, Eq)]
pub struct FlacFile {
    /// The file's path.
    pub path: String,
    /// The sub-path each eligible target format would write the file's
    /// transcode to, one per format.
    pub transcode_sub_paths: Vec<String>,
    /// The file's tags.
    pub tags: TrackTags,
    /// The file's stream.
    pub stream: StreamInfo,
}

} // verus!
