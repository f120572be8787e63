//! The closed set of verification findings.
use vstd::prelude::*;
use vstd::string::*;

verus! {

/// One verification finding. A source is verified iff no finding is reported.
#[derive(Debug, PartialEq, Eq)]
pub enum SourceRule {
    /// Scene releases are not transcoded.
    SceneNotSupported,
    /// The lossy master approval flag is set.
    LossyMasterNeedsApproval,
    /// The lossy web approval flag is set.
    LossyWebNeedsApproval,
    /// No target format is left to transcode to.
    NoTranscodeFormats,
    /// The source directory does not exist or is not a directory.
    SourceDirectoryNotFound(String),
    /// The source directory holds no FLAC file.
    NoFlacFiles(String),
    /// A transcode of a file would have a path longer than the limit.
    PathTooLong(String),
    /// The file has no artist tag.
    MissingArtistTag(String),
    /// The file has no album tag.
    MissingAlbumTag(String),
    /// The file has no title tag.
    MissingTitleTag(String),
    /// The file has no track number tag.
    MissingTrackNumberTag(String),
    /// The audio stream of the file could not be decoded cleanly.
    CorruptStream(String),
    /// The sample rate of the file is not one that is transcoded.
    UnsupportedSampleRate(String),
    /// The channel count of the file is not mono or stereo.
    UnsupportedChannels(String),
    /// The files on disk do not match the torrent's hashes.
    IncorrectHash(String),
}

/// The message that reports a finding.
pub open spec fn rule_message(rule: SourceRule) -> Seq<char> {
    match rule {
        SourceRule::SceneNotSupported => "Scene releases are not supported"@,
        SourceRule::LossyMasterNeedsApproval => "Lossy master releases need approval"@,
        SourceRule::LossyWebNeedsApproval => "Lossy web releases need approval"@,
        SourceRule::NoTranscodeFormats => "No format is left to transcode to"@,
        SourceRule::SourceDirectoryNotFound(p) => "Source directory not found: "@ + p@,
        SourceRule::NoFlacFiles(p) => "No FLAC file in source directory: "@ + p@,
        SourceRule::PathTooLong(p) => "Transcode path is too long: "@ + p@,
        SourceRule::MissingArtistTag(p) => "Missing artist tag: "@ + p@,
        SourceRule::MissingAlbumTag(p) => "Missing album tag: "@ + p@,
        SourceRule::MissingTitleTag(p) => "Missing title tag: "@ + p@,
        SourceRule::MissingTrackNumberTag(p) => "Missing track number tag: "@ + p@,
        SourceRule::CorruptStream(p) => "Audio stream does not decode cleanly: "@ + p@,
        SourceRule::UnsupportedSampleRate(p) => "Unsupported sample rate: "@ + p@,
        SourceRule::UnsupportedChannels(p) => "Unsupported channel count: "@ + p@,
        SourceRule::IncorrectHash(p) => "Files do not match the torrent: "@ + p@,
    }
}

impl Clone for SourceRule {
    fn clone(&self) -> (r: Self)
        ensures
            r == *self,
    {
        match self {
            SourceRule::SceneNotSupported => SourceRule::SceneNotSupported,
            SourceRule::LossyMasterNeedsApproval => SourceRule::LossyMasterNeedsApproval,
            SourceRule::LossyWebNeedsApproval => SourceRule::LossyWebNeedsApproval,
            SourceRule::NoTranscodeFormats => SourceRule::NoTranscodeFormats,
            SourceRule::SourceDirectoryNotFound(p) => SourceRule::SourceDirectoryNotFound(p.clone()),
            SourceRule::NoFlacFiles(p) => SourceRule::NoFlacFiles(p.clone()),
            SourceRule::PathTooLong(p) => SourceRule::PathTooLong(p.clone()),
            SourceRule::MissingArtistTag(p) => SourceRule::MissingArtistTag(p.clone()),
            SourceRule::MissingAlbumTag(p) => SourceRule::MissingAlbumTag(p.clone()),
            SourceRule::MissingTitleTag(p) => SourceRule::MissingTitleTag(p.clone()),
            SourceRule::MissingTrackNumberTag(p) => SourceRule::MissingTrackNumberTag(p.clone()),
            SourceRule::CorruptStream(p) => SourceRule::CorruptStream(p.clone()),
            SourceRule::UnsupportedSampleRate(p) => SourceRule::UnsupportedSampleRate(p.clone()),
            SourceRule::UnsupportedChannels(p) => SourceRule::UnsupportedChannels(p.clone()),
            SourceRule::IncorrectHash(p) => SourceRule::IncorrectHash(p.clone()),
        }
    }
}

impl SourceRule {
    /// The message that reports this finding.
    pub fn message(&self) -> (r: String)
        ensures
            r@ == rule_message(*self),
    {
        match self {
            SourceRule::SceneNotSupported => String::from_str("Scene releases are not supported"),
            SourceRule::LossyMasterNeedsApproval => String::from_str("Lossy master releases need approval"),
            SourceRule::LossyWebNeedsApproval => String::from_str("Lossy web releases need approval"),
            SourceRule::NoTranscodeFormats => String::from_str("No format is left to transcode to"),
            SourceRule::SourceDirectoryNotFound(p) => String::from_str("Source directory not found: ").concat(p.as_str()),
            SourceRule::NoFlacFiles(p) => String::from_str("No FLAC file in source directory: ").concat(p.as_str()),
            SourceRule::PathTooLong(p) => String::from_str("Transcode path is too long: ").concat(p.as_str()),
            SourceRule::MissingArtistTag(p) => String::from_str("Missing artist tag: ").concat(p.as_str()),
            SourceRule::MissingAlbumTag(p) => String::from_str("Missing album tag: ").concat(p.as_str()),
            SourceRule::MissingTitleTag(p) => String::from_str("Missing title tag: ").concat(p.as_str()),
            SourceRule::MissingTrackNumberTag(p) => String::from_str("Missing track number tag: ").concat(p.as_str()),
            SourceRule::CorruptStream(p) => String::from_str("Audio stream does not decode cleanly: ").concat(p.as_str()),
            SourceRule::UnsupportedSampleRate(p) => String::from_str("Unsupported sample rate: ").concat(p.as_str()),
            SourceRule::UnsupportedChannels(p) => String::from_str("Unsupported channel count: ").concat(p.as_str()),
            SourceRule::IncorrectHash(p) => String::from_str("Files do not match the torrent: ").concat(p.as_str()),
        }
    }
}

} // verus!
