//! The file-content phase: path lengths, tags and streams of each audio file.
use vstd::prelude::*;
use vstd::utf8::encode_utf8;
use crate::rules::SourceRule;
use crate::source::{FlacFile, StreamInfo, TrackTags};

verus! {

/// The longest path, in bytes, that a transcode may be written to.
pub const MAX_PATH_LENGTH: usize = 180;

/// The length of a path in bytes, as it is encoded on disk.
pub open spec fn path_len(p: Seq<char>) -> nat {
    encode_utf8(p).len()
}

/// The index of the first of the longest paths of `paths` (0 when there is none).
pub open spec fn longest_index(paths: Seq<String>) -> int
    decreases paths.len(),
{
    if paths.len() <= 1 {
        0
    } else {
        let k = longest_index(paths.drop_last());
        if path_len(paths.last()@) > path_len(paths[k]@) {
            paths.len() - 1
        } else {
            k
        }
    }
}

/// The longest of the paths, the first of them on a tie; none when there is no path.
pub open spec fn longest_path(paths: Seq<String>) -> Option<String> {
    if paths.len() == 0 {
        None
    } else {
        Some(paths[longest_index(paths)])
    }
}

/// The path that is too long, of a file whose transcodes would be written to
/// `sub_paths`; none when every transcode fits.
pub open spec fn too_long_path(sub_paths: Seq<String>) -> Option<String> {
    match longest_path(sub_paths) {
        Some(p) => if path_len(p@) > MAX_PATH_LENGTH { Some(p) } else { None },
        None => None,
    }
}

proof fn lemma_longest_index_bounds(paths: Seq<String>)
    ensures
        paths.len() > 0 ==> 0 <= longest_index(paths) < paths.len(),
        forall|j: int| 0 <= j < paths.len() ==> path_len(#[trigger] paths[j]@) <= path_len(
            paths[longest_index(paths)]@,
        ),
    decreases paths.len(),
{
    if paths.len() > 1 {
        let init = paths.drop_last();
        lemma_longest_index_bounds(init);
        assert forall|j: int| 0 <= j < paths.len() implies path_len(#[trigger] paths[j]@)
            <= path_len(paths[longest_index(paths)]@) by {
            if j < paths.len() - 1 {
                assert(paths[j] == init[j]);
            }
        }
    }
}

/// Every candidate path is at most as long as the longest one, which is one of them.
pub proof fn lemma_longest_path_is_maximal(paths: Seq<String>)
    requires
        paths.len() > 0,
    ensures
        exists|i: int| 0 <= i < paths.len() && longest_path(paths) == Some(#[trigger] paths[i]),
        forall|j: int|
            0 <= j < paths.len() ==> path_len(#[trigger] paths[j]@) <= path_len(
                longest_path(paths)->0@,
            ),
{
    lemma_longest_index_bounds(paths);
    let k = longest_index(paths);
    assert(longest_path(paths) == Some(paths[k]));
}

fn byte_len(p: &String) -> (n: usize)
    ensures
        n == path_len(p@),
{
    p.as_str().as_bytes().len()
}

/// The longest path any transcode of a file would be written to.
pub fn max_transcode_sub_path(sub_paths: &Vec<String>) -> (r: Option<String>)
    ensures
        r == longest_path(sub_paths@),
{
    if sub_paths.len() == 0 {
        return None;
    }
    let mut best: usize = 0;
    let mut best_len = byte_len(&sub_paths[0]);
    let mut i: usize = 1;
    while i < sub_paths.len()
        invariant
            1 <= i <= sub_paths.len(),
            best == longest_index(sub_paths@.subrange(0, i as int)),
            best < i,
            best_len == path_len(sub_paths@[best as int]@),
        decreases sub_paths.len() - i,
    {
        let n = byte_len(&sub_paths[i]);
        assert(sub_paths@.subrange(0, i + 1).drop_last() =~= sub_paths@.subrange(0, i as int));
        if n > best_len {
            best = i;
            best_len = n;
        }
        i = i + 1;
    }
    assert(sub_paths@.subrange(0, sub_paths.len() as int) =~= sub_paths@);
    Some(sub_paths[best].clone())
}

/// Whether a tag is there and not empty.
pub open spec fn tag_present(tag: Option<String>) -> bool {
    tag matches Some(v) && v@.len() > 0
}

/// One finding when the tag is missing, none when it is there.
pub open spec fn if_missing(tag: Option<String>, rule: SourceRule) -> Seq<SourceRule> {
    if tag_present(tag) { seq![] } else { seq![rule] }
}

/// The tag findings on the file at `path`, in the order artist, album, title, track number.
pub open spec fn tag_rules(path: String, tags: TrackTags) -> Seq<SourceRule> {
    if_missing(tags.artist, SourceRule::MissingArtistTag(path))
        + if_missing(tags.album, SourceRule::MissingAlbumTag(path))
        + if_missing(tags.title, SourceRule::MissingTitleTag(path))
        + if_missing(tags.track_number, SourceRule::MissingTrackNumberTag(path))
}

/// The sample rates that are transcoded.
pub open spec fn supported_sample_rate(rate: u32) -> bool {
    rate == 44100 || rate == 48000 || rate == 88200 || rate == 96000 || rate == 176400 || rate
        == 192000
}

/// The stream findings on the file at `path`, in the order decoding, sample
/// rate, channels.
pub open spec fn stream_rules(path: String, stream: StreamInfo) -> Seq<SourceRule> {
    (if stream.decoded { seq![] } else { seq![SourceRule::CorruptStream(path)] })
        + (if supported_sample_rate(stream.sample_rate) { seq![] } else {
        seq![SourceRule::UnsupportedSampleRate(path)]
    }) + (if 1 <= stream.channels <= 2 { seq![] } else {
        seq![SourceRule::UnsupportedChannels(path)]
    })
}

/// The path that is too long of one file; the path is only evaluated where
/// some target format is eligible.
pub open spec fn file_too_long_path(file: FlacFile, has_targets: bool) -> Option<String> {
    if has_targets { too_long_path(file.transcode_sub_paths@) } else { None }
}

/// The path finding on one file.
pub open spec fn path_rules(file: FlacFile, has_targets: bool) -> Seq<SourceRule> {
    match file_too_long_path(file, has_targets) {
        Some(p) => seq![SourceRule::PathTooLong(p)],
        None => seq![],
    }
}

/// Every finding on one file: its path, then its tags, then its stream.
pub open spec fn file_rules(file: FlacFile, has_targets: bool) -> Seq<SourceRule> {
    path_rules(file, has_targets) + tag_rules(file.path, file.tags) + stream_rules(file.path, file.stream)
}

/// The findings on each file in turn.
pub open spec fn files_rules(files: Seq<FlacFile>, has_targets: bool) -> Seq<SourceRule>
    decreases files.len(),
{
    if files.len() == 0 {
        seq![]
    } else {
        files_rules(files.drop_last(), has_targets) + file_rules(files.last(), has_targets)
    }
}

/// The paths of the files whose transcodes would have a path that is too long.
pub open spec fn too_long_files(files: Seq<FlacFile>, has_targets: bool) -> Seq<String>
    decreases files.len(),
{
    if files.len() == 0 {
        seq![]
    } else {
        too_long_files(files.drop_last(), has_targets) + if file_too_long_path(
            files.last(),
            has_targets,
        ) is Some {
            seq![files.last().path]
        } else {
            seq![]
        }
    }
}

/// The findings of the file-content phase. A missing directory, or one with no
/// audio file, is the one finding and nothing else is looked at.
pub open spec fn flac_rules(
    directory: String,
    exists: bool,
    files: Seq<FlacFile>,
    has_targets: bool,
) -> Seq<SourceRule> {
    if !exists {
        seq![SourceRule::SourceDirectoryNotFound(directory)]
    } else if files.len() == 0 {
        seq![SourceRule::NoFlacFiles(directory)]
    } else {
        files_rules(files, has_targets)
    }
}

/// The files whose names the phase asks to shorten.
pub open spec fn tracks_to_shorten(exists: bool, files: Seq<FlacFile>, has_targets: bool) -> Seq<
    String,
> {
    if exists { too_long_files(files, has_targets) } else { seq![] }
}

/// Where the source directory is missing, the file-content phase reports that
/// one finding, whatever files are handed to it, and advises nothing.
pub proof fn lemma_missing_directory_single_rule(
    directory: String,
    files: Seq<FlacFile>,
    other_files: Seq<FlacFile>,
    has_targets: bool,
)
    ensures
        flac_rules(directory, false, files, has_targets) == seq![
            SourceRule::SourceDirectoryNotFound(directory),
        ],
        flac_rules(directory, false, files, has_targets) == flac_rules(
            directory,
            false,
            other_files,
            has_targets,
        ),
        tracks_to_shorten(false, files, has_targets).len() == 0,
{
}

/// Without an eligible target format no file gets a path finding and no track
/// is advised to be shortened.
pub proof fn lemma_files_rules_without_targets(files: Seq<FlacFile>)
    ensures
        forall|i: int|
            0 <= i < files_rules(files, false).len() ==> !(#[trigger] files_rules(files, false)[i] is PathTooLong),
        too_long_files(files, false).len() == 0,
    decreases files.len(),
{
    if files.len() > 0 {
        lemma_files_rules_without_targets(files.drop_last());
        let prefix = files_rules(files.drop_last(), false);
        let last = file_rules(files.last(), false);
        assert(path_rules(files.last(), false) =~= Seq::<SourceRule>::empty());
        assert forall|i: int| 0 <= i < files_rules(files, false).len() implies !(
        #[trigger] files_rules(files, false)[i] is PathTooLong) by {
            if i >= prefix.len() {
                assert(files_rules(files, false)[i] == last[i - prefix.len()]);
            } else {
                assert(files_rules(files, false)[i] == prefix[i]);
            }
        }
        assert(too_long_files(files, false) =~= too_long_files(files.drop_last(), false));
    }
}

/// The number of findings of paths that are too long.
pub open spec fn count_too_long(rules: Seq<SourceRule>) -> nat
    decreases rules.len(),
{
    if rules.len() == 0 {
        0
    } else {
        count_too_long(rules.drop_last()) + if rules.last() is PathTooLong { 1nat } else { 0 }
    }
}

proof fn lemma_count_too_long_append(a: Seq<SourceRule>, b: Seq<SourceRule>)
    ensures
        count_too_long(a + b) == count_too_long(a) + count_too_long(b),
    decreases b.len(),
{
    if b.len() > 0 {
        lemma_count_too_long_append(a, b.drop_last());
        assert((a + b).drop_last() =~= a + b.drop_last());
    } else {
        assert(a + b =~= a);
    }
}

proof fn lemma_count_too_long_none(rules: Seq<SourceRule>)
    requires
        forall|i: int| 0 <= i < rules.len() ==> !(#[trigger] rules[i] is PathTooLong),
    ensures
        count_too_long(rules) == 0,
    decreases rules.len(),
{
    if rules.len() > 0 {
        lemma_count_too_long_none(rules.drop_last());
    }
}

/// A file gets at most one path finding, and it gets one iff it is advised to
/// be shortened.
proof fn lemma_count_file_rules(file: FlacFile, has_targets: bool)
    ensures
        count_too_long(file_rules(file, has_targets)) == if file_too_long_path(file, has_targets)
            is Some {
            1nat
        } else {
            0
        },
{
    let p = path_rules(file, has_targets);
    let t = tag_rules(file.path, file.tags);
    let s = stream_rules(file.path, file.stream);
    lemma_count_too_long_none(t);
    lemma_count_too_long_none(s);
    lemma_count_too_long_append(p, t);
    lemma_count_too_long_append(p + t, s);
    assert(count_too_long(p) == if file_too_long_path(file, has_targets) is Some {
        1nat
    } else {
        0
    }) by {
        if file_too_long_path(file, has_targets) is Some {
            assert(p.drop_last() =~= Seq::<SourceRule>::empty());
            assert(count_too_long(p.drop_last()) == 0);
        } else {
            assert(p.len() == 0);
        }
    }
}

/// The track shortener is asked once for each file with a path that is too
/// long, and for no other: as many track names are advised as path findings
/// are reported.
pub proof fn lemma_one_track_advice_per_path_finding(files: Seq<FlacFile>, has_targets: bool)
    ensures
        too_long_files(files, has_targets).len() == count_too_long(files_rules(files, has_targets)),
    decreases files.len(),
{
    if files.len() > 0 {
        lemma_one_track_advice_per_path_finding(files.drop_last(), has_targets);
        lemma_count_file_rules(files.last(), has_targets);
        lemma_count_too_long_append(
            files_rules(files.drop_last(), has_targets),
            file_rules(files.last(), has_targets),
        );
    }
}

/// The album shortener is asked once iff the file-content phase reported some
/// path that is too long.
pub proof fn lemma_album_advice_iff_path_finding(
    directory: String,
    exists: bool,
    files: Seq<FlacFile>,
    has_targets: bool,
)
    ensures
        (tracks_to_shorten(exists, files, has_targets).len() > 0) == (count_too_long(
            flac_rules(directory, exists, files, has_targets),
        ) > 0),
{
    lemma_one_track_advice_per_path_finding(files, has_targets);
    let r = flac_rules(directory, exists, files, has_targets);
    if !exists {
        assert(r == seq![SourceRule::SourceDirectoryNotFound(directory)]);
        assert(r[0] == SourceRule::SourceDirectoryNotFound(directory));
        lemma_count_too_long_none(r);
    } else if files.len() == 0 {
        assert(r == seq![SourceRule::NoFlacFiles(directory)]);
        assert(r[0] == SourceRule::NoFlacFiles(directory));
        lemma_count_too_long_none(r);
    }
}

/// What the file-content phase found, and the names it advises to shorten.
pub struct FileCheckOutcome {
    /// The findings, in the order they were made.
    pub rules: Vec<SourceRule>,
    /// The files whose track names should be shortened, one entry per file.
    pub shorten_tracks: Vec<String>,
    /// Whether the album name should be shortened.
    pub shorten_album: bool,
}

fn tag_is_present(tag: &Option<String>) -> (r: bool)
    ensures
        r == tag_present(*tag),
{
    match tag {
        Some(v) => v.as_str().unicode_len() > 0,
        None => false,
    }
}

/// Check the tags read from the file at `path`.
pub fn tag_checks(path: &String, tags: &TrackTags) -> (r: Vec<SourceRule>)
    ensures
        r@ == tag_rules(*path, *tags),
{
    let mut rules: Vec<SourceRule> = Vec::new();
    if !tag_is_present(&tags.artist) {
        rules.push(SourceRule::MissingArtistTag(path.clone()));
    }
    if !tag_is_present(&tags.album) {
        rules.push(SourceRule::MissingAlbumTag(path.clone()));
    }
    if !tag_is_present(&tags.title) {
        rules.push(SourceRule::MissingTitleTag(path.clone()));
    }
    if !tag_is_present(&tags.track_number) {
        rules.push(SourceRule::MissingTrackNumberTag(path.clone()));
    }
    assert(rules@ =~= tag_rules(*path, *tags));
    rules
}

/// Check the stream of the file at `path`.
pub fn stream_checks(path: &String, stream: &StreamInfo) -> (r: Vec<SourceRule>)
    ensures
        r@ == stream_rules(*path, *stream),
{
    let mut rules: Vec<SourceRule> = Vec::new();
    if !stream.decoded {
        rules.push(SourceRule::CorruptStream(path.clone()));
    }
    let rate = stream.sample_rate;
    if !(rate == 44100 || rate == 48000 || rate == 88200 || rate == 96000 || rate == 176400
        || rate == 192000) {
        rules.push(SourceRule::UnsupportedSampleRate(path.clone()));
    }
    if !(1 <= stream.channels && stream.channels <= 2) {
        rules.push(SourceRule::UnsupportedChannels(path.clone()));
    }
    assert(rules@ =~= stream_rules(*path, *stream));
    rules
}

/// The path that is too long for a file whose transcodes would be written to
/// `sub_paths`, if any is.
pub fn path_check(sub_paths: &Vec<String>) -> (r: Option<String>)
    ensures
        r == too_long_path(sub_paths@),
{
    match max_transcode_sub_path(sub_paths) {
        Some(p) => {
            if byte_len(&p) > MAX_PATH_LENGTH {
                Some(p)
            } else {
                None
            }
        },
        None => None,
    }
}

/// Run the file-content phase over a source directory and the audio files
/// found in it. `files` is read only when the directory exists, and the paths
/// of transcodes only when some target format is eligible.
pub fn flac_checks(directory: &String, exists: bool, files: &Vec<FlacFile>, has_targets: bool) -> (r:
    FileCheckOutcome)
    ensures
        r.rules@ == flac_rules(*directory, exists, files@, has_targets),
        r.shorten_tracks@ == tracks_to_shorten(exists, files@, has_targets),
        r.shorten_album == (r.shorten_tracks@.len() > 0),
{
    if !exists {
        let rules = vec![SourceRule::SourceDirectoryNotFound(directory.clone())];
        assert(rules@ =~= flac_rules(*directory, exists, files@, has_targets));
        return FileCheckOutcome { rules, shorten_tracks: Vec::new(), shorten_album: false };
    }
    if files.len() == 0 {
        let rules = vec![SourceRule::NoFlacFiles(directory.clone())];
        assert(rules@ =~= flac_rules(*directory, exists, files@, has_targets));
        return FileCheckOutcome { rules, shorten_tracks: Vec::new(), shorten_album: false };
    }
    let mut rules: Vec<SourceRule> = Vec::new();
    let mut shorten_tracks: Vec<String> = Vec::new();
    let mut i: usize = 0;
    while i < files.len()
        invariant
            i <= files.len(),
            rules@ == files_rules(files@.subrange(0, i as int), has_targets),
            shorten_tracks@ == too_long_files(files@.subrange(0, i as int), has_targets),
        decreases files.len() - i,
    {
        let file = &files[i];
        let ghost before = rules@;
        assert(files@.subrange(0, i + 1).drop_last() =~= files@.subrange(0, i as int));
        assert(files@.subrange(0, i + 1).last() == files@[i as int]);
        if has_targets {
            match path_check(&file.transcode_sub_paths) {
                Some(p) => {
                    rules.push(SourceRule::PathTooLong(p));
                    shorten_tracks.push(file.path.clone());
                },
                None => {},
            }
        }
        let mut tag = tag_checks(&file.path, &file.tags);
        rules.append(&mut tag);
        let mut stream = stream_checks(&file.path, &file.stream);
        rules.append(&mut stream);
        assert(rules@ =~= before + file_rules(files@[i as int], has_targets));
        assert(shorten_tracks@ =~= too_long_files(files@.subrange(0, i + 1), has_targets));
        i = i + 1;
    }
    assert(files@.subrange(0, files.len() as int) =~= files@);
    let shorten_album = shorten_tracks.len() > 0;
    FileCheckOutcome { rules, shorten_tracks, shorten_album }
}

} // verus!
