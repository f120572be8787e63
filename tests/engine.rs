use caesura_verify::files::{
    flac_checks, max_transcode_sub_path, path_check, stream_checks, tag_checks,
    MAX_PATH_LENGTH,
};
use caesura_verify::report::{debug_errors, warn_errors, CheckPhase, ReportLine};
use caesura_verify::rules::SourceRule;
use caesura_verify::source::{FlacFile, Source, StreamInfo, TargetFormat, TorrentInfo, TrackTags};
use caesura_verify::verify::{api_checks, Phase, VerifyCommand, VerifyOptions};

fn torrent() -> TorrentInfo {
    TorrentInfo { id: 42, scene: false, lossy_master_approved: None, lossy_web_approved: None }
}

fn source(torrent: TorrentInfo) -> Source {
    Source { directory: "/music/Artist - Album (2020) [FLAC]".to_string(), torrent }
}

fn tags() -> TrackTags {
    TrackTags {
        artist: Some("Artist".to_string()),
        album: Some("Album".to_string()),
        title: Some("Song".to_string()),
        track_number: Some("1".to_string()),
    }
}

fn stream() -> StreamInfo {
    StreamInfo { decoded: true, sample_rate: 44100, channels: 2 }
}

fn flac(name: &str, sub_path: &str) -> FlacFile {
    FlacFile {
        path: format!("/music/Artist - Album (2020) [FLAC]/{}", name),
        transcode_sub_paths: vec![sub_path.to_string()],
        tags: tags(),
        stream: stream(),
    }
}

fn long_path() -> String {
    format!("Artist - Album (2020) [MP3 V0]/{}.mp3", "x".repeat(200))
}

fn run(
    source: &Source,
    targets: &Vec<TargetFormat>,
    exists: bool,
    files: &Vec<FlacFile>,
    options: VerifyOptions,
    fetched: Vec<SourceRule>,
) -> (bool, Vec<SourceRule>, Vec<String>, bool) {
    let mut command = VerifyCommand::new(options);
    command.check_policy(source, targets);
    let advice = command.check_files(exists, files);
    command.check_hash(fetched);
    let (verified, rules) = command.verdict();
    (verified, rules, advice.tracks, advice.album)
}

#[test]
fn clean_policy_passes() {
    let rules = api_checks(&source(torrent()), &vec![TargetFormat::Mp3V0]);
    assert_eq!(rules, vec![]);
    let approved_false = TorrentInfo {
        lossy_master_approved: Some(false),
        lossy_web_approved: Some(false),
        ..torrent()
    };
    assert_eq!(api_checks(&source(approved_false), &vec![TargetFormat::Flac]), vec![]);
}

#[test]
fn scene_flag_always_rejected() {
    let scene = TorrentInfo { scene: true, ..torrent() };
    assert_eq!(
        api_checks(&source(scene), &vec![TargetFormat::Mp3V0]),
        vec![SourceRule::SceneNotSupported]
    );
    let all = TorrentInfo {
        scene: true,
        lossy_master_approved: Some(true),
        lossy_web_approved: Some(true),
        ..torrent()
    };
    let rules = api_checks(&source(all), &vec![]);
    assert!(rules.contains(&SourceRule::SceneNotSupported));
    assert_eq!(
        rules,
        vec![
            SourceRule::SceneNotSupported,
            SourceRule::LossyMasterNeedsApproval,
            SourceRule::LossyWebNeedsApproval,
            SourceRule::NoTranscodeFormats,
        ]
    );
}

#[test]
fn approval_flags_set_true_are_rejected() {
    let master = TorrentInfo { lossy_master_approved: Some(true), ..torrent() };
    assert_eq!(
        api_checks(&source(master), &vec![TargetFormat::Mp3V0]),
        vec![SourceRule::LossyMasterNeedsApproval]
    );
    let web = TorrentInfo { lossy_web_approved: Some(true), ..torrent() };
    assert_eq!(
        api_checks(&source(web), &vec![TargetFormat::Mp3V0]),
        vec![SourceRule::LossyWebNeedsApproval]
    );
}

#[test]
fn missing_directory_is_single_rule() {
    let dir = "/missing".to_string();
    let files = vec![flac("01.flac", &long_path())];
    let first = flac_checks(&dir, false, &files, true);
    assert_eq!(first.rules, vec![SourceRule::SourceDirectoryNotFound(dir.clone())]);
    assert!(first.shorten_tracks.is_empty());
    assert!(!first.shorten_album);
    let second = flac_checks(&dir, false, &vec![], true);
    assert_eq!(second.rules, first.rules);
}

#[test]
fn empty_directory_has_no_flac_files() {
    let dir = "/music/empty".to_string();
    let outcome = flac_checks(&dir, true, &vec![], true);
    assert_eq!(outcome.rules, vec![SourceRule::NoFlacFiles(dir)]);
}

#[test]
fn no_targets_skips_path_evaluation() {
    let src = source(torrent());
    let targets: Vec<TargetFormat> = vec![];
    assert_eq!(api_checks(&src, &targets), vec![SourceRule::NoTranscodeFormats]);
    let files = vec![flac("01.flac", &long_path())];
    let outcome = flac_checks(&src.directory, true, &files, false);
    assert_eq!(outcome.rules, vec![]);
    assert!(outcome.shorten_tracks.is_empty());
    assert!(!outcome.shorten_album);
}

#[test]
fn skipped_hash_check_is_empty() {
    let mut command = VerifyCommand::new(VerifyOptions { skip_hash_check: true });
    assert!(!command.needs_hash_check());
    command.check_policy(&source(torrent()), &vec![TargetFormat::Mp3V0]);
    command.check_files(true, &vec![flac("01.flac", "a.mp3")]);
    command.check_hash(vec![SourceRule::IncorrectHash("bad".to_string())]);
    assert_eq!(command.verdict(), (true, vec![]));
}

#[test]
fn hash_findings_are_reported_last() {
    let scene = TorrentInfo { scene: true, ..torrent() };
    let mut bad = flac("01.flac", "a.mp3");
    bad.tags.title = None;
    let options = VerifyOptions { skip_hash_check: false };
    let fetched = vec![SourceRule::IncorrectHash("01.flac".to_string())];
    let (verified, rules, _, _) =
        run(&source(scene), &vec![TargetFormat::Mp3V0], true, &vec![bad.clone()], options, fetched);
    assert!(!verified);
    assert_eq!(
        rules,
        vec![
            SourceRule::SceneNotSupported,
            SourceRule::MissingTitleTag(bad.path.clone()),
            SourceRule::IncorrectHash("01.flac".to_string()),
        ]
    );
}

#[test]
fn verify_twice_gives_same_result() {
    let src = source(TorrentInfo { lossy_web_approved: Some(true), ..torrent() });
    let files = vec![flac("01.flac", &long_path()), flac("02.flac", "b.mp3")];
    let options = VerifyOptions { skip_hash_check: false };
    let first = run(&src, &vec![TargetFormat::Mp3V0], true, &files, options, vec![]);
    let second = run(&src, &vec![TargetFormat::Mp3V0], true, &files, options, vec![]);
    assert_eq!(first, second);
}

#[test]
fn scenario_two_valid_files_verified() {
    let src = source(torrent());
    let files = vec![flac("01.flac", "Artist/01.mp3"), flac("02.flac", "Artist/02.mp3")];
    let options = VerifyOptions { skip_hash_check: true };
    let (verified, rules, tracks, album) =
        run(&src, &vec![TargetFormat::Mp3V0], true, &files, options, vec![]);
    assert!(verified);
    assert_eq!(rules, vec![]);
    assert!(tracks.is_empty());
    assert!(!album);
}

#[test]
fn scenario_scene_release_rejected() {
    let src = source(TorrentInfo { scene: true, ..torrent() });
    let files = vec![flac("01.flac", "Artist/01.mp3")];
    let options = VerifyOptions { skip_hash_check: true };
    let (verified, rules, _, _) =
        run(&src, &vec![TargetFormat::Mp3V0], true, &files, options, vec![]);
    assert!(!verified);
    assert_eq!(rules, vec![SourceRule::SceneNotSupported]);
}

#[test]
fn scenario_path_too_long() {
    let src = source(torrent());
    let long = long_path();
    let files = vec![flac("01.flac", &long), flac("02.flac", "short.mp3")];
    let options = VerifyOptions { skip_hash_check: true };
    let (verified, rules, tracks, album) =
        run(&src, &vec![TargetFormat::Mp3V0], true, &files, options, vec![]);
    assert!(!verified);
    assert_eq!(rules, vec![SourceRule::PathTooLong(long)]);
    assert_eq!(tracks, vec![files[0].path.clone()]);
    assert!(album);
}

#[test]
fn longest_sub_path_is_chosen() {
    let paths = vec!["ab".to_string(), "abcd".to_string(), "wxyz".to_string(), "a".to_string()];
    assert_eq!(max_transcode_sub_path(&paths), Some("abcd".to_string()));
    assert_eq!(max_transcode_sub_path(&vec![]), None);
    // byte length, not character count
    let paths = vec!["éé".to_string(), "abc".to_string()];
    assert_eq!(max_transcode_sub_path(&paths), Some("éé".to_string()));
}

#[test]
fn path_limit_is_exclusive() {
    let at_limit = "a".repeat(MAX_PATH_LENGTH);
    let over = "a".repeat(MAX_PATH_LENGTH + 1);
    assert_eq!(path_check(&vec![at_limit.clone()]), None);
    assert_eq!(path_check(&vec![at_limit, over.clone()]), Some(over));
}

#[test]
fn missing_tags_each_reported() {
    let path = "01.flac".to_string();
    assert_eq!(tag_checks(&path, &tags()), vec![]);
    let empty = TrackTags { artist: None, album: Some(String::new()), title: None, track_number: None };
    assert_eq!(
        tag_checks(&path, &empty),
        vec![
            SourceRule::MissingArtistTag(path.clone()),
            SourceRule::MissingAlbumTag(path.clone()),
            SourceRule::MissingTitleTag(path.clone()),
            SourceRule::MissingTrackNumberTag(path.clone()),
        ]
    );
}

#[test]
fn stream_problems_each_reported() {
    let path = "01.flac".to_string();
    assert_eq!(stream_checks(&path, &stream()), vec![]);
    assert_eq!(
        stream_checks(&path, &StreamInfo { decoded: true, sample_rate: 192000, channels: 1 }),
        vec![]
    );
    let broken = StreamInfo { decoded: false, sample_rate: 22050, channels: 6 };
    assert_eq!(
        stream_checks(&path, &broken),
        vec![
            SourceRule::CorruptStream(path.clone()),
            SourceRule::UnsupportedSampleRate(path.clone()),
            SourceRule::UnsupportedChannels(path.clone()),
        ]
    );
}

#[test]
fn file_rules_keep_detection_order() {
    let long = long_path();
    let mut file = flac("01.flac", &long);
    file.tags.artist = None;
    file.stream.channels = 0;
    let outcome = flac_checks(&"/music".to_string(), true, &vec![file.clone()], true);
    assert_eq!(
        outcome.rules,
        vec![
            SourceRule::PathTooLong(long),
            SourceRule::MissingArtistTag(file.path.clone()),
            SourceRule::UnsupportedChannels(file.path.clone()),
        ]
    );
}

#[test]
fn phase_report_lines() {
    assert_eq!(debug_errors(&vec![], CheckPhase::Api), vec![ReportLine::Passed(CheckPhase::Api)]);
    let errors = vec![SourceRule::SceneNotSupported, SourceRule::NoTranscodeFormats];
    assert_eq!(
        debug_errors(&errors, CheckPhase::Flac),
        vec![
            ReportLine::Failed(CheckPhase::Flac),
            ReportLine::Finding(SourceRule::SceneNotSupported),
            ReportLine::Finding(SourceRule::NoTranscodeFormats),
        ]
    );
}

#[test]
fn warning_messages() {
    let errors = vec![
        SourceRule::SceneNotSupported,
        SourceRule::PathTooLong("a/b.mp3".to_string()),
    ];
    assert_eq!(
        warn_errors(errors),
        vec![
            "Scene releases are not supported".to_string(),
            "Transcode path is too long: a/b.mp3".to_string(),
        ]
    );
    assert_eq!(
        SourceRule::IncorrectHash("x".to_string()).message(),
        "Files do not match the torrent: x"
    );
}

#[test]
fn phases_advance_in_order() {
    let mut command = VerifyCommand::new(VerifyOptions { skip_hash_check: false });
    assert_eq!(command.phase(), Phase::Start);
    assert!(command.needs_hash_check());
    command.check_policy(&source(torrent()), &vec![TargetFormat::Flac]);
    assert_eq!(command.phase(), Phase::PolicyChecked);
    command.check_files(false, &vec![]);
    assert_eq!(command.phase(), Phase::FileChecked);
    command.check_hash(vec![]);
    assert_eq!(command.phase(), Phase::HashChecked);
    let (verified, rules) = command.verdict();
    assert!(!verified);
    assert_eq!(
        rules,
        vec![SourceRule::SourceDirectoryNotFound("/music/Artist - Album (2020) [FLAC]".to_string())]
    );
}

#[test]
fn one_track_advice_per_long_file_and_one_album_advice() {
    let long = long_path();
    let files = vec![flac("01.flac", &long), flac("02.flac", "ok.mp3"), flac("03.flac", &long)];
    let outcome = flac_checks(&"/music".to_string(), true, &files, true);
    assert_eq!(
        outcome.rules,
        vec![SourceRule::PathTooLong(long.clone()), SourceRule::PathTooLong(long)]
    );
    assert_eq!(outcome.shorten_tracks, vec![files[0].path.clone(), files[2].path.clone()]);
    assert!(outcome.shorten_album);
}
