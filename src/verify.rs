//! The verification engine: the policy phase, and the sequence of the policy,
//! file-content and hash phases that ends in one verdict.
use vstd::prelude::*;
use crate::files::{flac_checks, flac_rules, lemma_files_rules_without_targets, tracks_to_shorten};
use crate::rules::SourceRule;
use crate::source::{FlacFile, Source, TargetFormat, TorrentInfo};

verus! {

/// Whether an approval flag is explicitly set.
pub open spec fn flag_set(flag: Option<bool>) -> bool {
    flag == Some(true)
}

/// The findings of the policy phase on a torrent for which `target_count`
/// target formats are eligible: scene, lossy master, lossy web, no target.
pub open spec fn policy_rules(torrent: TorrentInfo, target_count: nat) -> Seq<SourceRule> {
    (if torrent.scene { seq![SourceRule::SceneNotSupported] } else { seq![] }) + (if flag_set(
        torrent.lossy_master_approved,
    ) {
        seq![SourceRule::LossyMasterNeedsApproval]
    } else {
        seq![]
    }) + (if flag_set(torrent.lossy_web_approved) {
        seq![SourceRule::LossyWebNeedsApproval]
    } else {
        seq![]
    }) + (if target_count == 0 { seq![SourceRule::NoTranscodeFormats] } else { seq![] })
}

/// Run the policy phase on a source whose eligible target formats are `targets`.
pub fn api_checks(source: &Source, targets: &Vec<TargetFormat>) -> (r: Vec<SourceRule>)
    ensures
        r@ == policy_rules(source.torrent, targets@.len()),
{
    let mut errors: Vec<SourceRule> = Vec::new();
    if source.torrent.scene {
        errors.push(SourceRule::SceneNotSupported);
    }
    if source.torrent.lossy_master_approved == Some(true) {
        errors.push(SourceRule::LossyMasterNeedsApproval);
    }
    if source.torrent.lossy_web_approved == Some(true) {
        errors.push(SourceRule::LossyWebNeedsApproval);
    }
    if targets.len() == 0 {
        errors.push(SourceRule::NoTranscodeFormats);
    }
    assert(errors@ =~= policy_rules(source.torrent, targets@.len()));
    errors
}

/// The findings of the hash phase: none when it is skipped, else those of the
/// torrent verifier.
pub open spec fn hash_rules(skip_hash_check: bool, fetched: Seq<SourceRule>) -> Seq<SourceRule> {
    if skip_hash_check { seq![] } else { fetched }
}

/// The verdict and every finding of a verification, in phase order.
pub open spec fn verify_outcome(
    source: Source,
    target_count: nat,
    exists: bool,
    files: Seq<FlacFile>,
    skip_hash_check: bool,
    fetched: Seq<SourceRule>,
) -> (bool, Seq<SourceRule>) {
    let rules = policy_rules(source.torrent, target_count) + flac_rules(
        source.directory,
        exists,
        files,
        target_count > 0,
    ) + hash_rules(skip_hash_check, fetched);
    (rules.len() == 0, rules)
}

/// A torrent with no policy flag set, for which some target format is eligible,
/// passes the policy phase.
pub proof fn lemma_clean_policy_passes(torrent: TorrentInfo, target_count: nat)
    requires
        !torrent.scene,
        !flag_set(torrent.lossy_master_approved),
        !flag_set(torrent.lossy_web_approved),
        target_count > 0,
    ensures
        policy_rules(torrent, target_count) == Seq::<SourceRule>::empty(),
{
    assert(policy_rules(torrent, target_count) =~= Seq::<SourceRule>::empty());
}

/// A scene release always fails the policy phase with `SceneNotSupported`,
/// whatever its other flags and target formats.
pub proof fn lemma_scene_always_rejected(torrent: TorrentInfo, target_count: nat)
    requires
        torrent.scene,
    ensures
        policy_rules(torrent, target_count).contains(SourceRule::SceneNotSupported),
{
    assert(policy_rules(torrent, target_count)[0] == SourceRule::SceneNotSupported);
}

/// With no eligible target format the policy phase reports `NoTranscodeFormats`,
/// and the file-content phase evaluates no output path: it reports no path that
/// is too long and advises no name to shorten.
pub proof fn lemma_no_targets_no_path_check(
    torrent: TorrentInfo,
    directory: String,
    exists: bool,
    files: Seq<FlacFile>,
)
    ensures
        policy_rules(torrent, 0).contains(SourceRule::NoTranscodeFormats),
        forall|i: int|
            0 <= i < flac_rules(directory, exists, files, false).len() ==> !(#[trigger] flac_rules(
                directory,
                exists,
                files,
                false,
            )[i] is PathTooLong),
        tracks_to_shorten(exists, files, false).len() == 0,
{
    let rules = policy_rules(torrent, 0);
    assert(rules[rules.len() - 1] == SourceRule::NoTranscodeFormats);
    lemma_files_rules_without_targets(files);
}

/// When the hash check is skipped the hash phase finds nothing, whatever the
/// torrent verifier would have found; `VerifyCommand::needs_hash_check` then
/// says not to fetch the torrent.
pub proof fn lemma_skipped_hash_check_is_empty(fetched: Seq<SourceRule>)
    ensures
        hash_rules(true, fetched) == Seq::<SourceRule>::empty(),
{
    assert(hash_rules(true, fetched) =~= Seq::<SourceRule>::empty());
}

/// The options of a verification.
#[derive(Debug, Clone, Copy, PartialEq, Eq, Structural)]
pub struct VerifyOptions {
    /// Skip the hash check against the torrent.
    pub skip_hash_check: bool,
}

/// How far a verification has come.
#[derive(Debug, Clone, Copy, PartialEq, Eq, Structural)]
pub enum Phase {
    Start,
    PolicyChecked,
    FileChecked,
    HashChecked,
}

/// The advice of the file-content phase on names that are too long.
pub struct ShortenAdvice {
    /// The files whose track names should be shortened, one entry per file.
    pub tracks: Vec<String>,
    /// Whether the album name should be shortened.
    pub album: bool,
}

/// One verification of one source. The phases run in a fixed order: policy,
/// file content, then hash; every phase runs whatever the earlier ones found,
/// and the verdict is read at the end.
pub struct VerifyCommand {
    options: VerifyOptions,
    phase: Phase,
    api_errors: Vec<SourceRule>,
    flac_errors: Vec<SourceRule>,
    hash_errors: Vec<SourceRule>,
    has_targets: bool,
    directory: String,
    source: Ghost<Source>,
    target_count: Ghost<nat>,
    exists: Ghost<bool>,
    files: Ghost<Seq<FlacFile>>,
    fetched: Ghost<Seq<SourceRule>>,
}

impl VerifyCommand {
    pub closed spec fn spec_phase(&self) -> Phase {
        self.phase
    }

    pub closed spec fn spec_options(&self) -> VerifyOptions {
        self.options
    }

    /// The source the phases were run on.
    pub closed spec fn spec_source(&self) -> Source {
        self.source@
    }

    /// The number of eligible target formats the phases were given.
    pub closed spec fn spec_target_count(&self) -> nat {
        self.target_count@
    }

    /// Whether the source directory was found.
    pub closed spec fn spec_exists(&self) -> bool {
        self.exists@
    }

    /// The audio files the file-content phase was given.
    pub closed spec fn spec_files(&self) -> Seq<FlacFile> {
        self.files@
    }

    /// The findings the torrent verifier handed back.
    pub closed spec fn spec_fetched(&self) -> Seq<SourceRule> {
        self.fetched@
    }

    /// The findings of the phases run so far, in phase order.
    pub closed spec fn spec_rules(&self) -> Seq<SourceRule> {
        self.api_errors@ + self.flac_errors@ + self.hash_errors@
    }

    /// What the phases run so far have recorded, each from the inputs it was given.
    pub closed spec fn wf(&self) -> bool {
        &&& self.phase is Start ==> self.api_errors@.len() == 0
        &&& !(self.phase is Start) ==> self.directory == self.source@.directory
        &&& !(self.phase is Start) ==> self.has_targets == (self.target_count@ > 0)
        &&& !(self.phase is Start) ==> self.api_errors@ == policy_rules(
            self.source@.torrent,
            self.target_count@,
        )
        &&& (self.phase is Start || self.phase is PolicyChecked) ==> self.flac_errors@.len() == 0
        &&& (self.phase is FileChecked || self.phase is HashChecked) ==> self.flac_errors@
            == flac_rules(self.source@.directory, self.exists@, self.files@, self.target_count@ > 0)
        &&& !(self.phase is HashChecked) ==> self.hash_errors@.len() == 0
        &&& self.phase is HashChecked ==> self.hash_errors@ == hash_rules(
            self.options.skip_hash_check,
            self.fetched@,
        )
    }

    /// A verification that has run no phase yet.
    pub fn new(options: VerifyOptions) -> (r: Self)
        ensures
            r.wf(),
            r.spec_phase() == Phase::Start,
            r.spec_options() == options,
            r.spec_rules().len() == 0,
    {
        VerifyCommand {
            options,
            phase: Phase::Start,
            api_errors: Vec::new(),
            flac_errors: Vec::new(),
            hash_errors: Vec::new(),
            has_targets: false,
            directory: String::new(),
            source: Ghost(arbitrary()),
            target_count: Ghost(0),
            exists: Ghost(false),
            files: Ghost(Seq::empty()),
            fetched: Ghost(Seq::empty()),
        }
    }

    /// How far the verification has come.
    pub fn phase(&self) -> (r: Phase)
        ensures
            r == self.spec_phase(),
    {
        self.phase
    }

    /// The options of the verification.
    pub fn options(&self) -> (r: VerifyOptions)
        ensures
            r == self.spec_options(),
    {
        self.options
    }

    /// Run the policy phase on `source`, whose eligible target formats are `targets`.
    pub fn check_policy(&mut self, source: &Source, targets: &Vec<TargetFormat>) -> (r: Vec<
        SourceRule,
    >)
        requires
            old(self).wf(),
            old(self).spec_phase() == Phase::Start,
        ensures
            final(self).wf(),
            final(self).spec_phase() == Phase::PolicyChecked,
            final(self).spec_options() == old(self).spec_options(),
            final(self).spec_source() == *source,
            final(self).spec_target_count() == targets@.len(),
            r@ == policy_rules(source.torrent, targets@.len()),
            final(self).spec_rules() == r@,
    {
        let errors = api_checks(source, targets);
        self.api_errors = errors.clone();
        self.source = Ghost(*source);
        self.target_count = Ghost(targets@.len());
        self.has_targets = targets.len() > 0;
        self.directory = source.directory.clone();
        self.phase = Phase::PolicyChecked;
        assert(self.spec_rules() =~= errors@);
        errors
    }

    /// Run the file-content phase on the source the policy phase was run on:
    /// `exists` tells whether its directory exists and is a directory, and
    /// `files` are the audio files found in it. Every phase runs, whatever the
    /// policy phase found.
    pub fn check_files(&mut self, exists: bool, files: &Vec<FlacFile>) -> (r: ShortenAdvice)
        requires
            old(self).wf(),
            old(self).spec_phase() == Phase::PolicyChecked,
        ensures
            final(self).wf(),
            final(self).spec_phase() == Phase::FileChecked,
            final(self).spec_options() == old(self).spec_options(),
            final(self).spec_source() == old(self).spec_source(),
            final(self).spec_target_count() == old(self).spec_target_count(),
            final(self).spec_exists() == exists,
            final(self).spec_files() == files@,
            final(self).spec_rules() == old(self).spec_rules() + flac_rules(
                old(self).spec_source().directory,
                exists,
                files@,
                old(self).spec_target_count() > 0,
            ),
            r.tracks@ == tracks_to_shorten(exists, files@, old(self).spec_target_count() > 0),
            r.album == (r.tracks@.len() > 0),
    {
        let outcome = flac_checks(&self.source_directory(), exists, files, self.has_targets);
        self.flac_errors = outcome.rules;
        self.exists = Ghost(exists);
        self.files = Ghost(files@);
        self.phase = Phase::FileChecked;
        assert(self.spec_rules() =~= old(self).spec_rules() + self.flac_errors@);
        ShortenAdvice { tracks: outcome.shorten_tracks, album: outcome.shorten_album }
    }

    /// Whether the hash check is to be run, that is whether the torrent is to be
    /// fetched and verified against the files on disk.
    pub fn needs_hash_check(&self) -> (r: bool)
        ensures
            r == !self.spec_options().skip_hash_check,
    {
        !self.options.skip_hash_check
    }

    /// Record the hash phase. `fetched` is what the torrent verifier found; it is
    /// ignored where the hash check is skipped.
    pub fn check_hash(&mut self, fetched: Vec<SourceRule>)
        requires
            old(self).wf(),
            old(self).spec_phase() == Phase::FileChecked,
        ensures
            final(self).wf(),
            final(self).spec_phase() == Phase::HashChecked,
            final(self).spec_options() == old(self).spec_options(),
            final(self).spec_source() == old(self).spec_source(),
            final(self).spec_target_count() == old(self).spec_target_count(),
            final(self).spec_exists() == old(self).spec_exists(),
            final(self).spec_files() == old(self).spec_files(),
            final(self).spec_fetched() == fetched@,
            final(self).spec_rules() == old(self).spec_rules() + hash_rules(
                old(self).spec_options().skip_hash_check,
                fetched@,
            ),
    {
        self.fetched = Ghost(fetched@);
        if !self.options.skip_hash_check {
            self.hash_errors = fetched;
        }
        self.phase = Phase::HashChecked;
        assert(self.hash_errors@ =~= hash_rules(self.options.skip_hash_check, fetched@));
        assert(self.spec_rules() =~= old(self).spec_rules() + hash_rules(
            old(self).spec_options().skip_hash_check,
            fetched@,
        ));
    }

    /// Whether the source is verified, which holds iff no phase found anything,
    /// and all findings: policy findings first, then file-content findings,
    /// then hash findings.
    pub fn verdict(&self) -> (r: (bool, Vec<SourceRule>))
        requires
            self.wf(),
            self.spec_phase() == Phase::HashChecked,
        ensures
            (r.0, r.1@) == verify_outcome(
                self.spec_source(),
                self.spec_target_count(),
                self.spec_exists(),
                self.spec_files(),
                self.spec_options().skip_hash_check,
                self.spec_fetched(),
            ),
            r.1@ == self.spec_rules(),
    {
        let verified = self.api_errors.len() == 0 && self.flac_errors.len() == 0
            && self.hash_errors.len() == 0;
        let mut rules = self.api_errors.clone();
        let mut flac = self.flac_errors.clone();
        let mut hash = self.hash_errors.clone();
        rules.append(&mut flac);
        rules.append(&mut hash);
        assert(rules@ =~= self.spec_rules());
        (verified, rules)
    }

    /// Two verifications that ran every phase on the same source, options and
    /// outside results report the same verdict and the same findings.
    pub proof fn lemma_verify_idempotent(c1: &VerifyCommand, c2: &VerifyCommand)
        requires
            c1.wf(),
            c2.wf(),
            c1.spec_phase() == Phase::HashChecked,
            c2.spec_phase() == Phase::HashChecked,
            c1.spec_options() == c2.spec_options(),
            c1.spec_source() == c2.spec_source(),
            c1.spec_target_count() == c2.spec_target_count(),
            c1.spec_exists() == c2.spec_exists(),
            c1.spec_files() == c2.spec_files(),
            c1.spec_fetched() == c2.spec_fetched(),
        ensures
            c1.spec_rules() == c2.spec_rules(),
            (c1.spec_rules().len() == 0) == (c2.spec_rules().len() == 0),
    {
    }

    /// The directory of the source the policy phase was run on.
    fn source_directory(&self) -> (r: String)
        requires
            self.wf(),
            !(self.spec_phase() is Start),
        ensures
            r == self.spec_source().directory,
    {
        self.directory.clone()
    }
}

} // verus!
