use vstd::prelude::*;

use crate::args::{opt_items, repeated, switch, value_opt};
use crate::config::{ResticConfig, ResticTarget};
use crate::credentials::{opt_view, pair_views, target_setup, SecretFiles};
use crate::error::{exit_result, exit_status_result, ResticError};
use crate::lineage::{carries, current_head, find_head, lemma_no_head, Snapshot};
use crate::restic::{
    compression, concurrency, copy_strings, dry_args, snapshots_args,
    snapshots_command, untag_args, untag_command, ResticBackupCommandArgs,
};
use crate::text::{decimal_of, lemma_views_push, views};

verus! {

/// The backend option as a list of at most one item.
pub open spec fn opt_list(o: Option<Seq<char>>) -> Seq<Seq<char>> {
    match o {
        Some(x) => seq![x],
        None => Seq::empty(),
    }
}

/// The two lineage tags of a new archive: this machine's head marker and the
/// identifier of the snapshot it supersedes (empty when there is none).
pub open spec fn lineage_tags(head: Seq<char>, parent: Seq<char>) -> Seq<Seq<char>> {
    seq![head, "parent:"@ + parent]
}

/// The archive command of job `c` on one repository: the configured tags
/// followed by `extra` tags, structured output always on.
pub open spec fn archive_args(
    c: ResticConfig,
    dirs: Seq<Seq<char>>,
    repo: Seq<char>,
    opt: Option<Seq<char>>,
    extra: Seq<Seq<char>>,
    dry: bool,
) -> Seq<Seq<char>> {
    seq!["restic"@, "backup"@] + repeated("--exclude"@, opt_items(c.exclude)) + repeated(
        "--exclude-if-present"@,
        opt_items(c.exclude_if_present),
    ) + switch(c.one_file_system, "--one-file-system"@) + seq![
        "--read-concurrency"@,
        decimal_of(concurrency(c) as nat),
    ] + repeated("--tag"@, opt_items(c.tags) + extra) + switch(c.reread, "--force"@) + switch(
        c.exclude_caches,
        "--exclude-caches"@,
    ) + repeated("-o"@, opt_list(opt)) + dry_args(dry) + seq!["--compression"@, compression(c)]
        + switch(c.quiet, "--quiet"@) + seq!["--json"@] + value_opt(c.host, "--host"@) + seq![
        "-r"@,
        repo,
    ] + dirs
}

/// The archive command of job `c` on one repository, with the lineage tags.
pub fn archive_command(
    c: &ResticConfig,
    dirs: &Vec<String>,
    repo: &str,
    opt: &Option<String>,
    head: &str,
    parent: &str,
    dry: bool,
) -> (r: Vec<String>)
    ensures
        views(r@) == archive_args(
            *c,
            views(dirs@),
            repo@,
            opt_view(*opt),
            lineage_tags(head@, parent@),
            dry,
        ),
{
    let mut a = ResticBackupCommandArgs::from_config(c);
    let h = head.to_owned();
    let mut p = "parent:".to_owned();
    p.append(parent);
    proof {
        lemma_views_push(a.tag@, h);
        lemma_views_push(a.tag@.push(h), p);
    }
    a.tag.push(h);
    a.tag.push(p);
    match opt {
        Some(o) => {
            let oc = o.clone();
            proof {
                lemma_views_push(a.option@, oc);
            }
            a.option.push(oc);
        },
        None => {},
    }
    a.dry_run = dry;
    a.json = true;
    a.repo = repo.to_owned();
    a.positional_0_dir = copy_strings(dirs);
    let r = a.to_args();
    assert(views(a.tag@) =~= opt_items(c.tags) + lineage_tags(head@, parent@));
    assert(views(a.option@) =~= opt_list(opt_view(*opt)));
    assert(switch(Some(a.one_file_system), "--one-file-system"@) == switch(
        c.one_file_system,
        "--one-file-system"@,
    ));
    assert(switch(Some(a.reread), "--force"@) == switch(c.reread, "--force"@));
    assert(switch(Some(a.exclude_caches), "--exclude-caches"@) == switch(
        c.exclude_caches,
        "--exclude-caches"@,
    ));
    assert(switch(Some(a.quiet), "--quiet"@) == switch(c.quiet, "--quiet"@));
    assert(switch(Some(a.json), "--json"@) =~= seq!["--json"@]);
    r
}

/// Where the run on one target stands.
pub enum Stage {
    /// Waiting for the snapshot listing.
    Listing,
    /// Waiting for the head tag to be removed from the previous head.
    Releasing,
    /// Waiting for the archive run; `true` when a head tag was removed first.
    Archiving(bool),
    /// Finished with this outcome.
    Done(Result<(), ResticError>),
}

/// What the caller must do next for a target.
pub enum Action {
    /// List the snapshots with this command and report them.
    List(Vec<String>),
    /// Remove the head tag with this command and report the identifier that
    /// the edited snapshot now has.
    Untag(Vec<String>),
    /// Create the archive with this command and report the exit status.
    Archive(Vec<String>),
    /// Nothing is left to do.
    Finished,
}

/// What the caller reports back.
pub enum Event {
    /// The listing, or `None` when it failed.
    Listed(Option<Vec<Snapshot>>),
    /// The new identifier of the edited snapshot, or `None` when the edit failed.
    Untagged(Option<String>),
    /// The exit status of the archive run, `None` when it could not run.
    Exited(Option<i32>),
}

/// An action as seen by the proofs: its kind (0 list, 1 untag, 2 archive,
/// 3 finished) and its arguments.
pub open spec fn action_view(a: Action) -> (int, Seq<Seq<char>>) {
    match a {
        Action::List(v) => (0, views(v@)),
        Action::Untag(v) => (1, views(v@)),
        Action::Archive(v) => (2, views(v@)),
        Action::Finished => (3, Seq::empty()),
    }
}

/// Whether `e` answers what stage `s` waits for.
pub open spec fn answers(s: Stage, e: Event) -> bool {
    match s {
        Stage::Listing => e is Listed,
        Stage::Releasing => e is Untagged,
        Stage::Archiving(_) => e is Exited,
        Stage::Done(_) => false,
    }
}

/// The outcome of an archive run: its exit status, except that after the
/// head tag was released a failure that produced no archive (anything but
/// `Incomplete`, whose partial archive carries the new head) is reported as
/// `HeadReleased`.
pub open spec fn archive_outcome(released: bool, code: Option<i32>) -> Result<(), ResticError> {
    if released && exit_result(code) is Err && exit_result(code) != Err::<(), ResticError>(
        ResticError::Incomplete,
    ) {
        Err(ResticError::HeadReleased(code))
    } else {
        exit_result(code)
    }
}

/// One archive job on one target: the lineage protocol followed by the
/// archive run.
pub struct TargetRun {
    /// Name of the target.
    pub name: String,
    /// Repository locator.
    pub repo: String,
    /// Environment of every command on this target.
    pub env: Vec<(String, String)>,
    /// Backend option, if any.
    pub option: Option<String>,
    /// This machine's head marker.
    pub head: String,
    /// Dry run: nothing is changed on the target.
    pub dry: bool,
    pub stage: Stage,
}

/// The fields of a run that no event changes.
pub open spec fn same_setup(a: TargetRun, b: TargetRun) -> bool {
    a.name == b.name && a.repo == b.repo && a.env == b.env && a.option == b.option && a.head
        == b.head && a.dry == b.dry
}

impl TargetRun {
    /// Starts the run on `target`: credentials first (a failure ends the run
    /// on this target at once), then the listing.
    pub fn start(name: String, target: &ResticTarget, files: &SecretFiles, head: &str, dry: bool) -> (r: (TargetRun, Action))
        ensures
            r.0.name == name,
            r.0.repo == target.repo,
            r.0.head@ == head@,
            r.0.dry == dry,
            match target_setup(*target, files@) {
                Err(e) => r.0.stage == Stage::Done(Err(e)) && r.1 is Finished,
                Ok((env, opt)) => pair_views(r.0.env@) == env && opt_view(r.0.option) == opt
                    && r.0.stage == Stage::Listing && action_view(r.1) == (
                    0int,
                    snapshots_args(target.repo@, opt),
                ),
            },
    {
        match target.setup_env(files) {
            Err(e) => (
                TargetRun {
                    name,
                    repo: target.repo.clone(),
                    env: Vec::new(),
                    option: None,
                    head: head.to_owned(),
                    dry,
                    stage: Stage::Done(Err(e)),
                },
                Action::Finished,
            ),
            Ok((env, option)) => {
                let cmd = snapshots_command(target.repo.as_str(), &option);
                (
                    TargetRun {
                        name,
                        repo: target.repo.clone(),
                        env,
                        option,
                        head: head.to_owned(),
                        dry,
                        stage: Stage::Listing,
                    },
                    Action::List(cmd),
                )
            },
        }
    }

    /// Whether `e` answers what the run waits for.
    pub fn accepts(&self, e: &Event) -> (r: bool)
        ensures
            r == answers(self.stage, *e),
    {
        match (&self.stage, e) {
            (Stage::Listing, Event::Listed(_)) => true,
            (Stage::Releasing, Event::Untagged(_)) => true,
            (Stage::Archiving(_), Event::Exited(_)) => true,
            _ => false,
        }
    }

    /// The outcome, once the run is finished.
    pub fn outcome(&self) -> (r: Option<Result<(), ResticError>>)
        ensures
            match self.stage {
                Stage::Done(o) => r == Some(o),
                _ => r is None,
            },
    {
        match &self.stage {
            Stage::Done(o) => Some(*o),
            _ => None,
        }
    }

    /// Takes what the caller reports and says what to do next.
    ///
    /// After the listing: several snapshots carrying the head marker end the
    /// run with `DuplicateHead` and no archive; none gives an archive whose
    /// parent tag is empty; one gives, outside a dry run, the removal of its
    /// head tag, and the archive's parent tag is then the identifier that the
    /// removal reports. A dry run edits no tag: the archive's parent is the
    /// current head. After the archive run, its exit status decides.
    pub fn advance(&mut self, job: &ResticConfig, dirs: &Vec<String>, e: Event) -> (r: Action)
        requires
            answers(old(self).stage, e),
        ensures
            same_setup(*final(self), *old(self)),
            old(self).dry ==> !(r is Untag),
            match (old(self).stage, e) {
                (Stage::Listing, Event::Listed(None)) => final(self).stage == Stage::Done(
                    Err(ResticError::ListingFailed),
                ) && r is Finished,
                (Stage::Listing, Event::Listed(Some(snaps))) => match current_head(
                    snaps@,
                    old(self).head@,
                ) {
                    Err(err) => final(self).stage == Stage::Done(Err(err)) && r is Finished,
                    Ok(None) => final(self).stage == Stage::Archiving(false) && action_view(r) == (
                        2int,
                        archive_args(
                            *job,
                            views(dirs@),
                            old(self).repo@,
                            opt_view(old(self).option),
                            lineage_tags(old(self).head@, Seq::empty()),
                            old(self).dry,
                        ),
                    ),
                    Ok(Some(id)) => if old(self).dry {
                        final(self).stage == Stage::Archiving(false) && action_view(r) == (
                            2int,
                            archive_args(
                                *job,
                                views(dirs@),
                                old(self).repo@,
                                opt_view(old(self).option),
                                lineage_tags(old(self).head@, id),
                                true,
                            ),
                        )
                    } else {
                        final(self).stage == Stage::Releasing && action_view(r) == (
                            1int,
                            untag_args(
                                old(self).repo@,
                                opt_view(old(self).option),
                                id,
                                old(self).head@,
                            ),
                        )
                    },
                },
                (Stage::Releasing, Event::Untagged(None)) => final(self).stage == Stage::Done(
                    Err(ResticError::TagEditFailed),
                ) && r is Finished,
                (Stage::Releasing, Event::Untagged(Some(new_id))) => final(self).stage
                    == Stage::Archiving(true) && action_view(r) == (
                    2int,
                    archive_args(
                        *job,
                        views(dirs@),
                        old(self).repo@,
                        opt_view(old(self).option),
                        lineage_tags(old(self).head@, new_id@),
                        old(self).dry,
                    ),
                ),
                (Stage::Archiving(released), Event::Exited(code)) => final(self).stage
                    == Stage::Done(archive_outcome(released, code)) && r is Finished,
                _ => false,
            },
    {
        match e {
            Event::Listed(None) => {
                self.stage = Stage::Done(Err(ResticError::ListingFailed));
                Action::Finished
            },
            Event::Listed(Some(snaps)) => {
                match find_head(&snaps, self.head.as_str()) {
                    Err(err) => {
                        self.stage = Stage::Done(Err(err));
                        Action::Finished
                    },
                    Ok(None) => {
                        self.stage = Stage::Archiving(false);
                        let cmd = archive_command(
                            job,
                            dirs,
                            self.repo.as_str(),
                            &self.option,
                            self.head.as_str(),
                            "",
                            self.dry,
                        );
                        proof {
                            reveal_strlit("");
                        }
                        Action::Archive(cmd)
                    },
                    Ok(Some(id)) => {
                        if self.dry {
                            self.stage = Stage::Archiving(false);
                            Action::Archive(
                                archive_command(
                                    job,
                                    dirs,
                                    self.repo.as_str(),
                                    &self.option,
                                    self.head.as_str(),
                                    id.as_str(),
                                    true,
                                ),
                            )
                        } else {
                            self.stage = Stage::Releasing;
                            Action::Untag(
                                untag_command(
                                    self.repo.as_str(),
                                    &self.option,
                                    id.as_str(),
                                    self.head.as_str(),
                                ),
                            )
                        }
                    },
                }
            },
            Event::Untagged(None) => {
                self.stage = Stage::Done(Err(ResticError::TagEditFailed));
                Action::Finished
            },
            Event::Untagged(Some(new_id)) => {
                self.stage = Stage::Archiving(true);
                Action::Archive(
                    archive_command(
                        job,
                        dirs,
                        self.repo.as_str(),
                        &self.option,
                        self.head.as_str(),
                        new_id.as_str(),
                        self.dry,
                    ),
                )
            },
            Event::Exited(code) => {
                let released = match self.stage {
                    Stage::Archiving(b) => b,
                    _ => false,
                };
                let res = exit_status_result(code);
                let partial = match res {
                    Err(ResticError::Incomplete) => true,
                    _ => false,
                };
                let out = if released && res.is_err() && !partial {
                    Err(ResticError::HeadReleased(code))
                } else {
                    res
                };
                self.stage = Stage::Done(out);
                Action::Finished
            },
        }
    }
}

pub proof fn lemma_repeated_two(name: Seq<char>, items: Seq<Seq<char>>, a: Seq<char>, b: Seq<char>)
    ensures
        repeated(name, items + seq![a, b]) == repeated(name, items) + seq![name, a, name, b],
{
    let all = items + seq![a, b];
    assert(all.drop_last() =~= items.push(a));
    assert(items.push(a).drop_last() =~= items);
    assert(repeated(name, items.push(a)) == repeated(name, items) + seq![name, a]);
    assert(repeated(name, all) =~= repeated(name, items) + seq![name, a, name, b]);
}

/// Every archive command carries both lineage tags, side by side: this
/// machine's head marker and `parent:` followed by the superseded
/// identifier (nothing after `parent:` when a lineage starts).
#[verifier::spinoff_prover]
#[verifier::rlimit(50)]
pub proof fn lemma_archive_carries_lineage(
    c: ResticConfig,
    dirs: Seq<Seq<char>>,
    repo: Seq<char>,
    opt: Option<Seq<char>>,
    head: Seq<char>,
    parent: Seq<char>,
    dry: bool,
)
    ensures
        exists|k: int|
            0 <= k && k + 4 <= archive_args(c, dirs, repo, opt, lineage_tags(head, parent), dry).len()
                && #[trigger] archive_args(
                c,
                dirs,
                repo,
                opt,
                lineage_tags(head, parent),
                dry,
            ).subrange(k, k + 4) == seq!["--tag"@, head, "--tag"@, "parent:"@ + parent],
{
    let args = archive_args(c, dirs, repo, opt, lineage_tags(head, parent), dry);
    lemma_repeated_two("--tag"@, opt_items(c.tags), head, "parent:"@ + parent);
    let pre = seq!["restic"@, "backup"@] + repeated("--exclude"@, opt_items(c.exclude)) + repeated(
        "--exclude-if-present"@,
        opt_items(c.exclude_if_present),
    ) + switch(c.one_file_system, "--one-file-system"@) + seq![
        "--read-concurrency"@,
        decimal_of(concurrency(c) as nat),
    ] + repeated("--tag"@, opt_items(c.tags));
    let mid = seq!["--tag"@, head, "--tag"@, "parent:"@ + parent];
    let rest = switch(c.reread, "--force"@) + switch(c.exclude_caches, "--exclude-caches"@)
        + repeated("-o"@, opt_list(opt)) + dry_args(dry) + seq!["--compression"@, compression(c)]
        + switch(c.quiet, "--quiet"@) + seq!["--json"@] + value_opt(c.host, "--host"@) + seq![
        "-r"@,
        repo,
    ] + dirs;
    assert(args =~= pre + mid + rest);
    assert(args.subrange(pre.len() as int, pre.len() as int + 4) =~= mid);
}

/// A dry run's archive command carries the dry-run flag.
pub proof fn lemma_dry_run_flagged(
    c: ResticConfig,
    dirs: Seq<Seq<char>>,
    repo: Seq<char>,
    opt: Option<Seq<char>>,
    extra: Seq<Seq<char>>,
)
    ensures
        exists|k: int|
            0 <= k < archive_args(c, dirs, repo, opt, extra, true).len() && #[trigger] archive_args(
                c,
                dirs,
                repo,
                opt,
                extra,
                true,
            )[k] == "--dry-run"@,
{
    let args = archive_args(c, dirs, repo, opt, extra, true);
    let pre = seq!["restic"@, "backup"@] + repeated("--exclude"@, opt_items(c.exclude)) + repeated(
        "--exclude-if-present"@,
        opt_items(c.exclude_if_present),
    ) + switch(c.one_file_system, "--one-file-system"@) + seq![
        "--read-concurrency"@,
        decimal_of(concurrency(c) as nat),
    ] + repeated("--tag"@, opt_items(c.tags) + extra) + switch(c.reread, "--force"@) + switch(
        c.exclude_caches,
        "--exclude-caches"@,
    ) + repeated("-o"@, opt_list(opt));
    let rest = seq!["--compression"@, compression(c)] + switch(c.quiet, "--quiet"@) + seq![
        "--json"@,
    ] + value_opt(c.host, "--host"@) + seq!["-r"@, repo] + dirs;
    assert(args =~= pre + seq!["--dry-run"@] + rest);
    assert(args[pre.len() as int] == "--dry-run"@);
}

/// On a target where no snapshot carries this machine's marker, the run
/// starts a new lineage: there is no head to release, and the archive
/// command tags the new snapshot with the marker and an empty `parent:`.
pub proof fn lemma_first_archive(
    snaps: Seq<Snapshot>,
    head: Seq<char>,
    c: ResticConfig,
    dirs: Seq<Seq<char>>,
    repo: Seq<char>,
    opt: Option<Seq<char>>,
    dry: bool,
)
    requires
        forall|i: int| 0 <= i < snaps.len() ==> !carries(#[trigger] snaps[i].tags@, head),
    ensures
        current_head(snaps, head) == Ok::<Option<Seq<char>>, ResticError>(None),
        exists|k: int|
            0 <= k && k + 4 <= archive_args(c, dirs, repo, opt, lineage_tags(head, Seq::empty()), dry).len()
                && #[trigger] archive_args(
                c,
                dirs,
                repo,
                opt,
                lineage_tags(head, Seq::empty()),
                dry,
            ).subrange(k, k + 4) == seq!["--tag"@, head, "--tag"@, "parent:"@],
{
    lemma_no_head(snaps, head);
    lemma_archive_carries_lineage(c, dirs, repo, opt, head, Seq::empty(), dry);
    assert("parent:"@ + Seq::<char>::empty() =~= "parent:"@);
}

} // verus!
