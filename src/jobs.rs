use vstd::prelude::*;

use crate::config::{find_entry, lookup, Config, LocalPath, ResticForget, ResticTarget};
use crate::credentials::{pair_views, target_setup, SecretFiles};
use crate::error::ResticError;
use crate::input::{
    inverse, must_exist, now, resolve_steps, resolved_path, step_views, undo, LocalPathRef, PathAction,
    PathStep,
};
use crate::restic::{
    forget_args, forget_command, init_args, init_command, snapshots_args, snapshots_command,
    Invocation,
};
use crate::text::views;

verus! {

/// Every name of `names` is declared in `entries`.
pub open spec fn all_declared<T>(entries: Seq<(String, T)>, names: Seq<String>) -> bool {
    forall|i: int| 0 <= i < names.len() ==> (#[trigger] lookup(entries, names[i]@)) is Some
}

impl LocalPath {
    /// A copy of this source.
    pub fn copy(&self) -> (r: LocalPath)
        ensures
            r == *self,
    {
        LocalPath {
            path: self.path.clone(),
            ensure_exists: self.ensure_exists,
            cephfs_snap: self.cephfs_snap,
            same_path: self.same_path,
        }
    }
}

/// Fresh handles on the sources that a job names, in order; an undeclared
/// name is an `UnknownReference`.
pub fn job_sources(cfg: &Config, names: &Vec<String>) -> (r: Result<Vec<LocalPathRef>, ResticError>)
    ensures
        match r {
            Ok(v) => all_declared(cfg.path@, names@) && v.len() == names.len() && forall|i: int|
                0 <= i < v.len() ==> lookup(cfg.path@, names@[i]@) == Some(#[trigger] v@[i].conf)
                    && v@[i].cephfs_snap_name is None && v@[i].bind_mount_path is None,
            Err(e) => e == ResticError::UnknownReference && !all_declared(cfg.path@, names@),
        },
{
    let mut v: Vec<LocalPathRef> = Vec::new();
    let mut i: usize = 0;
    while i < names.len()
        invariant
            i <= names.len(),
            v.len() == i,
            forall|j: int| 0 <= j < i ==> (#[trigger] lookup(cfg.path@, names@[j]@)) is Some,
            forall|j: int|
                0 <= j < i ==> lookup(cfg.path@, names@[j]@) == Some(#[trigger] v@[j].conf)
                    && v@[j].cephfs_snap_name is None && v@[j].bind_mount_path is None,
        decreases names.len() - i,
    {
        match find_entry(&cfg.path, names[i].as_str()) {
            Some(p) => {
                v.push(LocalPathRef::from(p.copy()));
            },
            None => {
                return Err(ResticError::UnknownReference);
            },
        }
        i = i + 1;
    }
    Ok(v)
}

/// The targets that a job names, in order; an undeclared name is an
/// `UnknownReference`.
pub fn job_targets<'a>(cfg: &'a Config, names: &Vec<String>) -> (r: Result<
    Vec<&'a ResticTarget>,
    ResticError,
>)
    ensures
        match r {
            Ok(v) => all_declared(cfg.restic_target@, names@) && v.len() == names.len() && forall|
                i: int,
            |
                0 <= i < v.len() ==> lookup(cfg.restic_target@, names@[i]@) == Some(*#[trigger] v@[i]),
            Err(e) => e == ResticError::UnknownReference && !all_declared(
                cfg.restic_target@,
                names@,
            ),
        },
{
    let mut v: Vec<&'a ResticTarget> = Vec::new();
    let mut i: usize = 0;
    while i < names.len()
        invariant
            i <= names.len(),
            v.len() == i,
            forall|j: int|
                0 <= j < i ==> (#[trigger] lookup(cfg.restic_target@, names@[j]@)) is Some,
            forall|j: int|
                0 <= j < i ==> lookup(cfg.restic_target@, names@[j]@) == Some(*#[trigger] v@[j]),
        decreases names.len() - i,
    {
        match find_entry(&cfg.restic_target, names[i].as_str()) {
            Some(t) => {
                v.push(t);
            },
            None => {
                return Err(ResticError::UnknownReference);
            },
        }
        i = i + 1;
    }
    Ok(v)
}

/// What the retention job asks of one target: the command and environment,
/// or the credential failure that stops it there.
pub open spec fn forget_plan_ok(
    job: ResticForget,
    t: ResticTarget,
    files: Seq<(String, String)>,
    dry: bool,
    run: Result<Invocation, ResticError>,
) -> bool {
    match target_setup(t, files) {
        Err(e) => run == Err::<Invocation, ResticError>(e),
        Ok((env, opt)) => match run {
            Ok(inv) => views(inv.args@) == forget_args(job, t.repo@, dry, opt) && pair_views(
                inv.env@,
            ) == env,
            Err(_) => false,
        },
    }
}

/// The retention job on each of its targets, in order: one entry per target
/// name, each with its own command or its own failure.
pub fn forget_archive(cfg: &Config, job: &ResticForget, files: &SecretFiles, dry: bool) -> (r: Result<
    Vec<(String, Result<Invocation, ResticError>)>,
    ResticError,
>)
    ensures
        match r {
            Ok(v) => all_declared(cfg.restic_target@, job.targets@) && v.len() == job.targets.len()
                && forall|i: int|
                0 <= i < v.len() ==> #[trigger] v@[i].0 == job.targets@[i] && forget_entry_ok(
                    cfg,
                    job,
                    files@,
                    dry,
                    i,
                    v@[i].1,
                ),
            Err(e) => e == ResticError::UnknownReference && !all_declared(
                cfg.restic_target@,
                job.targets@,
            ),
        },
{
    let targets = match job_targets(cfg, &job.targets) {
        Ok(t) => t,
        Err(e) => return Err(e),
    };
    let mut v: Vec<(String, Result<Invocation, ResticError>)> = Vec::new();
    let mut i: usize = 0;
    while i < targets.len()
        invariant
            i <= targets.len(),
            targets.len() == job.targets.len(),
            v.len() == i,
            forall|j: int|
                0 <= j < targets.len() ==> lookup(cfg.restic_target@, job.targets@[j]@) == Some(
                    *#[trigger] targets@[j],
                ),
            forall|j: int|
                0 <= j < i ==> #[trigger] v@[j].0 == job.targets@[j] && forget_entry_ok(
                    cfg,
                    job,
                    files@,
                    dry,
                    j,
                    v@[j].1,
                ),
        decreases targets.len() - i,
    {
        let t = targets[i];
        let run = match t.setup_env(files) {
            Err(e) => Err(e),
            Ok((env, opt)) => Ok(
                Invocation { args: forget_command(job, t.repo.as_str(), dry, &opt), env },
            ),
        };
        v.push((job.targets[i].clone(), run));
        i = i + 1;
    }
    Ok(v)
}

/// The entry for the `i`-th target name of a retention job.
pub open spec fn forget_entry_ok(
    cfg: &Config,
    job: &ResticForget,
    files: Seq<(String, String)>,
    dry: bool,
    i: int,
    run: Result<Invocation, ResticError>,
) -> bool {
    match lookup(cfg.restic_target@, job.targets@[i]@) {
        Some(t) => forget_plan_ok(*job, t, files, dry, run),
        None => false,
    }
}

impl ResticTarget {
    /// The command and environment that initialise this repository.
    pub fn init_repo(&self, files: &SecretFiles) -> (r: Result<Invocation, ResticError>)
        ensures
            match target_setup(*self, files@) {
                Err(e) => r == Err::<Invocation, ResticError>(e),
                Ok((env, opt)) => match r {
                    Ok(inv) => views(inv.args@) == init_args(self.repo@, opt) && pair_views(inv.env@)
                        == env,
                    Err(_) => false,
                },
            },
    {
        match self.setup_env(files) {
            Err(e) => Err(e),
            Ok((env, opt)) => Ok(Invocation { args: init_command(self.repo.as_str(), &opt), env }),
        }
    }

    /// The command and environment that list this repository's snapshots.
    pub fn get_snapshots(&self, files: &SecretFiles) -> (r: Result<Invocation, ResticError>)
        ensures
            match target_setup(*self, files@) {
                Err(e) => r == Err::<Invocation, ResticError>(e),
                Ok((env, opt)) => match r {
                    Ok(inv) => views(inv.args@) == snapshots_args(self.repo@, opt) && pair_views(
                        inv.env@,
                    ) == env,
                    Err(_) => false,
                },
            },
    {
        match self.setup_env(files) {
            Err(e) => Err(e),
            Ok((env, opt)) => Ok(
                Invocation { args: snapshots_command(self.repo.as_str(), &opt), env },
            ),
        }
    }
}

/// The command that initialises a borg repository at `path`.
pub fn init_repo(path: &str) -> (r: Vec<String>)
    ensures
        views(r@) == seq!["borg"@, "init"@, "--encryption=repokey-blake2"@, path@],
{
    let r = vec![
        "borg".to_owned(),
        "init".to_owned(),
        "--encryption=repokey-blake2".to_owned(),
        path.to_owned(),
    ];
    assert(views(r@) =~= seq!["borg"@, "init"@, "--encryption=repokey-blake2"@, path@]);
    r
}

/// Every name of `names` is declared in `entries`.
fn names_declared<T>(entries: &Vec<(String, T)>, names: &Vec<String>) -> (r: bool)
    ensures
        r == all_declared(entries@, names@),
{
    let mut i: usize = 0;
    while i < names.len()
        invariant
            i <= names.len(),
            forall|j: int| 0 <= j < i ==> (#[trigger] lookup(entries@, names@[j]@)) is Some,
        decreases names.len() - i,
    {
        if find_entry(entries, names[i].as_str()).is_none() {
            return false;
        }
        i = i + 1;
    }
    true
}

/// The integrity of a configuration: every archive job names declared
/// sources and targets, and every retention job declared targets.
pub open spec fn references_valid(cfg: Config) -> bool {
    &&& forall|i: int|
        0 <= i < cfg.restic@.len() ==> all_declared(cfg.path@, (#[trigger] cfg.restic@[i]).src@)
            && all_declared(cfg.restic_target@, cfg.restic@[i].targets@)
    &&& forall|i: int|
        0 <= i < cfg.restic_forget@.len() ==> all_declared(
            cfg.restic_target@,
            (#[trigger] cfg.restic_forget@[i]).targets@,
        )
}

impl Config {
    /// Checks the references of every job up front; `UnknownReference` when
    /// some job names an undeclared source or target.
    pub fn check_references(&self) -> (r: Result<(), ResticError>)
        ensures
            r is Ok <==> references_valid(*self),
            r is Err ==> r == Err::<(), ResticError>(ResticError::UnknownReference),
    {
        let mut i: usize = 0;
        while i < self.restic.len()
            invariant
                i <= self.restic.len(),
                forall|j: int|
                    0 <= j < i ==> all_declared(self.path@, (#[trigger] self.restic@[j]).src@)
                        && all_declared(self.restic_target@, self.restic@[j].targets@),
            decreases self.restic.len() - i,
        {
            if !names_declared(&self.path, &self.restic[i].src) || !names_declared(
                &self.restic_target,
                &self.restic[i].targets,
            ) {
                return Err(ResticError::UnknownReference);
            }
            i = i + 1;
        }
        let mut k: usize = 0;
        while k < self.restic_forget.len()
            invariant
                k <= self.restic_forget.len(),
                forall|j: int|
                    0 <= j < self.restic.len() ==> all_declared(
                        self.path@,
                        (#[trigger] self.restic@[j]).src@,
                    ) && all_declared(self.restic_target@, self.restic@[j].targets@),
                forall|j: int|
                    0 <= j < k ==> all_declared(
                        self.restic_target@,
                        (#[trigger] self.restic_forget@[j]).targets@,
                    ),
            decreases self.restic_forget.len() - k,
        {
            if !names_declared(&self.restic_target, &self.restic_forget[k].targets) {
                return Err(ResticError::UnknownReference);
            }
            k = k + 1;
        }
        Ok(())
    }
}

/// The source named by the `i`-th name of a job.
pub open spec fn source_of(cfg: Config, names: Seq<String>, i: int) -> LocalPath {
    lookup(cfg.path@, names[i]@)->Some_0
}

/// Whether the `i`-th probe reports the source populated.
pub open spec fn probe(populated: Seq<bool>, i: int) -> bool {
    0 <= i < populated.len() && populated[i]
}

/// Some source among the first `n` must exist and is not populated.
pub open spec fn some_missing(cfg: Config, names: Seq<String>, populated: Seq<bool>, n: int) -> bool {
    exists|i: int| 0 <= i < n && must_exist(source_of(cfg, names, i)) && !probe(populated, i)
}

/// The side effects of resolving the first `n` sources on `date`, in order.
pub open spec fn sources_steps(cfg: Config, names: Seq<String>, date: Seq<char>, n: int) -> Seq<PathStep>
    decreases n,
{
    if n <= 0 {
        Seq::empty()
    } else {
        sources_steps(cfg, names, date, n - 1) + resolve_steps(source_of(cfg, names, n - 1), date)
    }
}

/// Resolves every source of a job on `date` before any side effect is
/// performed: the directories to back up, in order, and every side effect
/// to perform, in order. An undeclared name is an `UnknownReference`; a
/// source that must exist and is not populated (by the `i`-th probe) is a
/// `MissingSource`, and then nothing is to be performed.
pub fn resolve_sources_on(cfg: &Config, names: &Vec<String>, populated: &Vec<bool>, date: &str) -> (r: Result<
    (Vec<String>, Vec<PathAction>),
    ResticError,
>)
    ensures
        !all_declared(cfg.path@, names@) <==> r == Err::<(Vec<String>, Vec<PathAction>), ResticError>(
            ResticError::UnknownReference,
        ),
        all_declared(cfg.path@, names@) ==> (some_missing(*cfg, names@, populated@, names.len() as int)
            <==> r == Err::<(Vec<String>, Vec<PathAction>), ResticError>(
            ResticError::MissingSource,
        )),
        match r {
            Ok((dirs, steps)) => dirs.len() == names.len() && (forall|i: int|
                0 <= i < dirs.len() ==> #[trigger] dirs@[i]@ == resolved_path(
                    source_of(*cfg, names@, i),
                    date@,
                )) && step_views(steps@) == sources_steps(*cfg, names@, date@, names.len() as int),
            Err(e) => e == ResticError::UnknownReference || e == ResticError::MissingSource,
        },
{
    let sources = match job_sources(cfg, names) {
        Ok(v) => v,
        Err(e) => return Err(e),
    };
    let mut i: usize = 0;
    while i < sources.len()
        invariant
            i <= sources.len(),
            sources.len() == names.len(),
            all_declared(cfg.path@, names@),
            forall|j: int| 0 <= j < sources.len() ==> #[trigger] sources@[j].conf == source_of(*cfg, names@, j),
            !some_missing(*cfg, names@, populated@, i as int),
        decreases sources.len() - i,
    {
        let ready = i < populated.len() && populated[i];
        let must = match sources[i].conf.ensure_exists {
            Some(b) => b,
            None => true,
        };
        if must && !ready {
            assert(must_exist(source_of(*cfg, names@, i as int)) && !probe(populated@, i as int));
            return Err(ResticError::MissingSource);
        }
        i = i + 1;
    }
    let mut dirs: Vec<String> = Vec::new();
    let mut steps: Vec<PathAction> = Vec::new();
    let mut k: usize = 0;
    while k < sources.len()
        invariant
            k <= sources.len(),
            sources.len() == names.len(),
            forall|j: int| 0 <= j < sources.len() ==> #[trigger] sources@[j].conf == source_of(*cfg, names@, j),
            !some_missing(*cfg, names@, populated@, sources.len() as int),
            dirs.len() == k,
            forall|j: int| 0 <= j < k ==> #[trigger] dirs@[j]@ == resolved_path(source_of(*cfg, names@, j), date@),
            step_views(steps@) == sources_steps(*cfg, names@, date@, k as int),
        decreases sources.len() - k,
    {
        let mut r = LocalPathRef::from(sources[k].conf.copy());
        let ready = k < populated.len() && populated[k];
        assert(!(must_exist(source_of(*cfg, names@, k as int)) && !probe(populated@, k as int)));
        match r.resolve_on(ready, date) {
            Ok((dir, acts)) => {
                dirs.push(dir);
                let ghost before = steps@;
                let ghost added = acts@;
                let mut acts = acts;
                steps.append(&mut acts);
                assert(step_views(steps@) =~= step_views(before) + step_views(added));
            },
            Err(_) => {
                assert(false);
                return Err(ResticError::MissingSource);
            },
        }
        k = k + 1;
    }
    Ok((dirs, steps))
}

/// Resolves every source of a job with today's snapshot name (see
/// `resolve_sources_on`).
pub fn resolve_sources(cfg: &Config, names: &Vec<String>, populated: &Vec<bool>) -> (r: Result<
    (Vec<String>, Vec<PathAction>),
    ResticError,
>)
    ensures
        !all_declared(cfg.path@, names@) <==> r == Err::<(Vec<String>, Vec<PathAction>), ResticError>(
            ResticError::UnknownReference,
        ),
        all_declared(cfg.path@, names@) ==> (some_missing(*cfg, names@, populated@, names.len() as int)
            <==> r == Err::<(Vec<String>, Vec<PathAction>), ResticError>(
            ResticError::MissingSource,
        )),
        match r {
            Ok((dirs, steps)) => exists|date: Seq<char>|
                dirs.len() == names.len() && (forall|i: int|
                    0 <= i < dirs.len() ==> #[trigger] dirs@[i]@ == resolved_path(
                        source_of(*cfg, names@, i),
                        date,
                    )) && step_views(steps@) == sources_steps(*cfg, names@, date, names.len() as int),
            Err(e) => e == ResticError::UnknownReference || e == ResticError::MissingSource,
        },
{
    let date = now();
    resolve_sources_on(cfg, names, populated, date.as_str())
}

fn inverse_action(a: &PathAction) -> (r: Vec<PathAction>)
    ensures
        step_views(r@) == inverse(a@),
{
    let mut r: Vec<PathAction> = Vec::new();
    match a {
        PathAction::CreateSnapshot(d) => r.push(PathAction::RemoveSnapshot(d.clone())),
        PathAction::BindMount(_, t) => r.push(PathAction::Unmount(t.clone())),
        _ => {},
    }
    assert(step_views(r@) =~= inverse(a@));
    r
}

/// The side effects that reverse the first `k` of `steps`, last first:
/// what releases a job's sources after `k` side effects were performed.
pub fn undo_actions(steps: &Vec<PathAction>, k: usize) -> (r: Vec<PathAction>)
    requires
        k <= steps.len(),
    ensures
        step_views(r@) == undo(step_views(steps@.subrange(0, k as int))),
{
    let mut out: Vec<PathAction> = Vec::new();
    let mut j: usize = k;
    while j > 0
        invariant
            j <= k <= steps.len(),
            step_views(out@) + undo(step_views(steps@.subrange(0, j as int))) == undo(
                step_views(steps@.subrange(0, k as int)),
            ),
        decreases j,
    {
        let ghost sv = step_views(steps@.subrange(0, j as int));
        assert(sv.drop_last() =~= step_views(steps@.subrange(0, j - 1)));
        assert(sv.last() == steps@[j - 1]@);
        let mut inv = inverse_action(&steps[j - 1]);
        let ghost before = out@;
        out.append(&mut inv);
        assert(step_views(out@) =~= step_views(before) + inverse(steps@[j - 1]@));
        assert(step_views(out@) + undo(step_views(steps@.subrange(0, j - 1))) =~= step_views(before)
            + undo(sv));
        j = j - 1;
    }
    assert(step_views(steps@.subrange(0, 0)) =~= Seq::<PathStep>::empty());
    assert(step_views(out@) + Seq::<PathStep>::empty() =~= step_views(out@));
    out
}

} // verus!
