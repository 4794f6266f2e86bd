use vstd::prelude::*;

use crate::config::LocalPath;
use crate::credentials::opt_view;
use crate::error::ResticError;
use crate::text::{replace_char, swap_char, views};

verus! {

/// A filesystem side effect, as seen by the proofs.
pub enum PathStep {
    CreateSnapshot(Seq<char>),
    CreateMountPoint(Seq<char>),
    BindMount(Seq<char>, Seq<char>),
    Unmount(Seq<char>),
    RemoveSnapshot(Seq<char>),
}

/// A filesystem side effect that resolving or releasing a source asks for.
#[derive(Debug, Clone, PartialEq, Eq)]
pub enum PathAction {
    /// Create this snapshot directory.
    CreateSnapshot(String),
    /// Create this directory (and its parents) as a mount point.
    CreateMountPoint(String),
    /// Bind-mount the first directory onto the second.
    BindMount(String, String),
    /// Unmount this mount point.
    Unmount(String),
    /// Remove this snapshot directory.
    RemoveSnapshot(String),
}

impl View for PathAction {
    type V = PathStep;

    open spec fn view(&self) -> PathStep {
        match self {
            PathAction::CreateSnapshot(d) => PathStep::CreateSnapshot(d@),
            PathAction::CreateMountPoint(d) => PathStep::CreateMountPoint(d@),
            PathAction::BindMount(s, t) => PathStep::BindMount(s@, t@),
            PathAction::Unmount(t) => PathStep::Unmount(t@),
            PathAction::RemoveSnapshot(d) => PathStep::RemoveSnapshot(d@),
        }
    }
}

pub open spec fn step_views(v: Seq<PathAction>) -> Seq<PathStep> {
    v.map_values(|a: PathAction| a@)
}

/// An optional flag with its default.
pub open spec fn flag(o: Option<bool>, d: bool) -> bool {
    match o {
        Some(b) => b,
        None => d,
    }
}

/// `a` joined with the path component `b`.
pub open spec fn join_path(a: Seq<char>, b: Seq<char>) -> Seq<char> {
    if a.len() == 0 {
        b
    } else if a.last() == '/' {
        a + b
    } else {
        a + "/"@ + b
    }
}

/// The name of the snapshot taken on `date`.
pub open spec fn snap_name(date: Seq<char>) -> Seq<char> {
    "SNAP_"@ + date
}

/// The directory of snapshot `name` of source `path`.
pub open spec fn snap_dir(path: Seq<char>, name: Seq<char>) -> Seq<char> {
    join_path(join_path(path, ".snap"@), name)
}

/// The stable mount point of a source: derived from its path alone.
pub open spec fn mount_point(path: Seq<char>) -> Seq<char> {
    "/bk/"@ + swap_char(path, '/', '_')
}

/// The side effects of resolving `conf` on `date`, in order.
pub open spec fn resolve_steps(conf: LocalPath, date: Seq<char>) -> Seq<PathStep> {
    let sd = snap_dir(conf.path@, snap_name(date));
    if flag(conf.cephfs_snap, false) {
        if flag(conf.same_path, false) {
            seq![
                PathStep::CreateSnapshot(sd),
                PathStep::CreateMountPoint(mount_point(conf.path@)),
                PathStep::BindMount(sd + "/"@, mount_point(conf.path@)),
            ]
        } else {
            seq![PathStep::CreateSnapshot(sd)]
        }
    } else {
        Seq::empty()
    }
}

/// The path handed to the archival tool: the mount point, else the snapshot
/// directory, else the source path.
pub open spec fn resolved_path(conf: LocalPath, date: Seq<char>) -> Seq<char> {
    if flag(conf.cephfs_snap, false) {
        if flag(conf.same_path, false) {
            mount_point(conf.path@)
        } else {
            snap_dir(conf.path@, snap_name(date)) + "/"@
        }
    } else {
        conf.path@
    }
}

/// What resolving records: the snapshot name and the mount point.
pub open spec fn resolve_records(conf: LocalPath, date: Seq<char>) -> (
    Option<Seq<char>>,
    Option<Seq<char>>,
) {
    if flag(conf.cephfs_snap, false) {
        (
            Some(snap_name(date)),
            if flag(conf.same_path, false) {
                Some(mount_point(conf.path@))
            } else {
                None
            },
        )
    } else {
        (None, None)
    }
}

/// The records of a handle.
pub open spec fn records(r: LocalPathRef) -> (Option<Seq<char>>, Option<Seq<char>>) {
    (opt_view(r.cephfs_snap_name), opt_view(r.bind_mount_path))
}

/// The side effects of releasing a source with the given records: unmount
/// first, then remove the snapshot.
pub open spec fn cleanup_steps(path: Seq<char>, rec: (Option<Seq<char>>, Option<Seq<char>>)) -> Seq<
    PathStep,
> {
    (match rec.1 {
        Some(m) => seq![PathStep::Unmount(m)],
        None => Seq::empty(),
    }) + (match rec.0 {
        Some(s) => seq![PathStep::RemoveSnapshot(snap_dir(path, s))],
        None => Seq::empty(),
    })
}

/// The step that reverses one side effect.
pub open spec fn inverse(s: PathStep) -> Seq<PathStep> {
    match s {
        PathStep::CreateSnapshot(d) => seq![PathStep::RemoveSnapshot(d)],
        PathStep::BindMount(_, t) => seq![PathStep::Unmount(t)],
        _ => Seq::empty(),
    }
}

/// The steps that reverse `steps`, last first.
pub open spec fn undo(steps: Seq<PathStep>) -> Seq<PathStep>
    decreases steps.len(),
{
    if steps.len() == 0 {
        Seq::empty()
    } else {
        inverse(steps.last()) + undo(steps.drop_last())
    }
}

/// Whether resolving must first find the source populated.
pub open spec fn must_exist(conf: LocalPath) -> bool {
    flag(conf.ensure_exists, true)
}

/// Relies on chrono's `Utc::now` and `format`: today's date in UTC, written
/// `%Y_%m_%d`.
#[verifier::external_body]
pub fn now() -> (r: String) {
    chrono::Utc::now().format("%Y_%m_%d").to_string()
}

/// The command that bind-mounts `src` onto `dst`.
pub fn bind_mount(src: &str, dst: &str) -> (r: Vec<String>)
    ensures
        views(r@) == seq!["mount"@, "--bind"@, src@, dst@],
{
    let r = vec!["mount".to_owned(), "--bind".to_owned(), src.to_owned(), dst.to_owned()];
    assert(views(r@) =~= seq!["mount"@, "--bind"@, src@, dst@]);
    r
}

/// The command that unmounts `mount`.
pub fn umount(mount: &str) -> (r: Vec<String>)
    ensures
        views(r@) == seq!["umount"@, mount@],
{
    let r = vec!["umount".to_owned(), mount.to_owned()];
    assert(views(r@) =~= seq!["umount"@, mount@]);
    r
}

fn join_component(a: &str, b: &str) -> (r: String)
    ensures
        r@ == join_path(a@, b@),
{
    let n = a.unicode_len();
    if n == 0 {
        b.to_owned()
    } else if a.get_char(n - 1) == '/' {
        let mut s = a.to_owned();
        s.append(b);
        s
    } else {
        let mut s = a.to_owned();
        s.append("/");
        s.append(b);
        s
    }
}

pub fn snapshot_dir(path: &str, name: &str) -> (r: String)
    ensures
        r@ == snap_dir(path@, name@),
{
    let base = join_component(path, ".snap");
    join_component(base.as_str(), name)
}

/// A source bound for one job execution, with what it created.
pub struct LocalPathRef {
    pub conf: LocalPath,
    /// Name of the snapshot taken, if any.
    pub cephfs_snap_name: Option<String>,
    /// Mount point of the bind mount made, if any.
    pub bind_mount_path: Option<String>,
}

impl LocalPathRef {
    /// A handle that has created nothing yet.
    pub fn from(conf: LocalPath) -> (r: Self)
        ensures
            r.conf == conf,
            r.cephfs_snap_name is None,
            r.bind_mount_path is None,
    {
        LocalPathRef { conf, cephfs_snap_name: None, bind_mount_path: None }
    }

    /// Resolves the source with snapshots named after `date`: the path to back
    /// up and the side effects to perform, in order. A source that must exist
    /// and is not `populated` (present with at least one entry) fails before
    /// any side effect and leaves the handle as it was.
    pub fn resolve_on(&mut self, populated: bool, date: &str) -> (r: Result<
        (String, Vec<PathAction>),
        ResticError,
    >)
        ensures
            final(self).conf == old(self).conf,
            must_exist(old(self).conf) && !populated ==> r == Err::<
                (String, Vec<PathAction>),
                ResticError,
            >(ResticError::MissingSource) && *final(self) == *old(self),
            !(must_exist(old(self).conf) && !populated) ==> match r {
                Ok((p, steps)) => p@ == resolved_path(old(self).conf, date@) && step_views(steps@)
                    == resolve_steps(old(self).conf, date@) && records(*final(self))
                    == resolve_records(old(self).conf, date@),
                Err(_) => false,
            },
    {
        if flag_of(self.conf.ensure_exists, true) && !populated {
            return Err(ResticError::MissingSource);
        }
        let mut steps: Vec<PathAction> = Vec::new();
        if flag_of(self.conf.cephfs_snap, false) {
            let mut name = "SNAP_".to_owned();
            name.append(date);
            let sd = snapshot_dir(self.conf.path.as_str(), name.as_str());
            let mut final_dir = sd.clone();
            final_dir.append("/");
            steps.push(PathAction::CreateSnapshot(sd));
            self.cephfs_snap_name = Some(name);
            if flag_of(self.conf.same_path, false) {
                let mut mp = "/bk/".to_owned();
                proof {
                    reveal_strlit("_");
                }
                let sanitized = replace_char(self.conf.path.as_str(), '/', "_");
                mp.append(sanitized.as_str());
                steps.push(PathAction::CreateMountPoint(mp.clone()));
                steps.push(PathAction::BindMount(final_dir, mp.clone()));
                self.bind_mount_path = Some(mp.clone());
                assert(step_views(steps@) =~= resolve_steps(old(self).conf, date@));
                Ok((mp, steps))
            } else {
                self.bind_mount_path = None;
                assert(step_views(steps@) =~= resolve_steps(old(self).conf, date@));
                Ok((final_dir, steps))
            }
        } else {
            self.cephfs_snap_name = None;
            self.bind_mount_path = None;
            assert(step_views(steps@) =~= resolve_steps(old(self).conf, date@));
            Ok((self.conf.path.clone(), steps))
        }
    }

    /// Resolves the source with today's snapshot name (see `resolve_on`).
    pub fn get_target_path(&mut self, populated: bool) -> (r: Result<
        (String, Vec<PathAction>),
        ResticError,
    >)
        ensures
            final(self).conf == old(self).conf,
            must_exist(old(self).conf) && !populated ==> r == Err::<
                (String, Vec<PathAction>),
                ResticError,
            >(ResticError::MissingSource) && *final(self) == *old(self),
            !(must_exist(old(self).conf) && !populated) ==> match r {
                Ok((p, steps)) => exists|date: Seq<char>|
                    p@ == resolved_path(old(self).conf, date) && step_views(steps@)
                        == resolve_steps(old(self).conf, date) && records(*final(self))
                        == resolve_records(old(self).conf, date),
                Err(_) => false,
            },
    {
        let date = now();
        self.resolve_on(populated, date.as_str())
    }

    /// Releases what resolving created: unmount first, then remove the
    /// snapshot. Clears the records, so a second call asks for nothing.
    pub fn cleanup(&mut self) -> (r: Vec<PathAction>)
        ensures
            final(self).conf == old(self).conf,
            final(self).cephfs_snap_name is None,
            final(self).bind_mount_path is None,
            step_views(r@) == cleanup_steps(old(self).conf.path@, records(*old(self))),
    {
        let mut steps: Vec<PathAction> = Vec::new();
        match &self.bind_mount_path {
            Some(m) => steps.push(PathAction::Unmount(m.clone())),
            None => {},
        }
        match &self.cephfs_snap_name {
            Some(s) => {
                let d = snapshot_dir(self.conf.path.as_str(), s.as_str());
                steps.push(PathAction::RemoveSnapshot(d));
            },
            None => {},
        }
        self.bind_mount_path = None;
        self.cephfs_snap_name = None;
        assert(step_views(steps@) =~= cleanup_steps(old(self).conf.path@, records(*old(self))));
        steps
    }
}

pub fn flag_of(o: Option<bool>, d: bool) -> (r: bool)
    ensures
        r == flag(o, d),
{
    match o {
        Some(b) => b,
        None => d,
    }
}

/// Releasing a freshly resolved source reverses every side effect of the
/// resolution, last first (unmount before removing the snapshot), for each
/// combination of snapshot and mount; with neither it asks for nothing.
pub proof fn lemma_cleanup_undoes_resolve(conf: LocalPath, date: Seq<char>)
    ensures
        cleanup_steps(conf.path@, resolve_records(conf, date)) == undo(resolve_steps(conf, date)),
        cleanup_steps(conf.path@, (None, None)) == Seq::<PathStep>::empty(),
{
    let steps = resolve_steps(conf, date);
    let sd = snap_dir(conf.path@, snap_name(date));
    let mp = mount_point(conf.path@);
    if flag(conf.cephfs_snap, false) {
        if flag(conf.same_path, false) {
            assert(steps.drop_last().drop_last().drop_last() =~= Seq::<PathStep>::empty());
            assert(undo(steps.drop_last().drop_last().drop_last()) == Seq::<PathStep>::empty());
            assert(steps.drop_last().drop_last() =~= seq![PathStep::CreateSnapshot(sd)]);
            assert(steps.drop_last() =~= seq![
                PathStep::CreateSnapshot(sd),
                PathStep::CreateMountPoint(mp),
            ]);
            assert(undo(steps.drop_last().drop_last()) =~= seq![PathStep::RemoveSnapshot(sd)]);
            assert(undo(steps.drop_last()) =~= seq![PathStep::RemoveSnapshot(sd)]);
            assert(undo(steps) =~= seq![PathStep::Unmount(mp), PathStep::RemoveSnapshot(sd)]);
        } else {
            assert(steps.drop_last() =~= Seq::<PathStep>::empty());
            assert(undo(steps.drop_last()) == Seq::<PathStep>::empty());
            assert(undo(steps) =~= seq![PathStep::RemoveSnapshot(sd)]);
        }
    }
    assert(cleanup_steps(conf.path@, resolve_records(conf, date)) =~= undo(steps));
    assert(cleanup_steps(conf.path@, (None, None)) =~= Seq::<PathStep>::empty());
}

} // verus!
