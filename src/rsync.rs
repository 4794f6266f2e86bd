use vstd::prelude::*;

use crate::args::{opt_items, push_arg, push_each_opt, push_switch, repeated, switch};
use crate::config::RsyncConfig;
use crate::error::ResticError;
use crate::input::{flag, snap_dir, snap_name, snapshot_dir, PathAction, PathStep, step_views};
use crate::restic::dry_args;
use crate::text::views;

verus! {

/// The mirror command copying `from` to `dest`.
pub open spec fn rsync_args(c: RsyncConfig, dry: bool, from: Seq<char>) -> Seq<Seq<char>> {
    seq!["rsync"@, "-avzhruP"@] + switch(c.delete, "--delete"@) + dry_args(dry) + repeated(
        "--exclude"@,
        opt_items(c.exclude),
    ) + seq![from, c.dest@]
}

/// The directory a mirror job copies from: the snapshot taken on `date`
/// when snapshots are on, else the source.
pub open spec fn rsync_source(c: RsyncConfig, date: Seq<char>) -> Seq<char> {
    if flag(c.cephfs_snap, false) {
        snap_dir(c.src@, snap_name(date)) + "/"@
    } else {
        c.src@
    }
}

/// A mirror job: side effects before, the command, side effects after.
pub struct RsyncPlan {
    pub before: Vec<PathAction>,
    pub command: Vec<String>,
    pub after: Vec<PathAction>,
}

impl RsyncConfig {
    /// The mirror job with snapshots named after `date`: with snapshots on,
    /// one is taken before the copy and removed after it.
    pub fn plan_on(&self, dry: bool, date: &str) -> (r: RsyncPlan)
        ensures
            views(r.command@) == rsync_args(*self, dry, rsync_source(*self, date@)),
            flag(self.cephfs_snap, false) ==> step_views(r.before@) == seq![
                PathStep::CreateSnapshot(snap_dir(self.src@, snap_name(date@))),
            ] && step_views(r.after@) == seq![
                PathStep::RemoveSnapshot(snap_dir(self.src@, snap_name(date@))),
            ],
            !flag(self.cephfs_snap, false) ==> r.before@.len() == 0 && r.after@.len() == 0,
    {
        let mut v: Vec<String> = Vec::new();
        push_arg(&mut v, "rsync");
        push_arg(&mut v, "-avzhruP");
        assert(views(v@) =~= seq!["rsync"@, "-avzhruP"@]);
        push_switch(&mut v, self.delete, "--delete");
        let ghost m0 = views(v@);
        if dry {
            push_arg(&mut v, "--dry-run");
        }
        assert(views(v@) =~= m0 + dry_args(dry));
        push_each_opt(&mut v, &self.exclude, "--exclude");
        let mut before: Vec<PathAction> = Vec::new();
        let mut after: Vec<PathAction> = Vec::new();
        let ghost m1 = views(v@);
        if crate::input::flag_of(self.cephfs_snap, false) {
            let mut name = "SNAP_".to_owned();
            name.append(date);
            let sd = snapshot_dir(self.src.as_str(), name.as_str());
            let mut from = sd.clone();
            from.append("/");
            push_arg(&mut v, from.as_str());
            before.push(PathAction::CreateSnapshot(sd.clone()));
            after.push(PathAction::RemoveSnapshot(sd));
            assert(step_views(before@) =~= seq![
                PathStep::CreateSnapshot(snap_dir(self.src@, snap_name(date@))),
            ]);
            assert(step_views(after@) =~= seq![
                PathStep::RemoveSnapshot(snap_dir(self.src@, snap_name(date@))),
            ]);
        } else {
            push_arg(&mut v, self.src.as_str());
        }
        push_arg(&mut v, self.dest.as_str());
        assert(views(v@) =~= m1 + seq![rsync_source(*self, date@), self.dest@]);
        RsyncPlan { before, command: v, after }
    }

    /// The mirror job with today's snapshot name (see `plan_on`).
    pub fn run_backup(&self, dry: bool) -> (r: RsyncPlan)
        ensures
            exists|date: Seq<char>|
                views(r.command@) == rsync_args(*self, dry, rsync_source(*self, date)),
            !flag(self.cephfs_snap, false) ==> views(r.command@) == rsync_args(
                *self,
                dry,
                self.src@,
            ) && r.before@.len() == 0 && r.after@.len() == 0,
    {
        let date = crate::input::now();
        self.plan_on(dry, date.as_str())
    }

    /// The mirror job, refused with `MissingSource` when it names a
    /// directory that must exist and that directory is not `populated`.
    pub fn checked_plan(&self, dry: bool, populated: bool) -> (r: Result<RsyncPlan, ResticError>)
        ensures
            self.ensure_exists is Some && !populated <==> r == Err::<RsyncPlan, ResticError>(
                ResticError::MissingSource,
            ),
            r is Err ==> self.ensure_exists is Some && !populated,
            match r {
                Ok(p) => exists|date: Seq<char>|
                    views(p.command@) == rsync_args(*self, dry, rsync_source(*self, date)),
                Err(_) => true,
            },
    {
        if self.ensure_exists.is_some() && !populated {
            return Err(ResticError::MissingSource);
        }
        Ok(self.run_backup(dry))
    }
}

} // verus!
