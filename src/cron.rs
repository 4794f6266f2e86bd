use vstd::prelude::*;

use crate::run::{lower_of, lowercase};
use crate::text::{replace_char, strip_leading, swap_char, trim_leading};

verus! {

/// Options of a scheduled backup, as read from a resource's annotations.
pub struct BkOptions {
    /// Repository.
    pub repo: String,
    /// Cron schedule.
    pub schedule: String,
    /// Volumes to leave out.
    pub exclude: Option<Vec<String>>,
    /// Volumes to snapshot (and bind-mount to a stable path).
    pub cephfs_snap: Option<Vec<String>>,
}

/// Names of the scheduled jobs generated for cluster resources.
pub struct BackupCronJob {}

/// A resource name derived from a filesystem path.
pub open spec fn path_name(path: Seq<char>) -> Seq<char> {
    lower_of(strip_leading(swap_char(path, '/', '-'), '-'))
}

impl BackupCronJob {
    /// Turns a filesystem path into a resource name: slashes become dashes,
    /// leading dashes go, and the rest is lower-cased.
    pub fn path_to_name(path: &str) -> (r: String)
        ensures
            r@ == path_name(path@),
    {
        proof {
            reveal_strlit("-");
        }
        let dashed = replace_char(path, '/', "-");
        let trimmed = trim_leading(dashed.as_str(), '-');
        lowercase(trimmed.as_str())
    }

    /// The name of a workload's backup job.
    pub fn cronjob_name(name: &str) -> (r: String)
        ensures
            r@ == "bk-backup-"@ + name@,
    {
        let mut s = "bk-backup-".to_owned();
        s.append(name);
        s
    }

    /// The name of a workload's backup secret.
    pub fn cronjob_secret_name(name: &str) -> (r: String)
        ensures
            r@ == "bk-backup-secret-"@ + name@,
    {
        let mut s = "bk-backup-secret-".to_owned();
        s.append(name);
        s
    }

    /// The name of a node's backup job.
    pub fn node_cronjob_name(name: &str) -> (r: String)
        ensures
            r@ == "bk-nodebackup-"@ + name@,
    {
        let mut s = "bk-nodebackup-".to_owned();
        s.append(name);
        s
    }

    /// The name of a node's backup secret.
    pub fn node_cronjob_secret_name(name: &str) -> (r: String)
        ensures
            r@ == "bk-nodebackup-secret-"@ + name@,
    {
        let mut s = "bk-nodebackup-secret-".to_owned();
        s.append(name);
        s
    }
}

} // verus!
