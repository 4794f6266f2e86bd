use vstd::prelude::*;

use crate::text::same_text;

verus! {

/// A logical source location.
pub struct LocalPath {
    /// The local path.
    pub path: String,
    /// Refuse to back up a missing or empty directory (default: on).
    pub ensure_exists: Option<bool>,
    /// Take a CephFS snapshot before the backup.
    pub cephfs_snap: Option<bool>,
    /// Bind-mount the snapshot onto a stable path.
    pub same_path: Option<bool>,
}

/// S3 credentials, each given inline or as a file to read.
pub struct S3Creds {
    pub access_key: Option<String>,
    pub access_key_file: Option<String>,
    pub secret_key: Option<String>,
    pub secret_key_file: Option<String>,
}

/// SSH transport options.
pub struct SSHOptions {
    pub port: Option<u16>,
    pub identity: String,
}

/// A repository target.
pub struct ResticTarget {
    /// Repository locator.
    pub repo: String,
    pub s3: Option<S3Creds>,
    pub ssh: Option<SSHOptions>,
    /// Passphrase given inline.
    pub passphrase: Option<String>,
    /// File that holds the passphrase.
    pub passphrase_file: Option<String>,
}

/// An archive job.
pub struct ResticConfig {
    /// Notification channels.
    pub ntfy: Option<Vec<String>>,
    /// Target names.
    pub targets: Vec<String>,
    /// Source path names.
    pub src: Vec<String>,
    pub exclude: Option<Vec<String>>,
    pub exclude_caches: Option<bool>,
    pub reread: Option<bool>,
    pub exclude_if_present: Option<Vec<String>>,
    pub one_file_system: Option<bool>,
    pub concurrency: Option<u64>,
    pub tags: Option<Vec<String>>,
    pub compression: Option<String>,
    pub quiet: Option<bool>,
    pub host: Option<String>,
}

/// A retention job.
pub struct ResticForget {
    pub ntfy: Option<Vec<String>>,
    pub targets: Vec<String>,
    pub keep_last: Option<u64>,
    pub keep_hourly: Option<u64>,
    pub keep_daily: Option<u64>,
    pub keep_weekly: Option<u64>,
    pub keep_monthly: Option<u64>,
    pub keep_yearly: Option<u64>,
    pub keep_within: Option<u64>,
    pub keep_within_hourly: Option<u64>,
    pub keep_within_daily: Option<u64>,
    pub keep_within_weekly: Option<u64>,
    pub keep_within_monthly: Option<u64>,
    pub keep_within_yearly: Option<u64>,
    pub keep_tag: Option<Vec<String>>,
    pub unsafe_allow_remove_all: Option<bool>,
    pub host: Option<Vec<String>>,
    pub tag: Option<Vec<String>>,
    pub path: Option<Vec<String>>,
    pub compact: Option<bool>,
    pub group_by: Option<String>,
    pub prune: Option<bool>,
    pub max_unused: Option<String>,
    pub max_repack_size: Option<String>,
    pub repack_cacheable_only: Option<bool>,
    pub repack_small: Option<bool>,
    pub repack_uncompressed: Option<bool>,
    pub repack_smaller_than: Option<String>,
}

/// A mirror job.
pub struct RsyncConfig {
    pub src: String,
    pub dest: String,
    pub exclude: Option<Vec<String>>,
    pub delete: Option<bool>,
    pub ensure_exists: Option<String>,
    pub cephfs_snap: Option<bool>,
}

/// Credentials of a notification endpoint.
pub struct NtfyAuth {
    pub user: String,
    pub pass: Option<String>,
    pub pass_file: Option<String>,
}

/// A notification endpoint and topic.
pub struct NtfyConfiguration {
    pub host: String,
    pub topic: String,
    pub auth: Option<NtfyAuth>,
}

/// A notification channel.
pub struct NtfyTarget {
    pub ntfy: Option<NtfyConfiguration>,
}

/// The whole configuration. Each mapping is a list of named entries; the
/// first entry of a name is the one that counts.
pub struct Config {
    pub start_script: Option<String>,
    pub end_script: Option<String>,
    /// Upper bound (exclusive, seconds) of the random start delay.
    pub delay: Option<u64>,
    pub path: Vec<(String, LocalPath)>,
    pub rsync: Vec<RsyncConfig>,
    pub restic_target: Vec<(String, ResticTarget)>,
    pub restic: Vec<ResticConfig>,
    pub restic_forget: Vec<ResticForget>,
    pub ntfy: Vec<(String, NtfyTarget)>,
}

/// `i` is the first entry named `k`.
pub open spec fn is_first_entry<T>(e: Seq<(String, T)>, k: Seq<char>, i: int) -> bool {
    0 <= i < e.len() && e[i].0@ == k && forall|j: int| 0 <= j < i ==> e[j].0@ != k
}

/// The value of the first entry named `k`.
pub open spec fn lookup<T>(e: Seq<(String, T)>, k: Seq<char>) -> Option<T> {
    if exists|i: int| is_first_entry(e, k, i) {
        Some(e[choose|i: int| is_first_entry(e, k, i)].1)
    } else {
        None
    }
}

/// The value of the first entry named `key`.
pub fn find_entry<'a, T>(e: &'a Vec<(String, T)>, key: &str) -> (r: Option<&'a T>)
    ensures
        match r {
            Some(v) => lookup(e@, key@) == Some(*v),
            None => lookup(e@, key@) is None,
        },
{
    let mut i: usize = 0;
    while i < e.len()
        invariant
            i <= e.len(),
            forall|j: int| 0 <= j < i ==> e@[j].0@ != key@,
        decreases e.len() - i,
    {
        if same_text(e[i].0.as_str(), key) {
            assert(is_first_entry(e@, key@, i as int));
            let ghost k = choose|k: int| is_first_entry(e@, key@, k);
            assert(k == i) by {
                if k < i {
                    assert(e@[k].0@ != key@);
                } else if k > i {
                    assert(e@[i as int].0@ != key@);
                }
            }
            return Some(&e[i].1);
        }
        i = i + 1;
    }
    assert(!exists|k: int| is_first_entry(e@, key@, k));
    None
}

/// No two entries share a name: the entries form a mapping.
pub open spec fn unique_names<T>(e: Seq<(String, T)>) -> bool {
    forall|i: int, j: int| 0 <= i < j < e.len() ==> #[trigger] e[i].0@ != #[trigger] e[j].0@
}

/// Whether no two entries share a name.
pub fn names_unique<T>(e: &Vec<(String, T)>) -> (r: bool)
    ensures
        r == unique_names(e@),
{
    let mut j: usize = 0;
    while j < e.len()
        invariant
            j <= e.len(),
            forall|a: int, b: int| 0 <= a < b < j ==> #[trigger] e@[a].0@ != #[trigger] e@[b].0@,
        decreases e.len() - j,
    {
        let mut i: usize = 0;
        while i < j
            invariant
                i <= j < e.len(),
                forall|a: int, b: int| 0 <= a < b < j ==> #[trigger] e@[a].0@ != #[trigger] e@[b].0@,
                forall|a: int| 0 <= a < i ==> e@[a].0@ != e@[j as int].0@,
            decreases j - i,
        {
            if same_text(e[i].0.as_str(), e[j].0.as_str()) {
                return false;
            }
            i = i + 1;
        }
        j = j + 1;
    }
    true
}

/// In a mapping, the entry named `k` is the value found under `k`.
pub proof fn lemma_lookup_unique<T>(e: Seq<(String, T)>, k: Seq<char>, i: int)
    requires
        unique_names(e),
        0 <= i < e.len(),
        e[i].0@ == k,
    ensures
        lookup(e, k) == Some(e[i].1),
{
    assert(is_first_entry(e, k, i));
    let c = choose|c: int| is_first_entry(e, k, c);
    if c != i {
        if c < i {
            assert(e[c].0@ != e[i].0@);
        } else {
            assert(e[i].0@ != e[c].0@);
        }
    }
}

impl Config {
    /// The well-formedness of a configuration: each of its mappings names
    /// every entry once.
    pub open spec fn wf(&self) -> bool {
        unique_names(self.path@) && unique_names(self.restic_target@) && unique_names(self.ntfy@)
    }

    /// Whether the configuration is well formed.
    pub fn names_are_unique(&self) -> (r: bool)
        ensures
            r == self.wf(),
    {
        names_unique(&self.path) && names_unique(&self.restic_target) && names_unique(&self.ntfy)
    }
}

} // verus!
