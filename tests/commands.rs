use bk::archive::archive_command;
use bk::config::{ResticConfig, ResticForget, RsyncConfig};
use bk::input::PathAction;
use bk::restic::{forget_command, init_command, snapshots_command, untag_command, ResticBackupCommandArgs};

fn job() -> ResticConfig {
    ResticConfig {
        ntfy: None,
        targets: vec!["remote".to_string()],
        src: vec!["data".to_string()],
        exclude: None,
        exclude_caches: None,
        reread: None,
        exclude_if_present: None,
        one_file_system: None,
        concurrency: None,
        tags: None,
        compression: None,
        quiet: None,
        host: None,
    }
}

fn forget() -> ResticForget {
    ResticForget {
        ntfy: None,
        targets: vec!["remote".to_string()],
        keep_last: None,
        keep_hourly: None,
        keep_daily: None,
        keep_weekly: None,
        keep_monthly: None,
        keep_yearly: None,
        keep_within: None,
        keep_within_hourly: None,
        keep_within_daily: None,
        keep_within_weekly: None,
        keep_within_monthly: None,
        keep_within_yearly: None,
        keep_tag: None,
        unsafe_allow_remove_all: None,
        host: None,
        tag: None,
        path: None,
        compact: None,
        group_by: None,
        prune: None,
        max_unused: None,
        max_repack_size: None,
        repack_cacheable_only: None,
        repack_small: None,
        repack_uncompressed: None,
        repack_smaller_than: None,
    }
}

#[test]
fn forget_includes_only_configured_fields() {
    let c = forget();
    assert_eq!(forget_command(&c, "r", false, &None), vec!["restic", "forget", "-r", "r"]);
}

#[test]
fn forget_with_policy() {
    let mut c = forget();
    c.keep_last = Some(7);
    c.keep_daily = Some(14);
    c.keep_within = Some(1200);
    c.keep_tag = Some(vec!["keep".to_string(), "gold".to_string()]);
    c.host = Some(vec!["h1".to_string()]);
    c.group_by = Some("host".to_string());
    c.prune = Some(true);
    c.repack_small = Some(false);
    c.max_unused = Some("5%".to_string());
    let opt = Some("sftp.command=x".to_string());
    assert_eq!(
        forget_command(&c, "repo", true, &opt),
        vec![
            "restic", "forget", "--keep-last", "7", "--keep-daily", "14", "--keep-within", "1200",
            "--keep-tag", "keep", "--keep-tag", "gold", "--host", "h1", "--group-by", "host",
            "--prune", "--max-unused", "5%", "--dry-run", "-r", "repo", "-o", "sftp.command=x",
        ]
    );
}

#[test]
fn forget_number_zero_and_large() {
    let mut c = forget();
    c.keep_last = Some(0);
    c.keep_yearly = Some(18446744073709551615);
    assert_eq!(
        forget_command(&c, "r", false, &None),
        vec!["restic", "forget", "--keep-last", "0", "--keep-yearly", "18446744073709551615", "-r", "r"]
    );
}

#[test]
fn backup_args_defaults() {
    let a = ResticBackupCommandArgs::from_config(&job());
    assert_eq!(a.read_concurrency, 2);
    assert_eq!(a.compression, "auto");
    assert!(!a.one_file_system && !a.quiet && !a.json && !a.dry_run);
    assert_eq!(
        a.to_args(),
        vec!["restic", "backup", "--read-concurrency", "2", "--compression", "auto", "-r", ""]
    );
}

#[test]
fn archive_command_full() {
    let mut c = job();
    c.exclude = Some(vec!["*.tmp".to_string()]);
    c.exclude_if_present = Some(vec![".nobackup".to_string()]);
    c.one_file_system = Some(true);
    c.concurrency = Some(8);
    c.tags = Some(vec!["daily".to_string()]);
    c.reread = Some(true);
    c.exclude_caches = Some(true);
    c.compression = Some("max".to_string());
    c.quiet = Some(true);
    c.host = Some("box".to_string());
    let dirs = vec!["/srv/data".to_string()];
    let args = archive_command(&c, &dirs, "r", &Some("o=1".to_string()), "head:h:k", "abc", false);
    assert_eq!(
        args,
        vec![
            "restic", "backup", "--exclude", "*.tmp", "--exclude-if-present", ".nobackup",
            "--one-file-system", "--read-concurrency", "8", "--tag", "daily", "--tag", "head:h:k",
            "--tag", "parent:abc", "--force", "--exclude-caches", "-o", "o=1", "--compression", "max",
            "--quiet", "--json", "--host", "box", "-r", "r", "/srv/data",
        ]
    );
}

#[test]
fn dry_run_archive_command() {
    let dirs = vec!["/srv/data".to_string()];
    let args = archive_command(&job(), &dirs, "r", &None, "head:h:k", "", true);
    assert_eq!(
        args,
        vec![
            "restic", "backup", "--read-concurrency", "2", "--tag", "head:h:k", "--tag", "parent:",
            "--dry-run", "--compression", "auto", "--json", "-r", "r", "/srv/data",
        ]
    );
}

#[test]
fn untag_snapshots_init_commands() {
    assert_eq!(
        untag_command("r", &None, "abc", "head:h:k"),
        vec!["restic", "tag", "--remove", "head:h:k", "--quiet", "--json", "-r", "r", "abc"]
    );
    assert_eq!(
        snapshots_command("r", &Some("o".to_string())),
        vec!["restic", "snapshots", "--json", "-o", "o", "-r", "r"]
    );
    assert_eq!(init_command("r", &None), vec!["restic", "init", "-r", "r"]);
}

#[test]
fn rsync_plan_plain_and_snapshot() {
    let mut c = RsyncConfig {
        src: "/srv/a".to_string(),
        dest: "host:/b".to_string(),
        exclude: Some(vec!["x".to_string()]),
        delete: Some(true),
        ensure_exists: None,
        cephfs_snap: None,
    };
    let p = c.plan_on(true, "2024_01_02");
    assert_eq!(
        p.command,
        vec!["rsync", "-avzhruP", "--delete", "--dry-run", "--exclude", "x", "/srv/a", "host:/b"]
    );
    assert!(p.before.is_empty() && p.after.is_empty());
    c.cephfs_snap = Some(true);
    let p = c.plan_on(false, "2024_01_02");
    assert_eq!(
        p.command,
        vec![
            "rsync", "-avzhruP", "--delete", "--exclude", "x", "/srv/a/.snap/SNAP_2024_01_02/",
            "host:/b",
        ]
    );
    assert_eq!(p.before, vec![PathAction::CreateSnapshot("/srv/a/.snap/SNAP_2024_01_02".to_string())]);
    assert_eq!(p.after, vec![PathAction::RemoveSnapshot("/srv/a/.snap/SNAP_2024_01_02".to_string())]);
}
