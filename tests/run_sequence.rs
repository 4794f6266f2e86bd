use bk::config::{Config, LocalPath, ResticConfig, ResticForget, ResticTarget, RsyncConfig};
use bk::error::ResticError;
use bk::input::PathAction;
use bk::jobs::{resolve_sources, resolve_sources_on, undo_actions};
use bk::restic::ResticBackupCommandArgs;
use bk::run::{RunAction, RunCommand, RunEvent, RunStage, RunState};

fn strings(v: &[&str]) -> Vec<String> {
    v.iter().map(|s| s.to_string()).collect()
}

fn target(repo: &str) -> ResticTarget {
    ResticTarget { repo: repo.to_string(), s3: None, ssh: None, passphrase: Some("pw".to_string()), passphrase_file: None }
}

fn source(path: &str) -> LocalPath {
    LocalPath { path: path.to_string(), ensure_exists: None, cephfs_snap: None, same_path: None }
}

fn archive(src: &[&str], targets: &[&str]) -> ResticConfig {
    ResticConfig {
        ntfy: None, targets: strings(targets), src: strings(src), exclude: None, exclude_caches: None,
        reread: None, exclude_if_present: None, one_file_system: None, concurrency: None, tags: None,
        compression: None, quiet: None, host: None,
    }
}

fn forget(targets: &[&str]) -> ResticForget {
    ResticForget {
        ntfy: None, targets: strings(targets), keep_last: Some(1), keep_hourly: None, keep_daily: None,
        keep_weekly: None, keep_monthly: None, keep_yearly: None, keep_within: None, keep_within_hourly: None,
        keep_within_daily: None, keep_within_weekly: None, keep_within_monthly: None, keep_within_yearly: None,
        keep_tag: None, unsafe_allow_remove_all: None, host: None, tag: None, path: None, compact: None,
        group_by: None, prune: None, max_unused: None, max_repack_size: None, repack_cacheable_only: None,
        repack_small: None, repack_uncompressed: None, repack_smaller_than: None,
    }
}

fn config() -> Config {
    Config {
        start_script: None,
        end_script: None,
        delay: None,
        path: vec![("data".to_string(), source("/srv/data")), ("home".to_string(), source("/home"))],
        rsync: vec![],
        restic_target: vec![("A".to_string(), target("a")), ("B".to_string(), target("b"))],
        restic: vec![],
        restic_forget: vec![],
        ntfy: vec![],
    }
}

fn opts(exclude: &[&str], mode: &[&str]) -> RunCommand {
    RunCommand { config: "bk.toml".to_string(), dry_run: false, exclude: strings(exclude), mode: strings(mode) }
}

fn exit_code(a: &RunAction) -> Option<i32> {
    match a {
        RunAction::Exit(c) => Some(*c),
        _ => None,
    }
}

#[test]
fn one_target_failing_fails_the_run() {
    let mut cfg = config();
    cfg.restic.push(archive(&["data"], &["A", "B"]));
    let (mut st, a) = RunState::start(&cfg, &opts(&[], &[]), None);
    assert!(matches!(a, RunAction::ArchiveJob(0)));
    let done = vec![("A".to_string(), Ok(())), ("B".to_string(), Err(ResticError::IncorrectPassword))];
    let ev = RunEvent::JobDone(Ok(done));
    assert!(st.accepts(&cfg, &ev));
    let a = st.advance(&cfg, ev);
    assert_eq!(exit_code(&a), Some(1));
    assert_eq!(
        st.results,
        vec![("A".to_string(), Ok(())), ("B".to_string(), Err(ResticError::IncorrectPassword))]
    );
}

#[test]
fn excluded_job_is_passed_over() {
    let mut cfg = config();
    cfg.restic.push(archive(&["data"], &["A"]));
    cfg.restic.push(archive(&["home"], &["B"]));
    let (mut st, a) = RunState::start(&cfg, &opts(&["data"], &[]), None);
    assert!(matches!(a, RunAction::ArchiveJob(1)));
    let a = st.advance(&cfg, RunEvent::JobDone(Ok(vec![("B".to_string(), Ok(()))])));
    assert_eq!(exit_code(&a), Some(0));
    assert_eq!(st.results, vec![("B".to_string(), Ok(()))]);
}

#[test]
fn failed_start_script_aborts() {
    let mut cfg = config();
    cfg.start_script = Some("/pre.sh".to_string());
    cfg.end_script = Some("/post.sh".to_string());
    cfg.restic.push(archive(&["data"], &["A"]));
    let (mut st, a) = RunState::start(&cfg, &opts(&[], &[]), Some(5));
    assert!(matches!(a, RunAction::Sleep(5)));
    let a = st.advance(&cfg, RunEvent::Slept);
    assert!(matches!(&a, RunAction::RunScript(s) if s == "/pre.sh"));
    let a = st.advance(&cfg, RunEvent::ScriptExited(Some(2)));
    assert_eq!(exit_code(&a), Some(1));
    assert_eq!(st.stage, RunStage::Over);
    assert!(!st.accepts(&cfg, &RunEvent::Slept));
}

#[test]
fn full_sequence_with_scripts_and_modes() {
    let mut cfg = config();
    cfg.start_script = Some("/pre.sh".to_string());
    cfg.end_script = Some("/post.sh".to_string());
    cfg.rsync.push(RsyncConfig {
        src: "/a".to_string(), dest: "/b".to_string(), exclude: None, delete: None, ensure_exists: None, cephfs_snap: None,
    });
    cfg.restic.push(archive(&["data"], &["A"]));
    cfg.restic_forget.push(forget(&["A"]));
    let (mut st, a) = RunState::start(&cfg, &opts(&[], &[]), None);
    assert!(matches!(&a, RunAction::RunScript(s) if s == "/pre.sh"));
    let a = st.advance(&cfg, RunEvent::ScriptExited(Some(0)));
    assert!(matches!(a, RunAction::MirrorJob(0)));
    let a = st.advance(&cfg, RunEvent::JobDone(Ok(vec![])));
    assert!(matches!(a, RunAction::ArchiveJob(0)));
    let a = st.advance(&cfg, RunEvent::JobDone(Ok(vec![("A".to_string(), Ok(()))])));
    assert!(matches!(a, RunAction::ForgetJob(0)));
    let a = st.advance(&cfg, RunEvent::JobDone(Ok(vec![("A".to_string(), Ok(()))])));
    assert!(matches!(&a, RunAction::RunScript(s) if s == "/post.sh"));
    let a = st.advance(&cfg, RunEvent::ScriptExited(Some(0)));
    assert_eq!(exit_code(&a), Some(0));
    assert_eq!(st.results.len(), 2);

    let (_, a) = RunState::start(&cfg, &opts(&[], &["RESTIC_FORGET"]), None);
    assert!(matches!(&a, RunAction::RunScript(_)));
    let (mut st, _) = RunState::start(&cfg, &opts(&[], &["restic_forget"]), None);
    let a = st.advance(&cfg, RunEvent::ScriptExited(Some(0)));
    assert!(matches!(a, RunAction::ForgetJob(0)));
}

#[test]
fn failed_end_script_fails_the_run() {
    let mut cfg = config();
    cfg.end_script = Some("/post.sh".to_string());
    let (mut st, a) = RunState::start(&cfg, &opts(&[], &[]), None);
    assert!(matches!(&a, RunAction::RunScript(s) if s == "/post.sh"));
    assert_eq!(exit_code(&st.advance(&cfg, RunEvent::ScriptExited(None))), Some(1));
}

#[test]
fn failing_job_ends_the_run() {
    let mut cfg = config();
    cfg.restic.push(archive(&["data"], &["A"]));
    cfg.restic.push(archive(&["home"], &["B"]));
    let (mut st, _) = RunState::start(&cfg, &opts(&[], &[]), None);
    let a = st.advance(&cfg, RunEvent::JobDone(Err(ResticError::MissingSource)));
    assert_eq!(exit_code(&a), Some(1));
    assert!(st.results.is_empty());
}

#[test]
fn invalid_configuration_or_mode_ends_at_once() {
    let mut cfg = config();
    cfg.restic.push(archive(&["nope"], &["A"]));
    let (_, a) = RunState::start(&cfg, &opts(&[], &[]), Some(3));
    assert_eq!(exit_code(&a), Some(1));
    let cfg = config();
    let (_, a) = RunState::start(&cfg, &opts(&[], &["borg"]), None);
    assert_eq!(exit_code(&a), Some(1));
    let mut dup = config();
    dup.restic_target.push(("A".to_string(), target("other")));
    assert!(!dup.names_are_unique());
    let (_, a) = RunState::start(&dup, &opts(&[], &[]), None);
    assert_eq!(exit_code(&a), Some(1));
    assert!(config().names_are_unique());
}

#[test]
fn nothing_to_do_exits_zero() {
    let (_, a) = RunState::start(&config(), &opts(&[], &[]), None);
    assert_eq!(exit_code(&a), Some(0));
}

#[test]
fn sources_resolve_before_side_effects() {
    let mut cfg = config();
    cfg.path[0].1.cephfs_snap = Some(true);
    cfg.path[0].1.same_path = Some(true);
    let names = strings(&["data", "home"]);
    let (dirs, effects) = resolve_sources_on(&cfg, &names, &vec![true, true], "2024_01_02").unwrap();
    assert_eq!(dirs, vec!["/bk/_srv_data", "/home"]);
    assert_eq!(effects.len(), 3);
    assert_eq!(
        undo_actions(&effects, 3),
        vec![
            PathAction::Unmount("/bk/_srv_data".to_string()),
            PathAction::RemoveSnapshot("/srv/data/.snap/SNAP_2024_01_02".to_string()),
        ]
    );
    assert_eq!(
        undo_actions(&effects, 1),
        vec![PathAction::RemoveSnapshot("/srv/data/.snap/SNAP_2024_01_02".to_string())]
    );
    assert!(undo_actions(&effects, 0).is_empty());
    assert_eq!(resolve_sources_on(&cfg, &names, &vec![true, false], "d"), Err(ResticError::MissingSource));
    assert_eq!(resolve_sources_on(&cfg, &names, &vec![true], "d"), Err(ResticError::MissingSource));
    assert_eq!(resolve_sources(&cfg, &strings(&["x"]), &vec![true]), Err(ResticError::UnknownReference));
    assert_eq!(resolve_sources(&cfg, &strings(&["home"]), &vec![true]).unwrap().0, vec!["/home"]);
}

#[test]
fn mirror_job_checks_its_source() {
    let job = RsyncConfig {
        src: "/a".to_string(), dest: "/b".to_string(), exclude: None, delete: None,
        ensure_exists: Some("/a".to_string()), cephfs_snap: None,
    };
    assert!(matches!(job.checked_plan(false, false), Err(ResticError::MissingSource)));
    assert_eq!(job.checked_plan(false, true).unwrap().command, vec!["rsync", "-avzhruP", "/a", "/b"]);
}

#[test]
fn backup_args_keep_absent_lists_absent() {
    let mut c = archive(&["data"], &["A"]);
    let a = ResticBackupCommandArgs::from_config(&c);
    assert_eq!(a.exclude, None);
    assert_eq!(a.exclude_if_present, None);
    c.exclude = Some(vec![]);
    c.exclude_if_present = Some(strings(&["x"]));
    let a = ResticBackupCommandArgs::from_config(&c);
    assert_eq!(a.exclude, Some(vec![]));
    assert_eq!(a.exclude_if_present, Some(strings(&["x"])));
}
