use bk::archive::{Action, Event, Stage, TargetRun};
use bk::config::{Config, LocalPath, ResticConfig, ResticTarget};
use bk::error::ResticError;
use bk::jobs::{job_sources, job_targets};
use bk::lineage::{find_head, is_head, is_head_tag, key_id_of_fingerprint, machine_id, HeadTag, Snapshot};
use bk::run::exit_status;

const KEY: &str = "ssh-ed25519 AAAAC3NzaC1lZDI1NTE5AAAAILM+rvN+ot98qgEN796jTiQfZfG1KaT0PtFDJ/XFSqti user@example.com\n";

fn head() -> HeadTag {
    HeadTag { hostname: "host1".to_string(), host_key: "KEY".to_string() }
}

fn snap(id: &str, tags: &[&str]) -> Snapshot {
    Snapshot {
        id: id.to_string(),
        short_id: id.chars().take(8).collect(),
        time: "2024-01-01T00:00:00Z".to_string(),
        hostname: "host1".to_string(),
        paths: vec!["/srv/data".to_string()],
        tags: tags.iter().map(|t| t.to_string()).collect(),
        parent: None,
    }
}

fn target(repo: &str) -> ResticTarget {
    ResticTarget { repo: repo.to_string(), s3: None, ssh: None, passphrase: Some("pw".to_string()), passphrase_file: None }
}

fn job(targets: &[&str]) -> ResticConfig {
    ResticConfig {
        ntfy: None,
        targets: targets.iter().map(|t| t.to_string()).collect(),
        src: vec!["data".to_string()],
        exclude: None,
        exclude_caches: None,
        reread: None,
        exclude_if_present: None,
        one_file_system: None,
        concurrency: None,
        tags: None,
        compression: None,
        quiet: None,
        host: None,
    }
}

fn tag_pairs(args: &[String]) -> Vec<String> {
    let mut out = Vec::new();
    for i in 0..args.len() {
        if args[i] == "--tag" {
            out.push(args[i + 1].clone());
        }
    }
    out
}

#[test]
fn head_tag_text() {
    assert_eq!(head().to_string(), "head:host1:KEY");
}

#[test]
fn machine_id_of_example_key() {
    assert_eq!(machine_id(KEY), Some("UCUiLr7Pjs9wFFJMDByLgc3NrtdU344OgUM45wZPcIQ".to_string()));
    assert_eq!(machine_id("not a key"), None);
    let h = HeadTag::own("box".to_string(), KEY).unwrap();
    assert_eq!(h.to_string(), "head:box:UCUiLr7Pjs9wFFJMDByLgc3NrtdU344OgUM45wZPcIQ");
}

#[test]
fn fingerprint_prefix_is_stripped() {
    assert_eq!(key_id_of_fingerprint("SHA256:abc"), "abc");
    assert_eq!(key_id_of_fingerprint("abc"), "abc");
}

#[test]
fn head_detection() {
    let h = head();
    let s = snap("a", &["x", "head:host1:KEY"]);
    assert!(is_head_tag(&h, &s));
    assert!(is_head(&s));
    let other = snap("b", &["head:host2:KEY2"]);
    assert!(!is_head_tag(&h, &other));
    assert!(is_head(&other));
    assert!(!is_head(&snap("c", &["parent:"])));
}

#[test]
fn find_head_counts() {
    let t = "head:host1:KEY";
    assert_eq!(find_head(&vec![snap("a", &["x"])], t), Ok(None));
    assert_eq!(find_head(&vec![snap("a", &["x"]), snap("b", &[t])], t), Ok(Some("b".to_string())));
    assert_eq!(find_head(&vec![snap("a", &[t]), snap("b", &[t])], t), Err(ResticError::DuplicateHead));
}

#[test]
fn first_run_starts_a_lineage() {
    let h = head().to_string();
    let (mut run, act) = TargetRun::start("remote".to_string(), &target("r"), &vec![], &h, false);
    assert!(matches!(act, Action::List(_)));
    let dirs = vec!["/srv/data".to_string()];
    let act = run.advance(&job(&["remote"]), &dirs, Event::Listed(Some(vec![snap("a", &["x"])])));
    match act {
        Action::Archive(args) => {
            assert_eq!(tag_pairs(&args), vec!["head:host1:KEY", "parent:"]);
            assert!(!args.contains(&"--dry-run".to_string()));
        }
        _ => panic!("expected an archive run"),
    }
    let act = run.advance(&job(&["remote"]), &dirs, Event::Exited(Some(0)));
    assert!(matches!(act, Action::Finished));
    assert_eq!(run.outcome(), Some(Ok(())));
}

#[test]
fn second_run_chains_to_edited_identifier() {
    let h = head().to_string();
    let (mut run, _) = TargetRun::start("remote".to_string(), &target("r"), &vec![], &h, false);
    let dirs = vec!["/srv/data".to_string()];
    let act = run.advance(&job(&["remote"]), &dirs, Event::Listed(Some(vec![snap("X", &[&h, "parent:"])])));
    match act {
        Action::Untag(args) => {
            assert_eq!(args, vec!["restic", "tag", "--remove", "head:host1:KEY", "--quiet", "--json", "-r", "r", "X"]);
        }
        _ => panic!("expected the head tag to be released"),
    }
    let act = run.advance(&job(&["remote"]), &dirs, Event::Untagged(Some("X2".to_string())));
    match act {
        Action::Archive(args) => assert_eq!(tag_pairs(&args), vec!["head:host1:KEY", "parent:X2"]),
        _ => panic!("expected an archive run"),
    }
    assert!(matches!(run.stage, Stage::Archiving(true)));
}

#[test]
fn duplicate_heads_abort_before_archiving() {
    let h = head().to_string();
    let (mut run, _) = TargetRun::start("remote".to_string(), &target("r"), &vec![], &h, false);
    let dirs = vec!["/srv/data".to_string()];
    let act = run.advance(&job(&["remote"]), &dirs, Event::Listed(Some(vec![snap("a", &[&h]), snap("b", &[&h])])));
    assert!(matches!(act, Action::Finished));
    assert_eq!(run.outcome(), Some(Err(ResticError::DuplicateHead)));
}

#[test]
fn archive_failure_after_release_is_distinct() {
    let h = head().to_string();
    let (mut run, _) = TargetRun::start("remote".to_string(), &target("r"), &vec![], &h, false);
    let dirs = vec!["/srv/data".to_string()];
    run.advance(&job(&["remote"]), &dirs, Event::Listed(Some(vec![snap("X", &[&h])])));
    run.advance(&job(&["remote"]), &dirs, Event::Untagged(Some("X2".to_string())));
    run.advance(&job(&["remote"]), &dirs, Event::Exited(Some(1)));
    assert_eq!(run.outcome(), Some(Err(ResticError::HeadReleased(Some(1)))));
}

#[test]
fn incomplete_archive_after_release_keeps_its_kind() {
    let h = head().to_string();
    let (mut run, _) = TargetRun::start("remote".to_string(), &target("r"), &vec![], &h, false);
    let dirs = vec!["/srv/data".to_string()];
    run.advance(&job(&["remote"]), &dirs, Event::Listed(Some(vec![snap("X", &[&h])])));
    run.advance(&job(&["remote"]), &dirs, Event::Untagged(Some("X2".to_string())));
    run.advance(&job(&["remote"]), &dirs, Event::Exited(Some(3)));
    assert_eq!(run.outcome(), Some(Err(ResticError::Incomplete)));
}

#[test]
fn failed_tag_edit_and_listing() {
    let h = head().to_string();
    let dirs = vec!["/srv/data".to_string()];
    let (mut run, _) = TargetRun::start("remote".to_string(), &target("r"), &vec![], &h, false);
    run.advance(&job(&["remote"]), &dirs, Event::Listed(None));
    assert_eq!(run.outcome(), Some(Err(ResticError::ListingFailed)));
    let (mut run, _) = TargetRun::start("remote".to_string(), &target("r"), &vec![], &h, false);
    run.advance(&job(&["remote"]), &dirs, Event::Listed(Some(vec![snap("X", &[&h])])));
    assert!(run.accepts(&Event::Untagged(None)));
    assert!(!run.accepts(&Event::Exited(None)));
    run.advance(&job(&["remote"]), &dirs, Event::Untagged(None));
    assert_eq!(run.outcome(), Some(Err(ResticError::TagEditFailed)));
}

#[test]
fn missing_credentials_fail_only_that_target() {
    let mut t = target("r");
    t.passphrase = None;
    let (run, act) = TargetRun::start("remote".to_string(), &t, &vec![], "head:h:k", false);
    assert!(matches!(act, Action::Finished));
    assert_eq!(run.outcome(), Some(Err(ResticError::MissingCredential)));
}

#[test]
fn dry_run_edits_no_tag() {
    let mut cfg = Config {
        start_script: None,
        end_script: None,
        delay: None,
        path: vec![],
        rsync: vec![],
        restic_target: vec![],
        restic: vec![],
        restic_forget: vec![],
        ntfy: vec![],
    };
    cfg.path.push(("data".to_string(), LocalPath { path: "/srv/data".to_string(), ensure_exists: None, cephfs_snap: None, same_path: None }));
    cfg.restic_target.push(("remote".to_string(), target("r")));
    let j = job(&["remote"]);
    let mut sources = job_sources(&cfg, &j.src).unwrap();
    let (dir, _) = sources[0].resolve_on(true, "d").unwrap();
    assert_eq!(dir, "/srv/data");
    let targets = job_targets(&cfg, &j.targets).unwrap();
    let h = head().to_string();
    let (mut run, act) = TargetRun::start("remote".to_string(), targets[0], &vec![], &h, true);
    assert!(matches!(act, Action::List(_)));
    let dirs = vec![dir];
    let act = run.advance(&j, &dirs, Event::Listed(Some(vec![snap("X", &[&h])])));
    match act {
        Action::Archive(args) => {
            assert!(args.contains(&"--dry-run".to_string()));
            assert_eq!(args[args.len() - 3..].to_vec(), vec!["-r", "r", "/srv/data"]);
            assert_eq!(tag_pairs(&args), vec!["head:host1:KEY", "parent:X"]);
        }
        _ => panic!("a dry run must not edit tags"),
    }
}

#[test]
fn two_targets_one_wrong_password() {
    let h = head().to_string();
    let dirs = vec!["/srv/data".to_string()];
    let j = job(&["A", "B"]);
    let mut results = Vec::new();
    let mut attempted = 0;
    for (name, code) in [("A", 0), ("B", 12)] {
        let (mut run, act) = TargetRun::start(name.to_string(), &target(name), &vec![], &h, false);
        assert!(matches!(act, Action::List(_)));
        let act = run.advance(&j, &dirs, Event::Listed(Some(vec![])));
        assert!(matches!(act, Action::Archive(_)));
        attempted += 1;
        run.advance(&j, &dirs, Event::Exited(Some(code)));
        results.push((run.name.clone(), run.outcome().unwrap()));
    }
    assert_eq!(attempted, 2);
    assert_eq!(
        results,
        vec![("A".to_string(), Ok(())), ("B".to_string(), Err(ResticError::IncorrectPassword))]
    );
    assert_eq!(exit_status(&results), 1);
}

#[test]
fn unknown_references_are_rejected() {
    let cfg = Config {
        start_script: None,
        end_script: None,
        delay: None,
        path: vec![],
        rsync: vec![],
        restic_target: vec![("remote".to_string(), target("r"))],
        restic: vec![],
        restic_forget: vec![],
        ntfy: vec![],
    };
    assert!(matches!(job_sources(&cfg, &vec!["data".to_string()]), Err(ResticError::UnknownReference)));
    assert!(matches!(job_targets(&cfg, &vec!["other".to_string()]), Err(ResticError::UnknownReference)));
    assert_eq!(job_targets(&cfg, &vec!["remote".to_string()]).unwrap().len(), 1);
}
