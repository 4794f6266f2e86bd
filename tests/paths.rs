use bk::config::LocalPath;
use bk::error::ResticError;
use bk::input::{bind_mount, umount, LocalPathRef, PathAction};

fn spec(path: &str, ensure: Option<bool>, snap: Option<bool>, same: Option<bool>) -> LocalPath {
    LocalPath { path: path.to_string(), ensure_exists: ensure, cephfs_snap: snap, same_path: same }
}

#[test]
fn missing_source_fails_before_side_effects() {
    let mut r = LocalPathRef::from(spec("/srv/data", None, Some(true), Some(true)));
    assert_eq!(r.resolve_on(false, "2024_01_02"), Err(ResticError::MissingSource));
    assert!(r.cephfs_snap_name.is_none());
    assert!(r.bind_mount_path.is_none());
    assert!(r.cleanup().is_empty());
}

#[test]
fn unchecked_source_resolves_even_when_empty() {
    let mut r = LocalPathRef::from(spec("/srv/data", Some(false), None, None));
    let (p, steps) = r.resolve_on(false, "2024_01_02").unwrap();
    assert_eq!(p, "/srv/data");
    assert!(steps.is_empty());
}

#[test]
fn plain_source_has_no_side_effects() {
    let mut r = LocalPathRef::from(spec("/srv/data", None, None, None));
    let (p, steps) = r.resolve_on(true, "2024_01_02").unwrap();
    assert_eq!(p, "/srv/data");
    assert!(steps.is_empty());
    assert!(r.cleanup().is_empty());
}

#[test]
fn snapshot_only_is_removed_on_cleanup() {
    let mut r = LocalPathRef::from(spec("/srv/data", None, Some(true), None));
    let (p, steps) = r.resolve_on(true, "2024_01_02").unwrap();
    assert_eq!(p, "/srv/data/.snap/SNAP_2024_01_02/");
    assert_eq!(steps, vec![PathAction::CreateSnapshot("/srv/data/.snap/SNAP_2024_01_02".to_string())]);
    assert_eq!(r.cephfs_snap_name.as_deref(), Some("SNAP_2024_01_02"));
    assert_eq!(
        r.cleanup(),
        vec![PathAction::RemoveSnapshot("/srv/data/.snap/SNAP_2024_01_02".to_string())]
    );
    assert!(r.cleanup().is_empty());
}

#[test]
fn snapshot_and_mount_cleanup_unmounts_first() {
    let mut r = LocalPathRef::from(spec("/srv/data/", None, Some(true), Some(true)));
    let (p, steps) = r.resolve_on(true, "2024_01_02").unwrap();
    assert_eq!(p, "/bk/_srv_data_");
    assert_eq!(
        steps,
        vec![
            PathAction::CreateSnapshot("/srv/data/.snap/SNAP_2024_01_02".to_string()),
            PathAction::CreateMountPoint("/bk/_srv_data_".to_string()),
            PathAction::BindMount(
                "/srv/data/.snap/SNAP_2024_01_02/".to_string(),
                "/bk/_srv_data_".to_string()
            ),
        ]
    );
    assert_eq!(
        r.cleanup(),
        vec![
            PathAction::Unmount("/bk/_srv_data_".to_string()),
            PathAction::RemoveSnapshot("/srv/data/.snap/SNAP_2024_01_02".to_string()),
        ]
    );
    assert!(r.cleanup().is_empty());
}

#[test]
fn mount_without_snapshot_does_nothing() {
    let mut r = LocalPathRef::from(spec("/srv/data", None, Some(false), Some(true)));
    let (p, steps) = r.resolve_on(true, "d").unwrap();
    assert_eq!(p, "/srv/data");
    assert!(steps.is_empty());
    assert!(r.cleanup().is_empty());
}

#[test]
fn recorded_mount_alone_is_unmounted() {
    let mut r = LocalPathRef::from(spec("/srv/data", None, None, None));
    r.bind_mount_path = Some("/bk/x".to_string());
    assert_eq!(r.cleanup(), vec![PathAction::Unmount("/bk/x".to_string())]);
}

#[test]
fn todays_snapshot_name_is_used() {
    let mut r = LocalPathRef::from(spec("/srv/data", None, Some(true), None));
    let (p, _) = r.get_target_path(true).unwrap();
    let name = r.cephfs_snap_name.clone().unwrap();
    assert!(name.starts_with("SNAP_"));
    assert_eq!(name.len(), "SNAP_2024_01_02".len());
    assert_eq!(p, format!("/srv/data/.snap/{name}/"));
}

#[test]
fn mount_commands() {
    assert_eq!(bind_mount("/a", "/b"), vec!["mount", "--bind", "/a", "/b"]);
    assert_eq!(umount("/b"), vec!["umount", "/b"]);
}
