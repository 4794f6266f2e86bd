use bk::config::{NtfyAuth, ResticTarget, S3Creds, SSHOptions};
use bk::credentials::find_password;
use bk::error::ResticError;

fn target(repo: &str) -> ResticTarget {
    ResticTarget {
        repo: repo.to_string(),
        s3: None,
        ssh: None,
        passphrase: Some("pw".to_string()),
        passphrase_file: None,
    }
}

fn files() -> Vec<(String, String)> {
    vec![
        ("/etc/pass".to_string(), "from-file".to_string()),
        ("/etc/ak".to_string(), "AK".to_string()),
    ]
}

#[test]
fn inline_password_wins_over_file() {
    let r = find_password(&Some("inline".to_string()), &Some("/etc/pass".to_string()), &files());
    assert_eq!(r, Some("inline".to_string()));
}

#[test]
fn password_read_from_file() {
    let r = find_password(&None, &Some("/etc/pass".to_string()), &files());
    assert_eq!(r, Some("from-file".to_string()));
    assert_eq!(find_password(&None, &Some("/nope".to_string()), &files()), None);
    assert_eq!(find_password(&None, &None, &files()), None);
}

#[test]
fn environment_holds_passphrase_and_s3_keys() {
    let mut t = target("s3:host/bucket");
    t.s3 = Some(S3Creds {
        access_key: None,
        access_key_file: Some("/etc/ak".to_string()),
        secret_key: Some("SK".to_string()),
        secret_key_file: None,
    });
    let env = t.environment(&files()).unwrap();
    assert_eq!(
        env,
        vec![
            ("RESTIC_PASSWORD".to_string(), "pw".to_string()),
            ("AWS_ACCESS_KEY_ID".to_string(), "AK".to_string()),
            ("AWS_SECRET_ACCESS_KEY".to_string(), "SK".to_string()),
        ]
    );
}

#[test]
fn partial_s3_keys_are_missing_credential() {
    let mut t = target("s3:host/bucket");
    t.s3 = Some(S3Creds {
        access_key: Some("AK".to_string()),
        access_key_file: None,
        secret_key: None,
        secret_key_file: Some("/missing".to_string()),
    });
    assert_eq!(t.environment(&files()), Err(ResticError::MissingCredential));
}

#[test]
fn missing_passphrase_is_missing_credential() {
    let mut t = target("/repo");
    t.passphrase = None;
    assert_eq!(t.setup_env(&files()).err(), Some(ResticError::MissingCredential));
}

#[test]
fn ssh_transport_with_port() {
    let mut t = target("sftp:backup@nas.local:/srv/restic");
    t.ssh = Some(SSHOptions { port: Some(2222), identity: "/root/.ssh/id".to_string() });
    let (_, opt) = t.setup_env(&files()).unwrap();
    assert_eq!(
        opt,
        Some(
            "sftp.command=ssh -i /root/.ssh/id -p 2222 -o StrictHostKeyChecking=no backup@nas.local -s sftp"
                .to_string()
        )
    );
}

#[test]
fn ssh_transport_without_port() {
    let mut t = target("sftp:u@h:/r");
    t.ssh = Some(SSHOptions { port: None, identity: "/id".to_string() });
    assert_eq!(
        t.transport_option(),
        Ok(Some("sftp.command=ssh -i /id  -o StrictHostKeyChecking=no u@h -s sftp".to_string()))
    );
    assert_eq!(t.user_host(), "u@h");
}

#[test]
fn ssh_locator_without_user_is_rejected() {
    let mut t = target("sftp:nas:/r");
    t.ssh = Some(SSHOptions { port: None, identity: "/id".to_string() });
    assert_eq!(t.transport_option(), Err(ResticError::InvalidLocator));
}

#[test]
fn no_ssh_means_no_option() {
    assert_eq!(target("/repo").transport_option(), Ok(None));
}

#[test]
fn secret_files_are_listed() {
    let mut t = target("/repo");
    t.passphrase_file = Some("/etc/pass".to_string());
    t.s3 = Some(S3Creds {
        access_key: None,
        access_key_file: Some("/etc/ak".to_string()),
        secret_key: None,
        secret_key_file: Some("/etc/sk".to_string()),
    });
    assert_eq!(t.secret_files(), vec!["/etc/pass", "/etc/ak", "/etc/sk"]);
}

#[test]
fn notification_auth() {
    let a = NtfyAuth { user: "me".to_string(), pass: None, pass_file: Some("/etc/pass".to_string()) };
    assert_eq!(a.auth(&files()), Some(("me".to_string(), "from-file".to_string())));
    let b = NtfyAuth { user: "me".to_string(), pass: None, pass_file: None };
    assert_eq!(b.auth(&files()), None);
}
