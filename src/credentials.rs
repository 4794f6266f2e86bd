use vstd::prelude::*;

use crate::config::{find_entry, lookup, NtfyAuth, ResticTarget};
use crate::error::ResticError;
use crate::text::{before_first, decimal, decimal_of, find, find_char, has_prefix, starts_with};

verus! {

/// The contents of secret files, read ahead of time: `(path, contents)`.
pub type SecretFiles = Vec<(String, String)>;

/// The character view of an optional string.
pub open spec fn opt_view(o: Option<String>) -> Option<Seq<char>> {
    match o {
        Some(s) => Some(s@),
        None => None,
    }
}

/// The views of environment pairs.
pub open spec fn pair_views(v: Seq<(String, String)>) -> Seq<(Seq<char>, Seq<char>)> {
    v.map_values(|p: (String, String)| (p.0@, p.1@))
}

/// A secret: the inline value if present, else the contents of the referenced
/// file, else nothing.
pub open spec fn pick_secret(
    inline: Option<String>,
    file: Option<String>,
    files: Seq<(String, String)>,
) -> Option<Seq<char>> {
    match inline {
        Some(s) => Some(s@),
        None => match file {
            Some(f) => opt_view(lookup(files, f@)),
            None => None,
        },
    }
}

/// The environment of the archival tool for a target: the passphrase, then
/// both S3 keys when S3 is configured; a secret that cannot be resolved is a
/// `MissingCredential`.
pub open spec fn target_env(t: ResticTarget, files: Seq<(String, String)>) -> Result<
    Seq<(Seq<char>, Seq<char>)>,
    ResticError,
> {
    match pick_secret(t.passphrase, t.passphrase_file, files) {
        None => Err(ResticError::MissingCredential),
        Some(p) => match t.s3 {
            None => Ok(seq![("RESTIC_PASSWORD"@, p)]),
            Some(s3) => match (
                pick_secret(s3.access_key, s3.access_key_file, files),
                pick_secret(s3.secret_key, s3.secret_key_file, files),
            ) {
                (Some(a), Some(k)) => Ok(
                    seq![
                        ("RESTIC_PASSWORD"@, p),
                        ("AWS_ACCESS_KEY_ID"@, a),
                        ("AWS_SECRET_ACCESS_KEY"@, k),
                    ],
                ),
                _ => Err(ResticError::MissingCredential),
            },
        },
    }
}

/// The locator without its `sftp:` transport prefix.
pub open spec fn strip_transport(repo: Seq<char>) -> Seq<char> {
    if has_prefix(repo, "sftp:"@) {
        repo.subrange(5, repo.len() as int)
    } else {
        repo
    }
}

/// The `user@host` part of a locator.
pub open spec fn user_host(repo: Seq<char>) -> Seq<char> {
    before_first(strip_transport(repo), ':')
}

/// The port argument of the ssh command.
pub open spec fn port_part(port: Option<u16>) -> Seq<char> {
    match port {
        Some(p) => "-p "@ + decimal_of(p as nat),
        None => Seq::empty(),
    }
}

/// The backend option that makes the tool reach the repository over ssh.
pub open spec fn sftp_option(identity: Seq<char>, port: Option<u16>, uh: Seq<char>) -> Seq<char> {
    "sftp.command="@ + "ssh -i "@ + identity + " "@ + port_part(port)
        + " -o StrictHostKeyChecking=no "@ + uh + " -s sftp"@
}

/// The transport option of a target: none without ssh; with ssh, the
/// locator must name `user@host`.
pub open spec fn transport(t: ResticTarget) -> Result<Option<Seq<char>>, ResticError> {
    match t.ssh {
        None => Ok(None),
        Some(ssh) => if find(user_host(t.repo@), '@') is Some {
            Ok(Some(sftp_option(ssh.identity@, ssh.port, user_host(t.repo@))))
        } else {
            Err(ResticError::InvalidLocator)
        },
    }
}

/// Both parts of a target's credentials, the environment first.
pub open spec fn target_setup(t: ResticTarget, files: Seq<(String, String)>) -> Result<
    (Seq<(Seq<char>, Seq<char>)>, Option<Seq<char>>),
    ResticError,
> {
    match target_env(t, files) {
        Err(e) => Err(e),
        Ok(env) => match transport(t) {
            Err(e) => Err(e),
            Ok(o) => Ok((env, o)),
        },
    }
}

/// The files that a target's secrets refer to.
pub open spec fn target_files(t: ResticTarget) -> Seq<Seq<char>> {
    opt_seq(t.passphrase_file) + match t.s3 {
        Some(s3) => opt_seq(s3.access_key_file) + opt_seq(s3.secret_key_file),
        None => Seq::empty(),
    }
}

pub open spec fn opt_seq(o: Option<String>) -> Seq<Seq<char>> {
    match o {
        Some(s) => seq![s@],
        None => Seq::empty(),
    }
}

/// A secret: the inline value if present, else the contents of the referenced
/// file (as read into `files`), else nothing.
pub fn find_password(password: &Option<String>, pass_file: &Option<String>, files: &SecretFiles) -> (r:
    Option<String>)
    ensures
        opt_view(r) == pick_secret(*password, *pass_file, files@),
{
    match password {
        Some(p) => Some(p.clone()),
        None => match pass_file {
            Some(f) => match find_entry(files, f.as_str()) {
                Some(c) => Some(c.clone()),
                None => None,
            },
            None => None,
        },
    }
}

fn env_pair(k: &str, v: String) -> (r: (String, String))
    ensures
        r.0@ == k@,
        r.1 == v,
{
    (k.to_owned(), v)
}

impl ResticTarget {
    /// The process environment for the archival tool on this target.
    pub fn environment(&self, files: &SecretFiles) -> (r: Result<Vec<(String, String)>, ResticError>)
        ensures
            match r {
                Ok(v) => target_env(*self, files@) == Ok::<_, ResticError>(pair_views(v@)),
                Err(e) => target_env(*self, files@) == Err::<Seq<(Seq<char>, Seq<char>)>, _>(e),
            },
    {
        let pass = match find_password(&self.passphrase, &self.passphrase_file, files) {
            Some(p) => p,
            None => return Err(ResticError::MissingCredential),
        };
        let mut env: Vec<(String, String)> = Vec::new();
        env.push(env_pair("RESTIC_PASSWORD", pass));
        match &self.s3 {
            None => {},
            Some(s3) => {
                let a = find_password(&s3.access_key, &s3.access_key_file, files);
                let k = find_password(&s3.secret_key, &s3.secret_key_file, files);
                match (a, k) {
                    (Some(a), Some(k)) => {
                        env.push(env_pair("AWS_ACCESS_KEY_ID", a));
                        env.push(env_pair("AWS_SECRET_ACCESS_KEY", k));
                    },
                    _ => return Err(ResticError::MissingCredential),
                }
            },
        }
        assert(pair_views(env@) =~= target_env(*self, files@)->Ok_0);
        Ok(env)
    }

    /// The `user@host` part of the repository locator.
    pub fn user_host(&self) -> (r: String)
        ensures
            r@ == user_host(self.repo@),
    {
        proof {
            reveal_strlit("sftp:");
        }
        let repo = self.repo.as_str();
        let n = repo.unicode_len();
        let remote = if starts_with(repo, "sftp:") {
            repo.substring_char(5, n)
        } else {
            repo
        };
        match find_char(remote, ':') {
            Some(i) => remote.substring_char(0, i).to_owned(),
            None => remote.to_owned(),
        }
    }

    /// The backend option for the ssh transport, when ssh is configured.
    pub fn transport_option(&self) -> (r: Result<Option<String>, ResticError>)
        ensures
            match r {
                Ok(o) => transport(*self) == Ok::<_, ResticError>(opt_view(o)),
                Err(e) => transport(*self) == Err::<Option<Seq<char>>, _>(e),
            },
    {
        match &self.ssh {
            None => Ok(None),
            Some(ssh) => {
                let uh = self.user_host();
                if find_char(uh.as_str(), '@').is_none() {
                    return Err(ResticError::InvalidLocator);
                }
                let mut o = "sftp.command=".to_owned();
                o.append("ssh -i ");
                o.append(ssh.identity.as_str());
                o.append(" ");
                match ssh.port {
                    Some(p) => {
                        o.append("-p ");
                        let d = decimal(p as u64);
                        o.append(d.as_str());
                    },
                    None => {},
                }
                o.append(" -o StrictHostKeyChecking=no ");
                o.append(uh.as_str());
                o.append(" -s sftp");
                assert(o@ =~= sftp_option(ssh.identity@, ssh.port, user_host(self.repo@)));
                Ok(Some(o))
            },
        }
    }

    /// The environment and the transport option of this target; the first
    /// credential that cannot be resolved fails only this target.
    pub fn setup_env(&self, files: &SecretFiles) -> (r: Result<
        (Vec<(String, String)>, Option<String>),
        ResticError,
    >)
        ensures
            match r {
                Ok((env, o)) => target_setup(*self, files@) == Ok::<_, ResticError>(
                    (pair_views(env@), opt_view(o)),
                ),
                Err(e) => target_setup(*self, files@) == Err::<
                    (Seq<(Seq<char>, Seq<char>)>, Option<Seq<char>>),
                    _,
                >(e),
            },
    {
        let env = match self.environment(files) {
            Ok(env) => env,
            Err(e) => return Err(e),
        };
        match self.transport_option() {
            Ok(o) => Ok((env, o)),
            Err(e) => Err(e),
        }
    }

    /// The secret files this target refers to, for reading ahead.
    pub fn secret_files(&self) -> (r: Vec<String>)
        ensures
            crate::text::views(r@) == target_files(*self),
    {
        let mut v: Vec<String> = Vec::new();
        match &self.passphrase_file {
            Some(f) => v.push(f.clone()),
            None => {},
        }
        match &self.s3 {
            Some(s3) => {
                match &s3.access_key_file {
                    Some(f) => v.push(f.clone()),
                    None => {},
                }
                match &s3.secret_key_file {
                    Some(f) => v.push(f.clone()),
                    None => {},
                }
            },
            None => {},
        }
        assert(crate::text::views(v@) =~= target_files(*self));
        v
    }
}

impl NtfyAuth {
    /// The user and password for basic authentication; `None` when neither an
    /// inline password nor a readable password file is given.
    pub fn auth(&self, files: &SecretFiles) -> (r: Option<(String, String)>)
        ensures
            match r {
                Some((u, p)) => u == self.user && pick_secret(self.pass, self.pass_file, files@)
                    == Some(p@),
                None => pick_secret(self.pass, self.pass_file, files@) is None,
            },
    {
        match find_password(&self.pass, &self.pass_file, files) {
            Some(p) => Some((self.user.clone(), p)),
            None => None,
        }
    }
}

} // verus!
