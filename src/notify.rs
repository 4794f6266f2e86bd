use vstd::prelude::*;

use crate::config::NtfyTarget;
use crate::credentials::{pick_secret, SecretFiles};
use crate::error::ResticError;

verus! {

/// A message to post: the endpoint URL, the plain-text body and optional
/// basic-auth credentials.
#[derive(Debug, Clone, PartialEq, Eq)]
pub struct NtfyRequest {
    pub url: String,
    pub body: String,
    pub auth: Option<(String, String)>,
}

/// The request that posts `message` to `topic` on `host`.
pub fn ntfy(host: &str, topic: &str, auth: Option<(String, String)>, message: &str) -> (r: NtfyRequest)
    ensures
        r.url@ == host@ + "/"@ + topic@,
        r.body@ == message@,
        r.auth == auth,
{
    let mut url = host.to_owned();
    url.append("/");
    url.append(topic);
    NtfyRequest { url, body: message.to_owned(), auth }
}

impl NtfyTarget {
    /// The request that sends `msg` on this channel: `None` when the channel
    /// has no endpoint, `MissingCredential` when its password cannot be
    /// resolved.
    pub fn send_notification(&self, msg: &str, files: &SecretFiles) -> (r: Option<
        Result<NtfyRequest, ResticError>,
    >)
        ensures
            match self.ntfy {
                None => r is None,
                Some(c) => match r {
                    Some(Ok(req)) => req.url@ == c.host@ + "/"@ + c.topic@ && req.body@ == msg@
                        && match c.auth {
                        None => req.auth is None,
                        Some(a) => match req.auth {
                            Some((u, p)) => u == a.user && pick_secret(a.pass, a.pass_file, files@)
                                == Some(p@),
                            None => false,
                        },
                    },
                    Some(Err(e)) => e == ResticError::MissingCredential && match c.auth {
                        Some(a) => pick_secret(a.pass, a.pass_file, files@) is None,
                        None => false,
                    },
                    None => false,
                },
            },
    {
        match &self.ntfy {
            None => None,
            Some(c) => {
                let auth = match &c.auth {
                    None => None,
                    Some(a) => match a.auth(files) {
                        Some(pair) => Some(pair),
                        None => return Some(Err(ResticError::MissingCredential)),
                    },
                };
                Some(Ok(ntfy(c.host.as_str(), c.topic.as_str(), auth, msg)))
            },
        }
    }
}

} // verus!
