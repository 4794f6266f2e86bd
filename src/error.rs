use vstd::prelude::*;

verus! {

/// Classified failure of one target, or of a whole job.
#[derive(Debug, Clone, Copy, PartialEq, Eq, Structural)]
pub enum ResticError {
    /// Exit code 1: no archive or operation was produced.
    Fatal,
    /// Exit code 3: a partial archive was produced (unreadable source data).
    Incomplete,
    /// Exit code 10: the repository is unreachable or missing.
    RepositoryUnavailable,
    /// Exit code 11: a concurrent lock is held on the repository.
    RepositoryLocked,
    /// Exit code 12: the passphrase does not match.
    IncorrectPassword,
    /// Any other non-zero exit code.
    Unclassified(i32),
    /// No usable secret could be resolved before the invocation.
    MissingCredential,
    /// A job names a path or target that the configuration does not declare.
    UnknownReference,
    /// A source that must exist is missing or empty.
    MissingSource,
    /// More than one snapshot carries this machine's head tag.
    DuplicateHead,
    /// The repository locator cannot carry the configured transport.
    InvalidLocator,
    /// Listing the snapshots of a target failed.
    ListingFailed,
    /// Removing the head tag from the previous snapshot failed.
    TagEditFailed,
    /// The head tag was released from the predecessor, but the archive run
    /// then produced no archive (exit code given, `None` when the tool did not
    /// run): the machine is left without a head on this target.
    HeadReleased(Option<i32>),
}

/// The classification of a recognised exit code of the archival tool.
pub open spec fn code_kind(code: i32) -> Option<ResticError> {
    if code == 1 {
        Some(ResticError::Fatal)
    } else if code == 3 {
        Some(ResticError::Incomplete)
    } else if code == 10 {
        Some(ResticError::RepositoryUnavailable)
    } else if code == 11 {
        Some(ResticError::RepositoryLocked)
    } else if code == 12 {
        Some(ResticError::IncorrectPassword)
    } else {
        None
    }
}

/// What an exit status of the archival tool means: `None` when the tool could
/// not be run at all.
pub open spec fn exit_result(code: Option<i32>) -> Result<(), ResticError> {
    match code {
        None => Err(ResticError::Fatal),
        Some(c) => if c == 0 {
            Ok(())
        } else {
            match code_kind(c) {
                Some(e) => Err(e),
                None => Err(ResticError::Unclassified(c)),
            }
        },
    }
}

/// The description of a failure.
pub open spec fn describe(e: ResticError) -> Seq<char> {
    match e {
        ResticError::Fatal => "Fatal Error (no snapshot created)"@,
        ResticError::Incomplete => "some source data could not be read (incomplete snapshot created)"@,
        ResticError::RepositoryUnavailable => "repository does not exist"@,
        ResticError::RepositoryLocked => "repository is already locked"@,
        ResticError::IncorrectPassword => "incorrect password"@,
        ResticError::Unclassified(_) => "unrecognised exit code"@,
        ResticError::MissingCredential => "no usable credential"@,
        ResticError::UnknownReference => "unknown path or target reference"@,
        ResticError::MissingSource => "source directory is missing or empty"@,
        ResticError::DuplicateHead => "more than one head snapshot for this machine"@,
        ResticError::InvalidLocator => "repository locator does not name user@host"@,
        ResticError::ListingFailed => "could not list snapshots"@,
        ResticError::TagEditFailed => "could not release the head tag"@,
        ResticError::HeadReleased(_) => "archive failed after the head tag was released"@,
    }
}

impl ResticError {
    /// The error that a recognised exit code stands for.
    pub fn from_code(code: i32) -> (r: Option<ResticError>)
        ensures
            r == code_kind(code),
    {
        match code {
            1 => Some(ResticError::Fatal),
            3 => Some(ResticError::Incomplete),
            10 => Some(ResticError::RepositoryUnavailable),
            11 => Some(ResticError::RepositoryLocked),
            12 => Some(ResticError::IncorrectPassword),
            _ => None,
        }
    }

    /// Whether a failure aborts the whole run rather than one target.
    pub fn aborts_run(&self) -> (r: bool)
        ensures
            r == (*self == ResticError::UnknownReference || *self == ResticError::MissingSource),
    {
        matches!(self, ResticError::UnknownReference | ResticError::MissingSource)
    }

    /// A human-readable description of the failure.
    pub fn message(&self) -> (r: String)
        ensures
            r@ == describe(*self),
    {
        let s: &str = match self {
            ResticError::Fatal => "Fatal Error (no snapshot created)",
            ResticError::Incomplete => "some source data could not be read (incomplete snapshot created)",
            ResticError::RepositoryUnavailable => "repository does not exist",
            ResticError::RepositoryLocked => "repository is already locked",
            ResticError::IncorrectPassword => "incorrect password",
            ResticError::Unclassified(_) => "unrecognised exit code",
            ResticError::MissingCredential => "no usable credential",
            ResticError::UnknownReference => "unknown path or target reference",
            ResticError::MissingSource => "source directory is missing or empty",
            ResticError::DuplicateHead => "more than one head snapshot for this machine",
            ResticError::InvalidLocator => "repository locator does not name user@host",
            ResticError::ListingFailed => "could not list snapshots",
            ResticError::TagEditFailed => "could not release the head tag",
            ResticError::HeadReleased(_) => "archive failed after the head tag was released",
        };
        s.to_owned()
    }
}

/// The result of one run of the archival tool, from its exit status (`None`
/// when it could not be run); any unrecognised non-zero code is
/// `Unclassified`, never a panic.
pub fn exit_status_result(code: Option<i32>) -> (r: Result<(), ResticError>)
    ensures
        r == exit_result(code),
{
    match code {
        None => Err(ResticError::Fatal),
        Some(c) => {
            if c == 0 {
                Ok(())
            } else {
                match ResticError::from_code(c) {
                    Some(e) => Err(e),
                    None => Err(ResticError::Unclassified(c)),
                }
            }
        },
    }
}

/// Every exit code maps to a result: the five recognised codes to their kinds,
/// zero to success, and every other code to `Unclassified` with that code.
pub proof fn lemma_exit_mapping_total(code: i32)
    ensures
        code == 0 ==> exit_result(Some(code)) == Ok::<(), ResticError>(()),
        code == 1 ==> exit_result(Some(code)) == Err::<(), ResticError>(ResticError::Fatal),
        code == 3 ==> exit_result(Some(code)) == Err::<(), ResticError>(ResticError::Incomplete),
        code == 10 ==> exit_result(Some(code)) == Err::<(), ResticError>(
            ResticError::RepositoryUnavailable,
        ),
        code == 11 ==> exit_result(Some(code)) == Err::<(), ResticError>(
            ResticError::RepositoryLocked,
        ),
        code == 12 ==> exit_result(Some(code)) == Err::<(), ResticError>(
            ResticError::IncorrectPassword,
        ),
        code != 0 && code != 1 && code != 3 && code != 10 && code != 11 && code != 12
            ==> exit_result(Some(code)) == Err::<(), ResticError>(ResticError::Unclassified(code)),
{
}

} // verus!
