use vstd::prelude::*;
use vstd::string::*;
use crate::backend::Backend;

verus! {

/// Where a job stands.
#[derive(Clone, Copy, Debug, PartialEq, Eq, Structural)]
pub enum Stage {
    Validating,
    Packing,
    Enciphering,
    Deciphering,
    Unpacking,
    Cleanup,
    Done,
}

/// The kinds of failure that a job can end in.
#[derive(Clone, Copy, Debug, PartialEq, Eq, Structural)]
pub enum ErrorKind {
    InvalidSource,
    UnsupportedPlatform,
    PackagingFailed,
    CipherToolUnavailable,
    EncryptionFailed,
    WrongPassword,
    DecryptionFailed,
    CleanupFailed,
    IOFailure,
}

/// Why a job failed.
#[derive(Debug, PartialEq, Eq)]
pub struct Failure {
    pub kind: ErrorKind,
    /// The stage in which the failure was found.
    pub stage: Stage,
    /// The backend in use, if one had been chosen.
    pub backend: Option<Backend>,
    /// What the tool or the system said, or what is wrong with the source.
    pub detail: String,
    /// Set where, after this failure, the temporary archive could not be removed
    /// either: what the system said of that.
    pub cleanup: Option<String>,
    /// Set where every stage succeeded and only the removal of the temporary
    /// archive failed: the path of what the job produced, which is complete.
    pub produced: Option<String>,
}

pub struct FailureView {
    pub kind: ErrorKind,
    pub stage: Stage,
    pub backend: Option<Backend>,
    pub detail: Seq<char>,
    pub cleanup: Option<Seq<char>>,
    pub produced: Option<Seq<char>>,
}

/// The characters of an optional string.
pub open spec fn optional_text(s: Option<String>) -> Option<Seq<char>> {
    match s {
        Some(t) => Some(t@),
        None => None,
    }
}

impl View for Failure {
    type V = FailureView;

    open spec fn view(&self) -> FailureView {
        FailureView {
            kind: self.kind,
            stage: self.stage,
            backend: self.backend,
            detail: self.detail@,
            cleanup: optional_text(self.cleanup),
            produced: optional_text(self.produced),
        }
    }
}

/// What a finished job hands to its caller: the message of success, or the failure.
pub open spec fn outcome_view(outcome: Result<String, Failure>) -> Result<Seq<char>, FailureView> {
    match outcome {
        Ok(message) => Ok(message@),
        Err(failure) => Err(failure@),
    }
}

/// The words that stand before the detail in a failure's message.
pub open spec fn headline(kind: ErrorKind, stage: Stage, backend: Option<Backend>) -> Seq<char> {
    match kind {
        ErrorKind::InvalidSource => ""@,
        ErrorKind::UnsupportedPlatform => "Unsupported operating system"@,
        ErrorKind::PackagingFailed => if stage == Stage::Unpacking {
            "Failed to extract file: "@
        } else {
            "Failed to package folder: "@
        },
        ErrorKind::CipherToolUnavailable => if backend == Some(Backend::SevenZip) {
            "Failed to execute 7z command: "@
        } else {
            "Failed to start openssl command: "@
        },
        ErrorKind::EncryptionFailed => if backend == Some(Backend::SevenZip) {
            "Failed to encrypt folder: "@
        } else {
            "Failed to encrypt file: "@
        },
        ErrorKind::WrongPassword => "Decryption failed: Incorrect password"@,
        ErrorKind::DecryptionFailed => if backend == Some(Backend::SevenZip) {
            "Failed to decrypt folder: "@
        } else {
            "Failed to decrypt file: "@
        },
        ErrorKind::CleanupFailed => "Failed to delete temporary file: "@,
        ErrorKind::IOFailure => ""@,
    }
}

/// Whether a failure's message shows its detail. A wrong password and an
/// unsupported platform are told by their headline alone.
pub open spec fn shows_detail(kind: ErrorKind) -> bool {
    kind != ErrorKind::WrongPassword && kind != ErrorKind::UnsupportedPlatform
}

/// The one line that tells a user of a failure: the headline, the detail where it
/// is shown, then, where the temporary archive could not be removed either, a
/// sentence that says so, and, where only that removal failed, the path of what
/// was produced all the same.
pub open spec fn failure_text(f: FailureView) -> Seq<char> {
    let first = headline(f.kind, f.stage, f.backend) + if shows_detail(f.kind) {
        f.detail
    } else {
        ""@
    };
    let second = match f.cleanup {
        Some(reason) => first + "; failed to delete temporary file: "@ + reason,
        None => first,
    };
    match f.produced {
        Some(path) => second + "; the result is complete: "@ + path,
        None => second,
    }
}

fn headline_of(kind: ErrorKind, stage: Stage, backend: Option<Backend>) -> (words: &'static str)
    ensures
        words@ == headline(kind, stage, backend),
{
    let seven = match backend {
        Some(Backend::SevenZip) => true,
        _ => false,
    };
    match kind {
        ErrorKind::InvalidSource => "",
        ErrorKind::UnsupportedPlatform => "Unsupported operating system",
        ErrorKind::PackagingFailed => if stage == Stage::Unpacking {
            "Failed to extract file: "
        } else {
            "Failed to package folder: "
        },
        ErrorKind::CipherToolUnavailable => if seven {
            "Failed to execute 7z command: "
        } else {
            "Failed to start openssl command: "
        },
        ErrorKind::EncryptionFailed => if seven {
            "Failed to encrypt folder: "
        } else {
            "Failed to encrypt file: "
        },
        ErrorKind::WrongPassword => "Decryption failed: Incorrect password",
        ErrorKind::DecryptionFailed => if seven {
            "Failed to decrypt folder: "
        } else {
            "Failed to decrypt file: "
        },
        ErrorKind::CleanupFailed => "Failed to delete temporary file: ",
        ErrorKind::IOFailure => "",
    }
}

impl Clone for Failure {
    fn clone(&self) -> (copy: Failure)
        ensures
            copy@ == self@,
    {
        Failure {
            kind: self.kind,
            stage: self.stage,
            backend: self.backend,
            detail: self.detail.clone(),
            cleanup: match &self.cleanup {
                Some(reason) => Some(reason.clone()),
                None => None,
            },
            produced: match &self.produced {
                Some(path) => Some(path.clone()),
                None => None,
            },
        }
    }
}

impl Failure {
    /// The one line that tells a user of this failure.
    pub fn message(&self) -> (text: String)
        ensures
            text@ == failure_text(self@),
    {
        let mut text = String::from_str(headline_of(self.kind, self.stage, self.backend));
        if self.kind != ErrorKind::WrongPassword && self.kind != ErrorKind::UnsupportedPlatform {
            text.append(self.detail.as_str());
        } else {
            proof {
                reveal_strlit("");
                assert(text@ + ""@ =~= text@);
            }
        }
        match &self.cleanup {
            Some(reason) => {
                text.append("; failed to delete temporary file: ");
                text.append(reason.as_str());
            },
            None => {},
        }
        match &self.produced {
            Some(path) => {
                text.append("; the result is complete: ");
                text.append(path.as_str());
            },
            None => {},
        }
        text
    }
}

} // verus!
