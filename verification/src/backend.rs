use vstd::prelude::*;
use vstd::string::*;
use crate::path::PathStyle;
use crate::text::same_text;

verus! {

/// What a job does with its source.
#[derive(Clone, Copy, Debug, PartialEq, Eq, Structural)]
pub enum Mode {
    Encrypt,
    Decrypt,
}

/// The pairing of packaging and cipher tools that carries out a job.
#[derive(Clone, Copy, Debug, PartialEq, Eq, Structural)]
pub enum Backend {
    /// `tar` packs and unpacks, `openssl` enciphers and deciphers; an unencrypted
    /// archive lies between the two steps.
    TarOpenssl,
    /// `7z` packs and enciphers in one step, and deciphers and unpacks in one step.
    SevenZip,
}

/// The backend for a platform by its name: `TarOpenssl` for `linux` and `macos`,
/// `SevenZip` for `windows`, none for any other name.
pub open spec fn backend_for(platform: Seq<char>) -> Option<Backend> {
    if platform == "linux"@ || platform == "macos"@ {
        Some(Backend::TarOpenssl)
    } else if platform == "windows"@ {
        Some(Backend::SevenZip)
    } else {
        None
    }
}

/// The grammar of the paths that a backend's platform uses.
pub open spec fn style_of(backend: Backend) -> PathStyle {
    match backend {
        Backend::TarOpenssl => PathStyle::Posix,
        Backend::SevenZip => PathStyle::Windows,
    }
}

/// The words in a backend's diagnostics that tell a wrong password from other
/// failures to decipher.
pub open spec fn wrong_password_signature(backend: Backend) -> Seq<char> {
    match backend {
        Backend::TarOpenssl => "bad decrypt"@,
        Backend::SevenZip => "Wrong password"@,
    }
}

/// Chooses the backend for the platform named `platform`. It reads nothing but
/// its argument.
pub fn select_backend(platform: &str) -> (choice: Option<Backend>)
    ensures
        choice == backend_for(platform@),
{
    if same_text(platform, "linux") || same_text(platform, "macos") {
        Some(Backend::TarOpenssl)
    } else if same_text(platform, "windows") {
        Some(Backend::SevenZip)
    } else {
        None
    }
}

impl Backend {
    /// The grammar of the paths that this backend's platform uses.
    pub fn path_style(self) -> (style: PathStyle)
        ensures
            style == style_of(self),
    {
        match self {
            Backend::TarOpenssl => PathStyle::Posix,
            Backend::SevenZip => PathStyle::Windows,
        }
    }

    /// The words that mark a wrong password in this backend's diagnostics.
    pub fn signature(self) -> (words: &'static str)
        ensures
            words@ == wrong_password_signature(self),
    {
        match self {
            Backend::TarOpenssl => "bad decrypt",
            Backend::SevenZip => "Wrong password",
        }
    }
}

} // verus!
