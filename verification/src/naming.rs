use vstd::prelude::*;
use vstd::string::*;
use crate::path::{file_stem, join, join_path, split, split_path, stem, PathStyle};
use crate::text::concat2;

verus! {

/// The path of the encrypted archive of the folder `name` in `directory`: beside
/// the folder, under its name with `.aes` behind it.
pub open spec fn archive_in(style: PathStyle, directory: Seq<char>, name: Seq<char>) -> Seq<char> {
    join(style, directory, name + ".aes"@)
}

/// The path of the unencrypted archive that lies between packing and ciphering:
/// in `directory`, under `name` with `.tar` behind it.
pub open spec fn temporary_in(style: PathStyle, directory: Seq<char>, name: Seq<char>) -> Seq<
    char,
> {
    join(style, directory, name + ".tar"@)
}

/// Where encrypting the folder at `folder` puts the archive; `None` where
/// `folder` names no entry.
pub open spec fn encrypted_target(style: PathStyle, folder: Seq<char>) -> Option<Seq<char>> {
    match split(style, folder) {
        Some(parts) => Some(archive_in(style, parts.0, parts.1)),
        None => None,
    }
}

/// Where decrypting the archive at `archive` puts the folder: beside the archive,
/// under the archive's name without its extension; `None` where `archive` names no
/// entry.
pub open spec fn decrypted_target(style: PathStyle, archive: Seq<char>) -> Option<Seq<char>> {
    match split(style, archive) {
        Some(parts) => Some(join(style, parts.0, stem(parts.1))),
        None => None,
    }
}

/// A directory as a tool's argument: `.` stands for the empty path.
pub open spec fn tool_directory(directory: Seq<char>) -> Seq<char> {
    if directory.len() == 0 {
        "."@
    } else {
        directory
    }
}

/// The directory that holds the entry at the absolute path `absolute`, as a
/// tool's argument: `/` where the path names no entry.
pub open spec fn base_directory(style: PathStyle, absolute: Seq<char>) -> Seq<char> {
    match split(style, absolute) {
        Some(parts) => tool_directory(parts.0),
        None => "/"@,
    }
}

/// The characters of an optional string.
pub open spec fn target_view(target: Option<String>) -> Option<Seq<char>> {
    match target {
        Some(path) => Some(path@),
        None => None,
    }
}

/// The path of the encrypted archive of the folder `name` in `directory`.
pub fn archive_path(style: PathStyle, directory: &str, name: &str) -> (out: String)
    ensures
        out@ == archive_in(style, directory@, name@),
{
    let file = concat2(name, ".aes");
    join_path(style, directory, file.as_str())
}

/// The path of the temporary archive for `name` in `directory`.
pub fn temporary_path(style: PathStyle, directory: &str, name: &str) -> (out: String)
    ensures
        out@ == temporary_in(style, directory@, name@),
{
    let file = concat2(name, ".tar");
    join_path(style, directory, file.as_str())
}

/// Where encrypting the folder at `folder` puts the archive.
pub fn encrypted_path(style: PathStyle, folder: &str) -> (target: Option<String>)
    ensures
        target_view(target) == encrypted_target(style, folder@),
{
    match split_path(style, folder) {
        Some(parts) => Some(archive_path(style, parts.0.as_str(), parts.1.as_str())),
        None => None,
    }
}

/// Where decrypting the archive at `archive` puts the folder.
pub fn decrypted_path(style: PathStyle, archive: &str) -> (target: Option<String>)
    ensures
        target_view(target) == decrypted_target(style, archive@),
{
    match split_path(style, archive) {
        Some(parts) => {
            let name = file_stem(parts.1.as_str());
            Some(join_path(style, parts.0.as_str(), name.as_str()))
        },
        None => None,
    }
}

/// `directory` as a tool's argument.
pub fn directory_argument(directory: &str) -> (out: String)
    ensures
        out@ == tool_directory(directory@),
{
    if directory.unicode_len() == 0 {
        String::from_str(".")
    } else {
        String::from_str(directory)
    }
}

/// The directory that holds the entry at `absolute`, as a tool's argument.
pub fn base_argument(style: PathStyle, absolute: &str) -> (out: String)
    ensures
        out@ == base_directory(style, absolute@),
{
    match split_path(style, absolute) {
        Some(parts) => directory_argument(parts.0.as_str()),
        None => String::from_str("/"),
    }
}

} // verus!
