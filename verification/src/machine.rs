use vstd::prelude::*;
use crate::backend::{style_of, wrong_password_signature, Backend, Mode};
use crate::command::{
    cipher_command, pack_command, seven_zip_create, seven_zip_extract, unpack_command,
    InvocationView,
};
use crate::naming::{archive_in, base_directory, temporary_in, tool_directory};
use crate::outcome::{ErrorKind, FailureView, Stage};
use crate::path::{join, split, stem};
use crate::text::occurs_in;

verus! {

/// What the source path was found to be.
#[derive(Clone, Copy, Debug, PartialEq, Eq, Structural)]
pub enum SourceKind {
    Missing,
    Directory,
    File,
    Other,
}

/// What the caller has to do next for a job.
pub enum ActionView {
    /// Look at the path: what it is, and its absolute form.
    Inspect { path: Seq<char> },
    /// Run the tool, hand it its input, and wait for it while reading what it prints.
    Run(InvocationView),
    /// Remove the file.
    Remove { path: Seq<char> },
    /// Nothing more: the job has ended with this result.
    Finish(Result<Seq<char>, FailureView>),
}

/// What the caller found when it did what it was asked.
pub enum EventView {
    Inspected { kind: SourceKind, absolute: Result<Seq<char>, Seq<char>> },
    Exited { success: bool, diagnostics: Seq<char> },
    Unavailable { reason: Seq<char> },
    InputFailed { reason: Seq<char> },
    WaitFailed { reason: Seq<char> },
    Removed,
    RemoveFailed { reason: Seq<char> },
}

/// A job and how far it has come.
pub struct PipelineView {
    pub mode: Mode,
    pub backend: Backend,
    pub stage: Stage,
    pub source: Seq<char>,
    pub password: Seq<char>,
    /// The directory that holds the source; empty until the source is validated.
    pub directory: Seq<char>,
    /// The folder's name; for a decryption the archive's name without its
    /// extension. Empty until the source is validated.
    pub name: Seq<char>,
    /// The directory from which the folder is packed.
    pub base: Seq<char>,
    /// The failure found so far.
    pub failure: Option<FailureView>,
}

/// A job that has not begun.
pub open spec fn initial(mode: Mode, backend: Backend, source: Seq<char>, password: Seq<char>)
    -> PipelineView {
    PipelineView {
        mode,
        backend,
        stage: Stage::Validating,
        source,
        password,
        directory: Seq::empty(),
        name: Seq::empty(),
        base: Seq::empty(),
        failure: None,
    }
}

/// The failure that answers a platform for which there is no backend.
pub open spec fn unsupported_platform() -> FailureView {
    FailureView {
        kind: ErrorKind::UnsupportedPlatform,
        stage: Stage::Validating,
        backend: None,
        detail: Seq::empty(),
        cleanup: None,
        produced: None,
    }
}

/// The path of the job's temporary archive.
pub open spec fn temporary_of(p: PipelineView) -> Seq<char> {
    temporary_in(style_of(p.backend), p.directory, p.name)
}

/// The path of what the job produces: the archive, or the folder.
pub open spec fn output_of(p: PipelineView) -> Seq<char> {
    match p.mode {
        Mode::Encrypt => archive_in(style_of(p.backend), p.directory, p.name),
        Mode::Decrypt => join(style_of(p.backend), p.directory, p.name),
    }
}

/// Whether the source of `p` has been found valid, so that the job has its
/// derived names.
pub open spec fn named(p: PipelineView) -> bool {
    p.name.len() > 0
}

/// The path of what the job produces, once the source has been found valid.
pub open spec fn known_output(p: PipelineView) -> Option<Seq<char>> {
    if named(p) {
        Some(output_of(p))
    } else {
        None
    }
}

/// The path of the temporary archive, once the source has been found valid,
/// where the backend keeps one.
pub open spec fn known_temporary(p: PipelineView) -> Option<Seq<char>> {
    if named(p) && p.backend == Backend::TarOpenssl {
        Some(temporary_of(p))
    } else {
        None
    }
}

/// The message of a job that succeeded. It names what was produced.
pub open spec fn success_text(p: PipelineView) -> Seq<char> {
    match p.mode {
        Mode::Encrypt => "Folder has been encrypted to: "@ + output_of(p),
        Mode::Decrypt => "File has been decrypted to: "@ + output_of(p),
    }
}

/// What is to be done in the state `p`.
pub open spec fn planned(p: PipelineView) -> ActionView {
    match p.stage {
        Stage::Validating => ActionView::Inspect { path: p.source },
        Stage::Packing => ActionView::Run(pack_command(temporary_of(p), p.base, p.name)),
        Stage::Enciphering => ActionView::Run(
            match p.backend {
                Backend::TarOpenssl => cipher_command(
                    false,
                    temporary_of(p),
                    output_of(p),
                    p.password,
                ),
                Backend::SevenZip => seven_zip_create(output_of(p), p.source, p.password),
            },
        ),
        Stage::Deciphering => ActionView::Run(
            match p.backend {
                Backend::TarOpenssl => cipher_command(true, p.source, temporary_of(p), p.password),
                Backend::SevenZip => seven_zip_extract(
                    p.source,
                    tool_directory(p.directory),
                    p.password,
                ),
            },
        ),
        Stage::Unpacking => ActionView::Run(
            unpack_command(temporary_of(p), tool_directory(p.directory)),
        ),
        Stage::Cleanup => ActionView::Remove { path: temporary_of(p) },
        Stage::Done => ActionView::Finish(
            match p.failure {
                Some(failure) => Err(failure),
                None => Ok(success_text(p)),
            },
        ),
    }
}

/// What is wrong with a source of the kind `kind`, if anything: a folder is
/// encrypted, a file is decrypted.
pub open spec fn source_fault(mode: Mode, source: Seq<char>, kind: SourceKind) -> Option<
    Seq<char>,
> {
    match mode {
        Mode::Encrypt => if kind == SourceKind::Directory {
            None
        } else {
            Some("Folder '"@ + source + "' does not exist"@)
        },
        Mode::Decrypt => if kind == SourceKind::File {
            None
        } else if kind == SourceKind::Missing {
            Some("Encrypted file '"@ + source + "' does not exist"@)
        } else {
            Some("'"@ + source + "' is not a file"@)
        },
    }
}

/// What is said of a source whose path names no entry.
pub open spec fn nameless_text(mode: Mode) -> Seq<char> {
    match mode {
        Mode::Encrypt => "Cannot get folder name"@,
        Mode::Decrypt => "Cannot get file name"@,
    }
}

/// The state `p` ended by a failure found in its stage, with nothing to clean up.
pub open spec fn ended(p: PipelineView, kind: ErrorKind, detail: Seq<char>) -> PipelineView {
    PipelineView {
        stage: Stage::Done,
        failure: Some(
            FailureView {
                kind,
                stage: p.stage,
                backend: Some(p.backend),
                detail,
                cleanup: None,
                produced: None,
            },
        ),
        ..p
    }
}

/// The state after the source was looked at. The kind is judged first, then the
/// name, then the absolute path where the folder is to be packed from it.
pub open spec fn validated(
    p: PipelineView,
    kind: SourceKind,
    absolute: Result<Seq<char>, Seq<char>>,
) -> PipelineView {
    match source_fault(p.mode, p.source, kind) {
        Some(words) => ended(p, ErrorKind::InvalidSource, words),
        None => match split(style_of(p.backend), p.source) {
            None => ended(p, ErrorKind::InvalidSource, nameless_text(p.mode)),
            Some(parts) => match p.mode {
                Mode::Decrypt => PipelineView {
                    stage: Stage::Deciphering,
                    directory: parts.0,
                    name: stem(parts.1),
                    ..p
                },
                Mode::Encrypt => match p.backend {
                    Backend::SevenZip => PipelineView {
                        stage: Stage::Enciphering,
                        directory: parts.0,
                        name: parts.1,
                        ..p
                    },
                    Backend::TarOpenssl => match absolute {
                        Err(reason) => ended(
                            p,
                            ErrorKind::IOFailure,
                            "Failed to get absolute path: "@ + reason,
                        ),
                        Ok(path) => PipelineView {
                            stage: Stage::Packing,
                            directory: parts.0,
                            name: parts.1,
                            base: base_directory(style_of(p.backend), path),
                            ..p
                        },
                    },
                },
            },
        },
    }
}

/// Whether `stage` is one in which `tar` runs.
pub open spec fn packages(stage: Stage) -> bool {
    stage == Stage::Packing || stage == Stage::Unpacking
}

/// What is said of a tool that was started and then lost: by the tool, and for
/// `openssl` by whether the password could not be written or the end not awaited.
pub open spec fn interruption_words(stage: Stage, backend: Backend, writing: bool) -> Seq<char> {
    if packages(stage) {
        "Failed to execute tar command: "@
    } else if backend == Backend::SevenZip {
        "Failed to execute 7z command: "@
    } else if writing {
        "Failed to write password: "@
    } else {
        "Failed to wait for openssl command to complete: "@
    }
}

/// How a tool's run is judged in `stage`: `None` where it succeeded, else the
/// kind of the failure and its detail. A tool that ends in failure, or cannot
/// be started, fails in the way of its stage; a deciphering that failed is a
/// wrong password where the diagnostics hold the backend's words for it,
/// whatever else they hold. A tool that was started and then lost, and an event
/// that answers nothing, are failures of input and output.
pub open spec fn tool_fault(stage: Stage, backend: Backend, event: EventView) -> Option<
    (ErrorKind, Seq<char>),
> {
    match event {
        EventView::Exited { success, diagnostics } => if success {
            None
        } else if packages(stage) {
            Some((ErrorKind::PackagingFailed, diagnostics))
        } else if stage == Stage::Enciphering {
            Some((ErrorKind::EncryptionFailed, diagnostics))
        } else if occurs_in(diagnostics, wrong_password_signature(backend)) {
            Some((ErrorKind::WrongPassword, diagnostics))
        } else {
            Some((ErrorKind::DecryptionFailed, diagnostics))
        },
        EventView::Unavailable { reason } => if packages(stage) {
            Some((ErrorKind::PackagingFailed, reason))
        } else {
            Some((ErrorKind::CipherToolUnavailable, reason))
        },
        EventView::InputFailed { reason } => Some(
            (ErrorKind::IOFailure, interruption_words(stage, backend, true) + reason),
        ),
        EventView::WaitFailed { reason } => Some(
            (ErrorKind::IOFailure, interruption_words(stage, backend, false) + reason),
        ),
        _ => Some((ErrorKind::IOFailure, "Unexpected event"@)),
    }
}

/// The stage that follows `stage` when its tool succeeded.
pub open spec fn stage_after(stage: Stage, backend: Backend) -> Stage {
    match stage {
        Stage::Packing => Stage::Enciphering,
        Stage::Deciphering => if backend == Backend::TarOpenssl {
            Stage::Unpacking
        } else {
            Stage::Done
        },
        _ => if backend == Backend::TarOpenssl {
            Stage::Cleanup
        } else {
            Stage::Done
        },
    }
}

/// The state after a tool's run. A failure ends the job, by way of the cleanup
/// where the backend has a temporary archive.
pub open spec fn tool_done(p: PipelineView, event: EventView) -> PipelineView {
    match tool_fault(p.stage, p.backend, event) {
        None => PipelineView { stage: stage_after(p.stage, p.backend), ..p },
        Some(fault) => PipelineView {
            stage: if p.backend == Backend::TarOpenssl {
                Stage::Cleanup
            } else {
                Stage::Done
            },
            failure: Some(
                FailureView {
                    kind: fault.0,
                    stage: p.stage,
                    backend: Some(p.backend),
                    detail: fault.1,
                    cleanup: None,
                    produced: None,
                },
            ),
            ..p
        },
    }
}

/// What the caller said of the removal of the temporary archive: `None` where
/// it is gone.
pub open spec fn cleanup_fault(event: EventView) -> Option<Seq<char>> {
    match event {
        EventView::Removed => None,
        EventView::RemoveFailed { reason } => Some(reason),
        _ => Some("Unexpected event"@),
    }
}

/// The failure of a job whose temporary archive could not be removed: the
/// failure found before, with the reason added to it; or, where all went well
/// before, a failure of the cleanup itself, which keeps the path of what the
/// job produced.
pub open spec fn cleanup_failure(p: PipelineView, reason: Seq<char>) -> FailureView {
    match p.failure {
        Some(earlier) => FailureView { cleanup: Some(reason), ..earlier },
        None => FailureView {
            kind: ErrorKind::CleanupFailed,
            stage: Stage::Cleanup,
            backend: Some(p.backend),
            detail: reason,
            cleanup: None,
            produced: Some(output_of(p)),
        },
    }
}

/// The state after the cleanup: the job has ended.
pub open spec fn cleaned(p: PipelineView, event: EventView) -> PipelineView {
    match cleanup_fault(event) {
        None => PipelineView { stage: Stage::Done, ..p },
        Some(reason) => PipelineView {
            stage: Stage::Done,
            failure: Some(cleanup_failure(p, reason)),
            ..p
        },
    }
}

/// The state that follows `p` when the caller reports `event`. An event that
/// does not answer what was asked counts as a failure of the stage. A job that
/// has ended stays as it is.
pub open spec fn next_state(p: PipelineView, event: EventView) -> PipelineView {
    match p.stage {
        Stage::Validating => match event {
            EventView::Inspected { kind, absolute } => validated(p, kind, absolute),
            _ => ended(p, ErrorKind::IOFailure, "Unexpected event"@),
        },
        Stage::Cleanup => cleaned(p, event),
        Stage::Done => p,
        _ => tool_done(p, event),
    }
}

/// Whether the derived names of `p` are those that its source gives.
pub open spec fn resolved(p: PipelineView) -> bool {
    match split(style_of(p.backend), p.source) {
        Some(parts) => p.directory == parts.0 && p.name == match p.mode {
            Mode::Encrypt => parts.1,
            Mode::Decrypt => stem(parts.1),
        },
        None => false,
    }
}

/// Whether a tool runs in `stage`.
pub open spec fn runs_tool(stage: Stage) -> bool {
    stage == Stage::Packing || stage == Stage::Enciphering || stage == Stage::Deciphering
        || stage == Stage::Unpacking
}

/// The states that a job can be in. Before a tool runs the source has been
/// found valid and the derived names are those that it gives; a failure is
/// there only during the cleanup and at the end; a job fails in the validation
/// only by ending there.
pub open spec fn well_formed(p: PipelineView) -> bool {
    match p.stage {
        Stage::Validating => p.failure is None,
        Stage::Packing => p.mode == Mode::Encrypt && p.backend == Backend::TarOpenssl
            && p.failure is None && resolved(p),
        Stage::Enciphering => p.mode == Mode::Encrypt && p.failure is None && resolved(p),
        Stage::Deciphering => p.mode == Mode::Decrypt && p.failure is None && resolved(p),
        Stage::Unpacking => p.mode == Mode::Decrypt && p.backend == Backend::TarOpenssl
            && p.failure is None && resolved(p),
        Stage::Cleanup => p.backend == Backend::TarOpenssl && resolved(p) && (p.failure is Some
            ==> runs_tool(p.failure->0.stage)),
        Stage::Done => p.failure is None || p.failure->0.stage != Stage::Validating ==> resolved(
            p,
        ),
    }
}

} // verus!
