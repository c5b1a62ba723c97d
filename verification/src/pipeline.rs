use vstd::prelude::*;
use vstd::string::*;
use crate::backend::{backend_for, select_backend, Backend, Mode};
use crate::command::Invocation;
use crate::laws::lemma_step_keeps_well_formed;
use crate::machine::{
    cleaned, cleanup_fault, ended, initial, interruption_words, known_output, known_temporary,
    next_state, output_of, planned, source_fault, success_text, temporary_of, tool_done,
    tool_fault, unsupported_platform, validated, well_formed, ActionView, EventView,
    PipelineView, SourceKind,
};
use crate::naming::{archive_path, base_argument, directory_argument, temporary_path};
use crate::outcome::{optional_text, outcome_view, ErrorKind, Failure, FailureView, Stage};
use crate::path::{file_stem, join_path, split_path};
use crate::text::{concat2, concat3, contains};

verus! {

/// What the caller has to do next for a job.
#[derive(PartialEq, Eq)]
pub enum Action {
    /// Look at the path: what it is, and its absolute form.
    Inspect { path: String },
    /// Run the tool, hand it its input, and wait for it while reading what it prints.
    Run(Invocation),
    /// Remove the file. A file that is not there counts as removed.
    Remove { path: String },
    /// Nothing more: the job has ended with this result.
    Finish(Result<String, Failure>),
}

impl View for Action {
    type V = ActionView;

    open spec fn view(&self) -> ActionView {
        match *self {
            Action::Inspect { path } => ActionView::Inspect { path: path@ },
            Action::Run(call) => ActionView::Run(call@),
            Action::Remove { path } => ActionView::Remove { path: path@ },
            Action::Finish(outcome) => ActionView::Finish(outcome_view(outcome)),
        }
    }
}

/// What the caller found when it did what it was asked.
#[derive(Debug, PartialEq, Eq)]
pub enum Event {
    /// The answer to `Inspect`: what the path is, and its absolute form or why
    /// that could not be had.
    Inspected { kind: SourceKind, absolute: Result<String, String> },
    /// The tool ran and ended; `diagnostics` is what it wrote to its error stream.
    Exited { success: bool, diagnostics: String },
    /// The tool could not be started.
    Unavailable { reason: String },
    /// The tool was started, but its input could not be written.
    InputFailed { reason: String },
    /// The tool was started, but its end could not be awaited.
    WaitFailed { reason: String },
    /// The answer to `Remove`: the file is gone.
    Removed,
    /// The answer to `Remove`: the file could not be removed.
    RemoveFailed { reason: String },
}

/// The characters of an absolute path or of the reason why there is none.
pub open spec fn absolute_view(absolute: Result<String, String>) -> Result<Seq<char>, Seq<char>> {
    match absolute {
        Ok(path) => Ok(path@),
        Err(reason) => Err(reason@),
    }
}

impl View for Event {
    type V = EventView;

    open spec fn view(&self) -> EventView {
        match *self {
            Event::Inspected { kind, absolute } => EventView::Inspected {
                kind,
                absolute: absolute_view(absolute),
            },
            Event::Exited { success, diagnostics } => EventView::Exited {
                success,
                diagnostics: diagnostics@,
            },
            Event::Unavailable { reason } => EventView::Unavailable { reason: reason@ },
            Event::InputFailed { reason } => EventView::InputFailed { reason: reason@ },
            Event::WaitFailed { reason } => EventView::WaitFailed { reason: reason@ },
            Event::Removed => EventView::Removed,
            Event::RemoveFailed { reason } => EventView::RemoveFailed { reason: reason@ },
        }
    }
}

/// One job, from the request to its result. It says what is to be done next
/// (`pending`) and takes what came of it (`advance`); it runs no tool and
/// touches no file itself.
pub struct Pipeline {
    mode: Mode,
    backend: Backend,
    stage: Stage,
    source: String,
    password: String,
    directory: String,
    name: String,
    base: String,
    failure: Option<Failure>,
}

/// The view of a failure that may be there.
pub open spec fn optional_failure(failure: Option<Failure>) -> Option<FailureView> {
    match failure {
        Some(f) => Some(f@),
        None => None,
    }
}

impl View for Pipeline {
    type V = PipelineView;

    closed spec fn view(&self) -> PipelineView {
        PipelineView {
            mode: self.mode,
            backend: self.backend,
            stage: self.stage,
            source: self.source@,
            password: self.password@,
            directory: self.directory@,
            name: self.name@,
            base: self.base@,
            failure: optional_failure(self.failure),
        }
    }
}

/// What a request for a job gives: the job before its first step, or the
/// failure where the platform has no backend.
pub open spec fn begun(mode: Mode, source: Seq<char>, password: Seq<char>, platform: Seq<char>)
    -> Result<PipelineView, FailureView> {
    match backend_for(platform) {
        Some(backend) => Ok(initial(mode, backend, source, password)),
        None => Err(unsupported_platform()),
    }
}

/// The view of a request's answer.
pub open spec fn request_view(job: Result<Pipeline, Failure>) -> Result<
    PipelineView,
    FailureView,
> {
    match job {
        Ok(pipeline) => Ok(pipeline@),
        Err(failure) => Err(failure@),
    }
}

fn begin(mode: Mode, source: &str, password: &str, platform: &str) -> (job: Result<
    Pipeline,
    Failure,
>)
    ensures
        request_view(job) == begun(mode, source@, password@, platform@),
{
    match select_backend(platform) {
        Some(backend) => Ok(
            Pipeline {
                mode,
                backend,
                stage: Stage::Validating,
                source: String::from_str(source),
                password: String::from_str(password),
                directory: String::new(),
                name: String::new(),
                base: String::new(),
                failure: None,
            },
        ),
        None => Err(
            Failure {
                kind: ErrorKind::UnsupportedPlatform,
                stage: Stage::Validating,
                backend: None,
                detail: String::new(),
                cleanup: None,
                produced: None,
            },
        ),
    }
}

/// Begins the encryption of the folder at `folder_path` under `password` on the
/// platform named `platform`. Where the platform has a backend, the answer is the
/// job before its first step: nothing has been looked at or run yet. Where it has
/// none, the answer is the failure `UnsupportedPlatform`, and there is no job that
/// could ask for anything.
pub fn encrypt_folder(folder_path: &str, password: &str, platform: &str) -> (job: Result<
    Pipeline,
    Failure,
>)
    ensures
        request_view(job) == begun(Mode::Encrypt, folder_path@, password@, platform@),
        job is Ok ==> well_formed(job->Ok_0@),
{
    begin(Mode::Encrypt, folder_path, password, platform)
}

/// Begins the decryption of the archive at `encrypted_file` under `password` on
/// the platform named `platform`, as `encrypt_folder` begins an encryption.
pub fn decrypt_folder(encrypted_file: &str, password: &str, platform: &str) -> (job: Result<
    Pipeline,
    Failure,
>)
    ensures
        request_view(job) == begun(Mode::Decrypt, encrypted_file@, password@, platform@),
        job is Ok ==> well_formed(job->Ok_0@),
{
    begin(Mode::Decrypt, encrypted_file, password, platform)
}

/// The view of a tool's judgement.
pub open spec fn fault_view(fault: Option<(ErrorKind, String)>) -> Option<(ErrorKind, Seq<char>)> {
    match fault {
        Some(pair) => Some((pair.0, pair.1@)),
        None => None,
    }
}

fn interruption(stage: Stage, backend: Backend, writing: bool) -> (words: &'static str)
    ensures
        words@ == interruption_words(stage, backend, writing),
{
    if stage == Stage::Packing || stage == Stage::Unpacking {
        "Failed to execute tar command: "
    } else if backend == Backend::SevenZip {
        "Failed to execute 7z command: "
    } else if writing {
        "Failed to write password: "
    } else {
        "Failed to wait for openssl command to complete: "
    }
}

/// Judges what came of a tool's run in `stage` (see `tool_fault`).
pub fn judge(stage: Stage, backend: Backend, event: Event) -> (fault: Option<(ErrorKind, String)>)
    ensures
        fault_view(fault) == tool_fault(stage, backend, event@),
{
    let packaging = stage == Stage::Packing || stage == Stage::Unpacking;
    match event {
        Event::Exited { success, diagnostics } => {
            if success {
                None
            } else if packaging {
                Some((ErrorKind::PackagingFailed, diagnostics))
            } else if stage == Stage::Enciphering {
                Some((ErrorKind::EncryptionFailed, diagnostics))
            } else if contains(diagnostics.as_str(), backend.signature()) {
                Some((ErrorKind::WrongPassword, diagnostics))
            } else {
                Some((ErrorKind::DecryptionFailed, diagnostics))
            }
        },
        Event::Unavailable { reason } => {
            if packaging {
                Some((ErrorKind::PackagingFailed, reason))
            } else {
                Some((ErrorKind::CipherToolUnavailable, reason))
            }
        },
        Event::InputFailed { reason } => Some(
            (ErrorKind::IOFailure, concat2(interruption(stage, backend, true), reason.as_str())),
        ),
        Event::WaitFailed { reason } => Some(
            (ErrorKind::IOFailure, concat2(interruption(stage, backend, false), reason.as_str())),
        ),
        _ => Some((ErrorKind::IOFailure, String::from_str("Unexpected event"))),
    }
}

impl Pipeline {
    /// The stage that the job is in.
    pub fn stage(&self) -> (stage: Stage)
        ensures
            stage == self@.stage,
    {
        self.stage
    }

    /// Whether the job encrypts or decrypts.
    pub fn mode(&self) -> (mode: Mode)
        ensures
            mode == self@.mode,
    {
        self.mode
    }

    /// The backend that carries the job out.
    pub fn backend(&self) -> (backend: Backend)
        ensures
            backend == self@.backend,
    {
        self.backend
    }

    /// Whether the job has ended.
    pub fn is_done(&self) -> (done: bool)
        ensures
            done == (self@.stage == Stage::Done),
    {
        self.stage == Stage::Done
    }

    /// The path that the job was asked to work on.
    pub fn source(&self) -> (path: &str)
        ensures
            path@ == self@.source,
    {
        self.source.as_str()
    }

    /// The path of what the job produces: the archive beside the folder, or the
    /// folder beside the archive. `None` until the source has been found valid.
    pub fn output_path(&self) -> (path: Option<String>)
        ensures
            optional_text(path) == known_output(self@),
    {
        if self.name.as_str().unicode_len() > 0 {
            Some(self.output())
        } else {
            None
        }
    }

    /// The path of the temporary archive. `None` until the source has been found
    /// valid, and where the backend keeps no such archive.
    pub fn temporary_path(&self) -> (path: Option<String>)
        ensures
            optional_text(path) == known_temporary(self@),
    {
        if self.name.as_str().unicode_len() > 0 && self.backend == Backend::TarOpenssl {
            Some(self.temporary())
        } else {
            None
        }
    }

    fn temporary(&self) -> (path: String)
        ensures
            path@ == temporary_of(self@),
    {
        temporary_path(self.backend.path_style(), self.directory.as_str(), self.name.as_str())
    }

    fn output(&self) -> (path: String)
        ensures
            path@ == output_of(self@),
    {
        match self.mode {
            Mode::Encrypt => archive_path(
                self.backend.path_style(),
                self.directory.as_str(),
                self.name.as_str(),
            ),
            Mode::Decrypt => join_path(
                self.backend.path_style(),
                self.directory.as_str(),
                self.name.as_str(),
            ),
        }
    }

    fn result(&self) -> (outcome: Result<String, Failure>)
        ensures
            outcome_view(outcome) == (match self@.failure {
                Some(failure) => Err::<Seq<char>, FailureView>(failure),
                None => Ok(success_text(self@)),
            }),
    {
        match &self.failure {
            Some(failure) => Err(failure.clone()),
            None => {
                let output = self.output();
                match self.mode {
                    Mode::Encrypt => Ok(concat2("Folder has been encrypted to: ", output.as_str())),
                    Mode::Decrypt => Ok(concat2("File has been decrypted to: ", output.as_str())),
                }
            },
        }
    }

    /// What the caller has to do next. It does not change the job: asked twice,
    /// it answers the same.
    pub fn pending(&self) -> (action: Action)
        ensures
            action@ == planned(self@),
    {
        match self.stage {
            Stage::Validating => Action::Inspect { path: self.source.clone() },
            Stage::Packing => {
                let archive = self.temporary();
                Action::Run(
                    Invocation::pack(archive.as_str(), self.base.as_str(), self.name.as_str()),
                )
            },
            Stage::Enciphering => {
                let output = self.output();
                match self.backend {
                    Backend::TarOpenssl => {
                        let archive = self.temporary();
                        Action::Run(
                            Invocation::cipher(
                                false,
                                archive.as_str(),
                                output.as_str(),
                                self.password.as_str(),
                            ),
                        )
                    },
                    Backend::SevenZip => Action::Run(
                        Invocation::seven_zip_pack(
                            output.as_str(),
                            self.source.as_str(),
                            self.password.as_str(),
                        ),
                    ),
                }
            },
            Stage::Deciphering => match self.backend {
                Backend::TarOpenssl => {
                    let archive = self.temporary();
                    Action::Run(
                        Invocation::cipher(
                            true,
                            self.source.as_str(),
                            archive.as_str(),
                            self.password.as_str(),
                        ),
                    )
                },
                Backend::SevenZip => {
                    let directory = directory_argument(self.directory.as_str());
                    Action::Run(
                        Invocation::seven_zip_unpack(
                            self.source.as_str(),
                            directory.as_str(),
                            self.password.as_str(),
                        ),
                    )
                },
            },
            Stage::Unpacking => {
                let archive = self.temporary();
                let directory = directory_argument(self.directory.as_str());
                Action::Run(Invocation::unpack(archive.as_str(), directory.as_str()))
            },
            Stage::Cleanup => Action::Remove { path: self.temporary() },
            Stage::Done => Action::Finish(self.result()),
        }
    }

    fn end(&mut self, kind: ErrorKind, detail: String)
        ensures
            final(self)@ == ended(old(self)@, kind, detail@),
    {
        self.failure = Some(
            Failure {
                kind,
                stage: self.stage,
                backend: Some(self.backend),
                detail,
                cleanup: None,
                produced: None,
            },
        );
        self.stage = Stage::Done;
    }

    fn source_trouble(&self, kind: SourceKind) -> (words: Option<String>)
        ensures
            optional_text(words) == source_fault(self@.mode, self@.source, kind),
    {
        match self.mode {
            Mode::Encrypt => if kind == SourceKind::Directory {
                None
            } else {
                Some(concat3("Folder '", self.source.as_str(), "' does not exist"))
            },
            Mode::Decrypt => if kind == SourceKind::File {
                None
            } else if kind == SourceKind::Missing {
                Some(concat3("Encrypted file '", self.source.as_str(), "' does not exist"))
            } else {
                Some(concat3("'", self.source.as_str(), "' is not a file"))
            },
        }
    }

    fn validate(&mut self, kind: SourceKind, absolute: Result<String, String>)
        ensures
            final(self)@ == validated(old(self)@, kind, absolute_view(absolute)),
    {
        match self.source_trouble(kind) {
            Some(words) => {
                self.end(ErrorKind::InvalidSource, words);
                return ;
            },
            None => {},
        }
        let style = self.backend.path_style();
        match split_path(style, self.source.as_str()) {
            None => {
                let words = match self.mode {
                    Mode::Encrypt => String::from_str("Cannot get folder name"),
                    Mode::Decrypt => String::from_str("Cannot get file name"),
                };
                self.end(ErrorKind::InvalidSource, words);
            },
            Some(parts) => match self.mode {
                Mode::Decrypt => {
                    self.name = file_stem(parts.1.as_str());
                    self.directory = parts.0;
                    self.stage = Stage::Deciphering;
                },
                Mode::Encrypt => match self.backend {
                    Backend::SevenZip => {
                        self.directory = parts.0;
                        self.name = parts.1;
                        self.stage = Stage::Enciphering;
                    },
                    Backend::TarOpenssl => match absolute {
                        Err(reason) => {
                            let words = concat2("Failed to get absolute path: ", reason.as_str());
                            self.end(ErrorKind::IOFailure, words);
                        },
                        Ok(path) => {
                            self.base = base_argument(style, path.as_str());
                            self.directory = parts.0;
                            self.name = parts.1;
                            self.stage = Stage::Packing;
                        },
                    },
                },
            },
        }
    }

    fn tool_finished(&mut self, event: Event)
        ensures
            final(self)@ == tool_done(old(self)@, event@),
    {
        match judge(self.stage, self.backend, event) {
            None => {
                self.stage = match self.stage {
                    Stage::Packing => Stage::Enciphering,
                    Stage::Deciphering => match self.backend {
                        Backend::TarOpenssl => Stage::Unpacking,
                        Backend::SevenZip => Stage::Done,
                    },
                    _ => match self.backend {
                        Backend::TarOpenssl => Stage::Cleanup,
                        Backend::SevenZip => Stage::Done,
                    },
                };
            },
            Some(fault) => {
                self.failure = Some(
                    Failure {
                        kind: fault.0,
                        stage: self.stage,
                        backend: Some(self.backend),
                        detail: fault.1,
                        cleanup: None,
                        produced: None,
                    },
                );
                self.stage = match self.backend {
                    Backend::TarOpenssl => Stage::Cleanup,
                    Backend::SevenZip => Stage::Done,
                };
            },
        }
    }

    fn clean(&mut self, event: Event)
        ensures
            final(self)@ == cleaned(old(self)@, event@),
    {
        let trouble = match event {
            Event::Removed => None,
            Event::RemoveFailed { reason } => Some(reason),
            _ => Some(String::from_str("Unexpected event")),
        };
        assert(optional_text(trouble) == cleanup_fault(event@));
        match trouble {
            None => {},
            Some(reason) => {
                let failure = match &self.failure {
                    Some(earlier) => Failure {
                        kind: earlier.kind,
                        stage: earlier.stage,
                        backend: earlier.backend,
                        detail: earlier.detail.clone(),
                        cleanup: Some(reason),
                        produced: match &earlier.produced {
                            Some(path) => Some(path.clone()),
                            None => None,
                        },
                    },
                    None => Failure {
                        kind: ErrorKind::CleanupFailed,
                        stage: Stage::Cleanup,
                        backend: Some(self.backend),
                        detail: reason,
                        cleanup: None,
                        produced: Some(self.output()),
                    },
                };
                self.failure = Some(failure);
            },
        }
        self.stage = Stage::Done;
    }

    /// Takes what came of the pending action and moves the job on (see
    /// `next_state`). A job that can be reached from a request stays one.
    pub fn advance(&mut self, event: Event)
        ensures
            final(self)@ == next_state(old(self)@, event@),
            well_formed(old(self)@) ==> well_formed(final(self)@),
    {
        proof {
            if well_formed(self@) {
                lemma_step_keeps_well_formed(self@, event@);
            }
        }
        match self.stage {
            Stage::Validating => match event {
                Event::Inspected { kind, absolute } => self.validate(kind, absolute),
                _ => self.end(ErrorKind::IOFailure, String::from_str("Unexpected event")),
            },
            Stage::Cleanup => self.clean(event),
            Stage::Done => {},
            _ => self.tool_finished(event),
        }
    }
}

} // verus!
