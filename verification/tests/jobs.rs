use folder_encryptor::path::PathStyle;
use folder_encryptor::pipeline::judge;
use folder_encryptor::{
    decrypt_folder, encrypt_folder, Action, Backend, ErrorKind, Event, Failure, Invocation, Mode,
    Pipeline, SourceKind, Stage,
};

fn strings(items: &[&str]) -> Vec<String> {
    items.iter().map(|s| s.to_string()).collect()
}

fn expect_inspect(job: &Pipeline, path: &str) {
    match job.pending() {
        Action::Inspect { path: asked } => assert_eq!(asked, path),
        _ => panic!("the job does not ask to look at a path"),
    }
}

fn expect_run(job: &Pipeline, program: &str, args: &[&str], input: Option<&str>) {
    match job.pending() {
        Action::Run(Invocation { program: asked, args: given, input: piped }) => {
            assert_eq!(asked, program);
            assert_eq!(given, strings(args));
            assert!(piped == input.map(|s| s.to_string()));
        }
        _ => panic!("the job does not ask to run a tool"),
    }
}

fn expect_remove(job: &Pipeline, path: &str) {
    match job.pending() {
        Action::Remove { path: asked } => assert_eq!(asked, path),
        _ => panic!("the job does not ask to remove a file"),
    }
}

fn expect_success(job: &Pipeline, message: &str) {
    match job.pending() {
        Action::Finish(Ok(said)) => assert_eq!(said, message),
        _ => panic!("the job has not succeeded"),
    }
}

fn exited(success: bool, diagnostics: &str) -> Event {
    Event::Exited { success, diagnostics: diagnostics.to_string() }
}

fn found(kind: SourceKind, absolute: &str) -> Event {
    Event::Inspected { kind, absolute: Ok(absolute.to_string()) }
}

fn failure_of(job: &Pipeline) -> Failure {
    match job.pending() {
        Action::Finish(Err(failure)) => failure,
        _ => panic!("the job has not failed"),
    }
}

fn encrypting(path: &str, password: &str) -> Pipeline {
    let mut job = encrypt_folder(path, password, "linux").unwrap();
    job.advance(found(SourceKind::Directory, path));
    job
}

fn decrypting(path: &str, password: &str) -> Pipeline {
    let mut job = decrypt_folder(path, password, "linux").unwrap();
    job.advance(found(SourceKind::File, path));
    job
}

#[test]
fn encryption_runs_tar_then_openssl_then_removes_the_archive() {
    let mut job = encrypt_folder("/home/u/project", "s3cret", "linux").unwrap();
    assert_eq!(job.mode(), Mode::Encrypt);
    assert_eq!(job.backend(), Backend::TarOpenssl);
    assert_eq!(job.stage(), Stage::Validating);
    expect_inspect(&job, "/home/u/project");

    job.advance(found(SourceKind::Directory, "/home/u/project"));
    assert_eq!(job.stage(), Stage::Packing);
    expect_run(&job, "tar", &["-cf", "/home/u/project.tar", "-C", "/home/u", "project"], None);

    job.advance(exited(true, ""));
    assert_eq!(job.stage(), Stage::Enciphering);
    expect_run(
        &job,
        "openssl",
        &[
            "enc", "-aes-256-cbc", "-salt", "-pbkdf2", "-pass", "stdin",
            "-in", "/home/u/project.tar", "-out", "/home/u/project.aes",
        ],
        Some("s3cret"),
    );

    job.advance(exited(true, ""));
    assert_eq!(job.stage(), Stage::Cleanup);
    expect_remove(&job, "/home/u/project.tar");

    job.advance(Event::Removed);
    assert_eq!(job.stage(), Stage::Done);
    assert!(job.is_done());
    expect_success(&job, "Folder has been encrypted to: /home/u/project.aes");
}

#[test]
fn decryption_runs_openssl_then_tar_then_removes_the_archive() {
    let mut job = decrypt_folder("/home/u/project.aes", "s3cret", "linux").unwrap();
    assert_eq!(job.mode(), Mode::Decrypt);
    expect_inspect(&job, "/home/u/project.aes");

    job.advance(found(SourceKind::File, "/home/u/project.aes"));
    assert_eq!(job.stage(), Stage::Deciphering);
    expect_run(
        &job,
        "openssl",
        &[
            "enc", "-aes-256-cbc", "-d", "-salt", "-pbkdf2", "-pass", "stdin",
            "-in", "/home/u/project.aes", "-out", "/home/u/project.tar",
        ],
        Some("s3cret"),
    );

    job.advance(exited(true, ""));
    assert_eq!(job.stage(), Stage::Unpacking);
    expect_run(&job, "tar", &["-xf", "/home/u/project.tar", "-C", "/home/u"], None);

    job.advance(exited(true, ""));
    assert_eq!(job.stage(), Stage::Cleanup);
    expect_remove(&job, "/home/u/project.tar");

    job.advance(Event::Removed);
    expect_success(&job, "File has been decrypted to: /home/u/project");
}

#[test]
fn wrong_password_is_told_apart_and_nothing_is_unpacked() {
    let mut job = decrypting("/home/u/project.aes", "wrong");
    job.advance(exited(
        false,
        "bad decrypt\n140:error:06065064:digital envelope routines:EVP_DecryptFinal_ex\n",
    ));
    assert_eq!(job.stage(), Stage::Cleanup);
    expect_remove(&job, "/home/u/project.tar");
    job.advance(Event::Removed);
    assert_eq!(job.stage(), Stage::Done);
    let failure = failure_of(&job);
    assert_eq!(failure.kind, ErrorKind::WrongPassword);
    assert_eq!(failure.stage, Stage::Deciphering);
    assert_eq!(failure.backend, Some(Backend::TarOpenssl));
    assert_eq!(failure.cleanup, None);
    assert_eq!(failure.message(), "Decryption failed: Incorrect password");
}

#[test]
fn other_decryption_failures_carry_the_diagnostics() {
    let mut job = decrypting("/home/u/project.aes", "s3cret");
    job.advance(exited(false, "bad magic number\n"));
    assert_eq!(job.stage(), Stage::Cleanup);
    job.advance(Event::Removed);
    let failure = failure_of(&job);
    assert_eq!(failure.kind, ErrorKind::DecryptionFailed);
    assert_eq!(failure.detail, "bad magic number\n");
    assert_eq!(failure.message(), "Failed to decrypt file: bad magic number\n");
}

#[test]
fn signature_is_matched_anywhere_and_exactly() {
    let verdict = |text: &str| {
        let mut job = decrypting("/a/b.aes", "p");
        job.advance(exited(false, text));
        job.advance(Event::Removed);
        failure_of(&job).kind
    };
    assert_eq!(verdict("bad decrypt"), ErrorKind::WrongPassword);
    assert_eq!(verdict("xx bad decrypt yy"), ErrorKind::WrongPassword);
    assert_eq!(verdict("bad  decrypt"), ErrorKind::DecryptionFailed);
    assert_eq!(verdict("Bad decrypt"), ErrorKind::DecryptionFailed);
    assert_eq!(verdict("bad decryp"), ErrorKind::DecryptionFailed);
    assert_eq!(verdict("Wrong password"), ErrorKind::DecryptionFailed);
    assert_eq!(verdict(""), ErrorKind::DecryptionFailed);
}

#[test]
fn a_successful_exit_is_success_whatever_was_printed() {
    let mut job = decrypting("/a/b.aes", "p");
    job.advance(exited(true, "bad decrypt"));
    assert_eq!(job.stage(), Stage::Unpacking);
}

#[test]
fn unsupported_platform_gives_no_job() {
    for platform in ["freebsd", "", "Linux", "linux ", "win", "android"] {
        let failure = encrypt_folder("/a/b", "p", platform).err().unwrap();
        assert_eq!(failure.kind, ErrorKind::UnsupportedPlatform);
        assert_eq!(failure.stage, Stage::Validating);
        assert_eq!(failure.backend, None);
        assert_eq!(failure.message(), "Unsupported operating system");
        let failure = decrypt_folder("/a/b.aes", "p", platform).err().unwrap();
        assert_eq!(failure.kind, ErrorKind::UnsupportedPlatform);
    }
}

#[test]
fn platforms_choose_their_backend() {
    assert_eq!(encrypt_folder("a", "p", "linux").unwrap().backend(), Backend::TarOpenssl);
    assert_eq!(encrypt_folder("a", "p", "macos").unwrap().backend(), Backend::TarOpenssl);
    assert_eq!(encrypt_folder("a", "p", "windows").unwrap().backend(), Backend::SevenZip);
    assert_eq!(folder_encryptor::select_backend("linux"), Some(Backend::TarOpenssl));
    assert_eq!(folder_encryptor::select_backend("windows"), Some(Backend::SevenZip));
    assert_eq!(folder_encryptor::select_backend("plan9"), None);
}

#[test]
fn a_source_of_the_wrong_kind_is_invalid() {
    for kind in [SourceKind::Missing, SourceKind::File, SourceKind::Other] {
        let mut job = encrypt_folder("/a/b", "p", "linux").unwrap();
        job.advance(found(kind, "/a/b"));
        assert_eq!(job.stage(), Stage::Done);
        let failure = failure_of(&job);
        assert_eq!(failure.kind, ErrorKind::InvalidSource);
        assert_eq!(failure.stage, Stage::Validating);
        assert_eq!(failure.message(), "Folder '/a/b' does not exist");
    }
    let mut job = decrypt_folder("/a/b.aes", "p", "linux").unwrap();
    job.advance(found(SourceKind::Missing, "/a/b.aes"));
    assert_eq!(failure_of(&job).kind, ErrorKind::InvalidSource);
    assert_eq!(failure_of(&job).message(), "Encrypted file '/a/b.aes' does not exist");
    for kind in [SourceKind::Directory, SourceKind::Other] {
        let mut job = decrypt_folder("/a/b.aes", "p", "linux").unwrap();
        job.advance(found(kind, "/a/b.aes"));
        assert_eq!(failure_of(&job).kind, ErrorKind::InvalidSource);
        assert_eq!(failure_of(&job).message(), "'/a/b.aes' is not a file");
    }
}

#[test]
fn a_source_without_a_name_is_invalid() {
    for path in ["/", ".", "..", "/a/.."] {
        let mut job = encrypt_folder(path, "p", "linux").unwrap();
        job.advance(found(SourceKind::Directory, "/"));
        let failure = failure_of(&job);
        assert_eq!(failure.kind, ErrorKind::InvalidSource);
        assert_eq!(failure.message(), "Cannot get folder name");
    }
    let mut job = decrypt_folder("/x/..", "p", "linux").unwrap();
    job.advance(found(SourceKind::File, "/"));
    assert_eq!(failure_of(&job).message(), "Cannot get file name");
}

#[test]
fn an_unresolved_folder_is_an_io_failure() {
    let mut job = encrypt_folder("/a/b", "p", "linux").unwrap();
    job.advance(Event::Inspected {
        kind: SourceKind::Directory,
        absolute: Err("Permission denied (os error 13)".to_string()),
    });
    assert_eq!(job.stage(), Stage::Done);
    let failure = failure_of(&job);
    assert_eq!(failure.kind, ErrorKind::IOFailure);
    assert_eq!(failure.stage, Stage::Validating);
    assert_eq!(failure.message(), "Failed to get absolute path: Permission denied (os error 13)");
}

#[test]
fn the_absolute_path_is_read_only_where_tar_packs() {
    let mut job = decrypt_folder("/a/b.aes", "p", "linux").unwrap();
    job.advance(Event::Inspected { kind: SourceKind::File, absolute: Err("no".to_string()) });
    assert_eq!(job.stage(), Stage::Deciphering);
    let mut job = encrypt_folder("C:\\a\\b", "p", "windows").unwrap();
    job.advance(Event::Inspected { kind: SourceKind::Directory, absolute: Err("no".to_string()) });
    assert_eq!(job.stage(), Stage::Enciphering);
}

#[test]
fn packing_starts_from_the_absolute_parent() {
    let mut job = encrypt_folder("project", "p", "linux").unwrap();
    job.advance(found(SourceKind::Directory, "/srv/data/project"));
    expect_run(&job, "tar", &["-cf", "project.tar", "-C", "/srv/data", "project"], None);
    job.advance(exited(true, ""));
    expect_run(
        &job,
        "openssl",
        &[
            "enc", "-aes-256-cbc", "-salt", "-pbkdf2", "-pass", "stdin",
            "-in", "project.tar", "-out", "project.aes",
        ],
        Some("p"),
    );
    let mut job = encrypt_folder("/project/", "p", "linux").unwrap();
    job.advance(found(SourceKind::Directory, "/project"));
    expect_run(&job, "tar", &["-cf", "/project.tar", "-C", "/", "project"], None);
    let mut job = encrypt_folder("x", "p", "linux").unwrap();
    job.advance(found(SourceKind::Directory, "/"));
    expect_run(&job, "tar", &["-cf", "x.tar", "-C", "/", "x"], None);
    let mut job = encrypt_folder("x", "p", "linux").unwrap();
    job.advance(found(SourceKind::Directory, "x"));
    expect_run(&job, "tar", &["-cf", "x.tar", "-C", ".", "x"], None);
}

#[test]
fn unpacking_beside_a_bare_name_goes_to_the_current_directory() {
    let mut job = decrypting("project.aes", "p");
    job.advance(exited(true, ""));
    expect_run(&job, "tar", &["-xf", "project.tar", "-C", "."], None);
    job.advance(exited(true, ""));
    job.advance(Event::Removed);
    expect_success(&job, "File has been decrypted to: project");
}

#[test]
fn a_failed_packing_is_cleaned_up_and_reported() {
    let mut job = encrypting("/a/b", "p");
    job.advance(exited(false, "tar: b: Cannot stat"));
    assert_eq!(job.stage(), Stage::Cleanup);
    expect_remove(&job, "/a/b.tar");
    job.advance(Event::Removed);
    let failure = failure_of(&job);
    assert_eq!(failure.kind, ErrorKind::PackagingFailed);
    assert_eq!(failure.stage, Stage::Packing);
    assert_eq!(failure.message(), "Failed to package folder: tar: b: Cannot stat");
}

#[test]
fn a_failed_unpacking_is_cleaned_up_and_reported() {
    let mut job = decrypting("/a/b.aes", "p");
    job.advance(exited(true, ""));
    job.advance(exited(false, "tar: short read"));
    assert_eq!(job.stage(), Stage::Cleanup);
    job.advance(Event::Removed);
    let failure = failure_of(&job);
    assert_eq!(failure.kind, ErrorKind::PackagingFailed);
    assert_eq!(failure.stage, Stage::Unpacking);
    assert_eq!(failure.message(), "Failed to extract file: tar: short read");
}

#[test]
fn a_failed_encryption_is_cleaned_up_and_reported() {
    let mut job = encrypting("/a/b", "p");
    job.advance(exited(true, ""));
    job.advance(exited(false, "disk full"));
    assert_eq!(job.stage(), Stage::Cleanup);
    expect_remove(&job, "/a/b.tar");
    job.advance(Event::Removed);
    let failure = failure_of(&job);
    assert_eq!(failure.kind, ErrorKind::EncryptionFailed);
    assert_eq!(failure.stage, Stage::Enciphering);
    assert_eq!(failure.message(), "Failed to encrypt file: disk full");
}

#[test]
fn a_missing_packaging_tool_fails_the_packaging() {
    let mut job = encrypting("/a/b", "p");
    job.advance(Event::Unavailable { reason: "No such file or directory".to_string() });
    assert_eq!(job.stage(), Stage::Cleanup);
    job.advance(Event::Removed);
    let failure = failure_of(&job);
    assert_eq!(failure.kind, ErrorKind::PackagingFailed);
    assert_eq!(failure.stage, Stage::Packing);
    assert_eq!(failure.message(), "Failed to package folder: No such file or directory");

    let mut job = decrypting("/a/b.aes", "p");
    job.advance(exited(true, ""));
    job.advance(Event::Unavailable { reason: "gone".to_string() });
    job.advance(Event::Removed);
    let failure = failure_of(&job);
    assert_eq!(failure.kind, ErrorKind::PackagingFailed);
    assert_eq!(failure.stage, Stage::Unpacking);
    assert_eq!(failure.message(), "Failed to extract file: gone");
}

#[test]
fn the_derived_paths_are_known_once_the_source_is_valid() {
    let mut job = encrypt_folder("/a/b/", "p", "linux").unwrap();
    assert_eq!(job.source(), "/a/b/");
    assert_eq!(job.output_path(), None);
    assert_eq!(job.temporary_path(), None);
    job.advance(found(SourceKind::Directory, "/a/b"));
    assert_eq!(job.source(), "/a/b/");
    assert_eq!(job.output_path(), Some("/a/b.aes".to_string()));
    assert_eq!(job.temporary_path(), Some("/a/b.tar".to_string()));

    let mut job = decrypt_folder("/a/b.aes", "p", "linux").unwrap();
    job.advance(found(SourceKind::File, "/a/b.aes"));
    assert_eq!(job.output_path(), Some("/a/b".to_string()));
    assert_eq!(job.temporary_path(), Some("/a/b.tar".to_string()));

    let mut job = decrypt_folder("C:\\a\\b.aes", "p", "windows").unwrap();
    job.advance(found(SourceKind::File, "C:\\a\\b.aes"));
    assert_eq!(job.output_path(), Some("C:\\a\\b".to_string()));
    assert_eq!(job.temporary_path(), None);

    let mut job = encrypt_folder("/a/b", "p", "linux").unwrap();
    job.advance(found(SourceKind::Missing, "/a/b"));
    assert_eq!(job.output_path(), None);
    assert_eq!(job.temporary_path(), None);
}

#[test]
fn a_missing_cipher_tool_is_told() {
    let mut job = encrypting("/a/b", "p");
    job.advance(exited(true, ""));
    job.advance(Event::Unavailable { reason: "No such file or directory".to_string() });
    assert_eq!(job.stage(), Stage::Cleanup);
    job.advance(Event::Removed);
    let failure = failure_of(&job);
    assert_eq!(failure.kind, ErrorKind::CipherToolUnavailable);
    assert_eq!(failure.message(), "Failed to start openssl command: No such file or directory");

    let mut job = decrypting("/a/b.aes", "p");
    job.advance(Event::Unavailable { reason: "gone".to_string() });
    job.advance(Event::Removed);
    assert_eq!(failure_of(&job).kind, ErrorKind::CipherToolUnavailable);
    assert_eq!(failure_of(&job).stage, Stage::Deciphering);
}

#[test]
fn a_lost_tool_is_an_io_failure() {
    let mut job = encrypting("/a/b", "p");
    job.advance(Event::InputFailed { reason: "closed".to_string() });
    job.advance(Event::Removed);
    assert_eq!(failure_of(&job).kind, ErrorKind::IOFailure);
    assert_eq!(failure_of(&job).message(), "Failed to execute tar command: closed");

    let mut job = encrypting("/a/b", "p");
    job.advance(Event::WaitFailed { reason: "interrupted".to_string() });
    job.advance(Event::Removed);
    assert_eq!(failure_of(&job).message(), "Failed to execute tar command: interrupted");

    let mut job = encrypting("/a/b", "p");
    job.advance(exited(true, ""));
    job.advance(Event::InputFailed { reason: "Broken pipe".to_string() });
    job.advance(Event::Removed);
    assert_eq!(failure_of(&job).kind, ErrorKind::IOFailure);
    assert_eq!(failure_of(&job).stage, Stage::Enciphering);
    assert_eq!(failure_of(&job).message(), "Failed to write password: Broken pipe");

    let mut job = decrypting("/a/b.aes", "p");
    job.advance(Event::WaitFailed { reason: "EINTR".to_string() });
    job.advance(Event::Removed);
    assert_eq!(failure_of(&job).kind, ErrorKind::IOFailure);
    assert_eq!(
        failure_of(&job).message(),
        "Failed to wait for openssl command to complete: EINTR"
    );
}

#[test]
fn a_failed_cleanup_after_success_is_a_failure() {
    let mut job = encrypting("/a/b", "p");
    job.advance(exited(true, ""));
    job.advance(exited(true, ""));
    job.advance(Event::RemoveFailed { reason: "Permission denied".to_string() });
    assert_eq!(job.stage(), Stage::Done);
    let failure = failure_of(&job);
    assert_eq!(failure.kind, ErrorKind::CleanupFailed);
    assert_eq!(failure.stage, Stage::Cleanup);
    assert_eq!(failure.detail, "Permission denied");
    assert_eq!(failure.cleanup, None);
    assert_eq!(failure.produced, Some("/a/b.aes".to_string()));
    assert_eq!(
        failure.message(),
        "Failed to delete temporary file: Permission denied; the result is complete: /a/b.aes"
    );
}

#[test]
fn a_failed_cleanup_does_not_hide_the_earlier_failure() {
    let mut job = decrypting("/a/b.aes", "p");
    job.advance(exited(false, "bad decrypt"));
    job.advance(Event::RemoveFailed { reason: "Read-only file system".to_string() });
    let failure = failure_of(&job);
    assert_eq!(failure.kind, ErrorKind::WrongPassword);
    assert_eq!(failure.stage, Stage::Deciphering);
    assert_eq!(failure.detail, "bad decrypt");
    assert_eq!(failure.cleanup, Some("Read-only file system".to_string()));
    assert_eq!(failure.produced, None);
    assert_eq!(
        failure.message(),
        "Decryption failed: Incorrect password; \
         failed to delete temporary file: Read-only file system"
    );
}

#[test]
fn an_event_that_answers_nothing_fails_the_stage() {
    let mut job = encrypt_folder("/a/b", "p", "linux").unwrap();
    job.advance(Event::Removed);
    assert_eq!(job.stage(), Stage::Done);
    assert_eq!(failure_of(&job).kind, ErrorKind::IOFailure);
    assert_eq!(failure_of(&job).message(), "Unexpected event");

    let mut job = encrypting("/a/b", "p");
    job.advance(Event::Removed);
    assert_eq!(job.stage(), Stage::Cleanup);
    job.advance(exited(true, ""));
    assert_eq!(job.stage(), Stage::Done);
    let failure = failure_of(&job);
    assert_eq!(failure.kind, ErrorKind::IOFailure);
    assert_eq!(failure.stage, Stage::Packing);
    assert_eq!(failure.cleanup, Some("Unexpected event".to_string()));
}

#[test]
fn a_finished_job_stays_as_it_is() {
    let mut job = encrypting("/a/b", "p");
    job.advance(exited(true, ""));
    job.advance(exited(true, ""));
    job.advance(Event::Removed);
    let result = job.pending();
    for event in [
        Event::Removed,
        exited(false, "bad decrypt"),
        Event::RemoveFailed { reason: "x".to_string() },
        found(SourceKind::Missing, "/"),
        Event::Unavailable { reason: "x".to_string() },
    ] {
        job.advance(event);
        assert_eq!(job.stage(), Stage::Done);
        assert!(job.pending() == result);
    }
}

#[test]
fn asking_twice_gives_the_same_action() {
    let job = encrypting("/a/b", "p");
    assert!(job.pending() == job.pending());
}

#[test]
fn every_job_ends_within_four_steps() {
    let events = || {
        vec![
            Event::Removed,
            exited(true, ""),
            exited(false, "bad decrypt"),
            found(SourceKind::Directory, "/a/b"),
            found(SourceKind::File, "/a/b"),
            Event::RemoveFailed { reason: "r".to_string() },
            Event::Unavailable { reason: "r".to_string() },
        ]
    };
    let n = events().len();
    for platform in ["linux", "windows"] {
        for encrypt in [true, false] {
            for code in 0..n * n * n * n {
                let mut job = if encrypt {
                    encrypt_folder("/a/b", "p", platform).unwrap()
                } else {
                    decrypt_folder("/a/b", "p", platform).unwrap()
                };
                let mut rest = code;
                let mut cleaned = false;
                let mut ran_tool = false;
                for _ in 0..4 {
                    let stage = job.stage();
                    if stage == Stage::Cleanup {
                        cleaned = true;
                    }
                    if matches!(job.pending(), Action::Run(_)) {
                        ran_tool = true;
                    }
                    job.advance(events().swap_remove(rest % n));
                    rest /= n;
                }
                assert!(job.is_done());
                if platform == "linux" && ran_tool {
                    assert!(cleaned);
                }
            }
        }
    }
}

#[test]
fn seven_zip_encrypts_in_one_step() {
    let mut job = encrypt_folder("C:\\Users\\me\\docs", "s3cret", "windows").unwrap();
    expect_inspect(&job, "C:\\Users\\me\\docs");
    job.advance(found(SourceKind::Directory, "\\\\?\\C:\\Users\\me\\docs"));
    assert_eq!(job.stage(), Stage::Enciphering);
    expect_run(
        &job,
        "7z",
        &["a", "-t7z", "-mhe=on", "-ps3cret", "C:\\Users\\me\\docs.aes", "C:\\Users\\me\\docs"],
        None,
    );
    job.advance(exited(true, ""));
    assert_eq!(job.stage(), Stage::Done);
    expect_success(&job, "Folder has been encrypted to: C:\\Users\\me\\docs.aes");
}

#[test]
fn seven_zip_decrypts_in_one_step() {
    let mut job = decrypt_folder("C:\\Users\\me\\docs.aes", "s3cret", "windows").unwrap();
    job.advance(found(SourceKind::File, "C:\\Users\\me\\docs.aes"));
    assert_eq!(job.stage(), Stage::Deciphering);
    expect_run(&job, "7z", &["x", "-ps3cret", "C:\\Users\\me\\docs.aes", "-oC:\\Users\\me"], None);
    job.advance(exited(true, ""));
    expect_success(&job, "File has been decrypted to: C:\\Users\\me\\docs");
}

#[test]
fn seven_zip_gets_no_switch_for_the_empty_password() {
    let mut job = encrypt_folder("C:\\d", "", "windows").unwrap();
    job.advance(found(SourceKind::Directory, "C:\\d"));
    expect_run(&job, "7z", &["a", "-t7z", "-mhe=on", "C:\\d.aes", "C:\\d"], None);
    let mut job = decrypt_folder("d.aes", "", "windows").unwrap();
    job.advance(found(SourceKind::File, "C:\\d.aes"));
    expect_run(&job, "7z", &["x", "d.aes", "-o."], None);
}

#[test]
fn seven_zip_failures_end_the_job_at_once() {
    let mut job = decrypt_folder("C:\\d.aes", "p", "windows").unwrap();
    job.advance(found(SourceKind::File, "C:\\d.aes"));
    job.advance(exited(false, "ERROR: Wrong password : d.aes"));
    assert_eq!(job.stage(), Stage::Done);
    assert_eq!(failure_of(&job).kind, ErrorKind::WrongPassword);
    assert_eq!(failure_of(&job).message(), "Decryption failed: Incorrect password");

    let mut job = decrypt_folder("C:\\d.aes", "p", "windows").unwrap();
    job.advance(found(SourceKind::File, "C:\\d.aes"));
    job.advance(exited(false, "bad decrypt"));
    assert_eq!(failure_of(&job).kind, ErrorKind::DecryptionFailed);
    assert_eq!(failure_of(&job).message(), "Failed to decrypt folder: bad decrypt");

    let mut job = encrypt_folder("C:\\d", "p", "windows").unwrap();
    job.advance(found(SourceKind::Directory, "C:\\d"));
    job.advance(exited(false, "oops"));
    assert_eq!(job.stage(), Stage::Done);
    assert_eq!(failure_of(&job).kind, ErrorKind::EncryptionFailed);
    assert_eq!(failure_of(&job).message(), "Failed to encrypt folder: oops");

    let mut job = encrypt_folder("C:\\d", "p", "windows").unwrap();
    job.advance(found(SourceKind::Directory, "C:\\d"));
    job.advance(Event::Unavailable { reason: "program not found".to_string() });
    assert_eq!(failure_of(&job).kind, ErrorKind::CipherToolUnavailable);
    assert_eq!(failure_of(&job).message(), "Failed to execute 7z command: program not found");

    let mut job = encrypt_folder("C:\\d", "p", "windows").unwrap();
    job.advance(found(SourceKind::Directory, "C:\\d"));
    job.advance(Event::WaitFailed { reason: "lost".to_string() });
    assert_eq!(failure_of(&job).kind, ErrorKind::IOFailure);
    assert_eq!(failure_of(&job).message(), "Failed to execute 7z command: lost");
}

#[test]
fn the_password_reaches_openssl_by_standard_input_alone() {
    for password in ["", "s3cret", "enc", "-d", "/a/b.tar", "pass word", "stdin"] {
        let mut job = encrypting("/a/b", password);
        let mut other = encrypting("/a/b", "another");
        for _ in 0..3 {
            match (job.pending(), other.pending()) {
                (Action::Run(mine), Action::Run(theirs)) => {
                    assert_eq!(mine.program, theirs.program);
                    assert_eq!(mine.args, theirs.args);
                    if mine.program == "openssl" {
                        assert_eq!(mine.input, Some(password.to_string()));
                    } else {
                        assert_eq!(mine.input, None);
                    }
                }
                (mine, theirs) => assert!(mine == theirs),
            }
            job.advance(exited(true, ""));
            other.advance(exited(true, ""));
        }
    }
}

#[test]
fn the_scenario_of_one_folder_and_two_passwords() {
    let mut job = encrypt_folder("/work/project", "s3cret", "linux").unwrap();
    job.advance(found(SourceKind::Directory, "/work/project"));
    job.advance(exited(true, ""));
    job.advance(exited(true, ""));
    job.advance(Event::Removed);
    expect_success(&job, "Folder has been encrypted to: /work/project.aes");

    let mut job = decrypt_folder("/work/project.aes", "s3cret", "linux").unwrap();
    job.advance(found(SourceKind::File, "/work/project.aes"));
    job.advance(exited(true, ""));
    job.advance(exited(true, ""));
    job.advance(Event::Removed);
    expect_success(&job, "File has been decrypted to: /work/project");

    let mut job = decrypt_folder("/work/project.aes", "wrong", "linux").unwrap();
    job.advance(found(SourceKind::File, "/work/project.aes"));
    let mut unpacked = false;
    job.advance(exited(false, "bad decrypt"));
    while !job.is_done() {
        if job.stage() == Stage::Unpacking {
            unpacked = true;
        }
        let event = match job.pending() {
            Action::Remove { path } => {
                assert_eq!(path, "/work/project.tar");
                Event::Removed
            }
            _ => exited(true, ""),
        };
        job.advance(event);
    }
    assert!(!unpacked);
    assert_eq!(failure_of(&job).kind, ErrorKind::WrongPassword);
}

#[test]
fn a_tool_run_is_judged_by_its_stage() {
    let unix = Backend::TarOpenssl;
    let win = Backend::SevenZip;
    let s = |t: &str| t.to_string();

    assert_eq!(judge(Stage::Packing, unix, exited(true, "warning")), None);
    assert_eq!(judge(Stage::Deciphering, unix, exited(true, "bad decrypt")), None);
    assert_eq!(
        judge(Stage::Packing, unix, exited(false, "e")),
        Some((ErrorKind::PackagingFailed, s("e")))
    );
    assert_eq!(
        judge(Stage::Unpacking, unix, exited(false, "bad decrypt")),
        Some((ErrorKind::PackagingFailed, s("bad decrypt")))
    );
    assert_eq!(
        judge(Stage::Enciphering, unix, exited(false, "bad decrypt")),
        Some((ErrorKind::EncryptionFailed, s("bad decrypt")))
    );
    assert_eq!(
        judge(Stage::Deciphering, unix, exited(false, "x bad decrypt y")),
        Some((ErrorKind::WrongPassword, s("x bad decrypt y")))
    );
    assert_eq!(
        judge(Stage::Deciphering, unix, exited(false, "Wrong password")),
        Some((ErrorKind::DecryptionFailed, s("Wrong password")))
    );
    assert_eq!(
        judge(Stage::Deciphering, win, exited(false, "ERROR: Wrong password : a.aes")),
        Some((ErrorKind::WrongPassword, s("ERROR: Wrong password : a.aes")))
    );
    assert_eq!(
        judge(Stage::Deciphering, win, exited(false, "wrong password")),
        Some((ErrorKind::DecryptionFailed, s("wrong password")))
    );
    assert_eq!(
        judge(Stage::Enciphering, unix, Event::Unavailable { reason: s("r") }),
        Some((ErrorKind::CipherToolUnavailable, s("r")))
    );
    assert_eq!(
        judge(Stage::Packing, unix, Event::Unavailable { reason: s("r") }),
        Some((ErrorKind::PackagingFailed, s("r")))
    );
    assert_eq!(
        judge(Stage::Deciphering, unix, Event::InputFailed { reason: s("r") }),
        Some((ErrorKind::IOFailure, s("Failed to write password: r")))
    );
    assert_eq!(
        judge(Stage::Enciphering, win, Event::InputFailed { reason: s("r") }),
        Some((ErrorKind::IOFailure, s("Failed to execute 7z command: r")))
    );
    assert_eq!(
        judge(Stage::Unpacking, unix, Event::WaitFailed { reason: s("r") }),
        Some((ErrorKind::IOFailure, s("Failed to execute tar command: r")))
    );
    assert_eq!(
        judge(Stage::Enciphering, unix, Event::Removed),
        Some((ErrorKind::IOFailure, s("Unexpected event")))
    );
}

#[test]
fn backends_know_their_paths_and_their_words() {
    assert_eq!(Backend::TarOpenssl.path_style(), PathStyle::Posix);
    assert_eq!(Backend::SevenZip.path_style(), PathStyle::Windows);
    assert_eq!(Backend::TarOpenssl.signature(), "bad decrypt");
    assert_eq!(Backend::SevenZip.signature(), "Wrong password");
}

#[test]
fn a_copy_of_a_failure_is_the_same_failure() {
    let mut job = decrypting("/a/b.aes", "p");
    job.advance(exited(false, "bad decrypt"));
    job.advance(Event::RemoveFailed { reason: "busy".to_string() });
    let failure = failure_of(&job);
    assert_eq!(failure.clone(), failure);
    assert_eq!(failure.clone().message(), failure.message());
}

#[test]
fn success_needs_every_step() {
    let steps = |events: Vec<Event>| {
        let mut job = encrypt_folder("/a/b", "p", "linux").unwrap();
        for event in events {
            job.advance(event);
        }
        matches!(job.pending(), Action::Finish(Ok(_)))
    };
    let ok = || exited(true, "");
    let dir = || found(SourceKind::Directory, "/a/b");
    assert!(steps(vec![dir(), ok(), ok(), Event::Removed]));
    assert!(!steps(vec![dir(), ok(), ok()]));
    assert!(!steps(vec![dir(), ok(), Event::Removed]));
    assert!(!steps(vec![dir(), exited(false, ""), ok(), Event::Removed]));
    assert!(!steps(vec![dir(), ok(), exited(false, ""), Event::Removed]));
    assert!(!steps(vec![found(SourceKind::File, "/a/b"), ok(), ok(), Event::Removed]));
    assert!(!steps(vec![dir(), ok(), ok(), Event::RemoveFailed { reason: "r".to_string() }]));
}
