use vstd::prelude::*;
use crate::backend::{style_of, wrong_password_signature, Backend, Mode};
use crate::command::{cipher_command, pack_command, unpack_command};
use crate::machine::{
    initial, known_output, known_temporary, named, next_state, output_of, planned, runs_tool,
    temporary_of, unsupported_platform, well_formed, ActionView, EventView, PipelineView,
    SourceKind,
};
use crate::naming::{
    archive_in, base_directory, decrypted_target, encrypted_target, temporary_in, tool_directory,
};
use crate::naming_laws::{lemma_split_parts, lemma_stem_is_not_empty};
use crate::outcome::{ErrorKind, FailureView, Stage};
use crate::path::{directory_of, join, name_of, split, stem, PathStyle};
use crate::pipeline::begun;
use crate::text::occurs_in;

verus! {

/// The state of the job `p` after the first `n` of `events`.
pub open spec fn state_after(p: PipelineView, events: Seq<EventView>, n: nat) -> PipelineView
    decreases n,
{
    if n == 0 {
        p
    } else {
        next_state(state_after(p, events, (n - 1) as nat), events[n - 1])
    }
}

/// How many steps a job in `stage` has before it at most.
pub open spec fn steps_left(stage: Stage) -> nat {
    match stage {
        Stage::Validating => 4,
        Stage::Packing => 3,
        Stage::Deciphering => 3,
        Stage::Enciphering => 2,
        Stage::Unpacking => 2,
        Stage::Cleanup => 1,
        Stage::Done => 0,
    }
}

/// `p` with another password.
pub open spec fn with_password(p: PipelineView, password: Seq<char>) -> PipelineView {
    PipelineView { password, ..p }
}

/// A step leads from a state that a job can be in to another such state, and
/// changes neither the request nor, once they are set, the derived names.
pub proof fn lemma_step_keeps_well_formed(p: PipelineView, event: EventView)
    requires
        well_formed(p),
    ensures
        well_formed(next_state(p, event)),
        next_state(p, event).mode == p.mode,
        next_state(p, event).backend == p.backend,
        next_state(p, event).source == p.source,
        next_state(p, event).password == p.password,
        p.stage != Stage::Validating ==> next_state(p, event).directory == p.directory
            && next_state(p, event).name == p.name && next_state(p, event).base == p.base,
{
}

/// The stages follow one another in the order of the two pipelines and never
/// turn back: validation leads to the first tool or to the end; packing to
/// enciphering, deciphering to unpacking, and each tool to the cleanup where it
/// failed or was the last; the cleanup leads to the end.
pub proof fn lemma_stage_order(p: PipelineView, event: EventView)
    requires
        well_formed(p),
    ensures
        ({
            let after = next_state(p, event).stage;
            match p.stage {
                Stage::Validating => after == Stage::Done || after == (match p.mode {
                    Mode::Decrypt => Stage::Deciphering,
                    Mode::Encrypt => if p.backend == Backend::TarOpenssl {
                        Stage::Packing
                    } else {
                        Stage::Enciphering
                    },
                }),
                Stage::Packing => after == Stage::Enciphering || after == Stage::Cleanup,
                Stage::Enciphering => after == (if p.backend == Backend::TarOpenssl {
                    Stage::Cleanup
                } else {
                    Stage::Done
                }),
                Stage::Deciphering => if p.backend == Backend::TarOpenssl {
                    after == Stage::Unpacking || after == Stage::Cleanup
                } else {
                    after == Stage::Done
                },
                Stage::Unpacking => after == Stage::Cleanup,
                Stage::Cleanup => after == Stage::Done,
                Stage::Done => after == Stage::Done,
            }
        }),
{
}

/// Nothing is tried twice: each step brings a job nearer to its end.
pub proof fn lemma_step_nears_the_end(p: PipelineView, event: EventView)
    requires
        well_formed(p),
        p.stage != Stage::Done,
    ensures
        steps_left(next_state(p, event).stage) < steps_left(p.stage),
{
}

/// A job that has ended stays as it is, and only such a job has a result: the
/// result is given once and does not change.
pub proof fn lemma_result_is_final(p: PipelineView, event: EventView)
    ensures
        planned(p) is Finish <==> p.stage == Stage::Done,
        p.stage == Stage::Done ==> next_state(p, event) == p,
{
}

/// Whatever is reported, a job has ended after `steps_left` steps, so after
/// four at most.
pub proof fn lemma_every_job_ends(p: PipelineView, events: Seq<EventView>, n: nat)
    requires
        well_formed(p),
        steps_left(p.stage) <= n <= events.len(),
    ensures
        state_after(p, events, n).stage == Stage::Done,
        well_formed(state_after(p, events, n)),
{
    lemma_run_bounds(p, events, n);
}

/// After `n` steps a job is well formed and has at most `steps_left - n` steps
/// before it.
pub proof fn lemma_run_bounds(p: PipelineView, events: Seq<EventView>, n: nat)
    requires
        well_formed(p),
        n <= events.len(),
    ensures
        well_formed(state_after(p, events, n)),
        steps_left(state_after(p, events, n).stage) + n <= steps_left(p.stage) || state_after(
            p,
            events,
            n,
        ).stage == Stage::Done,
        state_after(p, events, n).mode == p.mode,
        state_after(p, events, n).backend == p.backend,
        state_after(p, events, n).source == p.source,
        p.stage != Stage::Validating ==> temporary_of(state_after(p, events, n)) == temporary_of(
            p,
        ) && output_of(state_after(p, events, n)) == output_of(p),
    decreases n,
{
    if n > 0 {
        let before = state_after(p, events, (n - 1) as nat);
        lemma_run_bounds(p, events, (n - 1) as nat);
        lemma_step_keeps_well_formed(before, events[n - 1]);
        lemma_stage_order(before, events[n - 1]);
        if before.stage != Stage::Done {
            lemma_step_nears_the_end(before, events[n - 1]);
        }
    }
}

/// No temporary archive outlives its job. Where the backend keeps a temporary
/// archive and the job has come to a stage in which a tool runs (after `k`
/// steps), it does not end (after `n` steps) before the caller has been asked to
/// remove that archive, at its one fixed path; and it ends in success only where
/// the caller answered that the archive is gone.
pub proof fn lemma_temporary_archive_is_removed(
    p: PipelineView,
    events: Seq<EventView>,
    k: nat,
    n: nat,
) -> (j: nat)
    requires
        well_formed(p),
        p.backend == Backend::TarOpenssl,
        k <= n <= events.len(),
        runs_tool(state_after(p, events, k).stage),
        state_after(p, events, n).stage == Stage::Done,
    ensures
        k < j < n,
        planned(state_after(p, events, j)) == (ActionView::Remove {
            path: temporary_of(state_after(p, events, k)),
        }),
        state_after(p, events, n).failure is None ==> events[j as int] == EventView::Removed,
    decreases n - k,
{
    let here = state_after(p, events, k);
    lemma_run_bounds(p, events, k);
    assert(k < n);
    let next = state_after(p, events, k + 1);
    assert(next == next_state(here, events[k as int]));
    lemma_step_keeps_well_formed(here, events[k as int]);
    lemma_stage_order(here, events[k as int]);
    if next.stage == Stage::Cleanup {
        assert(k + 1 < n);
        let last = state_after(p, events, k + 2);
        assert(last == next_state(next, events[k as int + 1]));
        lemma_settled(p, events, k + 2, n);
        k + 1
    } else {
        let j = lemma_temporary_archive_is_removed(p, events, k + 1, n);
        j
    }
}

/// Once a job has ended, further steps leave it as it is.
pub proof fn lemma_settled(p: PipelineView, events: Seq<EventView>, m: nat, n: nat)
    requires
        m <= n <= events.len(),
        state_after(p, events, m).stage == Stage::Done,
    ensures
        state_after(p, events, n) == state_after(p, events, m),
    decreases n - m,
{
    if m < n {
        lemma_settled(p, events, m, (n - 1) as nat);
    }
}

/// How many tools a backend runs for one job.
pub open spec fn tools_of(backend: Backend) -> nat {
    match backend {
        Backend::TarOpenssl => 2,
        Backend::SevenZip => 1,
    }
}

/// Whether `event` says that a source of the kind that `mode` works on was found.
pub open spec fn found_valid(mode: Mode, event: EventView) -> bool {
    event is Inspected && event->Inspected_kind == (match mode {
        Mode::Encrypt => SourceKind::Directory,
        Mode::Decrypt => SourceKind::File,
    })
}

/// Whether `event` says that a tool ran and ended in success.
pub open spec fn succeeded(event: EventView) -> bool {
    event is Exited && event->Exited_success
}

/// A job succeeds only where everything succeeded. Where a job that began with
/// a request has ended without a failure, the source was found to be of the kind
/// asked for and to have a name, each of the backend's tools was reported to
/// have ended in success, and, where the backend keeps a temporary archive, that
/// archive was reported removed.
pub proof fn lemma_success_needs_every_step(
    mode: Mode,
    backend: Backend,
    source: Seq<char>,
    password: Seq<char>,
    events: Seq<EventView>,
    n: nat,
)
    requires
        n <= events.len(),
        state_after(initial(mode, backend, source, password), events, n).stage == Stage::Done,
        state_after(initial(mode, backend, source, password), events, n).failure is None,
    ensures
        n > tools_of(backend),
        found_valid(mode, events[0]),
        split(style_of(backend), source) is Some,
        forall|i: int| 1 <= i <= tools_of(backend) ==> succeeded(#[trigger] events[i]),
        backend == Backend::TarOpenssl ==> n > 3 && events[3] == EventView::Removed,
{
    let job = initial(mode, backend, source, password);
    if n >= 1 {
        let s1 = state_after(job, events, 1);
        assert(s1 == next_state(job, events[0])) by {
            reveal_with_fuel(state_after, 2);
        }
        lemma_run_bounds(job, events, 1);
        if s1.stage == Stage::Done {
            lemma_settled(job, events, 1, n);
        } else if n >= 2 {
            let s2 = state_after(job, events, 2);
            assert(s2 == next_state(s1, events[1]));
            lemma_run_bounds(job, events, 2);
            if s2.stage == Stage::Done {
                lemma_settled(job, events, 2, n);
            } else if n >= 3 {
                let s3 = state_after(job, events, 3);
                assert(s3 == next_state(s2, events[2]));
                lemma_run_bounds(job, events, 3);
                if s3.stage == Stage::Done {
                    lemma_settled(job, events, 3, n);
                } else if n >= 4 {
                    let s4 = state_after(job, events, 4);
                    assert(s4 == next_state(s3, events[3]));
                    lemma_every_job_ends(job, events, 4);
                    lemma_settled(job, events, 4, n);
                }
            }
        }
    }
    assert forall|i: int| 1 <= i <= tools_of(backend) implies succeeded(#[trigger] events[i]) by {
        if i == 1 {
            assert(succeeded(events[1]));
        } else {
            assert(succeeded(events[2]));
        }
    }
}

/// A wrong password is never taken for success. Where deciphering fails and the
/// diagnostics hold the backend's words for a wrong password, the job ends
/// in the failure `WrongPassword` whatever is reported after that, and on its way
/// there it does not unpack and runs no other tool.
pub proof fn lemma_wrong_password_is_rejected(
    p: PipelineView,
    diagnostics: Seq<char>,
    events: Seq<EventView>,
    n: nat,
)
    requires
        well_formed(p),
        p.stage == Stage::Deciphering,
        occurs_in(diagnostics, wrong_password_signature(p.backend)),
        n <= events.len(),
    ensures
        ({
            let rejected = next_state(p, EventView::Exited { success: false, diagnostics });
            let later = state_after(rejected, events, n);
            &&& later.stage == Stage::Cleanup || later.stage == Stage::Done
            &&& later.failure is Some
            &&& later.failure->0.kind == ErrorKind::WrongPassword
            &&& later.failure->0.stage == Stage::Deciphering
            &&& n >= 1 ==> planned(later) is Finish
        }),
    decreases n,
{
    if n > 0 {
        lemma_wrong_password_is_rejected(p, diagnostics, events, (n - 1) as nat);
    }
}

/// A deciphering that fails without the backend's words for a wrong password
/// is a `DecryptionFailed`, not a wrong password.
pub proof fn lemma_other_decryption_failures(p: PipelineView, diagnostics: Seq<char>)
    requires
        well_formed(p),
        p.stage == Stage::Deciphering,
        !occurs_in(diagnostics, wrong_password_signature(p.backend)),
    ensures
        next_state(p, EventView::Exited { success: false, diagnostics }).failure is Some,
        next_state(p, EventView::Exited { success: false, diagnostics }).failure->0.kind
            == ErrorKind::DecryptionFailed,
{
}

/// What a job produces is named by its source alone: the archive beside the
/// folder, or the folder beside the archive.
pub proof fn lemma_output_is_named_by_source(p: PipelineView)
    requires
        well_formed(p),
        p.stage != Stage::Validating,
        p.stage == Stage::Done && p.failure is Some ==> p.failure->0.stage != Stage::Validating,
    ensures
        Some(output_of(p)) == (match p.mode {
            Mode::Encrypt => encrypted_target(style_of(p.backend), p.source),
            Mode::Decrypt => decrypted_target(style_of(p.backend), p.source),
        }),
{
}

/// A platform without a backend gets no job: the request is answered with the
/// failure `UnsupportedPlatform`, whatever the source and the password, and so
/// nothing is looked at, run or removed for it.
pub proof fn lemma_unsupported_platform_asks_nothing(
    mode: Mode,
    source: Seq<char>,
    password: Seq<char>,
    platform: Seq<char>,
)
    requires
        platform != "linux"@,
        platform != "macos"@,
        platform != "windows"@,
    ensures
        begun(mode, source, password, platform) == Err::<PipelineView, FailureView>(
            unsupported_platform(),
        ),
        unsupported_platform().kind == ErrorKind::UnsupportedPlatform,
{
}

/// A job has its derived names from the moment its source is found valid: in
/// every stage after the validation, and at the end unless the validation failed.
pub proof fn lemma_names_are_known(p: PipelineView)
    requires
        well_formed(p),
        p.stage != Stage::Validating,
        p.stage == Stage::Done && p.failure is Some ==> p.failure->0.stage != Stage::Validating,
    ensures
        named(p),
        known_output(p) == Some(output_of(p)),
        p.backend == Backend::TarOpenssl ==> known_temporary(p) == Some(temporary_of(p)),
{
    let style = style_of(p.backend);
    let at = lemma_split_parts(style, p.source);
    let name = name_of(style, p.source);
    assert(name.len() > 0);
    if p.mode == Mode::Decrypt {
        lemma_stem_is_not_empty(name);
    }
}

/// The way of an encryption through `tar` and `openssl` when every step
/// succeeds: the folder is packed from its absolute parent into the temporary
/// archive, that archive is enciphered into the target, that archive is
/// removed, and the result names the target.
pub proof fn lemma_encryption_flow(
    source: Seq<char>,
    password: Seq<char>,
    absolute: Seq<char>,
    events: Seq<EventView>,
)
    requires
        split(PathStyle::Posix, source) is Some,
        events.len() == 4,
        events[0] == (EventView::Inspected { kind: SourceKind::Directory, absolute: Ok(absolute) }),
        events[1] is Exited && events[1]->Exited_success,
        events[2] is Exited && events[2]->Exited_success,
        events[3] == EventView::Removed,
    ensures
        ({
            let job = initial(Mode::Encrypt, Backend::TarOpenssl, source, password);
            let directory = directory_of(PathStyle::Posix, source);
            let name = name_of(PathStyle::Posix, source);
            let temporary = temporary_in(PathStyle::Posix, directory, name);
            let target = archive_in(PathStyle::Posix, directory, name);
            &&& planned(job) == ActionView::Inspect { path: source }
            &&& planned(state_after(job, events, 1)) == ActionView::Run(
                pack_command(temporary, base_directory(PathStyle::Posix, absolute), name),
            )
            &&& planned(state_after(job, events, 2)) == ActionView::Run(
                cipher_command(false, temporary, target, password),
            )
            &&& planned(state_after(job, events, 3)) == ActionView::Remove { path: temporary }
            &&& planned(state_after(job, events, 4)) == ActionView::Finish(
                Ok("Folder has been encrypted to: "@ + target),
            )
        }),
{
    let job = initial(Mode::Encrypt, Backend::TarOpenssl, source, password);
    reveal_with_fuel(state_after, 5);
    assert(state_after(job, events, 1) == next_state(job, events[0]));
}

/// The way of a decryption through `openssl` and `tar` when every step
/// succeeds: the archive is deciphered into the temporary archive, that is
/// unpacked into the directory of the source, that archive is removed, and
/// the result names the folder.
pub proof fn lemma_decryption_flow(source: Seq<char>, password: Seq<char>, events: Seq<EventView>)
    requires
        split(PathStyle::Posix, source) is Some,
        events.len() == 4,
        events[0] is Inspected && events[0]->Inspected_kind == SourceKind::File,
        events[1] is Exited && events[1]->Exited_success,
        events[2] is Exited && events[2]->Exited_success,
        events[3] == EventView::Removed,
    ensures
        ({
            let job = initial(Mode::Decrypt, Backend::TarOpenssl, source, password);
            let directory = directory_of(PathStyle::Posix, source);
            let name = stem(name_of(PathStyle::Posix, source));
            let temporary = temporary_in(PathStyle::Posix, directory, name);
            &&& planned(job) == ActionView::Inspect { path: source }
            &&& planned(state_after(job, events, 1)) == ActionView::Run(
                cipher_command(true, source, temporary, password),
            )
            &&& planned(state_after(job, events, 2)) == ActionView::Run(
                unpack_command(temporary, tool_directory(directory)),
            )
            &&& planned(state_after(job, events, 3)) == ActionView::Remove { path: temporary }
            &&& planned(state_after(job, events, 4)) == ActionView::Finish(
                Ok("File has been decrypted to: "@ + join(PathStyle::Posix, directory, name)),
            )
        }),
{
    let job = initial(Mode::Decrypt, Backend::TarOpenssl, source, password);
    reveal_with_fuel(state_after, 5);
    assert(state_after(job, events, 1) == next_state(job, events[0]));
}

/// The program and the arguments of a call.
pub open spec fn command_line(action: ActionView) -> Option<(Seq<char>, Seq<Seq<char>>)> {
    match action {
        ActionView::Run(call) => Some((call.program, call.args)),
        _ => None,
    }
}

/// What a call writes to the tool's standard input.
pub open spec fn piped(action: ActionView) -> Option<Seq<char>> {
    match action {
        ActionView::Run(call) => call.input,
        _ => None,
    }
}

/// With `tar` and `openssl` the password stands in no argument of any call: the
/// command line is the same under every password. The password reaches `openssl`,
/// and only it, through its standard input.
pub proof fn lemma_password_stays_out_of_arguments(p: PipelineView, other: Seq<char>)
    requires
        p.backend == Backend::TarOpenssl,
    ensures
        command_line(planned(with_password(p, other))) == command_line(planned(p)),
        p.stage == Stage::Enciphering || p.stage == Stage::Deciphering ==> piped(planned(p))
            == Some(p.password),
        p.stage == Stage::Packing || p.stage == Stage::Unpacking ==> piped(planned(p)) is None,
{
}

/// The password changes nothing but what is handed to the cipher: the stages,
/// the paths, the names and the failures of a job are the same under every
/// password, given the same reports.
pub proof fn lemma_password_decides_nothing(p: PipelineView, other: Seq<char>, event: EventView)
    ensures
        next_state(with_password(p, other), event) == with_password(next_state(p, event), other),
        output_of(with_password(p, other)) == output_of(p),
        temporary_of(with_password(p, other)) == temporary_of(p),
{
}

} // verus!
