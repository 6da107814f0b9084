//! The life of one generation job, as a state machine. The caller performs
//! what each step asks for (spawning, killing, probing files) and reports back
//! what happened; every decision is taken here.

use vstd::prelude::*;
use crate::buffer::buffered;
use crate::cancel::JobKind;
use crate::media::{data_url, data_url_text, encodable, media_url, media_url_text, FileRead};
use crate::outcome::{
    classify, diagnostic, error_text, failure_message, failure_text, ExitReport, JobError, JobPlan,
    JobResult, JobResultView, Outcome,
};
use crate::paths::{path_with_extension, with_json_extension, Platform};
use crate::stream::{
    complete_lines, decoded, notes, notifications_of, unfinished, LineReader, Notification,
    NotificationView, StreamOrigin,
};

verus! {

/// The pause between two looks at the preview file, in milliseconds.
pub const PREVIEW_INTERVAL_MS: u64 = 500;

/// Where a job stands.
#[derive(Clone, Copy, Debug, PartialEq, Eq, Structural)]
pub enum Phase {
    /// Planned, the worker not yet spawned.
    Idle,
    /// The worker runs.
    Running,
    /// The worker has exited; its output is read to the end.
    Draining,
    /// An image job looks for its artifact.
    Verifying,
    /// A video job looks for the raw container and the transcoder.
    Transcoding,
    /// The transcoder runs.
    Converting,
    /// A video job looks for the file it will deliver.
    Locating,
    Succeeded,
    Cancelled,
    Failed,
    /// The job ended in an error that is no result.
    Aborted,
}

/// What the caller is asked to do, in the order given.
#[derive(Clone, Copy, Debug, PartialEq, Eq, Structural)]
pub enum JobAction {
    StartPoller,
    /// Terminate the worker.
    KillWorker,
    /// Kill the worker's process tree by identifier.
    KillTree { pid: u32 },
    StopPoller,
    /// Delete the preview file, if there is one.
    RemovePreview,
    /// Read both streams to their end and report `drained`.
    DrainReaders,
    /// Read the output file and report `artifact_read`.
    ProbeArtifact,
    /// Look for the raw container and the transcoder; report `transcoder_probed`.
    ProbeTranscoder,
    /// Run the transcoder and report `transcoded`.
    RunTranscoder,
    /// Delete the raw container.
    RemoveRaw,
    /// Write the metadata beside the delivered file, which is known to be
    /// there; failure is ignored.
    WriteSidecar,
    /// Look for the delivered file and report `delivery_probed`.
    ProbeDelivery,
}

/// What can happen to a job.
pub enum Signal {
    Spawned { pid: Option<u32> },
    SpawnFailed { reason: Seq<char> },
    Chunk { origin: StreamOrigin, bytes: Seq<u8> },
    CancelObserved,
    Exited { report: ExitReport, elapsed_ms: u64, cancel_fired: bool },
    WaitFailed { reason: Seq<char> },
    Drained,
    ArtifactRead { read: FileRead },
    TranscoderProbed { raw_exists: bool, tool_exists: bool, elapsed_ms: u64 },
    Transcoded { ran_ok: bool, target_exists: bool, elapsed_ms: u64 },
    DeliveryProbed { exists: bool },
}

/// A job as the contracts see it.
pub struct JobView {
    pub kind: JobKind,
    pub platform: Platform,
    pub phase: Phase,
    /// A cancellation was observed.
    pub cancel_seen: bool,
    /// The preview poller runs.
    pub poller: bool,
    pub pid: Option<u32>,
    pub output: Seq<char>,
    pub delivery: Seq<char>,
    pub preview: Seq<char>,
    /// The file that is or will be delivered.
    pub delivered: Seq<char>,
    pub stdout_lines: Seq<Seq<char>>,
    pub stdout_pending: Seq<u8>,
    pub stderr_lines: Seq<Seq<char>>,
    pub stderr_pending: Seq<u8>,
    pub exit: Option<ExitReport>,
    pub elapsed_ms: u64,
    pub result: Option<JobResultView>,
    pub error: Option<Seq<char>>,
}

pub open spec fn is_terminal(p: Phase) -> bool {
    p == Phase::Succeeded || p == Phase::Cancelled || p == Phase::Failed || p == Phase::Aborted
}

/// A job that was planned and nothing more.
pub open spec fn fresh(v: JobView) -> bool {
    &&& v.phase == Phase::Idle
    &&& !v.cancel_seen
    &&& !v.poller
    &&& v.pid is None
    &&& v.delivered == v.output
    &&& v.stdout_lines.len() == 0
    &&& v.stdout_pending.len() == 0
    &&& v.stderr_lines.len() == 0
    &&& v.stderr_pending.len() == 0
    &&& v.exit is None
    &&& v.result is None
    &&& v.error is None
}

/// The lines that a chunk of bytes completes on a stream with `pending`
/// bytes waiting.
pub open spec fn completed(pending: Seq<u8>, bytes: Seq<u8>) -> Seq<Seq<char>> {
    decoded(complete_lines(pending + bytes))
}

pub open spec fn cancelled(v: JobView) -> JobView {
    JobView {
        phase: Phase::Cancelled,
        cancel_seen: true,
        poller: false,
        result: Some(JobResultView::Cancelled),
        ..v
    }
}

pub open spec fn aborted(v: JobView, error: Seq<char>) -> JobView {
    JobView { phase: Phase::Aborted, poller: false, error: Some(error), ..v }
}

pub open spec fn failed(v: JobView, error: Seq<char>) -> JobView {
    JobView {
        phase: Phase::Failed,
        poller: false,
        result: Some(JobResultView::Failure { error }),
        ..v
    }
}

pub open spec fn succeeded(v: JobView, media: Seq<char>) -> JobView {
    JobView {
        phase: Phase::Succeeded,
        poller: false,
        result: Some(
            JobResultView::Success { media, path: v.delivered, duration_ms: v.elapsed_ms },
        ),
        ..v
    }
}

/// The job after a signal. A signal that the phase does not expect, and any
/// signal after the end, changes nothing. A cancellation observed at any time
/// before the end ends the job as cancelled; one observed before the worker
/// was spawned is remembered and takes effect when it is.
pub open spec fn step(v: JobView, s: Signal) -> JobView {
    match s {
        Signal::CancelObserved => if v.phase == Phase::Idle {
            JobView { cancel_seen: true, ..v }
        } else if is_terminal(v.phase) {
            v
        } else {
            cancelled(v)
        },
        Signal::Spawned { pid } => if v.phase != Phase::Idle {
            v
        } else if v.cancel_seen {
            cancelled(JobView { pid, ..v })
        } else {
            JobView { phase: Phase::Running, poller: true, pid, ..v }
        },
        Signal::SpawnFailed { reason } => if v.phase == Phase::Idle {
            aborted(v, "Failed to start process: "@ + reason)
        } else {
            v
        },
        Signal::Chunk { origin, bytes } => if v.phase != Phase::Running && v.phase
            != Phase::Draining {
            v
        } else if origin == StreamOrigin::Stdout {
            JobView {
                stdout_lines: buffered(v.stdout_lines, completed(v.stdout_pending, bytes)),
                stdout_pending: unfinished(v.stdout_pending + bytes),
                ..v
            }
        } else {
            JobView {
                stderr_lines: buffered(v.stderr_lines, completed(v.stderr_pending, bytes)),
                stderr_pending: unfinished(v.stderr_pending + bytes),
                ..v
            }
        },
        Signal::Exited { report, elapsed_ms, cancel_fired } => if v.phase != Phase::Running {
            v
        } else if cancel_fired {
            cancelled(v)
        } else {
            JobView {
                phase: Phase::Draining,
                poller: false,
                exit: Some(report),
                elapsed_ms,
                ..v
            }
        },
        Signal::WaitFailed { reason } => if v.phase == Phase::Running {
            aborted(v, reason)
        } else {
            v
        },
        Signal::Drained => if v.phase != Phase::Draining || v.exit is None {
            v
        } else if !v.exit->0.success {
            failed(v, failure_text(v.exit->0.code, diagnostic(v.stderr_lines, v.stdout_lines)))
        } else if v.kind == JobKind::Video {
            JobView { phase: Phase::Transcoding, ..v }
        } else {
            JobView { phase: Phase::Verifying, ..v }
        },
        Signal::ArtifactRead { read } => if v.phase != Phase::Verifying {
            v
        } else {
            match read {
                FileRead::Missing => failed(v, "Output image not found after generation"@),
                FileRead::Failed { reason } => aborted(v, reason@),
                FileRead::Data { bytes } => succeeded(v, data_url_text("image/png"@, bytes@)),
            }
        },
        Signal::TranscoderProbed { raw_exists, tool_exists, elapsed_ms } => if v.phase
            != Phase::Transcoding {
            v
        } else if raw_exists && tool_exists {
            JobView { phase: Phase::Converting, ..v }
        } else {
            JobView { phase: Phase::Locating, elapsed_ms, ..v }
        },
        Signal::Transcoded { ran_ok, target_exists, elapsed_ms } => if v.phase
            != Phase::Converting {
            v
        } else if ran_ok && target_exists {
            JobView { phase: Phase::Locating, delivered: v.delivery, elapsed_ms, ..v }
        } else {
            JobView { phase: Phase::Locating, elapsed_ms, ..v }
        },
        Signal::DeliveryProbed { exists } => if v.phase != Phase::Locating {
            v
        } else if exists {
            succeeded(v, media_url_text(v.delivered))
        } else {
            failed(v, "Output video not found after generation"@)
        },
    }
}

/// How a running worker is stopped: terminated, and on Windows, where its
/// identifier is known, its process tree killed as well.
pub open spec fn kill_actions(v: JobView) -> Seq<JobAction> {
    if v.platform == Platform::Windows && v.pid is Some {
        seq![JobAction::KillWorker, JobAction::KillTree { pid: v.pid->0 }]
    } else {
        seq![JobAction::KillWorker]
    }
}

/// What is left running is taken down: the poller stopped, the preview file
/// removed, the streams read to their end.
pub open spec fn teardown() -> Seq<JobAction> {
    seq![JobAction::StopPoller, JobAction::RemovePreview, JobAction::DrainReaders]
}

/// What the caller is asked to do after a signal.
pub open spec fn actions(v: JobView, s: Signal) -> Seq<JobAction> {
    match s {
        Signal::CancelObserved => if v.phase == Phase::Running {
            kill_actions(v) + teardown()
        } else {
            Seq::empty()
        },
        Signal::Spawned { pid } => if v.phase != Phase::Idle {
            Seq::empty()
        } else if v.cancel_seen {
            kill_actions(JobView { pid, ..v }) + seq![
                JobAction::RemovePreview,
                JobAction::DrainReaders,
            ]
        } else {
            seq![JobAction::StartPoller]
        },
        Signal::Exited { report, elapsed_ms, cancel_fired } => if v.phase == Phase::Running {
            teardown()
        } else {
            Seq::empty()
        },
        Signal::WaitFailed { reason } => if v.phase == Phase::Running {
            kill_actions(v) + teardown()
        } else {
            Seq::empty()
        },
        Signal::Drained => if v.phase != Phase::Draining || v.exit is None || !v.exit->0.success {
            Seq::empty()
        } else if v.kind == JobKind::Video {
            seq![JobAction::ProbeTranscoder]
        } else {
            seq![JobAction::ProbeArtifact]
        },
        Signal::ArtifactRead { read } => if v.phase == Phase::Verifying && read is Data {
            seq![JobAction::WriteSidecar]
        } else {
            Seq::empty()
        },
        Signal::TranscoderProbed { raw_exists, tool_exists, elapsed_ms } => if v.phase
            != Phase::Transcoding {
            Seq::empty()
        } else if raw_exists && tool_exists {
            seq![JobAction::RunTranscoder]
        } else {
            seq![JobAction::ProbeDelivery]
        },
        Signal::Transcoded { ran_ok, target_exists, elapsed_ms } => if v.phase
            != Phase::Converting {
            Seq::empty()
        } else if ran_ok && target_exists {
            seq![JobAction::RemoveRaw, JobAction::ProbeDelivery]
        } else {
            seq![JobAction::ProbeDelivery]
        },
        Signal::DeliveryProbed { exists } => if v.phase == Phase::Locating && exists {
            seq![JobAction::WriteSidecar]
        } else {
            Seq::empty()
        },
        _ => Seq::empty(),
    }
}

/// What the observer hears when a chunk of output arrives.
pub open spec fn heard(v: JobView, origin: StreamOrigin, bytes: Seq<u8>) -> Seq<NotificationView> {
    if v.phase != Phase::Running && v.phase != Phase::Draining {
        Seq::empty()
    } else if origin == StreamOrigin::Stdout {
        notifications_of(origin, completed(v.stdout_pending, bytes))
    } else {
        notifications_of(origin, completed(v.stderr_pending, bytes))
    }
}

/// The job after a run of signals.
pub open spec fn run(v: JobView, signals: Seq<Signal>) -> JobView
    decreases signals.len(),
{
    if signals.len() == 0 {
        v
    } else {
        step(run(v, signals.drop_last()), signals.last())
    }
}

/// The poller runs while the worker runs, and at no other time.
pub open spec fn poller_in_step(v: JobView) -> bool {
    v.poller <==> v.phase == Phase::Running
}

/// Once a cancellation was observed the job is waiting to be spawned, or has
/// ended as cancelled or in an error.
pub open spec fn cancel_respected(v: JobView) -> bool {
    v.cancel_seen ==> v.phase == Phase::Idle || v.phase == Phase::Aborted || (v.phase
        == Phase::Cancelled && v.result == Some(JobResultView::Cancelled))
}

/// A job that has ended stays as it is, and asks for nothing more.
pub proof fn lemma_end_is_final(v: JobView, s: Signal)
    requires
        is_terminal(v.phase),
    ensures
        step(v, s) == v,
        actions(v, s) == Seq::<JobAction>::empty(),
{
}

/// One step keeps the poller in step with the worker, and asks the caller to
/// start or stop it exactly when it changes.
pub proof fn lemma_poller_follows_worker(v: JobView, s: Signal)
    requires
        poller_in_step(v),
    ensures
        poller_in_step(step(v, s)),
        !v.poller && step(v, s).poller ==> actions(v, s).contains(JobAction::StartPoller),
        v.poller && !step(v, s).poller ==> actions(v, s).contains(JobAction::StopPoller),
{
    if v.poller && !step(v, s).poller {
        let a = actions(v, s);
        let k = kill_actions(v);
        if a == teardown() {
            assert(a[0] == JobAction::StopPoller);
        } else {
            assert(a == k + teardown());
            assert(a[k.len() as int] == JobAction::StopPoller);
        }
    }
    if !v.poller && step(v, s).poller {
        assert(actions(v, s)[0] == JobAction::StartPoller);
    }
}

/// Whatever happens to a job that was planned, when it has ended the poller
/// does not run.
pub proof fn lemma_poller_never_outlives_job(v: JobView, signals: Seq<Signal>)
    requires
        fresh(v),
    ensures
        poller_in_step(run(v, signals)),
        is_terminal(run(v, signals).phase) ==> !run(v, signals).poller,
    decreases signals.len(),
{
    if signals.len() > 0 {
        lemma_poller_never_outlives_job(v, signals.drop_last());
        lemma_poller_follows_worker(run(v, signals.drop_last()), signals.last());
    }
}

/// The metadata of a job is asked for only in the step in which the job
/// succeeds: never for a job that fails, is cancelled or is aborted.
pub proof fn lemma_sidecar_only_with_success(v: JobView, s: Signal)
    ensures
        actions(v, s).contains(JobAction::WriteSidecar) ==> step(v, s).phase == Phase::Succeeded
            && v.phase != Phase::Succeeded,
{
    let a = actions(v, s);
    if a.contains(JobAction::WriteSidecar) {
        let i = choose|i: int| 0 <= i < a.len() && a[i] == JobAction::WriteSidecar;
        let k = kill_actions(v);
        match s {
            Signal::Spawned { pid } => {
                let k2 = kill_actions(JobView { pid, ..v });
                if i < k2.len() {
                    assert(a[i] == k2[i]);
                } else if a.len() > 1 {
                    assert(a[i] == seq![JobAction::RemovePreview, JobAction::DrainReaders][i
                        - k2.len()]);
                }
            },
            _ => {
                if a.len() == k.len() + 3 {
                    if i < k.len() {
                        assert(a[i] == k[i]);
                    } else {
                        assert(a[i] == teardown()[i - k.len()]);
                    }
                }
            },
        }
    }
}

/// A result is there exactly when the job succeeded, failed or was cancelled,
/// and it is of that kind.
pub open spec fn result_follows_phase(v: JobView) -> bool {
    match v.result {
        Some(JobResultView::Success { .. }) => v.phase == Phase::Succeeded,
        Some(JobResultView::Failure { .. }) => v.phase == Phase::Failed,
        Some(JobResultView::Cancelled) => v.phase == Phase::Cancelled,
        None => v.phase != Phase::Succeeded && v.phase != Phase::Failed && v.phase
            != Phase::Cancelled,
    }
}

/// What holds of every job, from its planning on.
pub open spec fn well_formed(v: JobView) -> bool {
    poller_in_step(v) && cancel_respected(v) && result_follows_phase(v)
}

/// A job that was planned is well formed.
pub proof fn lemma_planned_job_is_well_formed(v: JobView)
    requires
        fresh(v),
    ensures
        well_formed(v),
{
}

/// A step keeps a job well formed.
pub proof fn lemma_step_keeps_well_formed(v: JobView, s: Signal)
    requires
        well_formed(v),
    ensures
        well_formed(step(v, s)),
        v.cancel_seen ==> step(v, s).cancel_seen,
{
}

/// A run of signals keeps a job well formed.
pub proof fn lemma_run_keeps_well_formed(v: JobView, signals: Seq<Signal>)
    requires
        well_formed(v),
    ensures
        well_formed(run(v, signals)),
        v.cancel_seen ==> run(v, signals).cancel_seen,
    decreases signals.len(),
{
    if signals.len() > 0 {
        lemma_run_keeps_well_formed(v, signals.drop_last());
        lemma_step_keeps_well_formed(run(v, signals.drop_last()), signals.last());
    }
}

proof fn lemma_ended_run(v: JobView, signals: Seq<Signal>)
    requires
        is_terminal(v.phase),
    ensures
        run(v, signals) == v,
    decreases signals.len(),
{
    if signals.len() > 0 {
        lemma_ended_run(v, signals.drop_last());
        lemma_end_is_final(v, signals.last());
    }
}

/// A cancellation observed before the job has ended decides it: whatever is
/// reported afterwards, the job never succeeds and never fails. Observed once
/// the worker was spawned, it ends the job as cancelled then and there.
pub proof fn lemma_cancel_wins(v: JobView, later: Seq<Signal>)
    requires
        well_formed(v),
        !is_terminal(v.phase),
    ensures
        run(step(v, Signal::CancelObserved), later).phase != Phase::Succeeded,
        run(step(v, Signal::CancelObserved), later).phase != Phase::Failed,
        !(run(step(v, Signal::CancelObserved), later).result matches Some(
            JobResultView::Success { .. },
        )),
        !(run(step(v, Signal::CancelObserved), later).result matches Some(
            JobResultView::Failure { .. },
        )),
        v.phase != Phase::Idle ==> run(step(v, Signal::CancelObserved), later).phase
            == Phase::Cancelled && run(step(v, Signal::CancelObserved), later).result == Some(
            JobResultView::Cancelled,
        ),
{
    let c = step(v, Signal::CancelObserved);
    lemma_step_keeps_well_formed(v, Signal::CancelObserved);
    lemma_run_keeps_well_formed(c, later);
    if v.phase != Phase::Idle {
        lemma_ended_run(c, later);
    }
}

/// What one look at the preview file makes the observer hear: the image as
/// a data URL where the file was read, and nothing where it is missing or
/// could not be read or encoded.
pub open spec fn preview_note(read: FileRead) -> Option<NotificationView> {
    match read {
        FileRead::Data { bytes } => if encodable(bytes@.len()) {
            Some(NotificationView::Preview { data_url: data_url_text("image/png"@, bytes@) })
        } else {
            None
        },
        _ => None,
    }
}

/// What a run of looks at the preview file makes the observer hear.
pub open spec fn preview_notes(reads: Seq<FileRead>) -> Seq<NotificationView>
    decreases reads.len(),
{
    if reads.len() == 0 {
        Seq::empty()
    } else {
        match preview_note(reads.last()) {
            Some(n) => preview_notes(reads.drop_last()).push(n),
            None => preview_notes(reads.drop_last()),
        }
    }
}

/// While the preview file never appears, nothing is announced.
pub proof fn lemma_absent_preview_is_silent(reads: Seq<FileRead>)
    requires
        forall|i: int| 0 <= i < reads.len() ==> !(#[trigger] reads[i] is Data),
    ensures
        preview_notes(reads) == Seq::<NotificationView>::empty(),
    decreases reads.len(),
{
    if reads.len() > 0 {
        assert(!(reads[reads.len() - 1] is Data));
        lemma_absent_preview_is_silent(reads.drop_last());
    }
}

/// What a look announces does not depend on the looks before it: a file that
/// was missing or unreadable, or that has disappeared again, neither ends the
/// polling nor changes what later looks announce.
pub proof fn lemma_polling_continues(earlier: Seq<FileRead>, later: Seq<FileRead>)
    ensures
        preview_notes(earlier + later) == preview_notes(earlier) + preview_notes(later),
    decreases later.len(),
{
    if later.len() == 0 {
        assert(earlier + later =~= earlier);
        assert(preview_notes(earlier) + preview_notes(later) =~= preview_notes(earlier));
    } else {
        let all = earlier + later;
        assert(all.drop_last() =~= earlier + later.drop_last());
        assert(all.last() == later.last());
        lemma_polling_continues(earlier, later.drop_last());
        match preview_note(later.last()) {
            Some(n) => {
                assert(preview_notes(all) =~= preview_notes(earlier) + preview_notes(later));
            },
            None => {},
        }
    }
}

/// One look of the preview poller at its file.
pub fn poll_preview(read: &FileRead) -> (r: Option<Notification>)
    ensures
        match r {
            Some(n) => Some(n@),
            None => None,
        } == preview_note(*read),
{
    match read {
        FileRead::Data { bytes } => {
            if crate::media::can_encode(bytes.len()) {
                Some(Notification::Preview { data_url: data_url("image/png", bytes.as_slice()) })
            } else {
                None
            }
        },
        _ => None,
    }
}

/// The channel on which a notification of a job goes to the interface:
/// `generate` for an image job and `generate-video` for a video job, then a
/// colon and `progress`, `cli-output` or `preview-update`.
pub open spec fn channel_of(kind: JobKind, note: NotificationView) -> Seq<char> {
    (if kind == JobKind::Video {
        "generate-video:"@
    } else {
        "generate:"@
    }) + (match note {
        NotificationView::Progress { .. } => "progress"@,
        NotificationView::Output { .. } => "cli-output"@,
        NotificationView::Preview { .. } => "preview-update"@,
    })
}

pub fn event_name(kind: JobKind, note: &Notification) -> (r: String)
    ensures
        r@ == channel_of(kind, note@),
{
    let prefix = match kind {
        JobKind::Video => "generate-video:",
        _ => "generate:",
    };
    let topic = match note {
        Notification::Progress { .. } => "progress",
        Notification::Output { .. } => "cli-output",
        Notification::Preview { .. } => "preview-update",
    };
    crate::text::appended(prefix, topic)
}

/// One generation job.
pub struct Job {
    kind: JobKind,
    platform: Platform,
    phase: Phase,
    cancel_seen: bool,
    poller: bool,
    pid: Option<u32>,
    plan: JobPlan,
    delivered: String,
    stdout: LineReader,
    stderr: LineReader,
    exit: Option<ExitReport>,
    elapsed_ms: u64,
    result: Option<JobResult>,
    error: Option<JobError>,
}

pub open spec fn result_view(r: Option<JobResult>) -> Option<JobResultView> {
    match r {
        Some(x) => Some(x@),
        None => None,
    }
}

pub open spec fn error_view(e: Option<JobError>) -> Option<Seq<char>> {
    match e {
        Some(x) => Some(error_text(x)),
        None => None,
    }
}

impl View for Job {
    type V = JobView;

    closed spec fn view(&self) -> JobView {
        JobView {
            kind: self.kind,
            platform: self.platform,
            phase: self.phase,
            cancel_seen: self.cancel_seen,
            poller: self.poller,
            pid: self.pid,
            output: self.plan.output_path@,
            delivery: self.plan.delivery_path@,
            preview: self.plan.preview_path@,
            delivered: self.delivered@,
            stdout_lines: self.stdout.lines(),
            stdout_pending: self.stdout.pending(),
            stderr_lines: self.stderr.lines(),
            stderr_pending: self.stderr.pending(),
            exit: self.exit,
            elapsed_ms: self.elapsed_ms,
            result: result_view(self.result),
            error: error_view(self.error),
        }
    }
}

impl Job {
    #[verifier::type_invariant]
    spec fn readers_labelled(self) -> bool {
        self.stdout.origin() == StreamOrigin::Stdout && self.stderr.origin()
            == StreamOrigin::Stderr
    }

    /// A job that is planned and not yet started. A kind other than `Video`
    /// follows the way of an image job.
    pub fn new(kind: JobKind, platform: Platform, plan: JobPlan) -> (r: Job)
        ensures
            fresh(r@),
            r@.kind == kind,
            r@.platform == platform,
            r@.output == plan.output_path@,
            r@.delivery == plan.delivery_path@,
            r@.preview == plan.preview_path@,
            r@.elapsed_ms == 0,
    {
        let delivered = plan.output_path.clone();
        Job {
            kind,
            platform,
            phase: Phase::Idle,
            cancel_seen: false,
            poller: false,
            pid: None,
            plan,
            delivered,
            stdout: LineReader::new(StreamOrigin::Stdout),
            stderr: LineReader::new(StreamOrigin::Stderr),
            exit: None,
            elapsed_ms: 0,
            result: None,
            error: None,
        }
    }

    pub fn phase(&self) -> (r: Phase)
        ensures
            r == self@.phase,
    {
        self.phase
    }

    /// Whether the job has ended.
    pub fn is_done(&self) -> (r: bool)
        ensures
            r == is_terminal(self@.phase),
    {
        match self.phase {
            Phase::Succeeded | Phase::Cancelled | Phase::Failed | Phase::Aborted => true,
            _ => false,
        }
    }

    /// The result, once the job has succeeded, failed or was cancelled.
    pub fn result(&self) -> (r: &Option<JobResult>)
        ensures
            result_view(*r) == self@.result,
    {
        &self.result
    }

    /// The error, once the job was aborted.
    pub fn error(&self) -> (r: &Option<JobError>)
        ensures
            error_view(*r) == self@.error,
    {
        &self.error
    }

    pub fn output_path(&self) -> (r: &String)
        ensures
            r@ == self@.output,
    {
        &self.plan.output_path
    }

    pub fn preview_path(&self) -> (r: &String)
        ensures
            r@ == self@.preview,
    {
        &self.plan.preview_path
    }

    /// Where the transcoder of a video job writes.
    pub fn delivery_path(&self) -> (r: &String)
        ensures
            r@ == self@.delivery,
    {
        &self.plan.delivery_path
    }

    /// The file that is or will be delivered.
    pub fn delivered_path(&self) -> (r: &String)
        ensures
            r@ == self@.delivered,
    {
        &self.delivered
    }

    /// How long the job took, as last reported.
    pub fn elapsed_ms(&self) -> (r: u64)
        ensures
            r == self@.elapsed_ms,
    {
        self.elapsed_ms
    }

    /// Where the metadata of the delivered file goes: beside it, with `json`
    /// for extension.
    pub fn sidecar_path(&self) -> (r: String)
        ensures
            r@ == path_with_extension(self@.delivered, "json"@),
    {
        with_json_extension(self.delivered.as_str())
    }

    /// The arguments with which the transcoder turns the output into the file
    /// to deliver.
    pub fn transcoder_arguments(&self) -> (r: Vec<String>)
        ensures
            crate::text::texts(r@) == seq![
                "-i"@,
                self@.output,
                "-c:v"@,
                "libx264"@,
                "-preset"@,
                "fast"@,
                "-crf"@,
                "23"@,
                "-y"@,
                self@.delivery,
            ],
    {
        crate::outcome::transcoder_args(
            self.plan.output_path.as_str(),
            self.plan.delivery_path.as_str(),
        )
    }

    fn kill_list(&self) -> (r: Vec<JobAction>)
        ensures
            r@ == kill_actions(self@),
    {
        let mut out: Vec<JobAction> = Vec::new();
        out.push(JobAction::KillWorker);
        match self.platform {
            Platform::Windows => {
                match self.pid {
                    Some(pid) => {
                        out.push(JobAction::KillTree { pid });
                    },
                    None => {},
                }
            },
            _ => {},
        }
        assert(out@ =~= kill_actions(self@));
        out
    }

    fn end_cancelled(&mut self)
        ensures
            final(self)@ == cancelled(old(self)@),
    {
        proof {
            use_type_invariant(&*self);
        }
        self.phase = Phase::Cancelled;
        self.cancel_seen = true;
        self.poller = false;
        self.result = Some(JobResult::Cancelled);
    }

    fn end_failed(&mut self, error: String)
        ensures
            final(self)@ == failed(old(self)@, error@),
    {
        proof {
            use_type_invariant(&*self);
        }
        self.phase = Phase::Failed;
        self.poller = false;
        self.result = Some(JobResult::Failure { error });
    }

    fn end_aborted(&mut self, error: JobError)
        ensures
            final(self)@ == aborted(old(self)@, error_text(error)),
    {
        proof {
            use_type_invariant(&*self);
        }
        self.phase = Phase::Aborted;
        self.poller = false;
        self.error = Some(error);
    }

    fn end_succeeded(&mut self, media: String)
        ensures
            final(self)@ == succeeded(old(self)@, media@),
    {
        proof {
            use_type_invariant(&*self);
        }
        self.phase = Phase::Succeeded;
        self.poller = false;
        self.result = Some(
            JobResult::Success {
                media,
                path: self.delivered.clone(),
                duration_ms: self.elapsed_ms,
            },
        );
    }

    /// The worker was spawned.
    pub fn spawned(&mut self, pid: Option<u32>) -> (r: Vec<JobAction>)
        ensures
            final(self)@ == step(old(self)@, Signal::Spawned { pid }),
            r@ == actions(old(self)@, Signal::Spawned { pid }),
    {
        proof {
            use_type_invariant(&*self);
        }
        match self.phase {
            Phase::Idle => {
                self.pid = pid;
                if self.cancel_seen {
                    let mut out = self.kill_list();
                    out.push(JobAction::RemovePreview);
                    out.push(JobAction::DrainReaders);
                    self.end_cancelled();
                    assert(out@ =~= actions(old(self)@, Signal::Spawned { pid }));
                    out
                } else {
                    self.phase = Phase::Running;
                    self.poller = true;
                    let mut out: Vec<JobAction> = Vec::new();
                    out.push(JobAction::StartPoller);
                    assert(out@ =~= seq![JobAction::StartPoller]);
                    out
                }
            },
            _ => Vec::new(),
        }
    }

    /// The worker could not be spawned. The job is aborted with the error
    /// that is handed back.
    pub fn spawn_failed(&mut self, reason: &str)
        ensures
            final(self)@ == step(old(self)@, Signal::SpawnFailed { reason: reason@ }),
    {
        proof {
            use_type_invariant(&*self);
        }
        match self.phase {
            Phase::Idle => {
                self.end_aborted(JobError::Spawn { reason: reason.to_string() });
            },
            _ => {},
        }
    }

    /// The next bytes of one of the worker's streams arrived.
    pub fn chunk(&mut self, origin: StreamOrigin, bytes: &[u8]) -> (r: Vec<Notification>)
        ensures
            final(self)@ == step(old(self)@, Signal::Chunk { origin, bytes: bytes@ }),
            notes(r@) == heard(old(self)@, origin, bytes@),
    {
        proof {
            use_type_invariant(&*self);
        }
        match self.phase {
            Phase::Running | Phase::Draining => {
                match origin {
                    StreamOrigin::Stdout => {
                        let mut reader = LineReader::new(StreamOrigin::Stdout);
                        core::mem::swap(&mut self.stdout, &mut reader);
                        let out = reader.feed(bytes);
                        self.stdout = reader;
                        out
                    },
                    StreamOrigin::Stderr => {
                        let mut reader = LineReader::new(StreamOrigin::Stderr);
                        core::mem::swap(&mut self.stderr, &mut reader);
                        let out = reader.feed(bytes);
                        self.stderr = reader;
                        out
                    },
                }
            },
            _ => {
                let out: Vec<Notification> = Vec::new();
                assert(notes(out@) =~= Seq::<NotificationView>::empty());
                out
            },
        }
    }

    /// The poller looked at the preview file. While the poller runs, what it
    /// read is announced; else nothing is.
    pub fn preview_tick(&self, read: &FileRead) -> (r: Option<Notification>)
        ensures
            match r {
                Some(n) => Some(n@),
                None => None,
            } == (if self@.poller {
                preview_note(*read)
            } else {
                None
            }),
    {
        if self.poller {
            poll_preview(read)
        } else {
            None
        }
    }

    /// The cancellation token of this job was seen fired.
    pub fn cancel_observed(&mut self) -> (r: Vec<JobAction>)
        ensures
            final(self)@ == step(old(self)@, Signal::CancelObserved),
            r@ == actions(old(self)@, Signal::CancelObserved),
    {
        proof {
            use_type_invariant(&*self);
        }
        match self.phase {
            Phase::Idle => {
                self.cancel_seen = true;
                Vec::new()
            },
            Phase::Succeeded | Phase::Cancelled | Phase::Failed | Phase::Aborted => Vec::new(),
            Phase::Running => {
                let mut out = self.kill_list();
                out.push(JobAction::StopPoller);
                out.push(JobAction::RemovePreview);
                out.push(JobAction::DrainReaders);
                self.end_cancelled();
                assert(out@ =~= kill_actions(old(self)@) + teardown());
                out
            },
            _ => {
                self.end_cancelled();
                Vec::new()
            },
        }
    }

    fn teardown_list() -> (r: Vec<JobAction>)
        ensures
            r@ == teardown(),
    {
        let mut out: Vec<JobAction> = Vec::new();
        out.push(JobAction::StopPoller);
        out.push(JobAction::RemovePreview);
        out.push(JobAction::DrainReaders);
        assert(out@ =~= teardown());
        out
    }

    /// The worker exited. `cancel_fired` tells whether the job's token was
    /// fired by the time the exit was observed.
    pub fn exited(&mut self, report: ExitReport, elapsed_ms: u64, cancel_fired: bool) -> (r: Vec<
        JobAction,
    >)
        ensures
            final(self)@ == step(old(self)@, Signal::Exited { report, elapsed_ms, cancel_fired }),
            r@ == actions(old(self)@, Signal::Exited { report, elapsed_ms, cancel_fired }),
    {
        proof {
            use_type_invariant(&*self);
        }
        match self.phase {
            Phase::Running => {
                if cancel_fired {
                    self.end_cancelled();
                } else {
                    self.phase = Phase::Draining;
                    self.poller = false;
                    self.exit = Some(report);
                    self.elapsed_ms = elapsed_ms;
                }
                Job::teardown_list()
            },
            _ => Vec::new(),
        }
    }

    /// Waiting for the worker failed.
    pub fn wait_failed(&mut self, reason: &str) -> (r: Vec<JobAction>)
        ensures
            final(self)@ == step(old(self)@, Signal::WaitFailed { reason: reason@ }),
            r@ == actions(old(self)@, Signal::WaitFailed { reason: reason@ }),
    {
        proof {
            use_type_invariant(&*self);
        }
        match self.phase {
            Phase::Running => {
                let mut out = self.kill_list();
                out.push(JobAction::StopPoller);
                out.push(JobAction::RemovePreview);
                out.push(JobAction::DrainReaders);
                self.end_aborted(JobError::Wait { reason: reason.to_string() });
                assert(out@ =~= kill_actions(old(self)@) + teardown());
                out
            },
            _ => Vec::new(),
        }
    }

    /// Both streams were read to their end.
    pub fn drained(&mut self) -> (r: Vec<JobAction>)
        ensures
            final(self)@ == step(old(self)@, Signal::Drained),
            r@ == actions(old(self)@, Signal::Drained),
    {
        proof {
            use_type_invariant(&*self);
        }
        match (self.phase, self.exit) {
            (Phase::Draining, Some(report)) => {
                let mut out: Vec<JobAction> = Vec::new();
                let outcome = classify(
                    false,
                    report,
                    self.plan.output_path.as_str(),
                    self.elapsed_ms,
                    self.stderr.buffer(),
                    self.stdout.buffer(),
                );
                match outcome {
                    Outcome::Failed { code, detail } => {
                        let message = failure_message(code, detail.as_str());
                        self.end_failed(message);
                    },
                    Outcome::Succeeded { .. } => {
                        match self.kind {
                            JobKind::Video => {
                                self.phase = Phase::Transcoding;
                                out.push(JobAction::ProbeTranscoder);
                            },
                            _ => {
                                self.phase = Phase::Verifying;
                                out.push(JobAction::ProbeArtifact);
                            },
                        }
                    },
                    Outcome::Cancelled => {
                        self.end_cancelled();
                    },
                }
                assert(out@ =~= actions(old(self)@, Signal::Drained));
                out
            },
            _ => Vec::new(),
        }
    }

    /// The output file of an image job was looked for and read.
    pub fn artifact_read(&mut self, read: FileRead) -> (r: Vec<JobAction>)
        requires
            crate::media::readable(read),
        ensures
            final(self)@ == step(old(self)@, Signal::ArtifactRead { read }),
            r@ == actions(old(self)@, Signal::ArtifactRead { read }),
    {
        proof {
            use_type_invariant(&*self);
        }
        match self.phase {
            Phase::Verifying => {
                let mut out: Vec<JobAction> = Vec::new();
                match read {
                    FileRead::Missing => {
                        self.end_failed("Output image not found after generation".to_string());
                    },
                    FileRead::Failed { reason } => {
                        self.end_aborted(JobError::Io { reason });
                    },
                    FileRead::Data { bytes } => {
                        let url = data_url("image/png", bytes.as_slice());
                        self.end_succeeded(url);
                        out.push(JobAction::WriteSidecar);
                    },
                }
                assert(out@ =~= actions(old(self)@, Signal::ArtifactRead { read }));
                out
            },
            _ => Vec::new(),
        }
    }

    /// The raw container and the transcoder of a video job were looked for.
    pub fn transcoder_probed(&mut self, raw_exists: bool, tool_exists: bool, elapsed_ms: u64) -> (r:
        Vec<JobAction>)
        ensures
            final(self)@ == step(
                old(self)@,
                Signal::TranscoderProbed { raw_exists, tool_exists, elapsed_ms },
            ),
            r@ == actions(
                old(self)@,
                Signal::TranscoderProbed { raw_exists, tool_exists, elapsed_ms },
            ),
    {
        proof {
            use_type_invariant(&*self);
        }
        match self.phase {
            Phase::Transcoding => {
                let mut out: Vec<JobAction> = Vec::new();
                if raw_exists && tool_exists {
                    self.phase = Phase::Converting;
                    out.push(JobAction::RunTranscoder);
                } else {
                    self.phase = Phase::Locating;
                    self.elapsed_ms = elapsed_ms;
                    out.push(JobAction::ProbeDelivery);
                }
                assert(out@ =~= actions(
                    old(self)@,
                    Signal::TranscoderProbed { raw_exists, tool_exists, elapsed_ms },
                ));
                out
            },
            _ => Vec::new(),
        }
    }

    /// The transcoder was run. `ran_ok` tells whether it could be run and
    /// reported success, `target_exists` whether its output is there. Where
    /// either is not so, the raw container is delivered.
    pub fn transcoded(&mut self, ran_ok: bool, target_exists: bool, elapsed_ms: u64) -> (r: Vec<
        JobAction,
    >)
        ensures
            final(self)@ == step(
                old(self)@,
                Signal::Transcoded { ran_ok, target_exists, elapsed_ms },
            ),
            r@ == actions(old(self)@, Signal::Transcoded { ran_ok, target_exists, elapsed_ms }),
    {
        proof {
            use_type_invariant(&*self);
        }
        match self.phase {
            Phase::Converting => {
                let mut out: Vec<JobAction> = Vec::new();
                self.phase = Phase::Locating;
                self.elapsed_ms = elapsed_ms;
                if ran_ok && target_exists {
                    self.delivered = self.plan.delivery_path.clone();
                    out.push(JobAction::RemoveRaw);
                }
                out.push(JobAction::ProbeDelivery);
                assert(out@ =~= actions(
                    old(self)@,
                    Signal::Transcoded { ran_ok, target_exists, elapsed_ms },
                ));
                out
            },
            _ => Vec::new(),
        }
    }

    /// The file to deliver was looked for. Where it is there the job has
    /// succeeded and its metadata is to be written; where it is not, the job
    /// has failed and nothing is written.
    pub fn delivery_probed(&mut self, exists: bool) -> (r: Vec<JobAction>)
        ensures
            final(self)@ == step(old(self)@, Signal::DeliveryProbed { exists }),
            r@ == actions(old(self)@, Signal::DeliveryProbed { exists }),
    {
        proof {
            use_type_invariant(&*self);
        }
        match self.phase {
            Phase::Locating => {
                let mut out: Vec<JobAction> = Vec::new();
                if exists {
                    let url = media_url(self.delivered.as_str());
                    self.end_succeeded(url);
                    out.push(JobAction::WriteSidecar);
                } else {
                    self.end_failed("Output video not found after generation".to_string());
                }
                assert(out@ =~= actions(old(self)@, Signal::DeliveryProbed { exists }));
                out
            },
            _ => Vec::new(),
        }
    }
}

} // verus!
