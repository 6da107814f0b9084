//! How a finished worker is classified, and what is reported of it.

use vstd::prelude::*;
use vstd::string::*;
use crate::buffer::{tail_of, LineBuffer, TAIL_LINES};
use crate::cancel::JobKind;
use crate::paths::{join, path_joined, path_with_extension, with_extension};
use crate::text::{
    blank, appended, decimal, i64_to_string, is_blank, join as join_lines, joined, signed_decimal,
    texts, u128_to_string,
};

verus! {

/// How the worker process ended.
#[derive(Clone, Copy, Debug)]
pub struct ExitReport {
    /// Whether the exit status counts as success.
    pub success: bool,
    /// The exit code, where the process ended with one.
    pub code: Option<i32>,
}

/// The terminal classification of a supervised worker.
#[derive(Debug)]
pub enum Outcome {
    Succeeded { artifact: String, elapsed_ms: u64 },
    Cancelled,
    Failed { code: Option<i32>, detail: String },
}

/// What a finished job hands to its caller.
#[derive(Debug)]
pub enum JobResult {
    /// The artifact in transport form, where it lies, and how long it took.
    Success { media: String, path: String, duration_ms: u64 },
    Failure { error: String },
    Cancelled,
}

/// Why a job could not be run to a result at all.
#[derive(Debug)]
pub enum JobError {
    /// No engine folder is configured.
    FolderNotSet,
    /// The engine folder holds none of the known executables.
    ExecutableNotFound { folder: String },
    /// The worker could not be launched.
    Spawn { reason: String },
    /// Waiting for the worker failed.
    Wait { reason: String },
    /// A file could not be created or read.
    Io { reason: String },
}

pub enum JobResultView {
    Success { media: Seq<char>, path: Seq<char>, duration_ms: u64 },
    Failure { error: Seq<char> },
    Cancelled,
}

impl View for JobResult {
    type V = JobResultView;

    open spec fn view(&self) -> JobResultView {
        match *self {
            JobResult::Success { media, path, duration_ms } => JobResultView::Success {
                media: media@,
                path: path@,
                duration_ms,
            },
            JobResult::Failure { error } => JobResultView::Failure { error: error@ },
            JobResult::Cancelled => JobResultView::Cancelled,
        }
    }
}

/// The separator between the lines of a diagnostic tail: a backslash and the
/// letter n.
pub open spec fn tail_separator() -> Seq<char> {
    seq!['\\', 'n']
}

/// The last ten lines at most, written as one text.
pub open spec fn tail_text(lines: Seq<Seq<char>>) -> Seq<char> {
    joined(tail_of(lines, TAIL_LINES as int), tail_separator())
}

/// The diagnostic tail of a failed worker: that of the error stream, unless it
/// is blank; then that of the output stream.
pub open spec fn diagnostic(stderr: Seq<Seq<char>>, stdout: Seq<Seq<char>>) -> Seq<char> {
    if !is_blank(tail_text(stderr)) {
        tail_text(stderr)
    } else {
        tail_text(stdout)
    }
}

/// The exit code as it is shown: `Some(` code `)`, or `None`.
pub open spec fn code_text(code: Option<i32>) -> Seq<char> {
    match code {
        Some(c) => "Some("@ + signed_decimal(c as int) + ")"@,
        None => "None"@,
    }
}

/// The message of a failed worker: the exit code, then the diagnostic tail
/// unless it is blank.
pub open spec fn failure_text(code: Option<i32>, detail: Seq<char>) -> Seq<char> {
    if is_blank(detail) {
        "Process exited with code: "@ + code_text(code)
    } else {
        "Process exited with code: "@ + code_text(code) + tail_separator() + detail
    }
}

pub open spec fn error_text(e: JobError) -> Seq<char> {
    match e {
        JobError::FolderNotSet => "SD.cpp folder not set"@,
        JobError::ExecutableNotFound { folder } => "SD.cpp executable not found in: "@ + folder@
            + " (expected one of: sd/sd-cli/sd_server/sd-server)"@,
        JobError::Spawn { reason } => "Failed to start process: "@ + reason@,
        JobError::Wait { reason } => reason@,
        JobError::Io { reason } => reason@,
    }
}

impl JobError {
    /// The error as the caller reads it.
    pub fn message(&self) -> (r: String)
        ensures
            r@ == error_text(*self),
    {
        match self {
            JobError::FolderNotSet => "SD.cpp folder not set".to_string(),
            JobError::ExecutableNotFound { folder } => {
                let mut out = String::new();
                out.append("SD.cpp executable not found in: ");
                out.append(folder.as_str());
                out.append(" (expected one of: sd/sd-cli/sd_server/sd-server)");
                assert(out@ =~= error_text(*self));
                out
            },
            JobError::Spawn { reason } => appended("Failed to start process: ", reason.as_str()),
            JobError::Wait { reason } => reason.clone(),
            JobError::Io { reason } => reason.clone(),
        }
    }
}

fn separator() -> (r: String)
    ensures
        r@ == tail_separator(),
{
    let mut out = String::new();
    out.push('\\');
    out.push('n');
    assert(out@ =~= tail_separator());
    out
}

/// The last ten lines at most of a buffer, as one text.
pub fn tail_of_buffer(buffer: &LineBuffer) -> (r: String)
    ensures
        r@ == tail_text(buffer@),
{
    let lines = buffer.tail(TAIL_LINES);
    let sep = separator();
    join_lines(&lines, sep.as_str())
}

/// The diagnostic tail of a failed worker.
pub fn diagnostic_tail(stderr: &LineBuffer, stdout: &LineBuffer) -> (r: String)
    ensures
        r@ == diagnostic(stderr@, stdout@),
{
    let from_stderr = tail_of_buffer(stderr);
    if !blank(from_stderr.as_str()) {
        from_stderr
    } else {
        tail_of_buffer(stdout)
    }
}

pub fn exit_code_text(code: Option<i32>) -> (r: String)
    ensures
        r@ == code_text(code),
{
    match code {
        Some(c) => {
            let mut out = String::new();
            out.append("Some(");
            let digits = i64_to_string(c as i64);
            out.append(digits.as_str());
            out.append(")");
            assert(out@ =~= code_text(code));
            out
        },
        None => "None".to_string(),
    }
}

/// The message of a failed worker.
pub fn failure_message(code: Option<i32>, detail: &str) -> (r: String)
    ensures
        r@ == failure_text(code, detail@),
{
    let mut out = String::new();
    out.append("Process exited with code: ");
    let shown = exit_code_text(code);
    out.append(shown.as_str());
    if !blank(detail) {
        let sep = separator();
        out.append(sep.as_str());
        out.append(detail);
    }
    assert(out@ =~= failure_text(code, detail@));
    out
}

/// Classifies a worker that was run to its end. A cancellation that was
/// requested before the exit was observed wins over any exit status. Without
/// one, a successful status gives `Succeeded` with the artifact's path, and
/// any other gives `Failed` with the code and the diagnostic tail.
pub fn classify(
    cancel_fired: bool,
    report: ExitReport,
    artifact: &str,
    elapsed_ms: u64,
    stderr: &LineBuffer,
    stdout: &LineBuffer,
) -> (r: Outcome)
    ensures
        cancel_fired ==> r is Cancelled,
        !cancel_fired && report.success ==> r is Succeeded && r->artifact@ == artifact@
            && r->elapsed_ms == elapsed_ms,
        !cancel_fired && !report.success ==> r is Failed && r->code == report.code && r->detail@
            == diagnostic(stderr@, stdout@),
{
    if cancel_fired {
        Outcome::Cancelled
    } else if report.success {
        Outcome::Succeeded { artifact: artifact.to_string(), elapsed_ms }
    } else {
        Outcome::Failed { code: report.code, detail: diagnostic_tail(stderr, stdout) }
    }
}

/// The files of one job.
#[derive(Debug)]
pub struct JobPlan {
    /// What the worker writes.
    pub output_path: String,
    /// What is delivered where a transcoder converts the output; else the
    /// output itself.
    pub delivery_path: String,
    /// Where the worker may leave a preview while it runs.
    pub preview_path: String,
}

pub open spec fn output_name(kind: JobKind, timestamp_ms: nat) -> Seq<char> {
    "generated_"@ + decimal(timestamp_ms) + (if kind == JobKind::Video {
        ".avi"@
    } else {
        ".png"@
    })
}

pub open spec fn delivery_name(kind: JobKind, timestamp_ms: nat) -> Seq<char> {
    "generated_"@ + decimal(timestamp_ms) + (if kind == JobKind::Video {
        ".mp4"@
    } else {
        ".png"@
    })
}

fn generated_name(timestamp_ms: u128, suffix: &str) -> (r: String)
    ensures
        r@ == "generated_"@ + decimal(timestamp_ms as nat) + suffix@,
{
    let mut out = String::new();
    out.append("generated_");
    let digits = u128_to_string(timestamp_ms);
    out.append(digits.as_str());
    out.append(suffix);
    assert(out@ =~= "generated_"@ + decimal(timestamp_ms as nat) + suffix@);
    out
}

/// Names the files of a job that starts at `timestamp_ms`, under
/// `outputs_folder`: `generated_<time>` with `.png` for an image; for a video
/// `.avi` for the worker and `.mp4` for delivery. The preview lies beside the
/// output, with `preview.png` for extension.
pub fn plan_job(kind: JobKind, outputs_folder: &str, timestamp_ms: u128) -> (r: JobPlan)
    ensures
        r.output_path@ == path_joined(outputs_folder@, output_name(kind, timestamp_ms as nat)),
        r.delivery_path@ == path_joined(outputs_folder@, delivery_name(kind, timestamp_ms as nat)),
        r.preview_path@ == path_with_extension(r.output_path@, "preview.png"@),
{
    let (out_name, deliver_name) = match kind {
        JobKind::Video => (
            generated_name(timestamp_ms, ".avi"),
            generated_name(timestamp_ms, ".mp4"),
        ),
        _ => (generated_name(timestamp_ms, ".png"), generated_name(timestamp_ms, ".png")),
    };
    let output_path = join(outputs_folder, out_name.as_str());
    let delivery_path = join(outputs_folder, deliver_name.as_str());
    proof {
        reveal_strlit("preview.png");
        assert forall|i: int| 0 <= i < "preview.png"@.len() implies "preview.png"@[i] != '/'
            && "preview.png"@[i] != '\\' by {}
    }
    let preview_path = with_extension(output_path.as_str(), "preview.png");
    JobPlan { output_path, delivery_path, preview_path }
}

/// The arguments of the forced kill of a process tree: `/F /T /PID` and the
/// process identifier.
pub fn taskkill_args(pid: u32) -> (r: Vec<String>)
    ensures
        texts(r@) == seq!["/F"@, "/T"@, "/PID"@, decimal(pid as nat)],
{
    let mut out: Vec<String> = Vec::new();
    out.push("/F".to_string());
    out.push("/T".to_string());
    out.push("/PID".to_string());
    out.push(u128_to_string(pid as u128));
    assert(texts(out@) =~= seq!["/F"@, "/T"@, "/PID"@, decimal(pid as nat)]);
    out
}

/// The arguments of the transcoder: read `source`, encode H.264 with the
/// `fast` preset at constant quality 23, overwrite `target`.
pub fn transcoder_args(source: &str, target: &str) -> (r: Vec<String>)
    ensures
        texts(r@) == seq![
            "-i"@,
            source@,
            "-c:v"@,
            "libx264"@,
            "-preset"@,
            "fast"@,
            "-crf"@,
            "23"@,
            "-y"@,
            target@,
        ],
{
    let mut out: Vec<String> = Vec::new();
    out.push("-i".to_string());
    out.push(source.to_string());
    out.push("-c:v".to_string());
    out.push("libx264".to_string());
    out.push("-preset".to_string());
    out.push("fast".to_string());
    out.push("-crf".to_string());
    out.push("23".to_string());
    out.push("-y".to_string());
    out.push(target.to_string());
    assert(texts(out@) =~= seq![
        "-i"@,
        source@,
        "-c:v"@,
        "libx264"@,
        "-preset"@,
        "fast"@,
        "-crf"@,
        "23"@,
        "-y"@,
        target@,
    ]);
    out
}

} // verus!
