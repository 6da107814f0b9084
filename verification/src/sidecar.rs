//! The metadata record that is written beside a generated file.

use vstd::prelude::*;
use crate::cancel::JobKind;

verus! {

/// The RFC 3339 text of the instant `secs` seconds and `nanos` nanoseconds
/// after the Unix epoch, in UTC, as `chrono` writes it; `None` where `chrono`
/// has no such instant.
pub uninterp spec fn rfc3339_text(secs: i64, nanos: u32) -> Option<Seq<char>>;

/// Calls `chrono::DateTime::from_timestamp` and, on the instant it gives,
/// `to_rfc3339`. The result is named, not described.
#[verifier::external_body]
fn rfc3339(secs: i64, nanos: u32) -> (r: Option<String>)
    ensures
        r is Some <==> rfc3339_text(secs, nanos) is Some,
        r is Some ==> r->0@ == rfc3339_text(secs, nanos)->0,
{
    match chrono::DateTime::from_timestamp(secs, nanos) {
        Some(t) => Some(t.to_rfc3339()),
        None => None,
    }
}

/// What the record says of a job beyond the parameters of its request.
#[derive(Debug)]
pub struct Sidecar {
    pub prompt: String,
    pub device_type: String,
    /// The mode of a video job.
    pub mode: Option<String>,
    /// `generate` for an image, `video` for a video.
    pub kind: String,
    /// `image` or `video`.
    pub media_type: String,
    /// How long the job took, in milliseconds.
    pub duration: u64,
    pub generated_at: String,
}

pub open spec fn text_or(v: Option<&str>, fallback: Seq<char>) -> Seq<char> {
    match v {
        Some(s) => s@,
        None => fallback,
    }
}

/// The time of generation as the record holds it: the RFC 3339 text of the
/// instant, or nothing where there is no such instant.
pub open spec fn generated_at_text(secs: i64, nanos: u32) -> Seq<char> {
    match rfc3339_text(secs, nanos) {
        Some(t) => t,
        None => Seq::empty(),
    }
}

/// Makes the record of a job that finished `secs` seconds and `nanos`
/// nanoseconds after the Unix epoch. A request without a prompt has the empty
/// prompt, one without a device the device `cpu`, and a video request without
/// a mode the mode `text2video`.
pub fn sidecar_record(
    kind: JobKind,
    prompt: Option<&str>,
    device_type: Option<&str>,
    mode: Option<&str>,
    duration_ms: u64,
    secs: i64,
    nanos: u32,
) -> (r: Sidecar)
    ensures
        r.prompt@ == text_or(prompt, ""@),
        r.device_type@ == text_or(device_type, "cpu"@),
        r.duration == duration_ms,
        r.generated_at@ == generated_at_text(secs, nanos),
        kind == JobKind::Video ==> r.kind@ == "video"@ && r.media_type@ == "video"@ && r.mode is Some
            && r.mode->0@ == text_or(mode, "text2video"@),
        kind != JobKind::Video ==> r.kind@ == "generate"@ && r.media_type@ == "image"@
            && r.mode is None,
{
    let prompt = match prompt {
        Some(p) => p.to_string(),
        None => "".to_string(),
    };
    let device_type = match device_type {
        Some(d) => d.to_string(),
        None => "cpu".to_string(),
    };
    let generated_at = match rfc3339(secs, nanos) {
        Some(t) => t,
        None => String::new(),
    };
    match kind {
        JobKind::Video => Sidecar {
            prompt,
            device_type,
            mode: Some(
                match mode {
                    Some(m) => m.to_string(),
                    None => "text2video".to_string(),
                },
            ),
            kind: "video".to_string(),
            media_type: "video".to_string(),
            duration: duration_ms,
            generated_at,
        },
        _ => Sidecar {
            prompt,
            device_type,
            mode: None,
            kind: "generate".to_string(),
            media_type: "image".to_string(),
            duration: duration_ms,
            generated_at,
        },
    }
}

} // verus!
