use helloui_core::buffer::LineBuffer;
use helloui_core::cancel::JobKind;
use helloui_core::outcome::{
    classify, diagnostic_tail, exit_code_text, failure_message, plan_job, tail_of_buffer,
    taskkill_args, transcoder_args, ExitReport, JobError, Outcome,
};

fn buffer_of(lines: &[&str]) -> LineBuffer {
    let mut b = LineBuffer::new();
    for l in lines {
        b.push(l.to_string());
    }
    b
}

#[test]
fn exit_codes_are_shown_as_options() {
    assert_eq!(exit_code_text(Some(1)), "Some(1)");
    assert_eq!(exit_code_text(Some(0)), "Some(0)");
    assert_eq!(exit_code_text(Some(-1073741819)), "Some(-1073741819)");
    assert_eq!(exit_code_text(Some(i32::MIN)), format!("{:?}", Some(i32::MIN)));
    assert_eq!(exit_code_text(None), "None");
}

#[test]
fn failure_message_without_detail_is_the_code_alone() {
    assert_eq!(failure_message(Some(2), ""), "Process exited with code: Some(2)");
    assert_eq!(failure_message(None, "  \t "), "Process exited with code: None");
}

#[test]
fn failure_message_with_detail_joins_with_backslash_n() {
    assert_eq!(
        failure_message(Some(1), "error: out of memory"),
        "Process exited with code: Some(1)\\nerror: out of memory"
    );
}

#[test]
fn tail_holds_the_last_ten_lines() {
    let lines: Vec<String> = (0..12).map(|i| format!("l{}", i)).collect();
    let refs: Vec<&str> = lines.iter().map(|s| s.as_str()).collect();
    let b = buffer_of(&refs);
    assert_eq!(tail_of_buffer(&b), "l2\\nl3\\nl4\\nl5\\nl6\\nl7\\nl8\\nl9\\nl10\\nl11");
    assert_eq!(tail_of_buffer(&buffer_of(&["only"])), "only");
    assert_eq!(tail_of_buffer(&LineBuffer::new()), "");
}

#[test]
fn the_error_stream_is_preferred_unless_blank() {
    let err = buffer_of(&["error: out of memory"]);
    let out = buffer_of(&["loading", "step 1"]);
    assert_eq!(diagnostic_tail(&err, &out), "error: out of memory");
    assert_eq!(diagnostic_tail(&LineBuffer::new(), &out), "loading\\nstep 1");
    assert_eq!(diagnostic_tail(&buffer_of(&[" \t "]), &out), "loading\\nstep 1");
    // two blank lines are joined by a separator that is not white space
    assert_eq!(diagnostic_tail(&buffer_of(&["  ", "\t"]), &out), "  \\n\t");
    assert_eq!(diagnostic_tail(&LineBuffer::new(), &LineBuffer::new()), "");
}

#[test]
fn classify_lets_cancellation_win() {
    let ok = ExitReport { success: true, code: Some(0) };
    let bad = ExitReport { success: false, code: Some(1) };
    let e = LineBuffer::new();
    let o = LineBuffer::new();
    assert!(matches!(classify(true, ok, "/o.png", 5, &e, &o), Outcome::Cancelled));
    assert!(matches!(classify(true, bad, "/o.png", 5, &e, &o), Outcome::Cancelled));
}

#[test]
fn classify_by_exit_status() {
    let ok = ExitReport { success: true, code: Some(0) };
    let bad = ExitReport { success: false, code: Some(1) };
    let e = buffer_of(&["error: out of memory"]);
    let o = LineBuffer::new();
    match classify(false, ok, "/o.png", 5, &e, &o) {
        Outcome::Succeeded { artifact, elapsed_ms } => {
            assert_eq!(artifact, "/o.png");
            assert_eq!(elapsed_ms, 5);
        }
        other => panic!("unexpected {:?}", other),
    }
    match classify(false, bad, "/o.png", 5, &e, &o) {
        Outcome::Failed { code, detail } => {
            assert_eq!(code, Some(1));
            assert_eq!(detail, "error: out of memory");
        }
        other => panic!("unexpected {:?}", other),
    }
}

#[test]
fn error_messages() {
    assert_eq!(JobError::FolderNotSet.message(), "SD.cpp folder not set");
    assert_eq!(
        JobError::ExecutableNotFound { folder: "/e/cpu".to_string() }.message(),
        "SD.cpp executable not found in: /e/cpu (expected one of: sd/sd-cli/sd_server/sd-server)"
    );
    assert_eq!(
        JobError::Spawn { reason: "No such file".to_string() }.message(),
        "Failed to start process: No such file"
    );
    assert_eq!(JobError::Wait { reason: "gone".to_string() }.message(), "gone");
    assert_eq!(JobError::Io { reason: "denied".to_string() }.message(), "denied");
}

#[test]
fn plan_of_an_image_job() {
    let plan = plan_job(JobKind::Image, "/out", 1700000000000);
    assert_eq!(plan.output_path, "/out/generated_1700000000000.png");
    assert_eq!(plan.delivery_path, "/out/generated_1700000000000.png");
    assert_eq!(plan.preview_path, "/out/generated_1700000000000.preview.png");
}

#[test]
fn plan_of_a_video_job() {
    let plan = plan_job(JobKind::Video, "/out", 42);
    assert_eq!(plan.output_path, "/out/generated_42.avi");
    assert_eq!(plan.delivery_path, "/out/generated_42.mp4");
    assert_eq!(plan.preview_path, "/out/generated_42.preview.png");
}

#[test]
fn taskkill_arguments() {
    assert_eq!(taskkill_args(4711), vec!["/F", "/T", "/PID", "4711"]);
}

#[test]
fn transcoder_arguments() {
    assert_eq!(
        transcoder_args("/o/a.avi", "/o/a.mp4"),
        vec!["-i", "/o/a.avi", "-c:v", "libx264", "-preset", "fast", "-crf", "23", "-y", "/o/a.mp4"]
    );
}
