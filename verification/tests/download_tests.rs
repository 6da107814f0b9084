use helloui_core::download::{
    group_download_request, DownloadAction, DownloadPhase, DownloadSignal, GroupDownload,
    download_destination, download_done, download_item, download_target_folder, engine_progress,
    file_status, hf_file_url, http_failure_message, DownloadTracker, EngineStage, HfFile,
};

fn hf(repo: &str, file: &str, save: Option<&str>) -> HfFile {
    HfFile { repo: repo.to_string(), file: file.to_string(), save_path: save.map(String::from) }
}

#[test]
fn the_folder_a_group_is_downloaded_to() {
    assert_eq!(download_target_folder("/m", "gid", Some("sdxl/model.gguf"), Some("Name")), "/m/sdxl");
    assert_eq!(download_target_folder("/m", "gid", Some("model.gguf"), None), "/m");
    assert_eq!(download_target_folder("/m", "gid", None, Some("Name")), "/m/Name");
    assert_eq!(download_target_folder("/m", "gid", None, None), "/m/gid");
    // a model path without parent: the folder named by the identifier
    assert_eq!(download_target_folder("", "gid", Some(""), None), "gid");
}

#[test]
fn the_address_of_a_file() {
    assert_eq!(
        hf_file_url("https://huggingface.co", "org/repo", "dir/model.gguf"),
        "https://huggingface.co/org/repo/resolve/main/dir/model.gguf"
    );
    assert_eq!(hf_file_url("", "", ""), "//resolve/main/");
}

#[test]
fn where_a_file_is_saved() {
    assert_eq!(download_destination("/m/g", &hf("r", "a/b.gguf", None)), "/m/g/a/b.gguf");
    assert_eq!(download_destination("/m/g", &hf("r", "a/b.gguf", Some("b.gguf"))), "/m/g/b.gguf");
    let item = download_item("https://hf-mirror.com", "/m/g", &hf("o/r", "x.gguf", Some("y.gguf")));
    assert_eq!(item.url, "https://hf-mirror.com/o/r/resolve/main/x.gguf");
    assert_eq!(item.dest, "/m/g/y.gguf");
    assert_eq!(item.file_name, "x.gguf");
}

#[test]
fn a_refused_download_is_named() {
    assert_eq!(
        http_failure_message("404 Not Found", "x.gguf"),
        "HTTP 404 Not Found: download failed for x.gguf"
    );
}

#[test]
fn the_status_of_a_file() {
    let f = hf("r", "x.gguf", None);
    let s = file_status(&f, true, Some(10));
    assert_eq!(s.file, "x.gguf");
    assert!(s.exists);
    assert_eq!(s.size, Some(10));
    let s = file_status(&f, true, None);
    assert_eq!(s.size, None);
    let s = file_status(&f, false, Some(10));
    assert!(!s.exists);
    assert_eq!(s.size, None);
}

#[test]
fn bytes_are_counted_as_they_arrive() {
    let mut t = DownloadTracker::new("x.gguf", Some(100), 3, 2);
    let p = t.received(40);
    assert_eq!(p.stage, "downloading");
    assert_eq!(p.downloaded_bytes, 40);
    assert_eq!(p.total_bytes, 100);
    assert_eq!(p.file_name, "x.gguf");
    assert_eq!(p.total_files, 3);
    assert_eq!(p.current_file_index, 2);
    assert!(p.error.is_none());
    assert_eq!(t.received(60).downloaded_bytes, 100);
    assert_eq!(t.received(0).downloaded_bytes, 100);
    let mut unknown = DownloadTracker::new("y", None, 1, 1);
    assert_eq!(unknown.received(5).total_bytes, 0);
}

#[test]
fn the_count_stops_at_the_largest_number() {
    let mut t = DownloadTracker::new("x", None, 1, 1);
    t.received(usize::MAX);
    t.received(usize::MAX);
    assert_eq!(t.received(usize::MAX).downloaded_bytes, u64::MAX);
}

#[test]
fn the_end_of_a_download_is_reported() {
    let p = download_done(4);
    assert_eq!(p.stage, "done");
    assert_eq!(p.downloaded_bytes, 0);
    assert_eq!(p.total_bytes, 0);
    assert_eq!(p.file_name, "");
    assert_eq!(p.total_files, 4);
    assert_eq!(p.current_file_index, 4);
}

#[test]
fn the_stages_of_an_engine_download() {
    let p = engine_progress(EngineStage::Downloading, "sd.zip", 10, 100);
    assert_eq!(p.stage, "downloading");
    assert_eq!(p.downloaded_bytes, 10);
    assert_eq!(p.total_bytes, 100);
    assert_eq!(p.file_name, "sd.zip");
    assert!(p.error.is_none());
    let p = engine_progress(EngineStage::Extracting, "sd.zip", 10, 100);
    assert_eq!(p.stage, "extracting");
    assert_eq!(p.downloaded_bytes, 100);
    let p = engine_progress(EngineStage::Done, "sd.zip", 10, 100);
    assert_eq!(p.stage, "done");
    assert_eq!(p.downloaded_bytes, 100);
}

fn three_files() -> GroupDownload {
    GroupDownload::new(
        "https://huggingface.co",
        "/m/g",
        vec![hf("o/r", "a.gguf", None), hf("o/r", "b.gguf", Some("sub/b.gguf")), hf("o/r", "c.gguf", None)],
    )
}

fn deliver(d: &mut GroupDownload, sizes: &[usize]) {
    d.signal(DownloadSignal::Probed { exists: false }, false);
    d.signal(DownloadSignal::Answered { refused: None, content_length: Some(10) }, false);
    for len in sizes {
        d.signal(DownloadSignal::Chunk { len: *len }, false);
    }
}

#[test]
fn a_request_is_refused_before_anything_is_downloaded() {
    assert_eq!(
        group_download_request(false, false, None).unwrap_err(),
        "Model groups file not found"
    );
    assert_eq!(
        group_download_request(false, true, Some(vec![])).unwrap_err(),
        "Model groups file not found"
    );
    assert_eq!(group_download_request(true, false, Some(vec![])).unwrap_err(), "Model group not found");
    assert_eq!(
        group_download_request(true, true, None).unwrap_err(),
        "No HF files defined for this group"
    );
    assert!(group_download_request(true, true, Some(vec![])).unwrap().is_empty());
    let files = group_download_request(true, true, Some(vec![hf("r", "x", None)])).unwrap();
    assert_eq!(files.len(), 1);
    assert_eq!(files[0].file, "x");
}

#[test]
fn a_download_without_files_is_done_at_once() {
    let d = GroupDownload::new("https://huggingface.co", "/m/g", Vec::new());
    assert_eq!(d.phase(), DownloadPhase::Done);
    assert!(d.is_done());
    assert!(d.begin().is_empty());
    assert!(d.item_at_hand().is_none());
}

#[test]
fn a_download_begins_with_a_look_at_its_first_file() {
    let d = three_files();
    assert_eq!(d.phase(), DownloadPhase::Probing);
    assert_eq!(d.begin(), vec![DownloadAction::Probe]);
    let item = d.item_at_hand().expect("the first file");
    assert_eq!(item.url, "https://huggingface.co/o/r/resolve/main/a.gguf");
    assert_eq!(item.dest, "/m/g/a.gguf");
    assert_eq!(item.file_name, "a.gguf");
}

#[test]
fn files_on_disk_are_passed_over() {
    let mut d = three_files();
    assert_eq!(d.signal(DownloadSignal::Probed { exists: true }, false), vec![DownloadAction::Probe]);
    assert_eq!(d.item_at_hand().unwrap().dest, "/m/g/sub/b.gguf");
    assert_eq!(d.signal(DownloadSignal::Probed { exists: true }, false), vec![DownloadAction::Probe]);
    assert_eq!(d.signal(DownloadSignal::Probed { exists: true }, false), vec![DownloadAction::Report]);
    assert_eq!(d.phase(), DownloadPhase::Done);
    let p = d.progress();
    assert_eq!(p.stage, "done");
    assert_eq!(p.total_files, 3);
    assert_eq!(p.current_file_index, 3);
    assert_eq!(p.file_name, "");
}

#[test]
fn a_file_is_asked_for_received_and_counted() {
    let mut d = three_files();
    assert_eq!(d.signal(DownloadSignal::Probed { exists: true }, false), vec![DownloadAction::Probe]);
    assert_eq!(
        d.signal(DownloadSignal::Probed { exists: false }, false),
        vec![DownloadAction::Request]
    );
    assert_eq!(d.phase(), DownloadPhase::Requesting);
    assert_eq!(
        d.signal(DownloadSignal::Answered { refused: None, content_length: Some(100) }, false),
        vec![DownloadAction::Receive]
    );
    assert_eq!(d.phase(), DownloadPhase::Streaming);
    assert_eq!(d.signal(DownloadSignal::Chunk { len: 40 }, false), vec![DownloadAction::Report]);
    assert_eq!(d.signal(DownloadSignal::Chunk { len: 60 }, false), vec![DownloadAction::Report]);
    let p = d.progress();
    assert_eq!(p.stage, "downloading");
    assert_eq!(p.downloaded_bytes, 100);
    assert_eq!(p.total_bytes, 100);
    assert_eq!(p.file_name, "b.gguf");
    assert_eq!(p.total_files, 3);
    assert_eq!(p.current_file_index, 2);
    assert!(p.error.is_none());
    assert_eq!(d.signal(DownloadSignal::StreamEnded, false), vec![DownloadAction::Probe]);
    assert_eq!(d.phase(), DownloadPhase::Probing);
    assert_eq!(d.item_at_hand().unwrap().file_name, "c.gguf");
    assert_eq!(d.progress().downloaded_bytes, 0);
}

#[test]
fn the_end_of_the_last_stream_ends_the_download() {
    let mut d = GroupDownload::new("https://hf-mirror.com", "/m", vec![hf("r", "x", None)]);
    deliver(&mut d, &[1, 2]);
    assert_eq!(d.signal(DownloadSignal::StreamEnded, false), vec![DownloadAction::Report]);
    assert_eq!(d.phase(), DownloadPhase::Done);
    assert!(d.error().is_none());
    assert!(d.signal(DownloadSignal::Chunk { len: 1 }, false).is_empty());
    assert!(d.signal(DownloadSignal::CancelObserved, true).is_empty());
    assert_eq!(d.phase(), DownloadPhase::Done);
}

#[test]
fn a_refusal_of_the_hub_ends_the_download_as_failed() {
    let mut d = three_files();
    d.signal(DownloadSignal::Probed { exists: false }, false);
    let refused =
        DownloadSignal::Answered { refused: Some("404 Not Found".to_string()), content_length: None };
    assert!(d.signal(refused, false).is_empty());
    assert_eq!(d.phase(), DownloadPhase::Failed);
    assert_eq!(d.error().as_deref(), Some("HTTP 404 Not Found: download failed for a.gguf"));
    assert!(d.signal(DownloadSignal::Probed { exists: true }, false).is_empty());
    assert_eq!(d.phase(), DownloadPhase::Failed);
}

#[test]
fn a_failing_stream_ends_the_download_as_failed() {
    let mut d = three_files();
    deliver(&mut d, &[5]);
    assert!(d.signal(DownloadSignal::StreamFailed { reason: "reset".to_string() }, false).is_empty());
    assert_eq!(d.phase(), DownloadPhase::Failed);
    assert_eq!(d.error().as_deref(), Some("reset"));
}

#[test]
fn cancel_while_a_file_arrives_removes_what_was_written() {
    let mut d = three_files();
    deliver(&mut d, &[5]);
    assert_eq!(d.signal(DownloadSignal::CancelObserved, false), vec![DownloadAction::RemovePartial]);
    assert_eq!(d.phase(), DownloadPhase::Cancelled);
    assert!(d.signal(DownloadSignal::StreamEnded, false).is_empty());
    assert_eq!(d.phase(), DownloadPhase::Cancelled);
}

#[test]
fn cancel_wins_over_the_end_of_the_last_stream() {
    let mut d = GroupDownload::new("https://hf-mirror.com", "/m", vec![hf("r", "x", None)]);
    deliver(&mut d, &[5]);
    assert_eq!(d.signal(DownloadSignal::StreamEnded, true), vec![DownloadAction::RemovePartial]);
    assert_eq!(d.phase(), DownloadPhase::Cancelled);
}

#[test]
fn cancel_before_a_file_arrives_removes_nothing() {
    let mut d = three_files();
    assert!(d.signal(DownloadSignal::Probed { exists: false }, true).is_empty());
    assert_eq!(d.phase(), DownloadPhase::Cancelled);
    let mut d = three_files();
    d.signal(DownloadSignal::Probed { exists: false }, false);
    let answer = DownloadSignal::Answered { refused: None, content_length: None };
    assert!(d.signal(answer, true).is_empty());
    assert_eq!(d.phase(), DownloadPhase::Cancelled);
    let mut d = three_files();
    assert!(d.signal(DownloadSignal::CancelObserved, false).is_empty());
    assert_eq!(d.phase(), DownloadPhase::Cancelled);
}

#[test]
fn signals_out_of_place_change_no_download() {
    let mut d = three_files();
    assert!(d.signal(DownloadSignal::Chunk { len: 3 }, false).is_empty());
    assert!(d.signal(DownloadSignal::StreamEnded, false).is_empty());
    let answer = DownloadSignal::Answered { refused: None, content_length: None };
    assert!(d.signal(answer, false).is_empty());
    assert_eq!(d.phase(), DownloadPhase::Probing);
    assert_eq!(d.item_at_hand().unwrap().file_name, "a.gguf");
}
