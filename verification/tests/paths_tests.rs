use helloui_core::paths::{
    archive_entry_name, proposed_file_name, get_active_models_folder, get_default_models_folder, get_default_outputs_folder,
    get_default_sdcpp_folder, get_ffmpeg_path, get_model_groups_path, model_candidates,
    model_search_folders, resolve_model_path, resolve_model_path_with_fallback, CandidateProbe,
    Platform,
};

fn missing() -> CandidateProbe {
    CandidateProbe { exists: false, canonical: None }
}

#[test]
fn default_folders_lie_beside_the_executable() {
    assert_eq!(get_default_models_folder("/opt/app"), "/opt/app/models");
    assert_eq!(get_default_sdcpp_folder("/opt/app"), "/opt/app/engines/sdcpp");
    assert_eq!(get_default_outputs_folder("/opt/app"), "/opt/app/outputs");
    assert_eq!(get_default_outputs_folder("/opt/app/"), "/opt/app/outputs");
}

#[test]
fn the_transcoder_has_a_name_per_platform() {
    assert_eq!(get_ffmpeg_path("/opt/app", Platform::Linux), "/opt/app/engines/ffmpeg/bin/ffmpeg");
    assert_eq!(get_ffmpeg_path("/opt/app", Platform::MacOs), "/opt/app/engines/ffmpeg/bin/ffmpeg");
    assert_eq!(
        get_ffmpeg_path("/opt/app", Platform::Windows),
        "/opt/app/engines/ffmpeg/bin/ffmpeg.exe"
    );
}

#[test]
fn the_chosen_models_folder_has_priority() {
    assert_eq!(get_active_models_folder("/opt/app", Some("/data/models")), "/data/models");
    assert_eq!(get_active_models_folder("/opt/app", Some("   ")), "/opt/app/models");
    assert_eq!(get_active_models_folder("/opt/app", Some("")), "/opt/app/models");
    assert_eq!(get_active_models_folder("/opt/app", None), "/opt/app/models");
}

#[test]
fn the_group_list_lies_in_the_models_folder() {
    assert_eq!(
        get_model_groups_path("/opt/app", Some("/data/models")),
        "/data/models/model-groups.json"
    );
    assert_eq!(get_model_groups_path("/opt/app", None), "/opt/app/models/model-groups.json");
}

#[test]
fn model_paths_are_resolved_under_the_base_folder() {
    assert_eq!(resolve_model_path("sd/model.gguf", "/data/models"), "/data/models/sd/model.gguf");
    assert_eq!(resolve_model_path("/abs/model.gguf", "/data/models"), "/abs/model.gguf");
    assert_eq!(resolve_model_path("model.gguf", ""), "model.gguf");
}

#[test]
fn search_folders_in_order() {
    assert_eq!(
        model_search_folders("/data/models", Some("/cwd"), Some("/src/models")),
        vec!["/data/models", "/cwd/models", "/src/models"]
    );
    assert_eq!(model_search_folders("  ", Some("/cwd"), None), vec!["/cwd/models"]);
    assert!(model_search_folders("", None, None).is_empty());
}

#[test]
fn candidates_lie_under_each_folder() {
    let bases = vec!["/a".to_string(), "/b".to_string()];
    assert_eq!(model_candidates("m/x.gguf", &bases), vec!["/a/m/x.gguf", "/b/m/x.gguf"]);
    assert!(model_candidates("m/x.gguf", &Vec::new()).is_empty());
}

#[test]
fn the_first_existing_candidate_wins() {
    let bases = vec!["/a".to_string(), "/b".to_string(), "/c".to_string()];
    let probes = vec![
        missing(),
        CandidateProbe { exists: true, canonical: Some("/real/b/x.gguf".to_string()) },
        CandidateProbe { exists: true, canonical: Some("/real/c/x.gguf".to_string()) },
    ];
    assert_eq!(resolve_model_path_with_fallback("x.gguf", "/a", &bases, &probes), "/real/b/x.gguf");
}

#[test]
fn a_candidate_without_canonical_form_is_used_as_it_is() {
    let bases = vec!["/a".to_string(), "/b".to_string()];
    let probes = vec![missing(), CandidateProbe { exists: true, canonical: None }];
    assert_eq!(resolve_model_path_with_fallback("x.gguf", "/a", &bases, &probes), "/b/x.gguf");
}

#[test]
fn without_an_existing_candidate_the_path_goes_under_the_models_folder() {
    let bases = vec!["/a".to_string(), "/b".to_string()];
    let probes = vec![missing(), missing()];
    assert_eq!(resolve_model_path_with_fallback("x.gguf", "/a", &bases, &probes), "/a/x.gguf");
    assert_eq!(
        resolve_model_path_with_fallback("x.gguf", "/a", &Vec::new(), &Vec::new()),
        "/a/x.gguf"
    );
}

#[test]
fn an_absolute_path_is_never_searched() {
    let bases = vec!["/a".to_string()];
    let probes = vec![CandidateProbe { exists: true, canonical: Some("/other".to_string()) }];
    assert_eq!(resolve_model_path_with_fallback("/abs/x.gguf", "/a", &bases, &probes), "/abs/x.gguf");
}

#[test]
fn the_name_of_a_copy() {
    assert_eq!(proposed_file_name("/out/a b.png"), "a b.png");
    assert_eq!(proposed_file_name("model.gguf"), "model.gguf");
    assert_eq!(proposed_file_name("/out/dir/"), "dir");
    assert_eq!(proposed_file_name("/"), "file");
    assert_eq!(proposed_file_name(""), "file");
    assert_eq!(proposed_file_name("/out/.."), "file");
}

#[test]
fn the_name_inside_an_archive() {
    assert_eq!(archive_entry_name("/out/a.png"), "a.png");
    assert_eq!(archive_entry_name("/"), "");
    assert_eq!(archive_entry_name(""), "");
}
