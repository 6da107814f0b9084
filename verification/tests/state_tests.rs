use helloui_core::cancel::generate_cancel;
use helloui_core::outcome::JobError;
use helloui_core::state::{
    device_folder, engine_folder, init_default_folders, models_set_hf_mirror, outputs_folder,
    sdcpp_init_default_folder, sdcpp_set_device, sdcpp_set_folder, weights_folder_or_empty,
    weights_init_default_folder, weights_set_folder, AppState,
};

#[test]
fn the_state_at_start() {
    let s = AppState::new();
    assert!(s.weights_folder.is_none());
    assert!(s.sdcpp_folder.is_none());
    assert!(s.outputs_folder.is_none());
    assert_eq!(s.sdcpp_device_type, "cpu");
    assert_eq!(s.hf_mirror_id, "huggingface");
    assert!(!s.generate_cancel.active());
    assert!(!s.video_generate_cancel.active());
    assert!(!s.download_cancel.active());
}

#[test]
fn default_folders_are_set_at_once() {
    let mut s = AppState::new();
    init_default_folders(&mut s, "/opt/app");
    assert_eq!(s.weights_folder.as_deref(), Some("/opt/app/models"));
    assert_eq!(s.sdcpp_folder.as_deref(), Some("/opt/app/engines/sdcpp"));
    assert_eq!(s.outputs_folder.as_deref(), Some("/opt/app/outputs"));
}

#[test]
fn default_folders_one_by_one() {
    let mut s = AppState::new();
    assert_eq!(weights_init_default_folder(&mut s, "/opt/app"), "/opt/app/models");
    assert_eq!(s.weights_folder.as_deref(), Some("/opt/app/models"));
    assert!(s.sdcpp_folder.is_none());
    assert_eq!(sdcpp_init_default_folder(&mut s, "/opt/app"), "/opt/app/engines/sdcpp");
    assert_eq!(s.sdcpp_folder.as_deref(), Some("/opt/app/engines/sdcpp"));
}

#[test]
fn a_folder_is_chosen_only_if_it_is_one() {
    let mut s = AppState::new();
    assert!(!weights_set_folder(&mut s, "/nope".to_string(), false));
    assert!(s.weights_folder.is_none());
    assert!(weights_set_folder(&mut s, "/data".to_string(), true));
    assert_eq!(s.weights_folder.as_deref(), Some("/data"));
    assert!(!sdcpp_set_folder(&mut s, "/nope".to_string(), false));
    assert!(s.sdcpp_folder.is_none());
    assert!(sdcpp_set_folder(&mut s, "/engines".to_string(), true));
    assert_eq!(s.sdcpp_folder.as_deref(), Some("/engines"));
    assert_eq!(s.weights_folder.as_deref(), Some("/data"));
}

#[test]
fn device_and_hub_are_chosen() {
    let mut s = AppState::new();
    assert!(sdcpp_set_device(&mut s, "cuda".to_string()));
    assert_eq!(s.sdcpp_device_type, "cuda");
    assert!(models_set_hf_mirror(&mut s, "hf-mirror".to_string()));
    assert_eq!(s.hf_mirror_id, "hf-mirror");
}

#[test]
fn the_engine_folder_of_a_job() {
    let mut s = AppState::new();
    assert!(matches!(engine_folder(&s), Err(JobError::FolderNotSet)));
    sdcpp_set_folder(&mut s, "/engines".to_string(), true);
    assert_eq!(engine_folder(&s).unwrap(), "/engines");
    assert_eq!(device_folder("/engines", Some("cuda")), "/engines/cuda");
    assert_eq!(device_folder("/engines", None), "/engines/cpu");
}

#[test]
fn the_folders_of_a_job() {
    let mut s = AppState::new();
    assert_eq!(outputs_folder(&s, "/opt/app"), "/opt/app/outputs");
    assert_eq!(weights_folder_or_empty(&s), "");
    s.outputs_folder = Some("/custom/out".to_string());
    s.weights_folder = Some("/custom/models".to_string());
    assert_eq!(outputs_folder(&s, "/opt/app"), "/custom/out");
    assert_eq!(weights_folder_or_empty(&s), "/custom/models");
}

#[test]
fn each_kind_has_a_slot_of_its_own() {
    let mut s = AppState::new();
    let (observer, _) = s.video_generate_cancel.register();
    let (reply, _) = generate_cancel(&mut s.generate_cancel);
    assert!(!reply.success);
    assert!(!observer.is_fired());
    assert!(s.video_generate_cancel.active());
    assert!(!s.download_cancel.active());
}
