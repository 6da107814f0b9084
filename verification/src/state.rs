//! The settings of the application and the slots of its running jobs.

use vstd::prelude::*;
use crate::cancel::JobSlot;
use crate::outcome::JobError;
use crate::paths::{
    get_default_models_folder, get_default_outputs_folder, get_default_sdcpp_folder, join,
    path_joined, default_models_folder,
};

verus! {

/// What the application remembers between requests.
pub struct AppState {
    pub weights_folder: Option<String>,
    pub sdcpp_folder: Option<String>,
    pub sdcpp_device_type: String,
    pub outputs_folder: Option<String>,
    /// The slot of the image job.
    pub generate_cancel: JobSlot,
    /// The slot of the video job.
    pub video_generate_cancel: JobSlot,
    /// The slot of the download.
    pub download_cancel: JobSlot,
    /// The model hub in use.
    pub hf_mirror_id: String,
}

impl AppState {
    /// The state at start: no folder chosen, the device `cpu`, the hub
    /// `huggingface`, no job running.
    pub fn new() -> (r: AppState)
        ensures
            r.weights_folder is None,
            r.sdcpp_folder is None,
            r.outputs_folder is None,
            r.sdcpp_device_type@ == "cpu"@,
            r.hf_mirror_id@ == "huggingface"@,
            r.generate_cancel.token() is None,
            r.video_generate_cancel.token() is None,
            r.download_cancel.token() is None,
    {
        AppState {
            weights_folder: None,
            sdcpp_folder: None,
            sdcpp_device_type: "cpu".to_string(),
            outputs_folder: None,
            generate_cancel: JobSlot::new(),
            video_generate_cancel: JobSlot::new(),
            download_cancel: JobSlot::new(),
            hf_mirror_id: "huggingface".to_string(),
        }
    }
}

/// Points every folder at its default place beside the executable.
pub fn init_default_folders(state: &mut AppState, run_path: &str)
    ensures
        final(state).weights_folder is Some && final(state).weights_folder->0@
            == default_models_folder(run_path@),
        final(state).sdcpp_folder is Some && final(state).sdcpp_folder->0@ == path_joined(
            path_joined(run_path@, "engines"@),
            "sdcpp"@,
        ),
        final(state).outputs_folder is Some && final(state).outputs_folder->0@ == path_joined(
            run_path@,
            "outputs"@,
        ),
        *final(state) == (AppState {
            weights_folder: final(state).weights_folder,
            sdcpp_folder: final(state).sdcpp_folder,
            outputs_folder: final(state).outputs_folder,
            ..*old(state)
        }),
{
    state.weights_folder = Some(get_default_models_folder(run_path));
    state.sdcpp_folder = Some(get_default_sdcpp_folder(run_path));
    state.outputs_folder = Some(get_default_outputs_folder(run_path));
}

/// Chooses the default models folder and hands back its path.
pub fn weights_init_default_folder(state: &mut AppState, run_path: &str) -> (r: String)
    ensures
        r@ == default_models_folder(run_path@),
        final(state).weights_folder is Some && final(state).weights_folder->0@ == r@,
        *final(state) == (AppState { weights_folder: final(state).weights_folder, ..*old(state) }),
{
    let folder = get_default_models_folder(run_path);
    state.weights_folder = Some(folder.clone());
    folder
}

/// Chooses the default engine folder and hands back its path.
pub fn sdcpp_init_default_folder(state: &mut AppState, run_path: &str) -> (r: String)
    ensures
        r@ == path_joined(path_joined(run_path@, "engines"@), "sdcpp"@),
        final(state).sdcpp_folder is Some && final(state).sdcpp_folder->0@ == r@,
        *final(state) == (AppState { sdcpp_folder: final(state).sdcpp_folder, ..*old(state) }),
{
    let folder = get_default_sdcpp_folder(run_path);
    state.sdcpp_folder = Some(folder.clone());
    folder
}

/// Chooses the models folder, where `value` is a folder, and tells whether
/// it did.
pub fn weights_set_folder(state: &mut AppState, value: String, is_dir: bool) -> (r: bool)
    ensures
        r == is_dir,
        is_dir ==> *final(state) == (AppState { weights_folder: Some(value), ..*old(state) }),
        !is_dir ==> *final(state) == *old(state),
{
    if !is_dir {
        return false;
    }
    state.weights_folder = Some(value);
    true
}

/// Chooses the engine folder, where `value` is a folder, and tells whether
/// it did.
pub fn sdcpp_set_folder(state: &mut AppState, value: String, is_dir: bool) -> (r: bool)
    ensures
        r == is_dir,
        is_dir ==> *final(state) == (AppState { sdcpp_folder: Some(value), ..*old(state) }),
        !is_dir ==> *final(state) == *old(state),
{
    if !is_dir {
        return false;
    }
    state.sdcpp_folder = Some(value);
    true
}

/// Chooses the device.
pub fn sdcpp_set_device(state: &mut AppState, value: String) -> (r: bool)
    ensures
        r,
        *final(state) == (AppState { sdcpp_device_type: value, ..*old(state) }),
{
    state.sdcpp_device_type = value;
    true
}

/// Chooses the model hub.
pub fn models_set_hf_mirror(state: &mut AppState, value: String) -> (r: bool)
    ensures
        r,
        *final(state) == (AppState { hf_mirror_id: value, ..*old(state) }),
{
    state.hf_mirror_id = value;
    true
}

/// The engine folder of a job, or the error that none is chosen.
pub fn engine_folder(state: &AppState) -> (r: Result<String, JobError>)
    ensures
        match state.sdcpp_folder {
            Some(f) => r is Ok && r->Ok_0@ == f@,
            None => r is Err && r->Err_0 is FolderNotSet,
        },
{
    match &state.sdcpp_folder {
        Some(f) => Ok(f.clone()),
        None => Err(JobError::FolderNotSet),
    }
}

/// The folder of the engine for a device; a request that names no device
/// means `cpu`.
pub fn device_folder(sdcpp_folder: &str, device_type: Option<&str>) -> (r: String)
    ensures
        r@ == path_joined(
            sdcpp_folder@,
            match device_type {
                Some(d) => d@,
                None => "cpu"@,
            },
        ),
{
    match device_type {
        Some(d) => join(sdcpp_folder, d),
        None => join(sdcpp_folder, "cpu"),
    }
}

/// The folder that generated files go to: the chosen one, or the default
/// beside the executable.
pub fn outputs_folder(state: &AppState, run_path: &str) -> (r: String)
    ensures
        r@ == (match state.outputs_folder {
            Some(f) => f@,
            None => path_joined(run_path@, "outputs"@),
        }),
{
    match &state.outputs_folder {
        Some(f) => f.clone(),
        None => get_default_outputs_folder(run_path),
    }
}

/// The models folder of a job: the chosen one, or the empty path.
pub fn weights_folder_or_empty(state: &AppState) -> (r: String)
    ensures
        r@ == (match state.weights_folder {
            Some(f) => f@,
            None => Seq::<char>::empty(),
        }),
{
    match &state.weights_folder {
        Some(f) => f.clone(),
        None => String::new(),
    }
}

} // verus!
