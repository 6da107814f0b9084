//! The command line of the worker, built from the parameters of a request.

use vstd::prelude::*;
use crate::paths::{resolve_model_path, resolved_model_path};
use crate::text::{decimal, i64_to_string, same_text, signed_decimal, texts, u64_to_string};

verus! {

/// The model files of a model group, each a path that may be relative to the
/// models folder.
#[derive(Debug)]
pub struct GroupModels {
    pub id: String,
    pub sd_model: Option<String>,
    pub diffusion_model: Option<String>,
    pub high_noise_sd_model: Option<String>,
    pub vae_model: Option<String>,
    pub llm_model: Option<String>,
    pub clip_l_model: Option<String>,
    pub t5xxl_model: Option<String>,
    pub clip_vision_model: Option<String>,
}

/// One model handed to the worker: the option that names its role, and its
/// path.
#[derive(Debug)]
pub struct ModelRef {
    pub flag: String,
    pub path: String,
}

/// The parameters of an image request. A field that the request does not
/// hold, or holds with a value of another type, is `None`; a switch is on
/// only where the request holds `true`. Numbers that are not integers come
/// as the text the worker is to read.
#[derive(Debug)]
pub struct GenerateParams {
    pub diffusion_model: Option<String>,
    pub sd_model: Option<String>,
    pub vae_model: Option<String>,
    pub llm_model: Option<String>,
    pub clip_l_model: Option<String>,
    pub t5xxl_model: Option<String>,
    pub group_id: Option<String>,
    pub prompt: Option<String>,
    pub negative_prompt: Option<String>,
    pub width: Option<u64>,
    pub height: Option<u64>,
    pub steps: Option<u64>,
    pub cfg_scale: Option<String>,
    pub seed: Option<i64>,
    pub sampling_method: Option<String>,
    pub scheduler: Option<String>,
    pub batch_count: Option<u64>,
    pub threads: Option<u64>,
    pub verbose: bool,
    pub color: bool,
    pub offload_to_cpu: bool,
    pub diffusion_fa: bool,
    pub control_net_cpu: bool,
    pub clip_on_cpu: bool,
    pub vae_on_cpu: bool,
    pub diffusion_conv_direct: bool,
    pub vae_conv_direct: bool,
    pub vae_tiling: bool,
    pub preview: Option<String>,
    pub preview_interval: Option<u64>,
    pub input_image: Option<String>,
}

/// The parameters of a video request, read as those of an image request are.
#[derive(Debug)]
pub struct VideoParams {
    pub group_id: Option<String>,
    pub mode: Option<String>,
    pub prompt: Option<String>,
    pub negative_prompt: Option<String>,
    pub width: Option<u64>,
    pub height: Option<u64>,
    pub steps: Option<u64>,
    pub cfg_scale: Option<String>,
    pub seed: Option<i64>,
    pub sampling_method: Option<String>,
    pub flow_shift: Option<String>,
    pub high_noise_steps: Option<u64>,
    pub high_noise_cfg_scale: Option<String>,
    pub high_noise_sampling_method: Option<String>,
    pub init_image: Option<String>,
    pub verbose: bool,
    pub offload_to_cpu: bool,
    pub clip_on_cpu: bool,
    pub vae_on_cpu: bool,
    pub vae_tiling: bool,
}

impl GroupModels {
    /// A group that names no model.
    pub fn new(id: String) -> (r: GroupModels)
        ensures
            r == (GroupModels {
                id,
                sd_model: None,
                diffusion_model: None,
                high_noise_sd_model: None,
                vae_model: None,
                llm_model: None,
                clip_l_model: None,
                t5xxl_model: None,
                clip_vision_model: None,
            }),
    {
        GroupModels {
            id,
            sd_model: None,
            diffusion_model: None,
            high_noise_sd_model: None,
            vae_model: None,
            llm_model: None,
            clip_l_model: None,
            t5xxl_model: None,
            clip_vision_model: None,
        }
    }
}

impl GenerateParams {
    /// The request that holds nothing.
    pub fn new() -> (r: GenerateParams)
        ensures
            r == (GenerateParams {
                diffusion_model: None,
                sd_model: None,
                vae_model: None,
                llm_model: None,
                clip_l_model: None,
                t5xxl_model: None,
                group_id: None,
                prompt: None,
                negative_prompt: None,
                width: None,
                height: None,
                steps: None,
                cfg_scale: None,
                seed: None,
                sampling_method: None,
                scheduler: None,
                batch_count: None,
                threads: None,
                verbose: false,
                color: false,
                offload_to_cpu: false,
                diffusion_fa: false,
                control_net_cpu: false,
                clip_on_cpu: false,
                vae_on_cpu: false,
                diffusion_conv_direct: false,
                vae_conv_direct: false,
                vae_tiling: false,
                preview: None,
                preview_interval: None,
                input_image: None,
            }),
    {
        GenerateParams {
            diffusion_model: None,
            sd_model: None,
            vae_model: None,
            llm_model: None,
            clip_l_model: None,
            t5xxl_model: None,
            group_id: None,
            prompt: None,
            negative_prompt: None,
            width: None,
            height: None,
            steps: None,
            cfg_scale: None,
            seed: None,
            sampling_method: None,
            scheduler: None,
            batch_count: None,
            threads: None,
            verbose: false,
            color: false,
            offload_to_cpu: false,
            diffusion_fa: false,
            control_net_cpu: false,
            clip_on_cpu: false,
            vae_on_cpu: false,
            diffusion_conv_direct: false,
            vae_conv_direct: false,
            vae_tiling: false,
            preview: None,
            preview_interval: None,
            input_image: None,
        }
    }
}

impl VideoParams {
    /// The request that holds nothing.
    pub fn new() -> (r: VideoParams)
        ensures
            r == (VideoParams {
                group_id: None,
                mode: None,
                prompt: None,
                negative_prompt: None,
                width: None,
                height: None,
                steps: None,
                cfg_scale: None,
                seed: None,
                sampling_method: None,
                flow_shift: None,
                high_noise_steps: None,
                high_noise_cfg_scale: None,
                high_noise_sampling_method: None,
                init_image: None,
                verbose: false,
                offload_to_cpu: false,
                clip_on_cpu: false,
                vae_on_cpu: false,
                vae_tiling: false,
            }),
    {
        VideoParams {
            group_id: None,
            mode: None,
            prompt: None,
            negative_prompt: None,
            width: None,
            height: None,
            steps: None,
            cfg_scale: None,
            seed: None,
            sampling_method: None,
            flow_shift: None,
            high_noise_steps: None,
            high_noise_cfg_scale: None,
            high_noise_sampling_method: None,
            init_image: None,
            verbose: false,
            offload_to_cpu: false,
            clip_on_cpu: false,
            vae_on_cpu: false,
            vae_tiling: false,
        }
    }
}

pub open spec fn text_of(v: Option<String>) -> Option<Seq<char>> {
    match v {
        Some(s) => Some(s@),
        None => None,
    }
}

/// An option with a text: given when the text is there and not empty.
pub open spec fn opt_text(flag: Seq<char>, v: Option<Seq<char>>) -> Seq<Seq<char>> {
    match v {
        Some(s) => if s.len() > 0 {
            seq![flag, s]
        } else {
            Seq::empty()
        },
        None => Seq::empty(),
    }
}

/// An option with a text that is given whenever the text is there.
pub open spec fn opt_any(flag: Seq<char>, v: Option<Seq<char>>) -> Seq<Seq<char>> {
    match v {
        Some(s) => seq![flag, s],
        None => Seq::empty(),
    }
}

/// An option with a number.
pub open spec fn opt_number(flag: Seq<char>, v: Option<u64>) -> Seq<Seq<char>> {
    match v {
        Some(n) => seq![flag, decimal(n as nat)],
        None => Seq::empty(),
    }
}

/// An option with a number that may be negative.
pub open spec fn opt_signed(flag: Seq<char>, v: Option<i64>) -> Seq<Seq<char>> {
    match v {
        Some(n) => seq![flag, signed_decimal(n as int)],
        None => Seq::empty(),
    }
}

/// A switch.
pub open spec fn opt_switch(flag: Seq<char>, on: bool) -> Seq<Seq<char>> {
    if on {
        seq![flag]
    } else {
        Seq::empty()
    }
}

/// The number of images, given only when more than one is asked for.
pub open spec fn opt_batch(v: Option<u64>) -> Seq<Seq<char>> {
    match v {
        Some(n) => if n > 1 {
            seq!["-b"@, decimal(n as nat)]
        } else {
            Seq::empty()
        },
        None => Seq::empty(),
    }
}

fn add_text(out: &mut Vec<String>, flag: &str, v: &Option<String>)
    ensures
        texts(final(out)@) == texts(old(out)@) + opt_text(flag@, text_of(*v)),
{
    match v {
        Some(s) => {
            if !s.as_str().is_empty() {
                out.push(flag.to_string());
                out.push(s.clone());
            }
        },
        None => {},
    }
    assert(texts(out@) =~= texts(old(out)@) + opt_text(flag@, text_of(*v)));
}

fn add_any(out: &mut Vec<String>, flag: &str, v: &Option<String>)
    ensures
        texts(final(out)@) == texts(old(out)@) + opt_any(flag@, text_of(*v)),
{
    match v {
        Some(s) => {
            out.push(flag.to_string());
            out.push(s.clone());
        },
        None => {},
    }
    assert(texts(out@) =~= texts(old(out)@) + opt_any(flag@, text_of(*v)));
}

fn add_number(out: &mut Vec<String>, flag: &str, v: Option<u64>)
    ensures
        texts(final(out)@) == texts(old(out)@) + opt_number(flag@, v),
{
    match v {
        Some(n) => {
            out.push(flag.to_string());
            out.push(u64_to_string(n));
        },
        None => {},
    }
    assert(texts(out@) =~= texts(old(out)@) + opt_number(flag@, v));
}

fn add_signed(out: &mut Vec<String>, flag: &str, v: Option<i64>)
    ensures
        texts(final(out)@) == texts(old(out)@) + opt_signed(flag@, v),
{
    match v {
        Some(n) => {
            out.push(flag.to_string());
            out.push(i64_to_string(n));
        },
        None => {},
    }
    assert(texts(out@) =~= texts(old(out)@) + opt_signed(flag@, v));
}

fn add_switch(out: &mut Vec<String>, flag: &str, on: bool)
    ensures
        texts(final(out)@) == texts(old(out)@) + opt_switch(flag@, on),
{
    if on {
        out.push(flag.to_string());
    }
    assert(texts(out@) =~= texts(old(out)@) + opt_switch(flag@, on));
}

fn add_batch(out: &mut Vec<String>, v: Option<u64>)
    ensures
        texts(final(out)@) == texts(old(out)@) + opt_batch(v),
{
    match v {
        Some(n) => {
            if n > 1 {
                out.push("-b".to_string());
                out.push(u64_to_string(n));
            }
        },
        None => {},
    }
    assert(texts(out@) =~= texts(old(out)@) + opt_batch(v));
}

/// The index of the first group with the given identifier.
pub open spec fn group_index(groups: Seq<GroupModels>, id: Seq<char>) -> Option<int>
    decreases groups.len(),
{
    if groups.len() == 0 {
        None
    } else {
        match group_index(groups.drop_last(), id) {
            Some(i) => Some(i),
            None => if groups.last().id@ == id {
                Some(groups.len() - 1)
            } else {
                None
            },
        }
    }
}

pub proof fn lemma_group_index(groups: Seq<GroupModels>, id: Seq<char>)
    ensures
        match group_index(groups, id) {
            Some(i) => 0 <= i < groups.len() && groups[i].id@ == id && forall|j: int|
                0 <= j < i ==> groups[j].id@ != id,
            None => forall|j: int| 0 <= j < groups.len() ==> groups[j].id@ != id,
        },
    decreases groups.len(),
{
    if groups.len() > 0 {
        lemma_group_index(groups.drop_last(), id);
        assert forall|j: int| 0 <= j < groups.len() - 1 implies groups.drop_last()[j]
            == groups[j] by {}
    }
}

/// Finds the first group with the given identifier.
pub fn find_group(groups: &Vec<GroupModels>, id: &str) -> (r: Option<usize>)
    ensures
        match r {
            Some(i) => group_index(groups@, id@) == Some(i as int),
            None => group_index(groups@, id@) is None,
        },
{
    let mut i: usize = 0;
    while i < groups.len()
        invariant
            i <= groups.len(),
            forall|j: int| 0 <= j < i ==> groups@[j].id@ != id@,
        decreases groups.len() - i,
    {
        if same_text(groups[i].id.as_str(), id) {
            proof {
                lemma_group_index(groups@, id@);
            }
            return Some(i);
        }
        i += 1;
    }
    proof {
        lemma_group_index(groups@, id@);
    }
    None
}

/// One model, where its path is there and not empty.
pub open spec fn model_entry(flag: Seq<char>, v: Option<String>) -> Seq<(Seq<char>, Seq<char>)> {
    match v {
        Some(s) => if s@.len() > 0 {
            seq![(flag, s@)]
        } else {
            Seq::empty()
        },
        None => Seq::empty(),
    }
}

/// One model, wherever its path is there.
pub open spec fn model_entry_any(flag: Seq<char>, v: Option<String>) -> Seq<
    (Seq<char>, Seq<char>),
> {
    match v {
        Some(s) => seq![(flag, s@)],
        None => Seq::empty(),
    }
}

pub open spec fn refs(v: Seq<ModelRef>) -> Seq<(Seq<char>, Seq<char>)> {
    Seq::new(v.len(), |i: int| (v[i].flag@, v[i].path@))
}

/// Whether the request itself names the main model.
pub open spec fn names_main_model(p: GenerateParams) -> bool {
    (p.diffusion_model is Some && p.diffusion_model->0@.len() > 0) || (p.sd_model is Some
        && p.sd_model->0@.len() > 0)
}

/// The models that the request itself names.
pub open spec fn request_models(p: GenerateParams) -> Seq<(Seq<char>, Seq<char>)> {
    model_entry("--diffusion-model"@, p.diffusion_model) + model_entry("-m"@, p.sd_model)
        + model_entry("--vae"@, p.vae_model) + model_entry("--llm"@, p.llm_model) + model_entry(
        "--clip_l"@,
        p.clip_l_model,
    ) + model_entry("--t5xxl"@, p.t5xxl_model)
}

/// `base` followed by the models that a group gives to an image job. The
/// main model is passed on even where its path is empty.
pub open spec fn with_group_image_models(
    base: Seq<(Seq<char>, Seq<char>)>,
    g: GroupModels,
) -> Seq<(Seq<char>, Seq<char>)> {
    base + model_entry("--diffusion-model"@, g.diffusion_model) + model_entry_any(
        "-m"@,
        g.sd_model,
    ) + model_entry("--vae"@, g.vae_model) + model_entry("--llm"@, g.llm_model) + model_entry(
        "--clip_l"@,
        g.clip_l_model,
    ) + model_entry("--t5xxl"@, g.t5xxl_model)
}

/// The models that a group gives to a video job. The language model goes
/// under `--clip_l`.
pub open spec fn group_video_models(g: GroupModels) -> Seq<(Seq<char>, Seq<char>)> {
    model_entry_any("-m"@, g.sd_model) + model_entry("--vae"@, g.vae_model) + model_entry(
        "--clip_l"@,
        g.llm_model,
    ) + model_entry("--clip-vision"@, g.clip_vision_model) + model_entry(
        "--t5xxl"@,
        g.t5xxl_model,
    ) + model_entry("--high-noise-model"@, g.high_noise_sd_model)
}

/// The models of an image job, in the order the worker gets them: those the
/// request names, then those of its group where the request names no main
/// model and the group is known.
pub open spec fn image_models(p: GenerateParams, group: Option<GroupModels>) -> Seq<
    (Seq<char>, Seq<char>),
> {
    if !names_main_model(p) && p.group_id is Some && group is Some {
        with_group_image_models(request_models(p), group->0)
    } else {
        request_models(p)
    }
}

fn add_model(out: &mut Vec<ModelRef>, flag: &str, v: &Option<String>)
    ensures
        refs(final(out)@) == refs(old(out)@) + model_entry(flag@, *v),
{
    match v {
        Some(s) => {
            if !s.as_str().is_empty() {
                out.push(ModelRef { flag: flag.to_string(), path: s.clone() });
            }
        },
        None => {},
    }
    assert(refs(out@) =~= refs(old(out)@) + model_entry(flag@, *v));
}

fn add_model_any(out: &mut Vec<ModelRef>, flag: &str, v: &Option<String>)
    ensures
        refs(final(out)@) == refs(old(out)@) + model_entry_any(flag@, *v),
{
    match v {
        Some(s) => {
            out.push(ModelRef { flag: flag.to_string(), path: s.clone() });
        },
        None => {},
    }
    assert(refs(out@) =~= refs(old(out)@) + model_entry_any(flag@, *v));
}

fn request_model_references(params: &GenerateParams) -> (r: Vec<ModelRef>)
    ensures
        refs(r@) == request_models(*params),
{
    let mut out: Vec<ModelRef> = Vec::new();
    assert(refs(out@) =~= Seq::<(Seq<char>, Seq<char>)>::empty());
    add_model(&mut out, "--diffusion-model", &params.diffusion_model);
    assert(refs(out@) =~= model_entry("--diffusion-model"@, params.diffusion_model));
    add_model(&mut out, "-m", &params.sd_model);
    add_model(&mut out, "--vae", &params.vae_model);
    add_model(&mut out, "--llm", &params.llm_model);
    add_model(&mut out, "--clip_l", &params.clip_l_model);
    add_model(&mut out, "--t5xxl", &params.t5xxl_model);
    out
}

fn add_group_image_models(out: &mut Vec<ModelRef>, g: &GroupModels)
    ensures
        refs(final(out)@) == with_group_image_models(refs(old(out)@), *g),
{
    add_model(out, "--diffusion-model", &g.diffusion_model);
    add_model_any(out, "-m", &g.sd_model);
    add_model(out, "--vae", &g.vae_model);
    add_model(out, "--llm", &g.llm_model);
    add_model(out, "--clip_l", &g.clip_l_model);
    add_model(out, "--t5xxl", &g.t5xxl_model);
}

fn names_main(params: &GenerateParams) -> (r: bool)
    ensures
        r == names_main_model(*params),
{
    let diffusion = match &params.diffusion_model {
        Some(s) => !s.as_str().is_empty(),
        None => false,
    };
    let sd = match &params.sd_model {
        Some(s) => !s.as_str().is_empty(),
        None => false,
    };
    diffusion || sd
}

/// Whether the models of an image job are to be looked up in its group: the
/// request names a group and no main model of its own.
pub fn wants_group_models(params: &GenerateParams) -> (r: bool)
    ensures
        r == (!names_main_model(*params) && params.group_id is Some),
{
    !names_main(params) && params.group_id.is_some()
}

/// Lists the models of an image job with their paths as the request and the
/// group give them. `group` is the group that the request names, where the
/// list of groups holds it.
pub fn image_model_references(params: &GenerateParams, group: Option<&GroupModels>) -> (r: Vec<
    ModelRef,
>)
    ensures
        refs(r@) == image_models(
            *params,
            match group {
                Some(g) => Some(*g),
                None => None,
            },
        ),
{
    let mut out = request_model_references(params);
    if !names_main(params) && params.group_id.is_some() {
        match group {
            Some(g) => {
                add_group_image_models(&mut out, g);
            },
            None => {},
        }
    }
    out
}

/// The option and the path of each model, one after the other.
pub open spec fn model_args(models: Seq<(Seq<char>, Seq<char>)>) -> Seq<Seq<char>>
    decreases models.len(),
{
    if models.len() == 0 {
        Seq::empty()
    } else {
        model_args(models.drop_last()) + seq![models.last().0, models.last().1]
    }
}

fn add_models(out: &mut Vec<String>, models: &Vec<ModelRef>)
    ensures
        texts(final(out)@) == texts(old(out)@) + model_args(refs(models@)),
{
    let mut i: usize = 0;
    assert(refs(models@).take(0) =~= Seq::<(Seq<char>, Seq<char>)>::empty());
    assert(texts(out@) =~= texts(old(out)@) + model_args(refs(models@).take(0)));
    while i < models.len()
        invariant
            i <= models.len(),
            texts(out@) == texts(old(out)@) + model_args(refs(models@).take(i as int)),
        decreases models.len() - i,
    {
        let ghost before = refs(models@).take(i as int);
        let ghost after = refs(models@).take(i + 1);
        let ghost so_far = texts(out@);
        out.push(models[i].flag.clone());
        out.push(models[i].path.clone());
        proof {
            let pair = seq![models@[i as int].flag@, models@[i as int].path@];
            assert(after.drop_last() =~= before);
            assert(after.last() == (models@[i as int].flag@, models@[i as int].path@));
            assert(model_args(after) == model_args(before) + pair);
            assert(texts(out@) =~= so_far + pair);
            assert((texts(old(out)@) + model_args(before)) + pair =~= texts(old(out)@) + (
                model_args(before) + pair));
        }
        i += 1;
    }
    assert(refs(models@).take(models@.len() as int) =~= refs(models@));
}

/// The command line of an image job: the models, then each option that the
/// request holds, then `-o` and the output path.
pub open spec fn generate_args(
    p: GenerateParams,
    models: Seq<(Seq<char>, Seq<char>)>,
    output: Seq<char>,
) -> Seq<Seq<char>> {
    model_args(models) + opt_text("-p"@, text_of(p.prompt)) + opt_text(
        "-n"@,
        text_of(p.negative_prompt),
    ) + opt_number("-W"@, p.width) + opt_number("-H"@, p.height) + opt_number("--steps"@, p.steps)
        + opt_any("--cfg-scale"@, text_of(p.cfg_scale)) + opt_signed("-s"@, p.seed) + opt_text(
        "--sampling-method"@,
        text_of(p.sampling_method),
    ) + opt_text("--scheduler"@, text_of(p.scheduler)) + opt_batch(p.batch_count) + opt_number(
        "-t"@,
        p.threads,
    ) + opt_switch("-v"@, p.verbose) + opt_switch("--color"@, p.color) + opt_switch(
        "--offload-to-cpu"@,
        p.offload_to_cpu,
    ) + opt_switch("--diffusion-fa"@, p.diffusion_fa) + opt_switch(
        "--control-net-cpu"@,
        p.control_net_cpu,
    ) + opt_switch("--clip-on-cpu"@, p.clip_on_cpu) + opt_switch("--vae-on-cpu"@, p.vae_on_cpu)
        + opt_switch("--diffusion-conv-direct"@, p.diffusion_conv_direct) + opt_switch(
        "--vae-conv-direct"@,
        p.vae_conv_direct,
    ) + opt_switch("--vae-tiling"@, p.vae_tiling) + opt_text("--preview"@, text_of(p.preview))
        + opt_number("--preview-interval"@, p.preview_interval) + opt_text(
        "-i"@,
        text_of(p.input_image),
    ) + seq!["-o"@, output]
}

/// Builds the command line of an image job. `models` are the models of the
/// job with their paths resolved.
pub fn build_generate_args(params: &GenerateParams, models: &Vec<ModelRef>, output_path: &str) -> (r:
    Vec<String>)
    ensures
        texts(r@) == generate_args(*params, refs(models@), output_path@),
{
    let mut out: Vec<String> = Vec::new();
    assert(texts(out@) =~= Seq::<Seq<char>>::empty());
    add_models(&mut out, models);
    assert(texts(out@) =~= model_args(refs(models@)));
    add_text(&mut out, "-p", &params.prompt);
    add_text(&mut out, "-n", &params.negative_prompt);
    add_number(&mut out, "-W", params.width);
    add_number(&mut out, "-H", params.height);
    add_number(&mut out, "--steps", params.steps);
    add_any(&mut out, "--cfg-scale", &params.cfg_scale);
    add_signed(&mut out, "-s", params.seed);
    add_text(&mut out, "--sampling-method", &params.sampling_method);
    add_text(&mut out, "--scheduler", &params.scheduler);
    add_batch(&mut out, params.batch_count);
    add_number(&mut out, "-t", params.threads);
    add_switch(&mut out, "-v", params.verbose);
    add_switch(&mut out, "--color", params.color);
    add_switch(&mut out, "--offload-to-cpu", params.offload_to_cpu);
    add_switch(&mut out, "--diffusion-fa", params.diffusion_fa);
    add_switch(&mut out, "--control-net-cpu", params.control_net_cpu);
    add_switch(&mut out, "--clip-on-cpu", params.clip_on_cpu);
    add_switch(&mut out, "--vae-on-cpu", params.vae_on_cpu);
    add_switch(&mut out, "--diffusion-conv-direct", params.diffusion_conv_direct);
    add_switch(&mut out, "--vae-conv-direct", params.vae_conv_direct);
    add_switch(&mut out, "--vae-tiling", params.vae_tiling);
    add_text(&mut out, "--preview", &params.preview);
    add_number(&mut out, "--preview-interval", params.preview_interval);
    add_text(&mut out, "-i", &params.input_image);
    let ghost before = texts(out@);
    out.push("-o".to_string());
    out.push(output_path.to_string());
    assert(texts(out@) =~= before + seq!["-o"@, output_path@]);
    out
}

/// The models of a video job with their paths resolved under the models
/// folder: those of the group, where the request names one that is known.
pub open spec fn video_models(
    p: VideoParams,
    group: Option<GroupModels>,
    weights_folder: Seq<char>,
) -> Seq<(Seq<char>, Seq<char>)> {
    if p.group_id is Some && group is Some {
        let raw = group_video_models(group->0);
        Seq::new(raw.len(), |i: int| (raw[i].0, resolved_model_path(raw[i].1, weights_folder)))
    } else {
        Seq::empty()
    }
}

pub open spec fn video_mode(p: VideoParams) -> Seq<char> {
    match p.mode {
        Some(m) => m@,
        None => "text2video"@,
    }
}

/// The command line of a video job.
pub open spec fn video_args(
    p: VideoParams,
    group: Option<GroupModels>,
    weights_folder: Seq<char>,
    output: Seq<char>,
) -> Seq<Seq<char>> {
    model_args(video_models(p, group, weights_folder)) + seq!["--mode"@, video_mode(p)] + opt_text(
        "-p"@,
        text_of(p.prompt),
    ) + opt_text("-n"@, text_of(p.negative_prompt)) + opt_number("-W"@, p.width) + opt_number(
        "-H"@,
        p.height,
    ) + opt_number("--steps"@, p.steps) + opt_any("--cfg-scale"@, text_of(p.cfg_scale))
        + opt_signed("-s"@, p.seed) + opt_text("--sampling-method"@, text_of(p.sampling_method))
        + opt_any("--flow-shift"@, text_of(p.flow_shift)) + opt_number(
        "--high-noise-steps"@,
        p.high_noise_steps,
    ) + opt_any("--high-noise-cfg-scale"@, text_of(p.high_noise_cfg_scale)) + opt_text(
        "--high-noise-sampling-method"@,
        text_of(p.high_noise_sampling_method),
    ) + opt_text("-i"@, text_of(p.init_image)) + opt_switch("-v"@, p.verbose) + opt_switch(
        "--offload-to-cpu"@,
        p.offload_to_cpu,
    ) + opt_switch("--clip-on-cpu"@, p.clip_on_cpu) + opt_switch("--vae-on-cpu"@, p.vae_on_cpu)
        + opt_switch("--vae-tiling"@, p.vae_tiling) + seq!["-o"@, output]
}

fn resolve_all(raw: &Vec<ModelRef>, weights_folder: &str) -> (r: Vec<ModelRef>)
    ensures
        r@.len() == raw@.len(),
        forall|i: int|
            0 <= i < r@.len() ==> (#[trigger] r@[i]).flag@ == raw@[i].flag@ && r@[i].path@
                == resolved_model_path(raw@[i].path@, weights_folder@),
{
    let mut out: Vec<ModelRef> = Vec::new();
    let mut i: usize = 0;
    while i < raw.len()
        invariant
            i <= raw.len(),
            out@.len() == i,
            forall|k: int|
                0 <= k < out@.len() ==> (#[trigger] out@[k]).flag@ == raw@[k].flag@ && out@[k].path@
                    == resolved_model_path(raw@[k].path@, weights_folder@),
        decreases raw.len() - i,
    {
        out.push(
            ModelRef {
                flag: raw[i].flag.clone(),
                path: resolve_model_path(raw[i].path.as_str(), weights_folder),
            },
        );
        i += 1;
    }
    out
}

/// Builds the command line of a video job. `group` is the group that the
/// request names, where the list of groups holds it.
pub fn build_video_args(
    params: &VideoParams,
    group: Option<&GroupModels>,
    weights_folder: &str,
    output_path: &str,
) -> (r: Vec<String>)
    ensures
        texts(r@) == video_args(
            *params,
            match group {
                Some(g) => Some(*g),
                None => None,
            },
            weights_folder@,
            output_path@,
        ),
{
    let ghost g_view = match group {
        Some(g) => Some(*g),
        None => None,
    };
    let mut raw: Vec<ModelRef> = Vec::new();
    assert(refs(raw@) =~= Seq::<(Seq<char>, Seq<char>)>::empty());
    if params.group_id.is_some() {
        match group {
            Some(g) => {
                add_model_any(&mut raw, "-m", &g.sd_model);
                assert(refs(raw@) =~= model_entry_any("-m"@, g.sd_model));
                add_model(&mut raw, "--vae", &g.vae_model);
                add_model(&mut raw, "--clip_l", &g.llm_model);
                add_model(&mut raw, "--clip-vision", &g.clip_vision_model);
                add_model(&mut raw, "--t5xxl", &g.t5xxl_model);
                add_model(&mut raw, "--high-noise-model", &g.high_noise_sd_model);
            },
            None => {},
        }
    }
    let models = resolve_all(&raw, weights_folder);
    assert(refs(models@) =~= video_models(*params, g_view, weights_folder@));
    let mut out: Vec<String> = Vec::new();
    assert(texts(out@) =~= Seq::<Seq<char>>::empty());
    add_models(&mut out, &models);
    assert(texts(out@) =~= model_args(refs(models@)));
    let ghost before_mode = texts(out@);
    out.push("--mode".to_string());
    match &params.mode {
        Some(m) => {
            out.push(m.clone());
        },
        None => {
            out.push("text2video".to_string());
        },
    }
    assert(texts(out@) =~= before_mode + seq!["--mode"@, video_mode(*params)]);
    add_text(&mut out, "-p", &params.prompt);
    add_text(&mut out, "-n", &params.negative_prompt);
    add_number(&mut out, "-W", params.width);
    add_number(&mut out, "-H", params.height);
    add_number(&mut out, "--steps", params.steps);
    add_any(&mut out, "--cfg-scale", &params.cfg_scale);
    add_signed(&mut out, "-s", params.seed);
    add_text(&mut out, "--sampling-method", &params.sampling_method);
    add_any(&mut out, "--flow-shift", &params.flow_shift);
    add_number(&mut out, "--high-noise-steps", params.high_noise_steps);
    add_any(&mut out, "--high-noise-cfg-scale", &params.high_noise_cfg_scale);
    add_text(&mut out, "--high-noise-sampling-method", &params.high_noise_sampling_method);
    add_text(&mut out, "-i", &params.init_image);
    add_switch(&mut out, "-v", params.verbose);
    add_switch(&mut out, "--offload-to-cpu", params.offload_to_cpu);
    add_switch(&mut out, "--clip-on-cpu", params.clip_on_cpu);
    add_switch(&mut out, "--vae-on-cpu", params.vae_on_cpu);
    add_switch(&mut out, "--vae-tiling", params.vae_tiling);
    let ghost before = texts(out@);
    out.push("-o".to_string());
    out.push(output_path.to_string());
    assert(texts(out@) =~= before + seq!["-o"@, output_path@]);
    out
}

} // verus!
