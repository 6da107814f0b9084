use helloui_core::args::{
    build_generate_args, build_video_args, find_group, image_model_references, GenerateParams,
    GroupModels, ModelRef, VideoParams,
};

fn text(s: &str) -> Option<String> {
    Some(s.to_string())
}

fn pairs(refs: &[ModelRef]) -> Vec<(String, String)> {
    refs.iter().map(|r| (r.flag.clone(), r.path.clone())).collect()
}

fn pair(a: &str, b: &str) -> (String, String) {
    (a.to_string(), b.to_string())
}

#[test]
fn an_empty_request_gives_only_the_output() {
    let args = build_generate_args(&GenerateParams::new(), &Vec::new(), "/out/x.png");
    assert_eq!(args, vec!["-o", "/out/x.png"]);
}

#[test]
fn image_arguments_in_order() {
    let mut p = GenerateParams::new();
    p.prompt = text("a cat");
    p.negative_prompt = text("");
    p.width = Some(512);
    p.height = Some(768);
    p.steps = Some(20);
    p.cfg_scale = text("7.5");
    p.seed = Some(-1);
    p.sampling_method = text("euler_a");
    p.scheduler = text("karras");
    p.batch_count = Some(1);
    p.threads = Some(8);
    p.verbose = true;
    p.vae_tiling = true;
    p.preview = text("proj");
    p.preview_interval = Some(2);
    p.input_image = text("/in.png");
    let models = vec![ModelRef { flag: "-m".to_string(), path: "/m/sd.gguf".to_string() }];
    let args = build_generate_args(&p, &models, "/out/x.png");
    assert_eq!(
        args,
        vec![
            "-m",
            "/m/sd.gguf",
            "-p",
            "a cat",
            "-W",
            "512",
            "-H",
            "768",
            "--steps",
            "20",
            "--cfg-scale",
            "7.5",
            "-s",
            "-1",
            "--sampling-method",
            "euler_a",
            "--scheduler",
            "karras",
            "-t",
            "8",
            "-v",
            "--vae-tiling",
            "--preview",
            "proj",
            "--preview-interval",
            "2",
            "-i",
            "/in.png",
            "-o",
            "/out/x.png"
        ]
    );
}

#[test]
fn every_switch_has_its_option() {
    let mut p = GenerateParams::new();
    p.verbose = true;
    p.color = true;
    p.offload_to_cpu = true;
    p.diffusion_fa = true;
    p.control_net_cpu = true;
    p.clip_on_cpu = true;
    p.vae_on_cpu = true;
    p.diffusion_conv_direct = true;
    p.vae_conv_direct = true;
    p.vae_tiling = true;
    p.batch_count = Some(4);
    let args = build_generate_args(&p, &Vec::new(), "o");
    assert_eq!(
        args,
        vec![
            "-b",
            "4",
            "-v",
            "--color",
            "--offload-to-cpu",
            "--diffusion-fa",
            "--control-net-cpu",
            "--clip-on-cpu",
            "--vae-on-cpu",
            "--diffusion-conv-direct",
            "--vae-conv-direct",
            "--vae-tiling",
            "-o",
            "o"
        ]
    );
}

#[test]
fn models_named_by_the_request() {
    let mut p = GenerateParams::new();
    p.diffusion_model = text("z/diff.gguf");
    p.sd_model = text("");
    p.vae_model = text("vae.safetensors");
    p.llm_model = text("llm.gguf");
    p.clip_l_model = text("clip.gguf");
    p.t5xxl_model = text("t5.gguf");
    p.group_id = text("g1");
    let mut g = GroupModels::new("g1".to_string());
    g.sd_model = text("group-sd.gguf");
    let refs = image_model_references(&p, Some(&g));
    assert_eq!(
        pairs(&refs),
        vec![
            pair("--diffusion-model", "z/diff.gguf"),
            pair("--vae", "vae.safetensors"),
            pair("--llm", "llm.gguf"),
            pair("--clip_l", "clip.gguf"),
            pair("--t5xxl", "t5.gguf"),
        ]
    );
}

#[test]
fn models_of_the_group_where_the_request_names_no_main_model() {
    let mut p = GenerateParams::new();
    p.vae_model = text("own-vae.gguf");
    p.group_id = text("g1");
    let mut g = GroupModels::new("g1".to_string());
    g.diffusion_model = text("");
    g.sd_model = text("");
    g.vae_model = text("vae.gguf");
    g.llm_model = text("llm.gguf");
    g.clip_vision_model = text("ignored.gguf");
    let refs = image_model_references(&p, Some(&g));
    assert_eq!(
        pairs(&refs),
        vec![
            pair("--vae", "own-vae.gguf"),
            pair("-m", ""),
            pair("--vae", "vae.gguf"),
            pair("--llm", "llm.gguf"),
        ]
    );
    // an unknown group, or a request without group, adds nothing
    assert_eq!(pairs(&image_model_references(&p, None)), vec![pair("--vae", "own-vae.gguf")]);
    p.group_id = None;
    assert_eq!(pairs(&image_model_references(&p, Some(&g))), vec![pair("--vae", "own-vae.gguf")]);
}

#[test]
fn groups_are_found_by_identifier() {
    let groups = vec![
        GroupModels::new("a".to_string()),
        GroupModels::new("b".to_string()),
        GroupModels::new("b".to_string()),
    ];
    assert_eq!(find_group(&groups, "a"), Some(0));
    assert_eq!(find_group(&groups, "b"), Some(1));
    assert_eq!(find_group(&groups, "c"), None);
    assert_eq!(find_group(&Vec::new(), "a"), None);
}

#[test]
fn an_empty_video_request_names_the_default_mode() {
    let args = build_video_args(&VideoParams::new(), None, "/models", "/out/x.avi");
    assert_eq!(args, vec!["--mode", "text2video", "-o", "/out/x.avi"]);
}

#[test]
fn video_arguments_in_order() {
    let mut p = VideoParams::new();
    p.group_id = text("g1");
    p.mode = text("img2video");
    p.prompt = text("waves");
    p.width = Some(480);
    p.cfg_scale = text("6");
    p.seed = Some(42);
    p.flow_shift = text("3.5");
    p.high_noise_steps = Some(4);
    p.high_noise_cfg_scale = text("1.5");
    p.high_noise_sampling_method = text("euler");
    p.init_image = text("/in.png");
    p.offload_to_cpu = true;
    let mut g = GroupModels::new("g1".to_string());
    g.sd_model = text("wan/low.gguf");
    g.vae_model = text("/abs/vae.gguf");
    g.llm_model = text("umt5.gguf");
    g.clip_vision_model = text("vision.gguf");
    g.t5xxl_model = text("");
    g.high_noise_sd_model = text("wan/high.gguf");
    g.diffusion_model = text("ignored.gguf");
    let args = build_video_args(&p, Some(&g), "/models", "/out/x.avi");
    assert_eq!(
        args,
        vec![
            "-m",
            "/models/wan/low.gguf",
            "--vae",
            "/abs/vae.gguf",
            "--clip_l",
            "/models/umt5.gguf",
            "--clip-vision",
            "/models/vision.gguf",
            "--high-noise-model",
            "/models/wan/high.gguf",
            "--mode",
            "img2video",
            "-p",
            "waves",
            "-W",
            "480",
            "--cfg-scale",
            "6",
            "-s",
            "42",
            "--flow-shift",
            "3.5",
            "--high-noise-steps",
            "4",
            "--high-noise-cfg-scale",
            "1.5",
            "--high-noise-sampling-method",
            "euler",
            "-i",
            "/in.png",
            "--offload-to-cpu",
            "-o",
            "/out/x.avi"
        ]
    );
}

#[test]
fn a_video_request_without_group_takes_no_model() {
    let mut p = VideoParams::new();
    let mut g = GroupModels::new("g1".to_string());
    g.sd_model = text("wan.gguf");
    assert_eq!(
        build_video_args(&p, Some(&g), "/models", "o"),
        vec!["--mode", "text2video", "-o", "o"]
    );
    p.group_id = text("g1");
    assert_eq!(
        build_video_args(&p, Some(&g), "/models", "o"),
        vec!["-m", "/models/wan.gguf", "--mode", "text2video", "-o", "o"]
    );
}
