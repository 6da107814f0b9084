use helloui_core::gallery::{
    listed_kind_of_extension, apply_metadata, image_entry, listed_media_type, metadata_path, sort_by_name, sort_newest_first,
    GeneratedImageInfo, ImageMetadata, WeightFile,
};

fn entry(name: &str, modified: u64) -> GeneratedImageInfo {
    image_entry(name.to_string(), format!("/out/{}", name), 1, modified, "image".to_string())
}

fn file(name: &str, size: u64) -> WeightFile {
    WeightFile { name: name.to_string(), size, path: format!("/m/{}", name), modified: 0 }
}

#[test]
fn listed_files_by_extension() {
    assert_eq!(listed_media_type("/out/a.png"), Some("image".to_string()));
    assert_eq!(listed_media_type("/out/a.JPG"), Some("image".to_string()));
    assert_eq!(listed_media_type("/out/a.jpeg"), Some("image".to_string()));
    assert_eq!(listed_media_type("/out/a.webp"), Some("image".to_string()));
    assert_eq!(listed_media_type("/out/a.mp4"), Some("video".to_string()));
    assert_eq!(listed_media_type("/out/a.Avi"), Some("video".to_string()));
    assert_eq!(listed_media_type("/out/a.json"), None);
    assert_eq!(listed_media_type("/out/a.preview.png"), Some("image".to_string()));
    assert_eq!(listed_media_type("/out/a"), None);
    assert_eq!(listed_media_type("/out/a.gif"), None);
}

#[test]
fn metadata_lies_beside_the_file() {
    assert_eq!(metadata_path("/out/generated_1.png"), "/out/generated_1.json");
    assert_eq!(metadata_path("/out/generated_1.mp4"), "/out/generated_1.json");
    assert_eq!(metadata_path("/out/noext"), "/out/noext.json");
}

#[test]
fn a_new_entry_tells_only_of_the_file() {
    let e = image_entry("a.png".to_string(), "/out/a.png".to_string(), 7, 9, "image".to_string());
    assert_eq!(e.name, "a.png");
    assert_eq!(e.path, "/out/a.png");
    assert_eq!(e.size, 7);
    assert_eq!(e.modified, 9);
    assert_eq!(e.media_type.as_deref(), Some("image"));
    assert!(e.prompt.is_none() && e.steps.is_none() && e.duration.is_none());
    assert!(e.width.is_none() && e.seed.is_none() && e.gen_type.is_none());
}

#[test]
fn metadata_fills_the_entry() {
    let mut meta = ImageMetadata::new();
    meta.prompt = Some("a fox".to_string());
    meta.steps = Some(20);
    meta.cfg_scale = Some("7.5".to_string());
    meta.seed = Some(-5);
    meta.gen_type = Some("generate".to_string());
    meta.duration = Some(1234);
    meta.width = Some(512);
    meta.height = Some(0x1_0000_0200);
    let e = apply_metadata(entry("a.png", 3), meta);
    assert_eq!(e.name, "a.png");
    assert_eq!(e.modified, 3);
    assert_eq!(e.media_type.as_deref(), Some("image"));
    assert_eq!(e.prompt.as_deref(), Some("a fox"));
    assert_eq!(e.steps, Some(20));
    assert_eq!(e.cfg_scale.as_deref(), Some("7.5"));
    assert_eq!(e.seed, Some(-5));
    assert_eq!(e.gen_type.as_deref(), Some("generate"));
    assert_eq!(e.duration, Some(1234));
    assert_eq!(e.width, Some(512));
    assert_eq!(e.height, Some(0x200));
    assert!(e.negative_prompt.is_none());
    assert!(e.model_path.is_none());
}

#[test]
fn the_list_is_ordered_newest_first() {
    let list = vec![entry("a", 5), entry("b", 9), entry("c", 5), entry("d", 1), entry("e", 9)];
    let sorted = sort_newest_first(list);
    let names: Vec<&str> = sorted.iter().map(|e| e.name.as_str()).collect();
    assert_eq!(names, vec!["b", "e", "a", "c", "d"]);
    assert!(sort_newest_first(Vec::new()).is_empty());
}

#[test]
fn ordering_newest_first_agrees_with_a_stable_sort() {
    let times: Vec<u64> = (0..60).map(|i| (i * 37 + 11) % 13).collect();
    let list: Vec<GeneratedImageInfo> =
        times.iter().enumerate().map(|(i, t)| entry(&format!("f{}", i), *t)).collect();
    let mut expected: Vec<(String, u64)> =
        list.iter().map(|e| (e.name.clone(), e.modified)).collect();
    expected.sort_by(|a, b| b.1.cmp(&a.1));
    let got: Vec<(String, u64)> =
        sort_newest_first(list).iter().map(|e| (e.name.clone(), e.modified)).collect();
    assert_eq!(got, expected);
}

#[test]
fn files_are_ordered_by_name() {
    let list = vec![file("b", 1), file("a/z", 2), file("a", 3), file("B", 4), file("a", 5), file("é", 6), file("", 7)];
    let sorted = sort_by_name(list);
    let got: Vec<(&str, u64)> = sorted.iter().map(|f| (f.name.as_str(), f.size)).collect();
    assert_eq!(got, vec![("", 7), ("B", 4), ("a", 3), ("a", 5), ("a/z", 2), ("b", 1), ("é", 6)]);
}

#[test]
fn ordering_by_name_agrees_with_a_stable_sort() {
    let names = ["m", "é", "𝄞", "z", "", "ab", "a", "abc", "Z", "ab", "中", "\u{FFFF}", "a\u{0}", "m"];
    let list: Vec<WeightFile> =
        names.iter().enumerate().map(|(i, n)| file(n, i as u64)).collect();
    let mut expected: Vec<(String, u64)> = list.iter().map(|f| (f.name.clone(), f.size)).collect();
    expected.sort_by(|a, b| a.0.cmp(&b.0));
    let got: Vec<(String, u64)> =
        sort_by_name(list).iter().map(|f| (f.name.clone(), f.size)).collect();
    assert_eq!(got, expected);
}

#[test]
fn an_extension_in_small_letters_tells_the_kind() {
    assert_eq!(listed_kind_of_extension("mp4"), Some("video".to_string()));
    assert_eq!(listed_kind_of_extension("webp"), Some("image".to_string()));
    assert_eq!(listed_kind_of_extension("PNG"), None);
    assert_eq!(listed_kind_of_extension(""), None);
}
