use helloui_core::groups::{
    enter_group, plan_import, model_groups_create, model_groups_delete, model_groups_get, model_groups_update, position_of,
    ModelGroup,
};

fn group(id: &str, name: &str) -> ModelGroup {
    ModelGroup::new(id.to_string(), name.to_string())
}

fn ids(list: &[ModelGroup]) -> Vec<&str> {
    list.iter().map(|g| g.id.as_str()).collect()
}

#[test]
fn a_new_group_holds_nothing_but_its_name() {
    let g = group("g", "Group");
    assert_eq!(g.id, "g");
    assert_eq!(g.name, "Group");
    assert!(g.sd_model.is_none() && g.hf_files.is_none() && g.default_steps.is_none());
    assert_eq!(g.created_at, 0);
    assert_eq!(g.updated_at, 0);
}

#[test]
fn the_models_of_a_group() {
    let mut g = group("g", "Group");
    g.sd_model = Some("sd.gguf".to_string());
    g.vae_model = Some("vae.gguf".to_string());
    g.clip_vision_model = Some("cv.gguf".to_string());
    let m = g.models();
    assert_eq!(m.id, "g");
    assert_eq!(m.sd_model.as_deref(), Some("sd.gguf"));
    assert_eq!(m.vae_model.as_deref(), Some("vae.gguf"));
    assert_eq!(m.clip_vision_model.as_deref(), Some("cv.gguf"));
    assert!(m.diffusion_model.is_none() && m.llm_model.is_none() && m.t5xxl_model.is_none());
    assert!(m.clip_l_model.is_none() && m.high_noise_sd_model.is_none());
}

#[test]
fn model_groups_are_found_by_identifier() {
    let list = vec![group("a", "1"), group("b", "2"), group("b", "3")];
    assert_eq!(position_of(&list, "a"), Some(0));
    assert_eq!(position_of(&list, "b"), Some(1));
    assert_eq!(position_of(&list, "x"), None);
    assert_eq!(model_groups_get(list, "b").map(|g| g.name), Some("2".to_string()));
    assert!(model_groups_get(vec![group("a", "1")], "x").is_none());
}

#[test]
fn a_created_group_gets_identifier_and_times() {
    let mut g = group("ignored", "New");
    g.created_at = 1;
    g.sd_model = Some("sd.gguf".to_string());
    let list = model_groups_create(vec![group("a", "1")], g, 1234);
    assert_eq!(list.len(), 2);
    assert_eq!(list[0].id, "a");
    assert_eq!(list[1].name, "New");
    assert_eq!(list[1].sd_model.as_deref(), Some("sd.gguf"));
    assert_eq!(list[1].created_at, 1234);
    assert_eq!(list[1].updated_at, 1234);
    assert_ne!(list[1].id, "ignored");
    assert_eq!(list[1].id.len(), 36);
}

#[test]
fn an_updated_group_takes_the_place_of_the_old() {
    let mut merged = group("b", "Renamed");
    merged.created_at = 5;
    let list =
        model_groups_update(vec![group("a", "1"), group("b", "2"), group("c", "3")], "b", merged, 99)
            .unwrap();
    assert_eq!(ids(&list), vec!["a", "b", "c"]);
    assert_eq!(list[1].name, "Renamed");
    assert_eq!(list[1].created_at, 5);
    assert_eq!(list[1].updated_at, 99);
    assert_eq!(list[0].updated_at, 0);
}

#[test]
fn updating_an_unknown_group_fails() {
    let err = model_groups_update(vec![group("a", "1")], "x", group("x", "X"), 99).unwrap_err();
    assert_eq!(err, "Model group not found");
}

#[test]
fn deleting_groups() {
    let list = vec![group("a", "1"), group("b", "2"), group("a", "3")];
    let (left, removed) = model_groups_delete(list, "a");
    assert!(removed);
    assert_eq!(ids(&left), vec!["b"]);
    let (left, removed) = model_groups_delete(left, "a");
    assert!(!removed);
    assert_eq!(ids(&left), vec!["b"]);
}

#[test]
fn a_group_enters_under_a_given_identifier() {
    let list = enter_group(vec![group("a", "1")], group("x", "New"), "fixed".to_string(), 7);
    assert_eq!(ids(&list), vec!["a", "fixed"]);
    assert_eq!(list[1].name, "New");
    assert_eq!(list[1].created_at, 7);
    assert_eq!(list[1].updated_at, 7);
}

#[test]
fn an_import_is_planned() {
    let plan = plan_import("/models", Some("Flux"));
    assert_eq!(plan.group_name, "Flux");
    assert_eq!(plan.message, "Imported 'Flux'");
    assert_eq!(plan.group_id.len(), 36);
    assert_eq!(plan.dest, format!("/models/{}", plan.group_id));
    let other = plan_import("/models", None);
    assert_eq!(other.group_name, "Imported Group");
    assert_eq!(other.message, "Imported 'Imported Group'");
    assert_ne!(other.group_id, plan.group_id);
}
