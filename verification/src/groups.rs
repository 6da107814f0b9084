//! The list of model groups.

use vstd::prelude::*;
use crate::args::GroupModels;
use crate::mirrors::fresh_id;
use crate::paths::{join, path_joined};
use vstd::string::StringExecFns;
use crate::text::same_text;

verus! {

/// A model group: the models that work together, the files to download for
/// them, and the settings proposed with them. Numbers that are not integers
/// come as text.
#[derive(Debug)]
pub struct ModelGroup {
    pub id: String,
    pub name: String,
    pub task_type: Option<String>,
    pub sd_model: Option<String>,
    pub diffusion_model: Option<String>,
    pub high_noise_sd_model: Option<String>,
    pub vae_model: Option<String>,
    pub llm_model: Option<String>,
    pub clip_l_model: Option<String>,
    pub t5xxl_model: Option<String>,
    pub clip_vision_model: Option<String>,
    /// The files to download for the group, each as the JSON text that
    /// describes it.
    pub hf_files: Option<Vec<String>>,
    pub default_steps: Option<u32>,
    pub default_cfg_scale: Option<String>,
    pub default_width: Option<u32>,
    pub default_height: Option<u32>,
    pub default_sampling_method: Option<String>,
    pub default_scheduler: Option<String>,
    pub default_seed: Option<i64>,
    pub default_flow_shift: Option<String>,
    pub default_high_noise_steps: Option<u32>,
    pub default_high_noise_cfg_scale: Option<String>,
    pub default_high_noise_sampling_method: Option<String>,
    pub created_at: u64,
    pub updated_at: u64,
}

pub open spec fn same_option(a: Option<String>, b: Option<String>) -> bool {
    match a {
        Some(x) => b is Some && b->0@ == x@,
        None => b is None,
    }
}

fn copy_of(v: &Option<String>) -> (r: Option<String>)
    ensures
        same_option(*v, r),
{
    match v {
        Some(s) => Some(s.clone()),
        None => None,
    }
}

impl ModelGroup {
    /// A group of the given name that holds nothing else.
    pub fn new(id: String, name: String) -> (r: ModelGroup)
        ensures
            r == (ModelGroup {
                id,
                name,
                task_type: None,
                sd_model: None,
                diffusion_model: None,
                high_noise_sd_model: None,
                vae_model: None,
                llm_model: None,
                clip_l_model: None,
                t5xxl_model: None,
                clip_vision_model: None,
                hf_files: None,
                default_steps: None,
                default_cfg_scale: None,
                default_width: None,
                default_height: None,
                default_sampling_method: None,
                default_scheduler: None,
                default_seed: None,
                default_flow_shift: None,
                default_high_noise_steps: None,
                default_high_noise_cfg_scale: None,
                default_high_noise_sampling_method: None,
                created_at: 0,
                updated_at: 0,
            }),
    {
        ModelGroup {
            id,
            name,
            task_type: None,
            sd_model: None,
            diffusion_model: None,
            high_noise_sd_model: None,
            vae_model: None,
            llm_model: None,
            clip_l_model: None,
            t5xxl_model: None,
            clip_vision_model: None,
            hf_files: None,
            default_steps: None,
            default_cfg_scale: None,
            default_width: None,
            default_height: None,
            default_sampling_method: None,
            default_scheduler: None,
            default_seed: None,
            default_flow_shift: None,
            default_high_noise_steps: None,
            default_high_noise_cfg_scale: None,
            default_high_noise_sampling_method: None,
            created_at: 0,
            updated_at: 0,
        }
    }

    /// The model files of the group.
    pub fn models(&self) -> (r: GroupModels)
        ensures
            r.id@ == self.id@,
            same_option(self.sd_model, r.sd_model),
            same_option(self.diffusion_model, r.diffusion_model),
            same_option(self.high_noise_sd_model, r.high_noise_sd_model),
            same_option(self.vae_model, r.vae_model),
            same_option(self.llm_model, r.llm_model),
            same_option(self.clip_l_model, r.clip_l_model),
            same_option(self.t5xxl_model, r.t5xxl_model),
            same_option(self.clip_vision_model, r.clip_vision_model),
    {
        GroupModels {
            id: self.id.clone(),
            sd_model: copy_of(&self.sd_model),
            diffusion_model: copy_of(&self.diffusion_model),
            high_noise_sd_model: copy_of(&self.high_noise_sd_model),
            vae_model: copy_of(&self.vae_model),
            llm_model: copy_of(&self.llm_model),
            clip_l_model: copy_of(&self.clip_l_model),
            t5xxl_model: copy_of(&self.t5xxl_model),
            clip_vision_model: copy_of(&self.clip_vision_model),
        }
    }
}

/// `i` is where the first group with the identifier stands.
pub open spec fn first_with_id(groups: Seq<ModelGroup>, id: Seq<char>, i: int) -> bool {
    0 <= i < groups.len() && groups[i].id@ == id && forall|j: int|
        0 <= j < i ==> (#[trigger] groups[j]).id@ != id
}

pub open spec fn has_id(groups: Seq<ModelGroup>, id: Seq<char>) -> bool {
    exists|i: int| 0 <= i < groups.len() && (#[trigger] groups[i]).id@ == id
}

/// Where the first group with the identifier stands.
pub fn position_of(groups: &Vec<ModelGroup>, id: &str) -> (r: Option<usize>)
    ensures
        match r {
            Some(i) => first_with_id(groups@, id@, i as int),
            None => !has_id(groups@, id@),
        },
{
    let mut i: usize = 0;
    while i < groups.len()
        invariant
            i <= groups.len(),
            forall|j: int| 0 <= j < i ==> (#[trigger] groups@[j]).id@ != id@,
        decreases groups.len() - i,
    {
        if same_text(groups[i].id.as_str(), id) {
            return Some(i);
        }
        i += 1;
    }
    None
}

/// Takes the first group with the identifier out of the list.
pub fn model_groups_get(groups: Vec<ModelGroup>, value: &str) -> (r: Option<ModelGroup>)
    ensures
        match r {
            Some(g) => exists|i: int| first_with_id(groups@, value@, i) && groups@[i] == g,
            None => !has_id(groups@, value@),
        },
{
    match position_of(&groups, value) {
        Some(i) => {
            let mut list = groups;
            let g = list.remove(i);
            assert(first_with_id(groups@, value@, i as int) && groups@[i as int] == g);
            Some(g)
        },
        None => None,
    }
}

/// The group as it enters the list: under the given identifier, created and
/// updated at `now`.
pub open spec fn entered(group: ModelGroup, id: String, now: u64) -> ModelGroup {
    ModelGroup { id, created_at: now, updated_at: now, ..group }
}

/// Puts a group at the end of the list, under the given identifier, created
/// and updated at `now`.
pub fn enter_group(groups: Vec<ModelGroup>, group: ModelGroup, id: String, now: u64) -> (r: Vec<
    ModelGroup,
>)
    ensures
        r@ == groups@.push(entered(group, id, now)),
{
    let mut entry = group;
    entry.id = id;
    entry.created_at = now;
    entry.updated_at = now;
    let mut out = groups;
    out.push(entry);
    out
}

/// Puts a new group at the end of the list, under a fresh identifier.
pub fn model_groups_create(groups: Vec<ModelGroup>, group: ModelGroup, now: u64) -> (r: Vec<
    ModelGroup,
>)
    ensures
        r@.len() == groups@.len() + 1,
        r@.drop_last() == groups@,
        r@.last() == entered(group, r@.last().id, now),
{
    let out = enter_group(groups, group, fresh_id(), now);
    assert(out@.drop_last() =~= groups@);
    out
}

/// Where an imported group goes and what is said of it.
#[derive(Debug)]
pub struct ImportPlan {
    /// The identifier under which the group enters the list.
    pub group_id: String,
    /// The folder its files are copied to.
    pub dest: String,
    pub group_name: String,
    pub message: String,
}

pub open spec fn imported_name(name: Option<&str>) -> Seq<char> {
    match name {
        Some(n) => n@,
        None => "Imported Group"@,
    }
}

/// Plans the import of a group into `target_folder`: it gets a fresh
/// identifier, its files go to the folder of that name, and it is announced
/// under its own name, or as `Imported Group` where it has none.
pub fn plan_import(target_folder: &str, name: Option<&str>) -> (r: ImportPlan)
    ensures
        r.dest@ == path_joined(target_folder@, r.group_id@),
        r.group_name@ == imported_name(name),
        r.message@ == "Imported '"@ + imported_name(name) + "'"@,
{
    let group_id = fresh_id();
    let dest = join(target_folder, group_id.as_str());
    let group_name = match name {
        Some(n) => n.to_string(),
        None => "Imported Group".to_string(),
    };
    let mut message = String::new();
    message.append("Imported '");
    message.append(group_name.as_str());
    message.append("'");
    assert(message@ =~= "Imported '"@ + imported_name(name) + "'"@);
    ImportPlan { group_id, dest, group_name, message }
}

/// Puts `merged` in the place of the first group with the identifier, marked
/// as updated at `now`. Where there is no such group the answer is `Model
/// group not found`.
pub fn model_groups_update(groups: Vec<ModelGroup>, id: &str, merged: ModelGroup, now: u64) -> (r:
    Result<Vec<ModelGroup>, String>)
    ensures
        match r {
            Ok(list) => exists|i: int|
                first_with_id(groups@, id@, i) && list@ == groups@.update(
                    i,
                    ModelGroup { updated_at: now, ..merged },
                ),
            Err(e) => !has_id(groups@, id@) && e@ == "Model group not found"@,
        },
{
    match position_of(&groups, id) {
        Some(i) => {
            let mut list = groups;
            let mut entry = merged;
            entry.updated_at = now;
            list.set(i, entry);
            assert(first_with_id(groups@, id@, i as int));
            Ok(list)
        },
        None => Err("Model group not found".to_string()),
    }
}

/// The groups whose identifier is not `id`, in their order.
pub open spec fn groups_without(groups: Seq<ModelGroup>, id: Seq<char>) -> Seq<ModelGroup>
    decreases groups.len(),
{
    if groups.len() == 0 {
        Seq::empty()
    } else if groups.last().id@ != id {
        groups_without(groups.drop_last(), id).push(groups.last())
    } else {
        groups_without(groups.drop_last(), id)
    }
}

/// Removes the groups with the identifier from the list and tells whether
/// there was one.
pub fn model_groups_delete(groups: Vec<ModelGroup>, id: &str) -> (r: (Vec<ModelGroup>, bool))
    ensures
        r.0@ == groups_without(groups@, id@),
        r.1 == (groups_without(groups@, id@).len() < groups@.len()),
{
    let ghost all = groups@;
    let total: usize = groups.len();
    let mut rest = groups;
    let mut kept_reversed: Vec<ModelGroup> = Vec::new();
    while rest.len() > 0
        invariant
            rest@ == all.take(rest@.len() as int),
            rest@.len() <= all.len(),
            groups_without(all, id@) == groups_without(rest@, id@) + kept_reversed@.reverse(),
        decreases rest@.len(),
    {
        let ghost before = rest@;
        let ghost kept_before = kept_reversed@;
        let group = rest.pop().unwrap();
        proof {
            assert(rest@ =~= before.drop_last());
            assert(group == before.last());
            assert(rest@ =~= all.take(rest@.len() as int));
        }
        if !same_text(group.id.as_str(), id) {
            kept_reversed.push(group);
            proof {
                assert(kept_reversed@.reverse() =~= seq![group] + kept_before.reverse());
                assert(groups_without(before, id@) + kept_before.reverse() =~= groups_without(
                    rest@,
                    id@,
                ) + kept_reversed@.reverse());
            }
        }
    }
    let mut out: Vec<ModelGroup> = Vec::new();
    proof {
        assert(groups_without(all, id@) =~= out@ + kept_reversed@.reverse());
    }
    while kept_reversed.len() > 0
        invariant
            groups_without(all, id@) == out@ + kept_reversed@.reverse(),
        decreases kept_reversed@.len(),
    {
        let ghost before = kept_reversed@;
        let ghost out_before = out@;
        let group = kept_reversed.pop().unwrap();
        out.push(group);
        proof {
            assert(kept_reversed@ =~= before.drop_last());
            assert(before.reverse() =~= seq![group] + kept_reversed@.reverse());
            assert(out_before + before.reverse() =~= out@ + kept_reversed@.reverse());
        }
    }
    assert(groups_without(all, id@) =~= out@);
    let removed = out.len() < total;
    (out, removed)
}

} // verus!
