//! The list of generated files, newest first.

use vstd::prelude::*;
use crate::media::deciding_extension;
use crate::paths::{extension, path_with_extension, with_json_extension};
use crate::text::{lowercase, same_text};

verus! {

/// A file in a folder of weights or of an engine.
#[derive(Debug)]
pub struct WeightFile {
    pub name: String,
    pub size: u64,
    pub path: String,
    pub modified: u64,
}

/// A generated file with what its metadata tells. Numbers that are not
/// integers come as text.
#[derive(Debug)]
pub struct GeneratedImageInfo {
    pub name: String,
    pub path: String,
    pub size: u64,
    pub modified: u64,
    pub width: Option<u32>,
    pub height: Option<u32>,
    pub gen_type: Option<String>,
    pub media_type: Option<String>,
    pub prompt: Option<String>,
    pub negative_prompt: Option<String>,
    pub steps: Option<u32>,
    pub cfg_scale: Option<String>,
    pub device_type: Option<String>,
    pub group_id: Option<String>,
    pub group_name: Option<String>,
    pub model_path: Option<String>,
    pub vae_model_path: Option<String>,
    pub llm_model_path: Option<String>,
    pub sampling_method: Option<String>,
    pub scheduler: Option<String>,
    pub seed: Option<i64>,
    pub batch_count: Option<u32>,
    pub threads: Option<u32>,
    pub preview_method: Option<String>,
    pub preview_interval: Option<u32>,
    pub preview_image: Option<String>,
    pub verbose: Option<bool>,
    pub command_line: Option<String>,
    pub generated_at: Option<String>,
    pub duration: Option<u64>,
}

/// What the metadata beside a generated file holds, as far as the list shows
/// it. A field that is missing or of another type is `None`.
#[derive(Debug)]
pub struct ImageMetadata {
    pub prompt: Option<String>,
    pub negative_prompt: Option<String>,
    pub steps: Option<u64>,
    pub cfg_scale: Option<String>,
    pub device_type: Option<String>,
    pub group_id: Option<String>,
    pub group_name: Option<String>,
    pub sampling_method: Option<String>,
    pub scheduler: Option<String>,
    pub seed: Option<i64>,
    pub gen_type: Option<String>,
    pub generated_at: Option<String>,
    pub duration: Option<u64>,
    pub width: Option<u64>,
    pub height: Option<u64>,
}

impl ImageMetadata {
    /// Metadata that tells nothing.
    pub fn new() -> (r: ImageMetadata)
        ensures
            r == (ImageMetadata {
                prompt: None,
                negative_prompt: None,
                steps: None,
                cfg_scale: None,
                device_type: None,
                group_id: None,
                group_name: None,
                sampling_method: None,
                scheduler: None,
                seed: None,
                gen_type: None,
                generated_at: None,
                duration: None,
                width: None,
                height: None,
            }),
    {
        ImageMetadata {
            prompt: None,
            negative_prompt: None,
            steps: None,
            cfg_scale: None,
            device_type: None,
            group_id: None,
            group_name: None,
            sampling_method: None,
            scheduler: None,
            seed: None,
            gen_type: None,
            generated_at: None,
            duration: None,
            width: None,
            height: None,
        }
    }
}

/// The kind of media a listed file is, by its extension in small letters;
/// `None` for a file that is not listed.
pub open spec fn listed_kind(ext: Seq<char>) -> Option<Seq<char>> {
    if ext == "mp4"@ || ext == "avi"@ {
        Some("video"@)
    } else if ext == "png"@ || ext == "jpg"@ || ext == "jpeg"@ || ext == "webp"@ {
        Some("image"@)
    } else {
        None
    }
}

/// The kind of media that an extension in small letters stands for, where
/// files of that extension are listed.
pub fn listed_kind_of_extension(ext: &str) -> (r: Option<String>)
    ensures
        match r {
            Some(k) => listed_kind(ext@) == Some(k@),
            None => listed_kind(ext@) is None,
        },
{
    if same_text(ext, "mp4") || same_text(ext, "avi") {
        Some("video".to_string())
    } else if same_text(ext, "png") || same_text(ext, "jpg") || same_text(ext, "jpeg")
        || same_text(ext, "webp") {
        Some("image".to_string())
    } else {
        None
    }
}

/// The kind of media of a file in the outputs folder, where it is listed.
pub fn listed_media_type(path: &str) -> (r: Option<String>)
    ensures
        match r {
            Some(k) => listed_kind(deciding_extension(path@, ""@)) == Some(k@),
            None => listed_kind(deciding_extension(path@, ""@)) is None,
        },
{
    let ext = match extension(path) {
        Some(e) => lowercase(e.as_str()),
        None => lowercase(""),
    };
    listed_kind_of_extension(ext.as_str())
}

/// Where the metadata of a generated file lies: beside it, with `json` for
/// extension.
pub fn metadata_path(path: &str) -> (r: String)
    ensures
        r@ == path_with_extension(path@, "json"@),
{
    with_json_extension(path)
}

/// An entry that tells nothing but what the file system tells.
pub open spec fn bare(info: GeneratedImageInfo) -> bool {
    &&& info.width is None
    &&& info.height is None
    &&& info.gen_type is None
    &&& info.prompt is None
    &&& info.negative_prompt is None
    &&& info.steps is None
    &&& info.cfg_scale is None
    &&& info.device_type is None
    &&& info.group_id is None
    &&& info.group_name is None
    &&& info.model_path is None
    &&& info.vae_model_path is None
    &&& info.llm_model_path is None
    &&& info.sampling_method is None
    &&& info.scheduler is None
    &&& info.seed is None
    &&& info.batch_count is None
    &&& info.threads is None
    &&& info.preview_method is None
    &&& info.preview_interval is None
    &&& info.preview_image is None
    &&& info.verbose is None
    &&& info.command_line is None
    &&& info.generated_at is None
    &&& info.duration is None
}

/// The entry of a listed file before its metadata is read.
pub fn image_entry(name: String, path: String, size: u64, modified: u64, media_type: String) -> (r:
    GeneratedImageInfo)
    ensures
        bare(r),
        r.name == name,
        r.path == path,
        r.size == size,
        r.modified == modified,
        r.media_type == Some(media_type),
{
    GeneratedImageInfo {
        name,
        path,
        size,
        modified,
        width: None,
        height: None,
        gen_type: None,
        media_type: Some(media_type),
        prompt: None,
        negative_prompt: None,
        steps: None,
        cfg_scale: None,
        device_type: None,
        group_id: None,
        group_name: None,
        model_path: None,
        vae_model_path: None,
        llm_model_path: None,
        sampling_method: None,
        scheduler: None,
        seed: None,
        batch_count: None,
        threads: None,
        preview_method: None,
        preview_interval: None,
        preview_image: None,
        verbose: None,
        command_line: None,
        generated_at: None,
        duration: None,
    }
}

/// A count as the list holds it: its low 32 bits.
pub open spec fn low_bits(v: Option<u64>) -> Option<u32> {
    match v {
        Some(n) => Some((n % 0x1_0000_0000) as u32),
        None => None,
    }
}

fn narrow(v: Option<u64>) -> (r: Option<u32>)
    ensures
        r == low_bits(v),
{
    match v {
        Some(n) => Some((n % 0x1_0000_0000) as u32),
        None => None,
    }
}

/// The entry with what the metadata tells put in place of what it held.
pub open spec fn with_metadata(info: GeneratedImageInfo, meta: ImageMetadata) -> GeneratedImageInfo {
    GeneratedImageInfo {
        prompt: meta.prompt,
        negative_prompt: meta.negative_prompt,
        steps: low_bits(meta.steps),
        cfg_scale: meta.cfg_scale,
        device_type: meta.device_type,
        group_id: meta.group_id,
        group_name: meta.group_name,
        sampling_method: meta.sampling_method,
        scheduler: meta.scheduler,
        seed: meta.seed,
        gen_type: meta.gen_type,
        generated_at: meta.generated_at,
        duration: meta.duration,
        width: low_bits(meta.width),
        height: low_bits(meta.height),
        ..info
    }
}

pub fn apply_metadata(info: GeneratedImageInfo, meta: ImageMetadata) -> (r: GeneratedImageInfo)
    ensures
        r == with_metadata(info, meta),
{
    let mut out = info;
    out.prompt = meta.prompt;
    out.negative_prompt = meta.negative_prompt;
    out.steps = narrow(meta.steps);
    out.cfg_scale = meta.cfg_scale;
    out.device_type = meta.device_type;
    out.group_id = meta.group_id;
    out.group_name = meta.group_name;
    out.sampling_method = meta.sampling_method;
    out.scheduler = meta.scheduler;
    out.seed = meta.seed;
    out.gen_type = meta.gen_type;
    out.generated_at = meta.generated_at;
    out.duration = meta.duration;
    out.width = narrow(meta.width);
    out.height = narrow(meta.height);
    out
}

/// Where an entry changed at `modified` goes into a list that is newest
/// first: behind every entry that is as new or newer.
pub open spec fn place_of(sorted: Seq<GeneratedImageInfo>, modified: u64) -> int
    decreases sorted.len(),
{
    if sorted.len() == 0 || sorted[0].modified < modified {
        0
    } else {
        1 + place_of(sorted.skip(1), modified)
    }
}

/// The entries newest first; entries changed at the same time keep their
/// order.
pub open spec fn newest_first(entries: Seq<GeneratedImageInfo>) -> Seq<GeneratedImageInfo>
    decreases entries.len(),
{
    if entries.len() == 0 {
        Seq::empty()
    } else {
        let rest = newest_first(entries.drop_last());
        rest.insert(place_of(rest, entries.last().modified), entries.last())
    }
}

pub open spec fn is_newest_first(s: Seq<GeneratedImageInfo>) -> bool {
    forall|i: int, j: int| 0 <= i < j < s.len() ==> s[i].modified >= s[j].modified
}

pub proof fn lemma_place_of(sorted: Seq<GeneratedImageInfo>, modified: u64)
    ensures
        0 <= place_of(sorted, modified) <= sorted.len(),
        forall|i: int|
            0 <= i < place_of(sorted, modified) ==> (#[trigger] sorted[i]).modified >= modified,
        place_of(sorted, modified) < sorted.len() ==> sorted[place_of(sorted, modified)].modified
            < modified,
    decreases sorted.len(),
{
    if sorted.len() == 0 || sorted[0].modified < modified {
    } else {
        let rest = sorted.skip(1);
        lemma_place_of(rest, modified);
        assert forall|i: int| 0 <= i < place_of(sorted, modified) implies (#[trigger] sorted[i]).modified
            >= modified by {
            if i > 0 {
                assert(rest[i - 1] == sorted[i]);
            }
        }
        if place_of(sorted, modified) < sorted.len() {
            assert(rest[place_of(rest, modified)] == sorted[place_of(sorted, modified)]);
        }
    }
}

/// The list that `newest_first` gives holds the entries it was given, each as
/// often, and none of its entries is newer than one before it.
pub proof fn lemma_newest_first_sorts(entries: Seq<GeneratedImageInfo>)
    ensures
        newest_first(entries).len() == entries.len(),
        newest_first(entries).to_multiset() == entries.to_multiset(),
        is_newest_first(newest_first(entries)),
    decreases entries.len(),
{
    if entries.len() == 0 {
        assert(entries =~= Seq::<GeneratedImageInfo>::empty());
    } else {
        let before = entries.drop_last();
        let x = entries.last();
        lemma_newest_first_sorts(before);
        let rest = newest_first(before);
        let p = place_of(rest, x.modified);
        lemma_place_of(rest, x.modified);
        let out = rest.insert(p, x);
        assert(out == newest_first(entries));
        assert forall|i: int, j: int| 0 <= i < j < out.len() implies out[i].modified
            >= out[j].modified by {
            if j < p {
                assert(out[i] == rest[i] && out[j] == rest[j]);
            } else if j == p {
                assert(out[i] == rest[i]);
            } else if i == p {
                assert(out[j] == rest[j - 1]);
                assert(rest[p].modified < x.modified);
                if j - 1 > p {
                    assert(rest[p].modified >= rest[j - 1].modified);
                }
            } else if i < p {
                assert(out[i] == rest[i] && out[j] == rest[j - 1]);
            } else {
                assert(out[i] == rest[i - 1] && out[j] == rest[j - 1]);
            }
        }
        assert(entries =~= before.push(x));
        vstd::seq_lib::to_multiset_insert(rest, p, x);
        vstd::seq_lib::to_multiset_build(before, x);
    }
}

fn place_in(sorted: &Vec<GeneratedImageInfo>, modified: u64) -> (r: usize)
    ensures
        r == place_of(sorted@, modified),
        r <= sorted@.len(),
{
    let mut i: usize = 0;
    assert(sorted@.skip(0) =~= sorted@);
    while i < sorted.len() && sorted[i].modified >= modified
        invariant
            i <= sorted.len(),
            place_of(sorted@, modified) == i + place_of(sorted@.skip(i as int), modified),
        decreases sorted.len() - i,
    {
        proof {
            let rest = sorted@.skip(i as int);
            assert(rest[0] == sorted@[i as int]);
            assert(rest.skip(1) =~= sorted@.skip(i + 1));
        }
        i += 1;
    }
    proof {
        let rest = sorted@.skip(i as int);
        if i < sorted.len() {
            assert(rest[0] == sorted@[i as int]);
        }
        assert(sorted@.skip(0) =~= sorted@);
    }
    i
}

/// Orders the list of generated files newest first.
pub fn sort_newest_first(entries: Vec<GeneratedImageInfo>) -> (r: Vec<GeneratedImageInfo>)
    ensures
        r@ == newest_first(entries@),
{
    let ghost all = entries@;
    let mut rest = entries;
    let mut reversed: Vec<GeneratedImageInfo> = Vec::new();
    while rest.len() > 0
        invariant
            rest@.len() + reversed@.len() == all.len(),
            rest@ == all.take(rest@.len() as int),
            reversed@.reverse() == all.skip(rest@.len() as int),
        decreases rest@.len(),
    {
        let ghost before = rest@;
        let ghost reversed_before = reversed@;
        let entry = rest.pop().unwrap();
        reversed.push(entry);
        proof {
            assert(rest@ =~= all.take(rest@.len() as int));
            assert(reversed@.reverse() =~= seq![entry] + reversed_before.reverse());
            assert(reversed@.reverse() =~= all.skip(rest@.len() as int));
        }
    }
    let mut out: Vec<GeneratedImageInfo> = Vec::new();
    proof {
        assert(all.skip(0) =~= all);
        assert(all.take(0) =~= Seq::<GeneratedImageInfo>::empty());
    }
    while reversed.len() > 0
        invariant
            reversed@.len() <= all.len(),
            reversed@.reverse() == all.skip(all.len() - reversed@.len()),
            out@ == newest_first(all.take(all.len() - reversed@.len())),
        decreases reversed@.len(),
    {
        let ghost k = all.len() - reversed@.len();
        let ghost before = reversed@;
        let entry = reversed.pop().unwrap();
        proof {
            assert(before.reverse()[0] == before.last());
            assert(entry == all[k]);
            assert(all.take(k + 1).drop_last() =~= all.take(k));
            assert(all.take(k + 1).last() == all[k]);
            assert(reversed@.reverse() =~= before.reverse().skip(1));
            assert(reversed@.reverse() =~= all.skip(k + 1));
        }
        let at = place_in(&out, entry.modified);
        out.insert(at, entry);
    }
    proof {
        assert(all.take(all.len() as int) =~= all);
    }
    out
}

/// Whether text `a` comes before text `b` in the order of their characters:
/// at the first place where they differ `a` has the smaller character, or `a`
/// ends there and `b` goes on.
pub open spec fn text_before(a: Seq<char>, b: Seq<char>) -> bool
    decreases a.len(),
{
    if b.len() == 0 {
        false
    } else if a.len() == 0 {
        true
    } else if a[0] != b[0] {
        (a[0] as u32) < (b[0] as u32)
    } else {
        text_before(a.skip(1), b.skip(1))
    }
}

fn chars_before(a: &Vec<char>, b: &Vec<char>) -> (r: bool)
    ensures
        r == text_before(a@, b@),
{
    let mut i: usize = 0;
    proof {
        assert(a@.skip(0) =~= a@);
        assert(b@.skip(0) =~= b@);
    }
    while i < a.len() && i < b.len() && a[i] == b[i]
        invariant
            i <= a.len(),
            i <= b.len(),
            text_before(a@, b@) == text_before(a@.skip(i as int), b@.skip(i as int)),
        decreases a.len() - i,
    {
        proof {
            let x = a@.skip(i as int);
            let y = b@.skip(i as int);
            assert(x[0] == a@[i as int]);
            assert(y[0] == b@[i as int]);
            assert(x.skip(1) =~= a@.skip(i + 1));
            assert(y.skip(1) =~= b@.skip(i + 1));
        }
        i += 1;
    }
    proof {
        let x = a@.skip(i as int);
        let y = b@.skip(i as int);
        if i < a.len() {
            assert(x[0] == a@[i as int]);
        }
        if i < b.len() {
            assert(y[0] == b@[i as int]);
        }
    }
    if i >= b.len() {
        false
    } else if i >= a.len() {
        true
    } else {
        (a[i] as u32) < (b[i] as u32)
    }
}

/// Where a file of the given name goes into a list ordered by name: before
/// the first file whose name comes after it.
pub open spec fn name_place(sorted: Seq<WeightFile>, name: Seq<char>) -> int
    decreases sorted.len(),
{
    if sorted.len() == 0 || text_before(name, sorted[0].name@) {
        0
    } else {
        1 + name_place(sorted.skip(1), name)
    }
}

/// The files ordered by name; files of the same name keep their order.
pub open spec fn by_name(files: Seq<WeightFile>) -> Seq<WeightFile>
    decreases files.len(),
{
    if files.len() == 0 {
        Seq::empty()
    } else {
        let rest = by_name(files.drop_last());
        rest.insert(name_place(rest, files.last().name@), files.last())
    }
}

/// Ordering by name keeps every file, each as often as it was there.
pub proof fn lemma_by_name_keeps_files(files: Seq<WeightFile>)
    ensures
        by_name(files).len() == files.len(),
        by_name(files).to_multiset() == files.to_multiset(),
    decreases files.len(),
{
    if files.len() == 0 {
        assert(files =~= Seq::<WeightFile>::empty());
    } else {
        let before = files.drop_last();
        let x = files.last();
        lemma_by_name_keeps_files(before);
        let rest = by_name(before);
        lemma_name_place(rest, x.name@);
        assert(files =~= before.push(x));
        vstd::seq_lib::to_multiset_insert(rest, name_place(rest, x.name@), x);
        vstd::seq_lib::to_multiset_build(before, x);
    }
}

pub proof fn lemma_name_place(sorted: Seq<WeightFile>, name: Seq<char>)
    ensures
        0 <= name_place(sorted, name) <= sorted.len(),
        forall|i: int|
            0 <= i < name_place(sorted, name) ==> !text_before(name, (#[trigger] sorted[i]).name@),
        name_place(sorted, name) < sorted.len() ==> text_before(
            name,
            sorted[name_place(sorted, name)].name@,
        ),
    decreases sorted.len(),
{
    if sorted.len() == 0 || text_before(name, sorted[0].name@) {
    } else {
        let rest = sorted.skip(1);
        lemma_name_place(rest, name);
        assert forall|i: int| 0 <= i < name_place(sorted, name) implies !text_before(
            name,
            (#[trigger] sorted[i]).name@,
        ) by {
            if i > 0 {
                assert(rest[i - 1] == sorted[i]);
            }
        }
        if name_place(sorted, name) < sorted.len() {
            assert(rest[name_place(rest, name)] == sorted[name_place(sorted, name)]);
        }
    }
}

/// The order of texts carries over: what comes before a text that comes
/// before a third comes before the third.
pub proof fn lemma_text_before_carries_over(a: Seq<char>, b: Seq<char>, c: Seq<char>)
    requires
        text_before(a, b),
        text_before(b, c),
    ensures
        text_before(a, c),
    decreases a.len(),
{
    if a.len() > 0 && a[0] == b[0] && b[0] == c[0] {
        lemma_text_before_carries_over(a.skip(1), b.skip(1), c.skip(1));
    }
}

/// No text comes before itself.
pub proof fn lemma_text_not_before_itself(a: Seq<char>)
    ensures
        !text_before(a, a),
    decreases a.len(),
{
    if a.len() > 0 {
        lemma_text_not_before_itself(a.skip(1));
    }
}

pub open spec fn is_ordered_by_name(s: Seq<WeightFile>) -> bool {
    forall|i: int, j: int| 0 <= i < j < s.len() ==> !text_before(s[j].name@, s[i].name@)
}

/// In the list that `by_name` gives no file comes before one that stands
/// earlier.
pub proof fn lemma_by_name_is_ordered(files: Seq<WeightFile>)
    ensures
        is_ordered_by_name(by_name(files)),
    decreases files.len(),
{
    if files.len() > 0 {
        let x = files.last();
        lemma_by_name_is_ordered(files.drop_last());
        let rest = by_name(files.drop_last());
        let p = name_place(rest, x.name@);
        lemma_name_place(rest, x.name@);
        let out = rest.insert(p, x);
        assert(out == by_name(files));
        assert forall|i: int, j: int| 0 <= i < j < out.len() implies !text_before(
            out[j].name@,
            out[i].name@,
        ) by {
            if j < p {
                assert(out[i] == rest[i] && out[j] == rest[j]);
            } else if j == p {
                assert(out[i] == rest[i]);
            } else if i == p {
                assert(out[j] == rest[j - 1]);
                if text_before(rest[j - 1].name@, x.name@) {
                    lemma_text_before_carries_over(rest[j - 1].name@, x.name@, rest[p].name@);
                    lemma_text_not_before_itself(rest[p].name@);
                    assert(j - 1 > p);
                    assert(!text_before(rest[j - 1].name@, rest[p].name@));
                }
            } else if i < p {
                assert(out[i] == rest[i] && out[j] == rest[j - 1]);
            } else {
                assert(out[i] == rest[i - 1] && out[j] == rest[j - 1]);
            }
        }
    }
}

fn name_place_in(sorted: &Vec<WeightFile>, name: &Vec<char>) -> (r: usize)
    ensures
        r == name_place(sorted@, name@),
        r <= sorted@.len(),
{
    let mut i: usize = 0;
    assert(sorted@.skip(0) =~= sorted@);
    loop
        invariant
            i <= sorted.len(),
            name_place(sorted@, name@) == i + name_place(sorted@.skip(i as int), name@),
        decreases sorted.len() - i,
    {
        if i >= sorted.len() {
            return i;
        }
        let other = crate::text::chars_of(sorted[i].name.as_str());
        proof {
            let rest = sorted@.skip(i as int);
            assert(rest[0] == sorted@[i as int]);
            assert(rest.skip(1) =~= sorted@.skip(i + 1));
        }
        if chars_before(name, &other) {
            return i;
        }
        i += 1;
    }
}

/// Orders a list of files by name.
pub fn sort_by_name(files: Vec<WeightFile>) -> (r: Vec<WeightFile>)
    ensures
        r@ == by_name(files@),
{
    let ghost all = files@;
    let mut rest = files;
    let mut reversed: Vec<WeightFile> = Vec::new();
    while rest.len() > 0
        invariant
            rest@.len() + reversed@.len() == all.len(),
            rest@ == all.take(rest@.len() as int),
            reversed@.reverse() == all.skip(rest@.len() as int),
        decreases rest@.len(),
    {
        let ghost reversed_before = reversed@;
        let file = rest.pop().unwrap();
        reversed.push(file);
        proof {
            assert(rest@ =~= all.take(rest@.len() as int));
            assert(reversed@.reverse() =~= seq![file] + reversed_before.reverse());
            assert(reversed@.reverse() =~= all.skip(rest@.len() as int));
        }
    }
    let mut out: Vec<WeightFile> = Vec::new();
    proof {
        assert(all.skip(0) =~= all);
        assert(all.take(0) =~= Seq::<WeightFile>::empty());
    }
    while reversed.len() > 0
        invariant
            reversed@.len() <= all.len(),
            reversed@.reverse() == all.skip(all.len() - reversed@.len()),
            out@ == by_name(all.take(all.len() - reversed@.len())),
        decreases reversed@.len(),
    {
        let ghost k = all.len() - reversed@.len();
        let ghost before = reversed@;
        let file = reversed.pop().unwrap();
        proof {
            assert(before.reverse()[0] == before.last());
            assert(file == all[k]);
            assert(all.take(k + 1).drop_last() =~= all.take(k));
            assert(all.take(k + 1).last() == all[k]);
            assert(reversed@.reverse() =~= before.reverse().skip(1));
            assert(reversed@.reverse() =~= all.skip(k + 1));
        }
        let name = crate::text::chars_of(file.name.as_str());
        let at = name_place_in(&out, &name);
        out.insert(at, file);
    }
    proof {
        assert(all.take(all.len() as int) =~= all);
    }
    out
}

} // verus!
