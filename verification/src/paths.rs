//! File-system paths as text. The path arithmetic itself is the standard
//! library's, for the platform the crate is built for; the functions here say
//! which paths the application uses.

use vstd::prelude::*;
use vstd::string::*;
use crate::text::{blank, is_blank};

verus! {

/// The operating systems the application tells apart.
#[derive(Clone, Copy, Debug, PartialEq, Eq, Structural)]
pub enum Platform {
    Windows,
    Linux,
    MacOs,
    Other,
}

/// `base` with `child` adjoined, as `Path::join` gives it.
pub uninterp spec fn path_joined(base: Seq<char>, child: Seq<char>) -> Seq<char>;

/// Whether the path is absolute, as `Path::is_absolute` tells.
pub uninterp spec fn path_is_absolute(path: Seq<char>) -> bool;

/// The path with its extension replaced, as `Path::with_extension` gives it.
pub uninterp spec fn path_with_extension(path: Seq<char>, extension: Seq<char>) -> Seq<char>;

/// The extension of the path's last component, as `Path::extension` gives it.
pub uninterp spec fn path_extension(path: Seq<char>) -> Option<Seq<char>>;

/// The last component of the path, as `Path::file_name` gives it.
pub uninterp spec fn path_file_name(path: Seq<char>) -> Option<Seq<char>>;

/// The path without its last component, as `Path::parent` gives it.
pub uninterp spec fn path_parent(path: Seq<char>) -> Option<Seq<char>>;

/// The path in its plainest form, as `dunce::simplified` gives it.
pub uninterp spec fn path_simplified(path: Seq<char>) -> Seq<char>;

/// Calls `Path::join`. The result is named, not described.
#[verifier::external_body]
pub(crate) fn join(base: &str, child: &str) -> (r: String)
    ensures
        r@ == path_joined(base@, child@),
{
    std::path::Path::new(base).join(child).to_string_lossy().into_owned()
}

/// Calls `Path::is_absolute`. The result is named, not described.
#[verifier::external_body]
pub(crate) fn is_absolute(path: &str) -> (r: bool)
    ensures
        r == path_is_absolute(path@),
{
    std::path::Path::new(path).is_absolute()
}

/// An extension that holds no path separator of any platform.
pub open spec fn plain_extension(extension: Seq<char>) -> bool {
    !extension.contains('/') && !extension.contains('\\')
}

/// Calls `Path::with_extension`, which fails on an extension that holds a
/// path separator. The result is named, not described.
#[verifier::external_body]
pub(crate) fn with_extension(path: &str, extension: &str) -> (r: String)
    requires
        plain_extension(extension@),
    ensures
        r@ == path_with_extension(path@, extension@),
{
    std::path::Path::new(path).with_extension(extension).to_string_lossy().into_owned()
}

/// Calls `Path::extension`. The result is named, not described.
#[verifier::external_body]
pub(crate) fn extension(path: &str) -> (r: Option<String>)
    ensures
        r is Some <==> path_extension(path@) is Some,
        r is Some ==> r->0@ == path_extension(path@)->0,
{
    match std::path::Path::new(path).extension() {
        Some(e) => Some(e.to_string_lossy().into_owned()),
        None => None,
    }
}

/// Calls `Path::file_name`. The result is named, not described.
#[verifier::external_body]
pub(crate) fn file_name(path: &str) -> (r: Option<String>)
    ensures
        r is Some <==> path_file_name(path@) is Some,
        r is Some ==> r->0@ == path_file_name(path@)->0,
{
    match std::path::Path::new(path).file_name() {
        Some(e) => Some(e.to_string_lossy().into_owned()),
        None => None,
    }
}

/// Calls `Path::parent`. The result is named, not described.
#[verifier::external_body]
pub(crate) fn parent(path: &str) -> (r: Option<String>)
    ensures
        r is Some <==> path_parent(path@) is Some,
        r is Some ==> r->0@ == path_parent(path@)->0,
{
    match std::path::Path::new(path).parent() {
        Some(e) => Some(e.to_string_lossy().into_owned()),
        None => None,
    }
}

/// Calls `dunce::simplified`, which does no I/O. The result is named, not
/// described.
#[verifier::external_body]
pub(crate) fn simplified(path: &str) -> (r: String)
    ensures
        r@ == path_simplified(path@),
{
    dunce::simplified(std::path::Path::new(path)).to_string_lossy().into_owned()
}

/// The folder of models beside the executable.
pub open spec fn default_models_folder(run_path: Seq<char>) -> Seq<char> {
    path_joined(run_path, "models"@)
}

/// The folder of models in use: the chosen one unless it is missing or blank.
pub open spec fn active_models_folder(
    run_path: Seq<char>,
    weights_folder: Option<Seq<char>>,
) -> Seq<char> {
    match weights_folder {
        Some(folder) => if is_blank(folder) {
            default_models_folder(run_path)
        } else {
            folder
        },
        None => default_models_folder(run_path),
    }
}

pub open spec fn ffmpeg_name(platform: Platform) -> Seq<char> {
    if platform == Platform::Windows {
        "ffmpeg.exe"@
    } else {
        "ffmpeg"@
    }
}

/// A model path as the worker gets it: unchanged when absolute, else under
/// `base_folder` and simplified.
pub open spec fn resolved_model_path(model_path: Seq<char>, base_folder: Seq<char>) -> Seq<char> {
    if path_is_absolute(model_path) {
        model_path
    } else {
        path_simplified(path_joined(base_folder, model_path))
    }
}

/// The name proposed for a copy of a file: its own, or `file` where its path
/// ends in none.
pub fn proposed_file_name(path: &str) -> (r: String)
    ensures
        r@ == (match path_file_name(path@) {
            Some(n) => n,
            None => "file"@,
        }),
{
    match file_name(path) {
        Some(n) => n,
        None => "file".to_string(),
    }
}

/// The name of a file inside an archive: its own, or the empty name where
/// its path ends in none.
pub fn archive_entry_name(path: &str) -> (r: String)
    ensures
        r@ == (match path_file_name(path@) {
            Some(n) => n,
            None => Seq::<char>::empty(),
        }),
{
    match file_name(path) {
        Some(n) => n,
        None => String::new(),
    }
}

/// The path with `json` for extension.
pub(crate) fn with_json_extension(path: &str) -> (r: String)
    ensures
        r@ == path_with_extension(path@, "json"@),
{
    proof {
        reveal_strlit("json");
        assert forall|i: int| 0 <= i < "json"@.len() implies "json"@[i] != '/' && "json"@[i]
            != '\\' by {}
    }
    with_extension(path, "json")
}

pub fn get_default_models_folder(run_path: &str) -> (r: String)
    ensures
        r@ == default_models_folder(run_path@),
{
    join(run_path, "models")
}

pub fn get_active_models_folder(run_path: &str, weights_folder: Option<&str>) -> (r: String)
    ensures
        r@ == active_models_folder(
            run_path@,
            match weights_folder {
                Some(f) => Some(f@),
                None => None,
            },
        ),
{
    match weights_folder {
        Some(folder) => {
            if blank(folder) {
                get_default_models_folder(run_path)
            } else {
                folder.to_string()
            }
        },
        None => get_default_models_folder(run_path),
    }
}

/// Where the list of model groups is stored.
pub fn get_model_groups_path(run_path: &str, weights_folder: Option<&str>) -> (r: String)
    ensures
        r@ == path_joined(
            active_models_folder(
                run_path@,
                match weights_folder {
                    Some(f) => Some(f@),
                    None => None,
                },
            ),
            "model-groups.json"@,
        ),
{
    let folder = get_active_models_folder(run_path, weights_folder);
    join(folder.as_str(), "model-groups.json")
}

/// The folder of engines beside the executable.
pub fn get_default_sdcpp_folder(run_path: &str) -> (r: String)
    ensures
        r@ == path_joined(path_joined(run_path@, "engines"@), "sdcpp"@),
{
    let engines = join(run_path, "engines");
    join(engines.as_str(), "sdcpp")
}

/// The folder of generated files beside the executable.
pub fn get_default_outputs_folder(run_path: &str) -> (r: String)
    ensures
        r@ == path_joined(run_path@, "outputs"@),
{
    join(run_path, "outputs")
}

/// Where the transcoder is expected.
pub fn get_ffmpeg_path(run_path: &str, platform: Platform) -> (r: String)
    ensures
        r@ == path_joined(
            path_joined(path_joined(path_joined(run_path@, "engines"@), "ffmpeg"@), "bin"@),
            ffmpeg_name(platform),
        ),
{
    let engines = join(run_path, "engines");
    let ffmpeg = join(engines.as_str(), "ffmpeg");
    let bin = join(ffmpeg.as_str(), "bin");
    match platform {
        Platform::Windows => join(bin.as_str(), "ffmpeg.exe"),
        _ => join(bin.as_str(), "ffmpeg"),
    }
}

pub fn resolve_model_path(model_path: &str, base_folder: &str) -> (r: String)
    ensures
        r@ == resolved_model_path(model_path@, base_folder@),
{
    if is_absolute(model_path) {
        model_path.to_string()
    } else {
        let full = join(base_folder, model_path);
        simplified(full.as_str())
    }
}

/// What a look at one candidate path on disk found.
#[derive(Debug)]
pub struct CandidateProbe {
    /// Whether the candidate exists.
    pub exists: bool,
    /// Its canonical form, where that could be had.
    pub canonical: Option<String>,
}

/// The folders under which a relative model path is looked for, in order: the
/// models folder unless blank, `models` under the working directory where that
/// is known, and the models folder of the source tree where there is one.
pub open spec fn fallback_bases(
    primary: Seq<char>,
    current_dir: Option<Seq<char>>,
    workspace_models: Option<Seq<char>>,
) -> Seq<Seq<char>> {
    (if is_blank(primary) {
        Seq::<Seq<char>>::empty()
    } else {
        seq![primary]
    }) + (match current_dir {
        Some(dir) => seq![path_joined(dir, "models"@)],
        None => Seq::empty(),
    }) + (match workspace_models {
        Some(folder) => seq![folder],
        None => Seq::empty(),
    })
}

/// The index of the first probe that found something.
pub open spec fn first_existing(probes: Seq<CandidateProbe>) -> Option<int>
    decreases probes.len(),
{
    if probes.len() == 0 {
        None
    } else {
        match first_existing(probes.drop_last()) {
            Some(i) => Some(i),
            None => if probes.last().exists {
                Some(probes.len() - 1)
            } else {
                None
            },
        }
    }
}

/// The probes that are looked at: those of the candidates there are.
pub open spec fn considered(probes: Seq<CandidateProbe>, folders: nat) -> Seq<CandidateProbe> {
    if probes.len() <= folders {
        probes
    } else {
        probes.take(folders as int)
    }
}

/// The resolved path, given what the probes of the candidates found: an
/// absolute path stays; else the first candidate that exists wins, in its
/// canonical form where there is one; else the path goes under the models
/// folder.
pub open spec fn resolved_with_fallback(
    model_path: Seq<char>,
    primary: Seq<char>,
    bases: Seq<Seq<char>>,
    probes: Seq<CandidateProbe>,
) -> Seq<char> {
    if path_is_absolute(model_path) {
        model_path
    } else {
        match first_existing(considered(probes, bases.len())) {
            Some(i) => match probes[i].canonical {
                Some(c) => c@,
                None => path_joined(bases[i], model_path),
            },
            None => resolved_model_path(model_path, primary),
        }
    }
}

pub proof fn lemma_first_existing(probes: Seq<CandidateProbe>)
    ensures
        match first_existing(probes) {
            Some(i) => 0 <= i < probes.len() && probes[i].exists && forall|j: int|
                0 <= j < i ==> !probes[j].exists,
            None => forall|j: int| 0 <= j < probes.len() ==> !probes[j].exists,
        },
    decreases probes.len(),
{
    if probes.len() > 0 {
        lemma_first_existing(probes.drop_last());
        assert forall|j: int| 0 <= j < probes.len() - 1 implies probes.drop_last()[j]
            == probes[j] by {}
    }
}

/// The folders to look under, as `fallback_bases` lists them.
pub fn model_search_folders(
    primary_base_folder: &str,
    current_dir: Option<&str>,
    workspace_models: Option<&str>,
) -> (r: Vec<String>)
    ensures
        crate::text::texts(r@) == fallback_bases(
            primary_base_folder@,
            match current_dir {
                Some(d) => Some(d@),
                None => None,
            },
            match workspace_models {
                Some(d) => Some(d@),
                None => None,
            },
        ),
{
    let mut out: Vec<String> = Vec::new();
    if !blank(primary_base_folder) {
        out.push(primary_base_folder.to_string());
    }
    match current_dir {
        Some(dir) => {
            out.push(join(dir, "models"));
        },
        None => {},
    }
    match workspace_models {
        Some(folder) => {
            out.push(folder.to_string());
        },
        None => {},
    }
    assert(crate::text::texts(out@) =~= fallback_bases(
        primary_base_folder@,
        match current_dir {
            Some(d) => Some(d@),
            None => None,
        },
        match workspace_models {
            Some(d) => Some(d@),
            None => None,
        },
    ));
    out
}

/// The candidate paths of a model, one under each folder.
pub fn model_candidates(model_path: &str, bases: &Vec<String>) -> (r: Vec<String>)
    ensures
        r@.len() == bases@.len(),
        forall|i: int|
            0 <= i < r@.len() ==> (#[trigger] r@[i])@ == path_joined(bases@[i]@, model_path@),
{
    let mut out: Vec<String> = Vec::new();
    let mut i: usize = 0;
    while i < bases.len()
        invariant
            i <= bases.len(),
            out@.len() == i,
            forall|k: int|
                0 <= k < out@.len() ==> (#[trigger] out@[k])@ == path_joined(
                    bases@[k]@,
                    model_path@,
                ),
        decreases bases.len() - i,
    {
        out.push(join(bases[i].as_str(), model_path));
        i += 1;
    }
    out
}

/// Resolves a model path from what the probes of its candidates found. The
/// probes tell of the candidates in the order of the folders; a probe beyond
/// the last folder is not looked at.
pub fn resolve_model_path_with_fallback(
    model_path: &str,
    primary_base_folder: &str,
    bases: &Vec<String>,
    probes: &Vec<CandidateProbe>,
) -> (r: String)
    ensures
        r@ == resolved_with_fallback(
            model_path@,
            primary_base_folder@,
            crate::text::texts(bases@),
            probes@,
        ),
{
    if is_absolute(model_path) {
        return model_path.to_string();
    }
    let limit: usize = if probes.len() <= bases.len() {
        probes.len()
    } else {
        bases.len()
    };
    let ghost looked_at = considered(probes@, bases@.len());
    proof {
        assert(crate::text::texts(bases@).len() == bases@.len());
        assert(looked_at =~= probes@.take(limit as int));
    }
    let mut i: usize = 0;
    while i < limit
        invariant
            i <= limit,
            limit <= probes.len(),
            limit <= bases.len(),
            looked_at == probes@.take(limit as int),
            looked_at == considered(probes@, crate::text::texts(bases@).len()),
            !path_is_absolute(model_path@),
            forall|j: int| 0 <= j < i ==> !probes@[j].exists,
        decreases limit - i,
    {
        if probes[i].exists {
            proof {
                lemma_first_existing(looked_at);
                assert(looked_at[i as int] == probes@[i as int]);
                assert forall|j: int| 0 <= j < i implies !looked_at[j].exists by {
                    assert(looked_at[j] == probes@[j]);
                }
                assert(first_existing(looked_at) == Some(i as int));
                assert(crate::text::texts(bases@)[i as int] == bases@[i as int]@);
            }
            return match &probes[i].canonical {
                Some(c) => c.clone(),
                None => join(bases[i].as_str(), model_path),
            };
        }
        i += 1;
    }
    proof {
        lemma_first_existing(looked_at);
        assert forall|j: int| 0 <= j < looked_at.len() implies !looked_at[j].exists by {
            assert(looked_at[j] == probes@[j]);
        }
    }
    resolve_model_path(model_path, primary_base_folder)
}

} // verus!
