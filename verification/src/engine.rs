//! The inference engine on disk and its releases: which executable to run,
//! which version it reports, and which release assets fit this system.

use vstd::prelude::*;
use vstd::string::StringExecFns;
use crate::paths::{join, path_joined, Platform};
use crate::text::{
    ascii_lower_chars, ascii_lowered, chars_of, appended, contains, contains_text,
    decimal, ends_with, find_chars, finishes_with, lines_of, lowercase, same_text, string_of, text_lines, texts, to_ascii_lowercase, trim_chars, trimmed,
    u64_to_string, unicode_lowercased,
};

verus! {

/// The names under which the engine's executable may come, in order of
/// preference.
pub open spec fn executable_names(platform: Platform) -> Seq<Seq<char>> {
    if platform == Platform::Windows {
        seq!["sd.exe"@, "sd-cli.exe"@, "sd_server.exe"@, "sd-server.exe"@]
    } else {
        seq!["sd"@, "sd-cli"@, "sd_server"@, "sd-server"@]
    }
}

pub fn sdcpp_executable_names(platform: Platform) -> (r: Vec<String>)
    ensures
        texts(r@) == executable_names(platform),
        r@.len() == 4,
{
    let mut out: Vec<String> = Vec::new();
    match platform {
        Platform::Windows => {
            out.push("sd.exe".to_string());
            out.push("sd-cli.exe".to_string());
            out.push("sd_server.exe".to_string());
            out.push("sd-server.exe".to_string());
        },
        _ => {
            out.push("sd".to_string());
            out.push("sd-cli".to_string());
            out.push("sd_server".to_string());
            out.push("sd-server".to_string());
        },
    }
    assert(texts(out@) =~= executable_names(platform));
    out
}

/// The paths at which the executable is looked for in a device folder.
pub fn sdcpp_executable_candidates(device_folder: &str, platform: Platform) -> (r: Vec<String>)
    ensures
        r@.len() == 4,
        forall|i: int|
            0 <= i < 4 ==> (#[trigger] r@[i])@ == path_joined(
                device_folder@,
                executable_names(platform)[i],
            ),
{
    let names = sdcpp_executable_names(platform);
    let mut out: Vec<String> = Vec::new();
    let mut i: usize = 0;
    while i < names.len()
        invariant
            i <= names.len(),
            texts(names@) == executable_names(platform),
            names@.len() == 4,
            out@.len() == i,
            forall|k: int|
                0 <= k < out@.len() ==> (#[trigger] out@[k])@ == path_joined(
                    device_folder@,
                    executable_names(platform)[k],
                ),
        decreases names.len() - i,
    {
        proof {
            assert(texts(names@)[i as int] == names@[i as int]@);
        }
        out.push(join(device_folder, names[i].as_str()));
        i += 1;
    }
    out
}

/// The index of the first `true`.
pub open spec fn first_true(found: Seq<bool>) -> Option<int>
    decreases found.len(),
{
    if found.len() == 0 {
        None
    } else {
        match first_true(found.drop_last()) {
            Some(i) => Some(i),
            None => if found.last() {
                Some(found.len() - 1)
            } else {
                None
            },
        }
    }
}

pub proof fn lemma_first_true(found: Seq<bool>)
    ensures
        match first_true(found) {
            Some(i) => 0 <= i < found.len() && found[i] && forall|j: int| 0 <= j < i ==> !found[j],
            None => forall|j: int| 0 <= j < found.len() ==> !found[j],
        },
    decreases found.len(),
{
    if found.len() > 0 {
        lemma_first_true(found.drop_last());
        assert forall|j: int| 0 <= j < found.len() - 1 implies found.drop_last()[j]
            == found[j] by {}
    }
}

fn index_of_first_true(found: &Vec<bool>, limit: usize) -> (r: Option<usize>)
    ensures
        match r {
            Some(i) => i < limit && first_true(found@) == Some(i as int),
            None => match first_true(found@) {
                Some(i) => i >= limit,
                None => true,
            },
        },
{
    let mut i: usize = 0;
    while i < found.len() && i < limit
        invariant
            i <= found.len(),
            i <= limit,
            forall|j: int| 0 <= j < i ==> !found@[j],
        decreases found.len() - i,
    {
        if found[i] {
            proof {
                lemma_first_true(found@);
            }
            return Some(i);
        }
        i += 1;
    }
    proof {
        lemma_first_true(found@);
    }
    None
}

/// The executable of the engine in a device folder: the first of the known
/// names that exists there. `exists` tells of each name, in order, whether a
/// file of that name is in the folder; what it does not tell of counts as
/// missing.
pub fn resolve_sdcpp_executable(device_folder: &str, platform: Platform, exists: &Vec<bool>) -> (r:
    Option<String>)
    ensures
        match first_true(exists@) {
            Some(i) => if i < 4 {
                r is Some && r->0@ == path_joined(device_folder@, executable_names(platform)[i])
            } else {
                r is None
            },
            None => r is None,
        },
{
    match index_of_first_true(exists, 4) {
        Some(i) => {
            let names = sdcpp_executable_names(platform);
            proof {
                assert(texts(names@)[i as int] == names@[i as int]@);
            }
            Some(join(device_folder, names[i].as_str()))
        },
        None => None,
    }
}

/// What a look at one device folder found.
#[derive(Debug)]
pub struct DeviceProbe {
    pub folder_exists: bool,
    /// Of each executable name, in order, whether it is there.
    pub executables: Vec<bool>,
}

/// The devices an engine may be installed for.
pub open spec fn device_names() -> Seq<Seq<char>> {
    seq!["cpu"@, "cuda"@, "vulkan"@, "rocm"@]
}

pub fn engine_devices() -> (r: Vec<String>)
    ensures
        texts(r@) == device_names(),
        r@.len() == 4,
{
    let mut out: Vec<String> = Vec::new();
    out.push("cpu".to_string());
    out.push("cuda".to_string());
    out.push("vulkan".to_string());
    out.push("rocm".to_string());
    assert(texts(out@) =~= device_names());
    out
}

/// An engine is installed for a device when its folder exists and holds one
/// of the known executables.
pub open spec fn installed(probe: DeviceProbe) -> bool {
    probe.folder_exists && match first_true(probe.executables@) {
        Some(i) => i < 4,
        None => false,
    }
}

/// The devices with an installed engine among the first `n`, in order.
pub open spec fn available_among(probes: Seq<DeviceProbe>, n: int) -> Seq<Seq<char>>
    decreases n,
{
    if n <= 0 {
        Seq::empty()
    } else if n <= probes.len() && n <= 4 && installed(probes[n - 1]) {
        available_among(probes, n - 1).push(device_names()[n - 1])
    } else {
        available_among(probes, n - 1)
    }
}

/// The devices for which an engine is installed. `probes` tells of the
/// devices `cpu`, `cuda`, `vulkan` and `rocm`, in that order; a device it
/// does not tell of counts as not installed.
pub fn get_available_engines(probes: &Vec<DeviceProbe>) -> (r: Vec<String>)
    ensures
        texts(r@) == available_among(probes@, 4),
{
    let devices = engine_devices();
    let mut out: Vec<String> = Vec::new();
    let mut i: usize = 0;
    assert(texts(out@) =~= available_among(probes@, 0));
    while i < 4
        invariant
            i <= 4,
            texts(devices@) == device_names(),
            devices@.len() == 4,
            texts(out@) == available_among(probes@, i as int),
        decreases 4 - i,
    {
        let ghost before = texts(out@);
        if i < probes.len() && probes[i].folder_exists && index_of_first_true(
            &probes[i].executables,
            4,
        ).is_some() {
            proof {
                assert(texts(devices@)[i as int] == devices@[i as int]@);
            }
            out.push(devices[i].clone());
            assert(texts(out@) =~= before.push(device_names()[i as int]));
        }
        i += 1;
    }
    out
}

/// A line tells the version when, trimmed, it is not empty and names
/// `version` or `stable-diffusion.cpp` in any ASCII case, or begins with `v`.
pub open spec fn tells_version(line: Seq<char>) -> bool {
    let t = trimmed(line);
    t.len() > 0 && (contains_text(ascii_lowered(t), "version"@) || contains_text(
        ascii_lowered(t),
        "stable-diffusion.cpp"@,
    ) || t[0] == 'v')
}

/// The first of the lines that tells the version, trimmed.
pub open spec fn version_among(lines: Seq<Seq<char>>) -> Option<Seq<char>>
    decreases lines.len(),
{
    if lines.len() == 0 {
        None
    } else {
        match version_among(lines.drop_last()) {
            Some(l) => Some(l),
            None => if tells_version(lines.last()) {
                Some(trimmed(lines.last()))
            } else {
                None
            },
        }
    }
}

/// The line of a text that tells the version of the engine.
pub fn extract_version_line(content: &str) -> (r: Option<String>)
    ensures
        match r {
            Some(s) => version_among(text_lines(content@)) == Some(s@),
            None => version_among(text_lines(content@)) is None,
        },
{
    let chars = chars_of(content);
    let lines = lines_of(&chars);
    let version = chars_of("version");
    let project = chars_of("stable-diffusion.cpp");
    let ghost all = text_lines(content@);
    let mut i: usize = 0;
    assert(all.take(0) =~= Seq::<Seq<char>>::empty());
    while i < lines.len()
        invariant
            i <= lines.len(),
            all == text_lines(content@),
            lines@.len() == all.len(),
            forall|k: int| 0 <= k < lines@.len() ==> (#[trigger] lines@[k])@ == all[k],
            version@ == "version"@,
            project@ == "stable-diffusion.cpp"@,
            version_among(all.take(i as int)) is None,
        decreases lines.len() - i,
    {
        let t = trim_chars(&lines[i]);
        let lower = ascii_lower_chars(&t);
        proof {
            assert(lines@[i as int]@ == all[i as int]);
            assert(all.take(i + 1).drop_last() =~= all.take(i as int));
            assert(all.take(i + 1).last() == all[i as int]);
        }
        let has_version = find_chars(&lower, &version).is_some();
        let has_project = find_chars(&lower, &project).is_some();
        let tells = t.len() > 0 && (has_version || has_project || t[0] == 'v');
        proof {
            assert(t@ == trimmed(all[i as int]));
            assert(has_version == contains_text(ascii_lowered(t@), "version"@));
            assert(has_project == contains_text(ascii_lowered(t@), "stable-diffusion.cpp"@));
            assert(tells == tells_version(all[i as int]));
        }
        if tells {
            let found = string_of(&t);
            proof {
                lemma_version_found(all, i as int);
            }
            return Some(found);
        }
        i += 1;
    }
    assert(all.take(lines@.len() as int) =~= all);
    None
}

proof fn lemma_version_found(lines: Seq<Seq<char>>, i: int)
    requires
        0 <= i < lines.len(),
        version_among(lines.take(i)) is None,
        tells_version(lines[i]),
    ensures
        version_among(lines) == Some(trimmed(lines[i])),
    decreases lines.len(),
{
    if i == lines.len() - 1 {
        assert(lines.drop_last() =~= lines.take(i));
    } else {
        assert(lines.drop_last().take(i) =~= lines.take(i));
        lemma_version_found(lines.drop_last(), i);
    }
}

/// What running one candidate executable with `--version` gave.
#[derive(Debug)]
pub enum VersionRun {
    /// There is no such executable.
    Missing,
    /// It could not be run, or did not answer in time.
    Failed,
    Output { stdout: String, stderr: String },
}

/// Where the search for the version goes next.
#[derive(Debug)]
pub enum VersionSearch {
    Found { line: String },
    /// Nothing here; try the next source.
    Next,
    /// The search ends without a version.
    GiveUp,
}

/// Reads the version from one run of a candidate executable: from what it
/// wrote to its output and, after that, to its error stream. A candidate that
/// is missing is passed over; one that fails ends the search.
pub fn version_from_run(run: &VersionRun) -> (r: VersionSearch)
    ensures
        match *run {
            VersionRun::Missing => r is Next,
            VersionRun::Failed => r is GiveUp,
            VersionRun::Output { stdout, stderr } => match version_among(
                text_lines(stdout@ + seq!['\n'] + stderr@),
            ) {
                Some(l) => r is Found && r->line@ == l,
                None => r is Next,
            },
        },
{
    match run {
        VersionRun::Missing => VersionSearch::Next,
        VersionRun::Failed => VersionSearch::GiveUp,
        VersionRun::Output { stdout, stderr } => {
            let mut combined = String::new();
            combined.append(stdout.as_str());
            combined.push('\n');
            combined.append(stderr.as_str());
            assert(combined@ =~= stdout@ + seq!['\n'] + stderr@);
            match extract_version_line(combined.as_str()) {
                Some(line) => VersionSearch::Found { line },
                None => VersionSearch::Next,
            }
        },
    }
}

/// Reads the version from a text file that comes with the engine, where it
/// is there and could be read.
pub fn version_from_file(content: Option<&str>) -> (r: VersionSearch)
    ensures
        match content {
            Some(c) => match version_among(text_lines(c@)) {
                Some(l) => r is Found && r->line@ == l,
                None => r is Next,
            },
            None => r is Next,
        },
{
    match content {
        Some(c) => match extract_version_line(c) {
            Some(line) => VersionSearch::Found { line },
            None => VersionSearch::Next,
        },
        None => VersionSearch::Next,
    }
}

/// The text files that may tell the version, in the order they are read.
pub fn version_files() -> (r: Vec<String>)
    ensures
        texts(r@) == seq!["stable-diffusion.cpp.txt"@, "ggml.txt"@],
{
    let mut out: Vec<String> = Vec::new();
    out.push("stable-diffusion.cpp.txt".to_string());
    out.push("ggml.txt".to_string());
    assert(texts(out@) =~= seq!["stable-diffusion.cpp.txt"@, "ggml.txt"@]);
    out
}

/// One file of a release.
#[derive(Debug)]
pub struct SDCppReleaseAsset {
    pub name: String,
    pub size: u64,
    pub download_url: String,
    pub device_type: String,
    pub cpu_variant: Option<String>,
}

/// One release of the engine.
#[derive(Debug)]
pub struct SDCppRelease {
    pub tag_name: String,
    pub name: String,
    pub published_at: String,
    pub assets: Vec<SDCppReleaseAsset>,
}

/// The device that a name in small letters tells of.
pub open spec fn device_named(lower: Seq<char>) -> Seq<char> {
    if contains_text(lower, "cuda"@) && !contains_text(lower, "cudart"@) {
        "cuda"@
    } else if contains_text(lower, "cudart"@) {
        "cudart"@
    } else if contains_text(lower, "vulkan"@) {
        "vulkan"@
    } else if contains_text(lower, "cpu"@) || contains_text(lower, "avx"@) || contains_text(
        lower,
        "noavx"@,
    ) || finishes_with(lower, ".zip"@) {
        "cpu"@
    } else {
        "unknown"@
    }
}

/// The instruction set that a name in small letters tells of.
pub open spec fn cpu_variant_named(lower: Seq<char>) -> Option<Seq<char>> {
    if contains_text(lower, "avx512"@) {
        Some("avx512"@)
    } else if contains_text(lower, "avx2"@) {
        Some("avx2"@)
    } else if contains_text(lower, "noavx"@) {
        Some("noavx"@)
    } else if contains_text(lower, "avx"@) {
        Some("avx"@)
    } else {
        None
    }
}

/// The device an asset is built for, by its name in small letters.
pub open spec fn asset_device(name: Seq<char>) -> Seq<char> {
    device_named(unicode_lowercased(name))
}

/// The instruction set an asset is built for, by its name in small letters.
pub open spec fn asset_cpu_variant(name: Seq<char>) -> Option<Seq<char>> {
    cpu_variant_named(unicode_lowercased(name))
}

/// The device that a name tells of, once the name is in small letters.
pub fn device_of_lowered(lower: &str) -> (r: String)
    ensures
        r@ == device_named(lower@),
{
    if contains(lower, "cuda") && !contains(lower, "cudart") {
        "cuda".to_string()
    } else if contains(lower, "cudart") {
        "cudart".to_string()
    } else if contains(lower, "vulkan") {
        "vulkan".to_string()
    } else if contains(lower, "cpu") || contains(lower, "avx") || contains(lower, "noavx")
        || ends_with(lower, ".zip") {
        "cpu".to_string()
    } else {
        "unknown".to_string()
    }
}

/// The instruction set that a name tells of, once the name is in small
/// letters.
pub fn cpu_variant_of_lowered(lower: &str) -> (r: Option<String>)
    ensures
        match r {
            Some(s) => cpu_variant_named(lower@) == Some(s@),
            None => cpu_variant_named(lower@) is None,
        },
{
    if contains(lower, "avx512") {
        Some("avx512".to_string())
    } else if contains(lower, "avx2") {
        Some("avx2".to_string())
    } else if contains(lower, "noavx") {
        Some("noavx".to_string())
    } else if contains(lower, "avx") {
        Some("avx".to_string())
    } else {
        None
    }
}

pub fn classify_asset_device(name: &str) -> (r: String)
    ensures
        r@ == asset_device(name@),
{
    let lowered = lowercase(name);
    device_of_lowered(lowered.as_str())
}

pub fn classify_cpu_variant(name: &str) -> (r: Option<String>)
    ensures
        match r {
            Some(s) => asset_cpu_variant(name@) == Some(s@),
            None => asset_cpu_variant(name@) is None,
        },
{
    let lowered = lowercase(name);
    cpu_variant_of_lowered(lowered.as_str())
}

/// What of the processor decides which builds can run.
#[derive(Clone, Copy, Debug)]
pub struct CpuFeatures {
    /// Whether the processor is of the x86 family.
    pub x86: bool,
    pub avx: bool,
    pub avx2: bool,
    pub avx512f: bool,
}

/// The system that assets are chosen for.
#[derive(Debug)]
pub struct SystemInfo {
    pub platform: Platform,
    /// The architecture by its usual name: `x86_64`, `aarch64`, `x86`.
    pub arch: String,
    pub cpu: CpuFeatures,
}

pub open spec fn mentions_windows(name: Seq<char>) -> bool {
    contains_text(name, "win"@) || contains_text(name, "windows"@)
}

pub open spec fn mentions_linux(name: Seq<char>) -> bool {
    contains_text(name, "linux"@) || contains_text(name, "ubuntu"@)
}

pub open spec fn mentions_macos(name: Seq<char>) -> bool {
    contains_text(name, "mac"@) || contains_text(name, "darwin"@) || contains_text(name, "osx"@)
}

/// A name that mentions no platform fits every platform; one that mentions
/// any fits only those it mentions.
pub open spec fn platform_fits(name: Seq<char>, platform: Platform) -> bool {
    if !(mentions_windows(name) || mentions_linux(name) || mentions_macos(name)) {
        true
    } else {
        (platform == Platform::Windows && mentions_windows(name)) || (platform == Platform::Linux
            && mentions_linux(name)) || (platform == Platform::MacOs && mentions_macos(name))
    }
}

pub fn is_platform_compatible(asset_name: &str, platform: Platform) -> (r: bool)
    ensures
        r == platform_fits(asset_name@, platform),
{
    let windows = contains(asset_name, "win") || contains(asset_name, "windows");
    let linux = contains(asset_name, "linux") || contains(asset_name, "ubuntu");
    let macos = contains(asset_name, "mac") || contains(asset_name, "darwin") || contains(
        asset_name,
        "osx",
    );
    if !(windows || linux || macos) {
        return true;
    }
    match platform {
        Platform::Windows => windows,
        Platform::Linux => linux,
        Platform::MacOs => macos,
        Platform::Other => false,
    }
}

pub open spec fn mentions_x64(name: Seq<char>) -> bool {
    contains_text(name, "x64"@) || contains_text(name, "x86_64"@) || contains_text(name, "amd64"@)
}

pub open spec fn mentions_arm64(name: Seq<char>) -> bool {
    contains_text(name, "arm64"@) || contains_text(name, "aarch64"@)
}

pub open spec fn mentions_x86(name: Seq<char>) -> bool {
    contains_text(name, "x86"@) || contains_text(name, "i686"@) || contains_text(name, "386"@)
}

/// A name that mentions no architecture fits every architecture. One that
/// mentions any fits `x86_64`, `aarch64` and `x86` where it mentions them, and
/// every other architecture.
pub open spec fn arch_fits(name: Seq<char>, arch: Seq<char>) -> bool {
    if !(mentions_x64(name) || mentions_arm64(name) || mentions_x86(name)) {
        true
    } else if arch == "x86_64"@ {
        mentions_x64(name)
    } else if arch == "aarch64"@ {
        mentions_arm64(name)
    } else if arch == "x86"@ {
        mentions_x86(name)
    } else {
        true
    }
}

pub fn is_arch_compatible(asset_name: &str, arch: &str) -> (r: bool)
    ensures
        r == arch_fits(asset_name@, arch@),
{
    let x64 = contains(asset_name, "x64") || contains(asset_name, "x86_64") || contains(
        asset_name,
        "amd64",
    );
    let arm64 = contains(asset_name, "arm64") || contains(asset_name, "aarch64");
    let x86 = contains(asset_name, "x86") || contains(asset_name, "i686") || contains(
        asset_name,
        "386",
    );
    if !(x64 || arm64 || x86) {
        return true;
    }
    if same_text(arch, "x86_64") {
        x64
    } else if same_text(arch, "aarch64") {
        arm64
    } else if same_text(arch, "x86") {
        x86
    } else {
        true
    }
}

/// Whether this processor can run a build for the given instruction set. A
/// processor that is not of the x86 family runs them all.
pub open spec fn cpu_variant_fits(variant: Option<Seq<char>>, cpu: CpuFeatures) -> bool {
    match variant {
        None => true,
        Some(v) => if !cpu.x86 {
            true
        } else if v == "avx"@ {
            cpu.avx
        } else if v == "avx2"@ {
            cpu.avx2
        } else if v == "avx512"@ {
            cpu.avx512f
        } else {
            true
        },
    }
}

pub fn is_cpu_variant_supported(cpu_variant: Option<&str>, cpu: CpuFeatures) -> (r: bool)
    ensures
        r == cpu_variant_fits(
            match cpu_variant {
                Some(v) => Some(v@),
                None => None,
            },
            cpu,
        ),
{
    match cpu_variant {
        None => true,
        Some(v) => {
            if !cpu.x86 {
                true
            } else if same_text(v, "avx") {
                cpu.avx
            } else if same_text(v, "avx2") {
                cpu.avx2
            } else if same_text(v, "avx512") {
                cpu.avx512f
            } else {
                true
            }
        },
    }
}

/// An asset fits the system when its name, in small ASCII letters, fits the
/// platform and the architecture, and, for a CPU build, the processor can run
/// its instruction set.
pub open spec fn asset_fits(asset: SDCppReleaseAsset, system: SystemInfo) -> bool {
    let lower = ascii_lowered(asset.name@);
    platform_fits(lower, system.platform) && arch_fits(lower, system.arch@) && (asset.device_type@
        == "cpu"@ ==> cpu_variant_fits(
        match asset.cpu_variant {
            Some(v) => Some(v@),
            None => None,
        },
        system.cpu,
    ))
}

pub fn is_asset_compatible_with_current_system(asset: &SDCppReleaseAsset, system: &SystemInfo) -> (r:
    bool)
    ensures
        r == asset_fits(*asset, *system),
{
    let lowered = to_ascii_lowercase(asset.name.as_str());
    let lower = lowered.as_str();
    if !is_platform_compatible(lower, system.platform) {
        return false;
    }
    if !is_arch_compatible(lower, system.arch.as_str()) {
        return false;
    }
    if same_text(asset.device_type.as_str(), "cpu") {
        let supported = match &asset.cpu_variant {
            Some(v) => is_cpu_variant_supported(Some(v.as_str()), system.cpu),
            None => is_cpu_variant_supported(None, system.cpu),
        };
        if !supported {
            return false;
        }
    }
    true
}

/// An asset as the release list names it, classified by its name.
pub fn describe_asset(name: String, size: u64, download_url: String) -> (r: SDCppReleaseAsset)
    ensures
        r.name == name,
        r.size == size,
        r.download_url == download_url,
        r.device_type@ == asset_device(name@),
        match r.cpu_variant {
            Some(v) => asset_cpu_variant(name@) == Some(v@),
            None => asset_cpu_variant(name@) is None,
        },
{
    let device_type = classify_asset_device(name.as_str());
    let cpu_variant = classify_cpu_variant(name.as_str());
    SDCppReleaseAsset { name, size, download_url, device_type, cpu_variant }
}

/// The assets that fit the system, in their order.
pub open spec fn fitting_assets(assets: Seq<SDCppReleaseAsset>, system: SystemInfo) -> Seq<
    SDCppReleaseAsset,
>
    decreases assets.len(),
{
    if assets.len() == 0 {
        Seq::empty()
    } else if asset_fits(assets.last(), system) {
        fitting_assets(assets.drop_last(), system).push(assets.last())
    } else {
        fitting_assets(assets.drop_last(), system)
    }
}

/// Keeps the assets that fit the system.
pub fn compatible_assets(assets: Vec<SDCppReleaseAsset>, system: &SystemInfo) -> (r: Vec<
    SDCppReleaseAsset,
>)
    ensures
        r@ == fitting_assets(assets@, *system),
{
    let mut out: Vec<SDCppReleaseAsset> = Vec::new();
    let ghost all = assets@;
    let mut rest = assets;
    // The assets are taken from the back, so what is kept comes out reversed
    // and is turned round at the end.
    let mut kept_reversed: Vec<SDCppReleaseAsset> = Vec::new();
    while rest.len() > 0
        invariant
            rest@ == all.take(rest@.len() as int),
            rest@.len() <= all.len(),
            fitting_assets(all, *system) == fitting_assets(rest@, *system) + kept_reversed@.reverse(),
        decreases rest@.len(),
    {
        let ghost before = rest@;
        let ghost kept_before = kept_reversed@;
        let asset = rest.pop().unwrap();
        proof {
            assert(rest@ =~= before.drop_last());
            assert(asset == before.last());
            assert(rest@ =~= all.take(rest@.len() as int));
        }
        if is_asset_compatible_with_current_system(&asset, system) {
            kept_reversed.push(asset);
            proof {
                assert(kept_reversed@.reverse() =~= seq![asset] + kept_before.reverse());
                assert(fitting_assets(before, *system) + kept_before.reverse() =~= fitting_assets(
                    rest@,
                    *system,
                ) + kept_reversed@.reverse());
            }
        }
    }
    proof {
        assert(all.take(all.len() as int) =~= all);
        assert(fitting_assets(all, *system) =~= kept_reversed@.reverse());
    }
    while kept_reversed.len() > 0
        invariant
            fitting_assets(all, *system) == out@ + kept_reversed@.reverse(),
        decreases kept_reversed@.len(),
    {
        let ghost before = kept_reversed@;
        let ghost out_before = out@;
        let asset = kept_reversed.pop().unwrap();
        out.push(asset);
        proof {
            assert(kept_reversed@ =~= before.drop_last());
            assert(before.reverse() =~= seq![asset] + kept_reversed@.reverse());
            assert(out_before + before.reverse() =~= out@ + kept_reversed@.reverse());
        }
    }
    assert(fitting_assets(all, *system) =~= out@);
    out
}

/// The releases that have an asset left, in their order.
pub open spec fn offered_releases(releases: Seq<SDCppRelease>) -> Seq<SDCppRelease>
    decreases releases.len(),
{
    if releases.len() == 0 {
        Seq::empty()
    } else if releases.last().assets@.len() > 0 {
        offered_releases(releases.drop_last()).push(releases.last())
    } else {
        offered_releases(releases.drop_last())
    }
}

/// Keeps the releases that still have an asset.
pub fn releases_with_assets(releases: Vec<SDCppRelease>) -> (r: Vec<SDCppRelease>)
    ensures
        r@ == offered_releases(releases@),
{
    let mut out: Vec<SDCppRelease> = Vec::new();
    let ghost all = releases@;
    let mut rest = releases;
    let mut kept_reversed: Vec<SDCppRelease> = Vec::new();
    while rest.len() > 0
        invariant
            rest@ == all.take(rest@.len() as int),
            rest@.len() <= all.len(),
            offered_releases(all) == offered_releases(rest@) + kept_reversed@.reverse(),
        decreases rest@.len(),
    {
        let ghost before = rest@;
        let ghost kept_before = kept_reversed@;
        let release = rest.pop().unwrap();
        proof {
            assert(rest@ =~= before.drop_last());
            assert(release == before.last());
            assert(rest@ =~= all.take(rest@.len() as int));
        }
        if release.assets.len() > 0 {
            kept_reversed.push(release);
            proof {
                assert(kept_reversed@.reverse() =~= seq![release] + kept_before.reverse());
                assert(offered_releases(before) + kept_before.reverse() =~= offered_releases(rest@)
                    + kept_reversed@.reverse());
            }
        }
    }
    proof {
        assert(offered_releases(all) =~= kept_reversed@.reverse());
    }
    while kept_reversed.len() > 0
        invariant
            offered_releases(all) == out@ + kept_reversed@.reverse(),
        decreases kept_reversed@.len(),
    {
        let ghost before = kept_reversed@;
        let ghost out_before = out@;
        let release = kept_reversed.pop().unwrap();
        out.push(release);
        proof {
            assert(kept_reversed@ =~= before.drop_last());
            assert(before.reverse() =~= seq![release] + kept_reversed@.reverse());
            assert(out_before + before.reverse() =~= out@ + kept_reversed@.reverse());
        }
    }
    assert(offered_releases(all) =~= out@);
    out
}

/// The address that lists the newest releases: `count` of them, or five.
pub fn releases_url(count: Option<u32>) -> (r: String)
    ensures
        r@ == "https://api.github.com/repos/leejet/stable-diffusion.cpp/releases?per_page="@
            + decimal(
            match count {
                Some(n) => n as nat,
                None => 5,
            },
        ),
{
    let n: u32 = match count {
        Some(n) => n,
        None => 5,
    };
    let digits = u64_to_string(n as u64);
    appended(
        "https://api.github.com/repos/leejet/stable-diffusion.cpp/releases?per_page=",
        digits.as_str(),
    )
}

} // verus!
