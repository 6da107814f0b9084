//! Downloading the files of a model group: where each file comes from, where
//! it goes, and what is reported of the progress.

use vstd::prelude::*;
use vstd::string::StringExecFns;
use crate::paths::{join, parent, path_joined, path_parent};

verus! {

/// One file of a model group on the hub.
#[derive(Debug)]
pub struct HfFile {
    pub repo: String,
    pub file: String,
    /// Where the file goes under the group's folder; by default, its name.
    pub save_path: Option<String>,
}

/// The folder that the files of a group go to. With a main model it is the
/// folder of that model under the models folder, or the folder named by the
/// group's identifier where the model's path has no parent; without one it is
/// the folder named by the group's name, or by its identifier where it has no
/// name.
pub open spec fn target_folder(
    models_folder: Seq<char>,
    group_id: Seq<char>,
    sd_model: Option<Seq<char>>,
    name: Option<Seq<char>>,
) -> Seq<char> {
    match sd_model {
        Some(model) => match path_parent(path_joined(models_folder, model)) {
            Some(p) => p,
            None => path_joined(models_folder, group_id),
        },
        None => path_joined(
            models_folder,
            match name {
                Some(n) => n,
                None => group_id,
            },
        ),
    }
}

pub fn download_target_folder(
    models_folder: &str,
    group_id: &str,
    sd_model: Option<&str>,
    name: Option<&str>,
) -> (r: String)
    ensures
        r@ == target_folder(
            models_folder@,
            group_id@,
            match sd_model {
                Some(m) => Some(m@),
                None => None,
            },
            match name {
                Some(n) => Some(n@),
                None => None,
            },
        ),
{
    match sd_model {
        Some(model) => {
            let full = join(models_folder, model);
            match parent(full.as_str()) {
                Some(p) => p,
                None => join(models_folder, group_id),
            }
        },
        None => match name {
            Some(n) => join(models_folder, n),
            None => join(models_folder, group_id),
        },
    }
}

/// The address of a file on the hub: the hub, the repository, `resolve/main`
/// and the file, with a slash between each two.
pub open spec fn file_url(base: Seq<char>, repo: Seq<char>, file: Seq<char>) -> Seq<char> {
    base + "/"@ + repo + "/resolve/main/"@ + file
}

pub fn hf_file_url(base_url: &str, repo: &str, file: &str) -> (r: String)
    ensures
        r@ == file_url(base_url@, repo@, file@),
{
    let mut out = String::new();
    out.append(base_url);
    out.append("/");
    out.append(repo);
    out.append("/resolve/main/");
    out.append(file);
    assert(out@ =~= file_url(base_url@, repo@, file@));
    out
}

/// One download: from where, to where, and the name under which its
/// progress is reported.
#[derive(Debug)]
pub struct DownloadItem {
    pub url: String,
    pub dest: String,
    pub file_name: String,
}

pub open spec fn saved_as(file: HfFile) -> Seq<char> {
    match file.save_path {
        Some(p) => p@,
        None => file.file@,
    }
}

/// Where a file of a group is saved: under the group's folder, at its save
/// path or, where it has none, its name.
pub fn download_destination(folder: &str, file: &HfFile) -> (r: String)
    ensures
        r@ == path_joined(folder@, saved_as(*file)),
{
    match &file.save_path {
        Some(p) => join(folder, p.as_str()),
        None => join(folder, file.file.as_str()),
    }
}

/// The download of one file of a group.
pub fn download_item(base_url: &str, folder: &str, file: &HfFile) -> (r: DownloadItem)
    ensures
        r.url@ == file_url(base_url@, file.repo@, file.file@),
        r.dest@ == path_joined(folder@, saved_as(*file)),
        r.file_name@ == file.file@,
{
    DownloadItem {
        url: hf_file_url(base_url, file.repo.as_str(), file.file.as_str()),
        dest: download_destination(folder, file),
        file_name: file.file.clone(),
    }
}

/// What is said of a download that the hub refused: `HTTP `, the status, and
/// the file that failed.
pub fn http_failure_message(status: &str, file: &str) -> (r: String)
    ensures
        r@ == "HTTP "@ + status@ + ": download failed for "@ + file@,
{
    let mut out = String::new();
    out.append("HTTP ");
    out.append(status);
    out.append(": download failed for ");
    out.append(file);
    assert(out@ =~= "HTTP "@ + status@ + ": download failed for "@ + file@);
    out
}

/// Whether a file of a group is on disk, and how large.
#[derive(Debug)]
pub struct FileStatus {
    pub file: String,
    pub exists: bool,
    pub size: Option<u64>,
}

/// The status of a file: its size is told only of a file that exists.
pub fn file_status(file: &HfFile, exists: bool, size: Option<u64>) -> (r: FileStatus)
    ensures
        r.file@ == file.file@,
        r.exists == exists,
        r.size == (if exists {
            size
        } else {
            None
        }),
{
    FileStatus {
        file: file.file.clone(),
        exists,
        size: if exists {
            size
        } else {
            None
        },
    }
}

/// What is reported of a download as it goes. The speed is the caller's to
/// add.
#[derive(Debug)]
pub struct ModelDownloadProgress {
    pub stage: String,
    pub downloaded_bytes: u64,
    pub total_bytes: u64,
    pub file_name: String,
    pub total_files: u32,
    pub current_file_index: u32,
    pub error: Option<String>,
}

/// The count of the bytes of one file as they arrive.
#[derive(Debug)]
pub struct DownloadTracker {
    file_name: String,
    total_bytes: u64,
    downloaded: u64,
    total_files: u32,
    index: u32,
}

/// `a + b`, or the largest `u64` where the sum is larger.
pub open spec fn capped_sum(a: u64, b: nat) -> u64 {
    if a + b > u64::MAX {
        u64::MAX
    } else {
        (a + b) as u64
    }
}

impl DownloadTracker {
    pub closed spec fn downloaded(&self) -> u64 {
        self.downloaded
    }

    pub closed spec fn total_bytes(&self) -> u64 {
        self.total_bytes
    }

    pub closed spec fn file_name(&self) -> Seq<char> {
        self.file_name@
    }

    pub closed spec fn total_files(&self) -> u32 {
        self.total_files
    }

    pub closed spec fn index(&self) -> u32 {
        self.index
    }

    /// Starts counting the file that is `index`th of `total_files`, counted
    /// from one. `content_length` is the size the hub announced, if it did.
    pub fn new(file_name: &str, content_length: Option<u64>, total_files: u32, index: u32) -> (r:
        DownloadTracker)
        ensures
            r.downloaded() == 0,
            r.total_bytes() == (match content_length {
                Some(n) => n,
                None => 0,
            }),
            r.file_name() == file_name@,
            r.total_files() == total_files,
            r.index() == index,
    {
        DownloadTracker {
            file_name: file_name.to_string(),
            total_bytes: match content_length {
                Some(n) => n,
                None => 0,
            },
            downloaded: 0,
            total_files,
            index,
        }
    }

    /// Counts `len` more bytes and says what to report.
    pub fn received(&mut self, len: usize) -> (r: ModelDownloadProgress)
        ensures
            final(self).downloaded() == capped_sum(old(self).downloaded(), len as nat),
            final(self).total_bytes() == old(self).total_bytes(),
            final(self).file_name() == old(self).file_name(),
            final(self).total_files() == old(self).total_files(),
            final(self).index() == old(self).index(),
            r.stage@ == "downloading"@,
            r.downloaded_bytes == final(self).downloaded(),
            r.total_bytes == old(self).total_bytes(),
            r.file_name@ == old(self).file_name(),
            r.total_files == old(self).total_files(),
            r.current_file_index == old(self).index(),
            r.error is None,
    {
        let room: u64 = u64::MAX - self.downloaded;
        if len as u128 > room as u128 {
            self.downloaded = u64::MAX;
        } else {
            self.downloaded = self.downloaded + len as u64;
        }
        ModelDownloadProgress {
            stage: "downloading".to_string(),
            downloaded_bytes: self.downloaded,
            total_bytes: self.total_bytes,
            file_name: self.file_name.clone(),
            total_files: self.total_files,
            current_file_index: self.index,
            error: None,
        }
    }
}

/// What is reported when all files of a group are there.
pub fn download_done(total_files: u32) -> (r: ModelDownloadProgress)
    ensures
        r.stage@ == "done"@,
        r.downloaded_bytes == 0,
        r.total_bytes == 0,
        r.file_name@ == Seq::<char>::empty(),
        r.total_files == total_files,
        r.current_file_index == total_files,
        r.error is None,
{
    ModelDownloadProgress {
        stage: "done".to_string(),
        downloaded_bytes: 0,
        total_bytes: 0,
        file_name: String::new(),
        total_files,
        current_file_index: total_files,
        error: None,
    }
}

/// What is reported of the download of an engine as it goes. The speed is
/// the caller's to add.
#[derive(Debug)]
pub struct SDCppDownloadProgress {
    pub stage: String,
    pub downloaded_bytes: u64,
    pub total_bytes: u64,
    pub file_name: String,
    pub error: Option<String>,
}

/// The stages of the download of an engine.
#[derive(Clone, Copy, Debug, PartialEq, Eq, Structural)]
pub enum EngineStage {
    Downloading,
    Extracting,
    Done,
}

pub open spec fn stage_name(stage: EngineStage) -> Seq<char> {
    match stage {
        EngineStage::Downloading => "downloading"@,
        EngineStage::Extracting => "extracting"@,
        EngineStage::Done => "done"@,
    }
}

/// What is reported of an engine download at a stage. While it downloads,
/// the bytes are those received so far; afterwards they are all of them.
pub fn engine_progress(stage: EngineStage, file_name: &str, downloaded: u64, total_bytes: u64) -> (r:
    SDCppDownloadProgress)
    ensures
        r.stage@ == stage_name(stage),
        r.downloaded_bytes == (if stage == EngineStage::Downloading {
            downloaded
        } else {
            total_bytes
        }),
        r.total_bytes == total_bytes,
        r.file_name@ == file_name@,
        r.error is None,
{
    let (name, bytes) = match stage {
        EngineStage::Downloading => ("downloading", downloaded),
        EngineStage::Extracting => ("extracting", total_bytes),
        EngineStage::Done => ("done", total_bytes),
    };
    SDCppDownloadProgress {
        stage: name.to_string(),
        downloaded_bytes: bytes,
        total_bytes,
        file_name: file_name.to_string(),
        error: None,
    }
}

/// Decides whether the files of a group can be downloaded at all, from what
/// was found on disk: the list of groups, the group in it, and the files the
/// group names. What is refused is refused with the reason; else the files
/// are handed on, and an empty list of them is a download that is done at
/// once.
pub fn group_download_request(
    groups_file_exists: bool,
    group_found: bool,
    hf_files: Option<Vec<HfFile>>,
) -> (r: Result<Vec<HfFile>, String>)
    ensures
        !groups_file_exists ==> r is Err && r->Err_0@ == "Model groups file not found"@,
        groups_file_exists && !group_found ==> r is Err && r->Err_0@ == "Model group not found"@,
        groups_file_exists && group_found && hf_files is None ==> r is Err && r->Err_0@
            == "No HF files defined for this group"@,
        groups_file_exists && group_found && hf_files is Some ==> r == Ok::<Vec<HfFile>, String>(
            hf_files->0,
        ),
{
    if !groups_file_exists {
        Err("Model groups file not found".to_string())
    } else if !group_found {
        Err("Model group not found".to_string())
    } else {
        match hf_files {
            Some(files) => Ok(files),
            None => Err("No HF files defined for this group".to_string()),
        }
    }
}

/// Where the download of a group stands.
#[derive(Clone, Copy, Debug, PartialEq, Eq, Structural)]
pub enum DownloadPhase {
    /// It is to be seen whether the file at hand is on disk already.
    Probing,
    /// The file at hand was asked for; the answer is awaited.
    Requesting,
    /// The file at hand arrives.
    Streaming,
    Done,
    Cancelled,
    Failed,
}

/// What can happen to the download of a group.
#[derive(Debug)]
pub enum DownloadSignal {
    /// It was seen whether the file at hand is on disk.
    Probed { exists: bool },
    /// The hub answered: it refused with a status, or it sends the file and
    /// may have announced its size.
    Answered { refused: Option<String>, content_length: Option<u64> },
    /// So many bytes arrived and were written.
    Chunk { len: usize },
    StreamEnded,
    /// The request, the stream or the writing failed.
    StreamFailed { reason: String },
    CancelObserved,
}

/// What the caller is asked to do, in the order given.
#[derive(Clone, Copy, Debug, PartialEq, Eq, Structural)]
pub enum DownloadAction {
    /// See whether the file at hand is on disk and report `Probed`.
    Probe,
    /// Make room for the file at hand, ask the hub for it and report
    /// `Answered`.
    Request,
    /// Create the file at hand and write what arrives, reporting `Chunk` and
    /// at last `StreamEnded`.
    Receive,
    /// Announce what `progress` gives.
    Report,
    /// Delete what was written of the file at hand.
    RemovePartial,
}

/// One download as the contracts see it.
pub struct ItemView {
    pub url: Seq<char>,
    pub dest: Seq<char>,
    pub file_name: Seq<char>,
}

/// The download of a group as the contracts see it.
pub struct DownloadView {
    pub items: Seq<ItemView>,
    /// Which file is at hand, counted from nought.
    pub index: nat,
    pub phase: DownloadPhase,
    /// The bytes of the file at hand that have arrived.
    pub downloaded: u64,
    /// The size of the file at hand as the hub announced it, or nought.
    pub total_bytes: u64,
    /// Why the download failed.
    pub error: Option<Seq<char>>,
}

pub open spec fn item_views(items: Seq<DownloadItem>) -> Seq<ItemView> {
    Seq::new(
        items.len(),
        |i: int| ItemView { url: items[i].url@, dest: items[i].dest@, file_name: items[i].file_name@ },
    )
}

/// The download of the files of a group from a hub into a folder, before
/// anything has happened: the first file is at hand, or, with no file, the
/// download is done.
pub open spec fn planned_download(
    base_url: Seq<char>,
    folder: Seq<char>,
    files: Seq<HfFile>,
) -> DownloadView {
    DownloadView {
        items: Seq::new(
            files.len(),
            |i: int|
                ItemView {
                    url: file_url(base_url, files[i].repo@, files[i].file@),
                    dest: path_joined(folder, saved_as(files[i])),
                    file_name: files[i].file@,
                },
        ),
        index: 0,
        phase: if files.len() == 0 {
            DownloadPhase::Done
        } else {
            DownloadPhase::Probing
        },
        downloaded: 0,
        total_bytes: 0,
        error: None,
    }
}

pub open spec fn download_ended(phase: DownloadPhase) -> bool {
    phase == DownloadPhase::Done || phase == DownloadPhase::Cancelled || phase
        == DownloadPhase::Failed
}

/// The name of the file at hand.
pub open spec fn name_at_hand(v: DownloadView) -> Seq<char> {
    if v.index < v.items.len() {
        v.items[v.index as int].file_name
    } else {
        Seq::empty()
    }
}

/// The download with the file at hand behind it: the next file is at hand,
/// or, after the last, the download is done.
pub open spec fn advanced(v: DownloadView) -> DownloadView {
    DownloadView {
        index: v.index + 1,
        phase: if v.index + 1 < v.items.len() {
            DownloadPhase::Probing
        } else {
            DownloadPhase::Done
        },
        downloaded: 0,
        total_bytes: 0,
        ..v
    }
}

/// What is asked for once the file at hand is behind: a look at the next
/// file, or, after the last, the announcement that all is done.
pub open spec fn advance_actions(v: DownloadView) -> Seq<DownloadAction> {
    if v.index + 1 < v.items.len() {
        seq![DownloadAction::Probe]
    } else {
        seq![DownloadAction::Report]
    }
}

/// Whether a signal brings a cancellation: it is one, or the token was seen
/// fired when it was observed.
pub open spec fn brings_cancel(s: DownloadSignal, cancel_fired: bool) -> bool {
    cancel_fired || s is CancelObserved
}

/// The download after a signal. After its end nothing changes it. A
/// cancellation, whatever comes with it, ends it as cancelled. Else a file that
/// is on disk is passed over, one that is not is asked for, a refusal of the
/// hub ends the download as failed with the status and the file named, the
/// bytes that arrive are counted, and the end of a stream brings the next
/// file, or the end.
pub open spec fn download_step(
    v: DownloadView,
    s: DownloadSignal,
    cancel_fired: bool,
) -> DownloadView {
    if download_ended(v.phase) {
        v
    } else if brings_cancel(s, cancel_fired) {
        DownloadView { phase: DownloadPhase::Cancelled, ..v }
    } else {
        match s {
            DownloadSignal::Probed { exists } => if v.phase != DownloadPhase::Probing {
                v
            } else if exists {
                advanced(v)
            } else {
                DownloadView { phase: DownloadPhase::Requesting, ..v }
            },
            DownloadSignal::Answered { refused, content_length } => if v.phase
                != DownloadPhase::Requesting {
                v
            } else {
                match refused {
                    Some(status) => DownloadView {
                        phase: DownloadPhase::Failed,
                        error: Some(
                            "HTTP "@ + status@ + ": download failed for "@ + name_at_hand(v),
                        ),
                        ..v
                    },
                    None => DownloadView {
                        phase: DownloadPhase::Streaming,
                        downloaded: 0,
                        total_bytes: match content_length {
                            Some(n) => n,
                            None => 0,
                        },
                        ..v
                    },
                }
            },
            DownloadSignal::Chunk { len } => if v.phase != DownloadPhase::Streaming {
                v
            } else {
                DownloadView { downloaded: capped_sum(v.downloaded, len as nat), ..v }
            },
            DownloadSignal::StreamEnded => if v.phase != DownloadPhase::Streaming {
                v
            } else {
                advanced(v)
            },
            DownloadSignal::StreamFailed { reason } => DownloadView {
                phase: DownloadPhase::Failed,
                error: Some(reason@),
                ..v
            },
            DownloadSignal::CancelObserved => v,
        }
    }
}

/// What the caller is asked to do after a signal. A cancellation that finds
/// a file arriving asks for what was written of it to be deleted.
pub open spec fn download_actions(
    v: DownloadView,
    s: DownloadSignal,
    cancel_fired: bool,
) -> Seq<DownloadAction> {
    if download_ended(v.phase) {
        Seq::empty()
    } else if brings_cancel(s, cancel_fired) {
        if v.phase == DownloadPhase::Streaming {
            seq![DownloadAction::RemovePartial]
        } else {
            Seq::empty()
        }
    } else {
        match s {
            DownloadSignal::Probed { exists } => if v.phase != DownloadPhase::Probing {
                Seq::empty()
            } else if exists {
                advance_actions(v)
            } else {
                seq![DownloadAction::Request]
            },
            DownloadSignal::Answered { refused, content_length } => if v.phase
                == DownloadPhase::Requesting && refused is None {
                seq![DownloadAction::Receive]
            } else {
                Seq::empty()
            },
            DownloadSignal::Chunk { len } => if v.phase == DownloadPhase::Streaming {
                seq![DownloadAction::Report]
            } else {
                Seq::empty()
            },
            DownloadSignal::StreamEnded => if v.phase == DownloadPhase::Streaming {
                advance_actions(v)
            } else {
                Seq::empty()
            },
            _ => Seq::empty(),
        }
    }
}

/// What is asked for first: a look at the first file, where there is one.
pub open spec fn first_actions(v: DownloadView) -> Seq<DownloadAction> {
    if v.phase == DownloadPhase::Probing {
        seq![DownloadAction::Probe]
    } else {
        Seq::empty()
    }
}

/// The download after a run of signals, each with what was seen of the token
/// when it was observed.
pub open spec fn download_run(v: DownloadView, signals: Seq<(DownloadSignal, bool)>) -> DownloadView
    decreases signals.len(),
{
    if signals.len() == 0 {
        v
    } else {
        download_step(download_run(v, signals.drop_last()), signals.last().0, signals.last().1)
    }
}

/// A download that has ended stays as it is, and asks for nothing more.
pub proof fn lemma_download_end_is_final(v: DownloadView, s: DownloadSignal, cancel_fired: bool)
    requires
        download_ended(v.phase),
    ensures
        download_step(v, s, cancel_fired) == v,
        download_actions(v, s, cancel_fired) == Seq::<DownloadAction>::empty(),
{
}

proof fn lemma_download_ended_run(v: DownloadView, signals: Seq<(DownloadSignal, bool)>)
    requires
        download_ended(v.phase),
    ensures
        download_run(v, signals) == v,
    decreases signals.len(),
{
    if signals.len() > 0 {
        lemma_download_ended_run(v, signals.drop_last());
    }
}

/// A cancellation seen before the end decides: whatever signal it comes
/// with, and whatever is reported afterwards, the download ends as cancelled
/// and never as done or failed. Seen while a file arrives, it has what was
/// written of that file deleted.
pub proof fn lemma_download_cancel_wins(
    v: DownloadView,
    s: DownloadSignal,
    cancel_fired: bool,
    later: Seq<(DownloadSignal, bool)>,
)
    requires
        !download_ended(v.phase),
        brings_cancel(s, cancel_fired),
    ensures
        download_run(download_step(v, s, cancel_fired), later).phase == DownloadPhase::Cancelled,
        download_run(download_step(v, s, cancel_fired), later).error == v.error,
        v.phase == DownloadPhase::Streaming ==> download_actions(v, s, cancel_fired) == seq![
            DownloadAction::RemovePartial,
        ],
{
    lemma_download_ended_run(download_step(v, s, cancel_fired), later);
}

/// The download is done only when the last file is behind, and then no file
/// is at hand.
pub open spec fn download_in_order(v: DownloadView) -> bool {
    &&& v.index <= v.items.len()
    &&& !download_ended(v.phase) ==> v.index < v.items.len()
    &&& v.phase == DownloadPhase::Done ==> v.index == v.items.len()
}

/// A step keeps the download in order: no file is passed over without a look
/// at it, and the download is done only after the last file.
pub proof fn lemma_download_stays_in_order(v: DownloadView, s: DownloadSignal, cancel_fired: bool)
    requires
        download_in_order(v),
    ensures
        download_in_order(download_step(v, s, cancel_fired)),
        download_step(v, s, cancel_fired).items == v.items,
        download_step(v, s, cancel_fired).index == v.index || download_step(
            v,
            s,
            cancel_fired,
        ).index == v.index + 1,
{
}

/// The count of files as it is reported: its low 32 bits.
pub open spec fn low_count(n: nat) -> u32 {
    (n % 0x1_0000_0000) as u32
}

/// What is announced of a download where it stands: that all is done, once
/// it is; else the file at hand with the bytes that have arrived of it.
pub open spec fn reports(v: DownloadView, p: ModelDownloadProgress) -> bool {
    &&& p.error is None
    &&& p.total_files == low_count(v.items.len())
    &&& if v.phase == DownloadPhase::Done {
        &&& p.stage@ == "done"@
        &&& p.downloaded_bytes == 0
        &&& p.total_bytes == 0
        &&& p.file_name@ == Seq::<char>::empty()
        &&& p.current_file_index == low_count(v.items.len())
    } else {
        &&& p.stage@ == "downloading"@
        &&& p.downloaded_bytes == v.downloaded
        &&& p.total_bytes == v.total_bytes
        &&& p.file_name@ == name_at_hand(v)
        &&& p.current_file_index == low_count(v.index + 1)
    }
}

fn low_bits_of(n: usize) -> (r: u32)
    ensures
        r == low_count(n as nat),
{
    let wide: u64 = n as u64;
    (wide % 0x1_0000_0000) as u32
}

/// The download of the files of a group, one after the other.
pub struct GroupDownload {
    items: Vec<DownloadItem>,
    index: usize,
    phase: DownloadPhase,
    downloaded: u64,
    total_bytes: u64,
    error: Option<String>,
}

impl View for GroupDownload {
    type V = DownloadView;

    closed spec fn view(&self) -> DownloadView {
        DownloadView {
            items: item_views(self.items@),
            index: self.index as nat,
            phase: self.phase,
            downloaded: self.downloaded,
            total_bytes: self.total_bytes,
            error: match self.error {
                Some(e) => Some(e@),
                None => None,
            },
        }
    }
}

impl GroupDownload {
    #[verifier::type_invariant]
    spec fn in_order(self) -> bool {
        &&& self.index <= self.items@.len()
        &&& self.phase != DownloadPhase::Done ==> self.index < self.items@.len()
    }

    /// Plans the download of `files` from the hub at `base_url` into
    /// `folder`.
    pub fn new(base_url: &str, folder: &str, files: Vec<HfFile>) -> (r: GroupDownload)
        ensures
            r@ == planned_download(base_url@, folder@, files@),
    {
        let mut items: Vec<DownloadItem> = Vec::new();
        let mut i: usize = 0;
        while i < files.len()
            invariant
                i <= files.len(),
                items@.len() == i,
                forall|k: int|
                    0 <= k < i ==> (#[trigger] items@[k]).url@ == file_url(
                        base_url@,
                        files@[k].repo@,
                        files@[k].file@,
                    ) && items@[k].dest@ == path_joined(folder@, saved_as(files@[k]))
                        && items@[k].file_name@ == files@[k].file@,
            decreases files.len() - i,
        {
            items.push(download_item(base_url, folder, &files[i]));
            i += 1;
        }
        let phase = if files.len() == 0 {
            DownloadPhase::Done
        } else {
            DownloadPhase::Probing
        };
        let r = GroupDownload {
            items,
            index: 0,
            phase,
            downloaded: 0,
            total_bytes: 0,
            error: None,
        };
        assert(r@.items =~= planned_download(base_url@, folder@, files@).items);
        r
    }

    pub fn phase(&self) -> (r: DownloadPhase)
        ensures
            r == self@.phase,
    {
        self.phase
    }

    /// Whether the download has ended.
    pub fn is_done(&self) -> (r: bool)
        ensures
            r == download_ended(self@.phase),
    {
        match self.phase {
            DownloadPhase::Done | DownloadPhase::Cancelled | DownloadPhase::Failed => true,
            _ => false,
        }
    }

    /// Why the download failed.
    pub fn error(&self) -> (r: &Option<String>)
        ensures
            self@.error == (match *r {
                Some(e) => Some(e@),
                None => None,
            }),
    {
        &self.error
    }

    /// The file at hand, while there is one.
    pub fn item_at_hand(&self) -> (r: Option<&DownloadItem>)
        ensures
            r is Some <==> self@.index < self@.items.len(),
            r is Some ==> self@.items[self@.index as int] == (ItemView {
                url: r->0.url@,
                dest: r->0.dest@,
                file_name: r->0.file_name@,
            }),
    {
        if self.index < self.items.len() {
            Some(&self.items[self.index])
        } else {
            None
        }
    }

    /// What is asked for first.
    pub fn begin(&self) -> (r: Vec<DownloadAction>)
        ensures
            r@ == first_actions(self@),
    {
        let mut out: Vec<DownloadAction> = Vec::new();
        match self.phase {
            DownloadPhase::Probing => {
                out.push(DownloadAction::Probe);
            },
            _ => {},
        }
        assert(out@ =~= first_actions(self@));
        out
    }

    /// What is announced of the download where it stands.
    pub fn progress(&self) -> (r: ModelDownloadProgress)
        ensures
            reports(self@, r),
    {
        let total_files = low_bits_of(self.items.len());
        match self.phase {
            DownloadPhase::Done => download_done(total_files),
            _ => {
                proof {
                    use_type_invariant(self);
                }
                let count: usize = self.items.len();
                assert(self.index < count);
                let file_name = self.items[self.index].file_name.clone();
                ModelDownloadProgress {
                    stage: "downloading".to_string(),
                    downloaded_bytes: self.downloaded,
                    total_bytes: self.total_bytes,
                    file_name,
                    total_files,
                    current_file_index: low_bits_of(self.index + 1),
                    error: None,
                }
            },
        }
    }

    fn advance(&mut self) -> (r: Vec<DownloadAction>)
        requires
            !download_ended(old(self)@.phase),
        ensures
            final(self)@ == advanced(old(self)@),
            r@ == advance_actions(old(self)@),
    {
        proof {
            use_type_invariant(&*self);
        }
        let mut out: Vec<DownloadAction> = Vec::new();
        let count: usize = self.items.len();
        assert(self.index < count);
        self.downloaded = 0;
        self.total_bytes = 0;
        if self.index + 1 < count {
            self.phase = DownloadPhase::Probing;
            self.index = self.index + 1;
            out.push(DownloadAction::Probe);
        } else {
            self.phase = DownloadPhase::Done;
            self.index = self.index + 1;
            out.push(DownloadAction::Report);
        }
        assert(out@ =~= advance_actions(old(self)@));
        out
    }

    /// Something happened to the download. `cancel_fired` tells whether the
    /// token of the download was fired by the time it was observed.
    pub fn signal(&mut self, s: DownloadSignal, cancel_fired: bool) -> (r: Vec<DownloadAction>)
        ensures
            final(self)@ == download_step(old(self)@, s, cancel_fired),
            r@ == download_actions(old(self)@, s, cancel_fired),
    {
        proof {
            use_type_invariant(&*self);
        }
        if self.is_done() {
            return Vec::new();
        }
        let cancel = cancel_fired || match &s {
            DownloadSignal::CancelObserved => true,
            _ => false,
        };
        if cancel {
            let mut out: Vec<DownloadAction> = Vec::new();
            match self.phase {
                DownloadPhase::Streaming => {
                    out.push(DownloadAction::RemovePartial);
                },
                _ => {},
            }
            self.phase = DownloadPhase::Cancelled;
            assert(out@ =~= download_actions(old(self)@, s, cancel_fired));
            return out;
        }
        match s {
            DownloadSignal::Probed { exists } => match self.phase {
                DownloadPhase::Probing => {
                    if exists {
                        self.advance()
                    } else {
                        self.phase = DownloadPhase::Requesting;
                        let mut out: Vec<DownloadAction> = Vec::new();
                        out.push(DownloadAction::Request);
                        assert(out@ =~= seq![DownloadAction::Request]);
                        out
                    }
                },
                _ => Vec::new(),
            },
            DownloadSignal::Answered { refused, content_length } => match self.phase {
                DownloadPhase::Requesting => {
                    match refused {
                        Some(status) => {
                            let message = http_failure_message(
                                status.as_str(),
                                self.items[self.index].file_name.as_str(),
                            );
                            self.phase = DownloadPhase::Failed;
                            self.error = Some(message);
                            Vec::new()
                        },
                        None => {
                            self.phase = DownloadPhase::Streaming;
                            self.downloaded = 0;
                            self.total_bytes = match content_length {
                                Some(n) => n,
                                None => 0,
                            };
                            let mut out: Vec<DownloadAction> = Vec::new();
                            out.push(DownloadAction::Receive);
                            assert(out@ =~= seq![DownloadAction::Receive]);
                            out
                        },
                    }
                },
                _ => Vec::new(),
            },
            DownloadSignal::Chunk { len } => match self.phase {
                DownloadPhase::Streaming => {
                    let room: u64 = u64::MAX - self.downloaded;
                    if len as u128 > room as u128 {
                        self.downloaded = u64::MAX;
                    } else {
                        self.downloaded = self.downloaded + len as u64;
                    }
                    let mut out: Vec<DownloadAction> = Vec::new();
                    out.push(DownloadAction::Report);
                    assert(out@ =~= seq![DownloadAction::Report]);
                    out
                },
                _ => Vec::new(),
            },
            DownloadSignal::StreamEnded => match self.phase {
                DownloadPhase::Streaming => self.advance(),
                _ => Vec::new(),
            },
            DownloadSignal::StreamFailed { reason } => {
                self.phase = DownloadPhase::Failed;
                self.error = Some(reason);
                Vec::new()
            },
            DownloadSignal::CancelObserved => Vec::new(),
        }
    }
}

} // verus!
