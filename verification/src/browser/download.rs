//! Downloads: their lifecycle (pending, in progress, paused, finished) and
//! the manager that tracks them.

use vstd::prelude::*;

use crate::browser::bytes_format::{format_bytes, format_bytes_spec};
use crate::clock::now_timestamp;
use crate::location::{Url, UrlView};
use crate::text::push_str;

verus! {

/// `std::path::PathBuf`, carried through the model as an opaque value.
#[verifier::external_type_specification]
#[verifier::external_body]
pub struct ExPathBuf(std::path::PathBuf);

/// What `std::path::PathBuf::join` makes of a directory and a file name,
/// which depends on the two alone.
pub uninterp spec fn joined_path(dir: std::path::PathBuf, file: Seq<char>) -> std::path::PathBuf;

/// `dir.join(file)` with `std::path::PathBuf::join`.
#[verifier::external_body]
fn join_path(dir: &std::path::PathBuf, file: &str) -> (res: std::path::PathBuf)
    ensures
        res == joined_path(*dir, file@),
{
    dir.join(file)
}

/// What `std::path::PathBuf::from` makes of a string, which depends on the
/// string alone.
pub uninterp spec fn path_from_text(text: Seq<char>) -> std::path::PathBuf;

/// `PathBuf::from(text)`.
#[verifier::external_body]
pub(crate) fn path_from(text: &str) -> (p: std::path::PathBuf)
    ensures
        p == path_from_text(text@),
{
    std::path::PathBuf::from(text)
}

/// Identifier of a download. A `DownloadManager` hands out a fresh one to
/// every download it starts.
#[derive(Debug, Clone, Copy, PartialEq, Eq, Hash, Structural)]
pub struct DownloadId(u64);

impl DownloadId {
    /// The numeric value of the id.
    pub closed spec fn value(self) -> u64 {
        self.0
    }

    /// Takes the next id from `counter` (its current value) and advances the
    /// counter by one, wrapping as an atomic `fetch_add` does.
    pub fn next(counter: &mut u64) -> (id: DownloadId)
        ensures
            id.value() == *old(counter),
            *final(counter) == (*old(counter)).wrapping_add(1),
    {
        let id = DownloadId(*counter);
        *counter = (*counter).wrapping_add(1);
        id
    }

    /// Return the raw id value.
    pub fn as_u64(self) -> (res: u64)
        ensures
            res == self.value(),
    {
        self.0
    }
}

/// State of a download.
#[derive(Debug, Clone, Copy, PartialEq, Eq, Structural)]
pub enum DownloadState {
    /// Download is queued but not started.
    Pending,
    /// Download is actively transferring data.
    InProgress,
    /// Download paused by the user.
    Paused,
    /// Download completed successfully.
    Completed,
    /// Download failed with an error.
    Failed,
    /// Download cancelled by the user.
    Cancelled,
}

impl DownloadState {
    /// Pending, in progress or paused.
    pub open spec fn spec_is_active(self) -> bool {
        self is Pending || self is InProgress || self is Paused
    }

    /// Completed, failed or cancelled.
    pub open spec fn spec_is_finished(self) -> bool {
        self is Completed || self is Failed || self is Cancelled
    }

    /// Whether this download is still active (pending, in progress, or
    /// paused).
    pub fn is_active(self) -> (b: bool)
        ensures
            b == self.spec_is_active(),
    {
        match self {
            DownloadState::Pending | DownloadState::InProgress | DownloadState::Paused => true,
            _ => false,
        }
    }

    /// Whether this download is in a terminal state.
    pub fn is_finished(self) -> (b: bool)
        ensures
            b == self.spec_is_finished(),
    {
        match self {
            DownloadState::Completed | DownloadState::Failed | DownloadState::Cancelled => true,
            _ => false,
        }
    }
}

/// A single download entry.
pub struct Download {
    /// Download identifier.
    pub id: DownloadId,
    /// The source URL.
    pub url: Url,
    /// Filename (extracted from URL or Content-Disposition).
    pub filename: String,
    /// Local file path where the download is saved.
    pub path: std::path::PathBuf,
    /// MIME type, if known.
    pub mime_type: Option<String>,
    /// Bytes downloaded so far.
    pub bytes_downloaded: u64,
    /// Total bytes, if known from Content-Length.
    pub total_bytes: Option<u64>,
    /// Current state.
    pub state: DownloadState,
    /// Unix timestamp when the download was started.
    pub started_at: i64,
    /// Unix timestamp when the download completed (or failed/cancelled).
    pub finished_at: Option<i64>,
    /// Error message if the download failed.
    pub error: Option<String>,
}

/// The model of a download.
pub struct DownloadView {
    pub id: DownloadId,
    pub url: UrlView,
    pub filename: Seq<char>,
    pub path: std::path::PathBuf,
    pub mime_type: Option<Seq<char>>,
    pub bytes_downloaded: u64,
    pub total_bytes: Option<u64>,
    pub state: DownloadState,
    pub started_at: i64,
    pub finished_at: Option<i64>,
    pub error: Option<Seq<char>>,
}

impl View for Download {
    type V = DownloadView;

    open spec fn view(&self) -> DownloadView {
        DownloadView {
            id: self.id,
            url: self.url@,
            filename: self.filename@,
            path: self.path,
            mime_type: crate::browser::bookmark::opt_view(self.mime_type),
            bytes_downloaded: self.bytes_downloaded,
            total_bytes: self.total_bytes,
            state: self.state,
            started_at: self.started_at,
            finished_at: self.finished_at,
            error: crate::browser::bookmark::opt_view(self.error),
        }
    }
}

/// The text that `progress_text` shows: the downloaded amount, and the
/// total after a slash when it is known.
pub open spec fn progress_text_spec(d: DownloadView) -> Seq<char> {
    match d.total_bytes {
        Some(total) => format_bytes_spec(d.bytes_downloaded) + " / "@ + format_bytes_spec(total),
        None => format_bytes_spec(d.bytes_downloaded),
    }
}

impl Download {
    /// Create a pending download with id `id`, stamped with the current time.
    pub fn new(id: DownloadId, url: Url, filename: &str, path: std::path::PathBuf) -> (d: Download)
        ensures
            d@ == (DownloadView {
                id,
                url: url@,
                filename: filename@,
                path,
                mime_type: None,
                bytes_downloaded: 0,
                total_bytes: None,
                state: DownloadState::Pending,
                started_at: d@.started_at,
                finished_at: None,
                error: None,
            }),
    {
        Download {
            id,
            url,
            filename: filename.to_owned(),
            path,
            mime_type: None,
            bytes_downloaded: 0,
            total_bytes: None,
            state: DownloadState::Pending,
            started_at: now_timestamp(),
            finished_at: None,
            error: None,
        }
    }

    /// Human-readable progress (e.g. "1.4 MB / 4.8 MB").
    pub fn progress_text(&self) -> (res: String)
        ensures
            res@ == progress_text_spec(self@),
    {
        let downloaded = format_bytes(self.bytes_downloaded);
        match self.total_bytes {
            Some(total) => {
                let mut out = downloaded;
                push_str(&mut out, " / ");
                let t = format_bytes(total);
                push_str(&mut out, t.as_str());
                out
            },
            None => downloaded,
        }
    }
}

/// The model of a download manager.
pub struct DownloadManagerView {
    /// All downloads, the most recently started first.
    pub downloads: Seq<DownloadView>,
    /// Where downloads are saved by default.
    pub download_dir: std::path::PathBuf,
    /// Whether to ask the user for a download location.
    pub ask_location: bool,
    /// The counter that the next download id is taken from.
    pub next_id: u64,
}

impl DownloadManagerView {
    /// Every download's id was taken from the counter before its current
    /// value, so the counter's value is not the id of any download.
    pub open spec fn ids_below_counter(self) -> bool {
        forall|i: int| 0 <= i < self.downloads.len() ==> (#[trigger] self.downloads[i]).id.value() < self.next_id
    }
}

/// `i` is the first position of a download with id `id`.
pub open spec fn is_first_download(s: Seq<DownloadView>, id: DownloadId, i: int) -> bool {
    &&& 0 <= i < s.len()
    &&& s[i].id == id
    &&& forall|j: int| 0 <= j < i ==> s[j].id != id
}

/// The position of the first download with id `id`, or -1.
pub open spec fn download_position(s: Seq<DownloadView>, id: DownloadId) -> int {
    if exists|i: int| 0 <= i < s.len() && s[i].id == id {
        choose|i: int| is_first_download(s, id, i)
    } else {
        -1
    }
}

/// The predicate of active downloads.
pub open spec fn active_pred() -> spec_fn(DownloadView) -> bool {
    |d: DownloadView| d.state.spec_is_active()
}

/// The predicate of completed downloads.
pub open spec fn completed_pred() -> spec_fn(DownloadView) -> bool {
    |d: DownloadView| d.state == DownloadState::Completed
}

/// The predicate of downloads with an id other than `id`.
pub open spec fn other_id_pred(id: DownloadId) -> spec_fn(DownloadView) -> bool {
    |d: DownloadView| d.id != id
}

/// A download after it completed at time `t`: the byte count jumps to the
/// total when the total is known.
pub open spec fn completed_at(d: DownloadView, t: i64) -> DownloadView {
    DownloadView {
        state: DownloadState::Completed,
        finished_at: Some(t),
        bytes_downloaded: match d.total_bytes {
            Some(total) => total,
            None => d.bytes_downloaded,
        },
        ..d
    }
}

/// A download after it failed with `error` at time `t`.
pub open spec fn failed_at(d: DownloadView, error: Seq<char>, t: i64) -> DownloadView {
    DownloadView { state: DownloadState::Failed, finished_at: Some(t), error: Some(error), ..d }
}

/// A download after a cancel request at time `t`: only an active download
/// is cancelled.
pub open spec fn cancelled_at(d: DownloadView, t: i64) -> DownloadView {
    if d.state.spec_is_active() {
        DownloadView { state: DownloadState::Cancelled, finished_at: Some(t), ..d }
    } else {
        d
    }
}

/// A download after a pause request: only one in progress pauses.
pub open spec fn paused(d: DownloadView) -> DownloadView {
    if d.state == DownloadState::InProgress {
        DownloadView { state: DownloadState::Paused, ..d }
    } else {
        d
    }
}

/// A download after a resume request: only a paused one resumes.
pub open spec fn resumed(d: DownloadView) -> DownloadView {
    if d.state == DownloadState::Paused {
        DownloadView { state: DownloadState::InProgress, ..d }
    } else {
        d
    }
}

/// A download after a progress report.
pub open spec fn progressed(d: DownloadView, bytes: u64, total: Option<u64>) -> DownloadView {
    DownloadView {
        bytes_downloaded: bytes,
        total_bytes: match total {
            Some(t) => Some(t),
            None => d.total_bytes,
        },
        ..d
    }
}

impl DownloadManagerView {
    /// The manager with the first download with id `id` (if any) changed by
    /// `f`.
    pub open spec fn map_download(self, id: DownloadId, f: spec_fn(DownloadView) -> DownloadView) -> DownloadManagerView {
        let pos = download_position(self.downloads, id);
        if pos < 0 {
            self
        } else {
            DownloadManagerView {
                downloads: self.downloads.update(pos, f(self.downloads[pos])),
                ..self
            }
        }
    }

    /// The manager after the download `id` completed at time `t`.
    pub open spec fn completion(self, id: DownloadId, t: i64) -> DownloadManagerView {
        self.map_download(id, |d: DownloadView| completed_at(d, t))
    }

    /// The manager after the download `id` failed with `error` at time `t`.
    pub open spec fn failure(self, id: DownloadId, error: Seq<char>, t: i64) -> DownloadManagerView {
        self.map_download(id, |d: DownloadView| failed_at(d, error, t))
    }

    /// The manager after a cancel request for `id` at time `t`.
    pub open spec fn cancellation(self, id: DownloadId, t: i64) -> DownloadManagerView {
        self.map_download(id, |d: DownloadView| cancelled_at(d, t))
    }
}

/// Manages active and completed downloads.
pub struct DownloadManager {
    downloads: Vec<Download>,
    /// Default download directory.
    pub download_dir: std::path::PathBuf,
    /// Whether to ask the user for a download location.
    pub ask_location: bool,
    next_id: u64,
}

/// The views of a sequence of downloads.
pub open spec fn download_views(s: Seq<Download>) -> Seq<DownloadView> {
    s.map_values(|d: Download| d@)
}

/// The views of a sequence of borrowed downloads.
pub open spec fn download_ref_views(s: Seq<&Download>) -> Seq<DownloadView> {
    s.map_values(|d: &Download| d@)
}

impl View for DownloadManager {
    type V = DownloadManagerView;

    closed spec fn view(&self) -> DownloadManagerView {
        DownloadManagerView {
            downloads: download_views(self.downloads@),
            download_dir: self.download_dir,
            ask_location: self.ask_location,
            next_id: self.next_id,
        }
    }
}

/// Replacing one download replaces its view.
proof fn lemma_download_views_update(s: Seq<Download>, i: int, x: Download)
    requires
        0 <= i < s.len(),
    ensures
        download_views(s.update(i, x)) == download_views(s).update(i, x@),
{
    assert(download_views(s.update(i, x)) =~= download_views(s).update(i, x@));
}

/// Where some download has id `id`, a first one has.
proof fn lemma_first_download_exists(s: Seq<DownloadView>, id: DownloadId, i: int)
    requires
        0 <= i < s.len(),
        s[i].id == id,
    ensures
        is_first_download(s, id, download_position(s, id)),
    decreases i,
{
    if exists|j: int| 0 <= j < i && s[j].id == id {
        let j = choose|j: int| 0 <= j < i && s[j].id == id;
        lemma_first_download_exists(s, id, j);
    } else {
        assert(is_first_download(s, id, i));
    }
}

/// Changing one download without touching its id keeps every id below the
/// counter.
proof fn lemma_map_keeps_ids_below(m: DownloadManagerView, id: DownloadId, f: spec_fn(DownloadView) -> DownloadView)
    requires
        m.ids_below_counter(),
        forall|d: DownloadView| #[trigger] f(d).id == d.id,
    ensures
        m.map_download(id, f).ids_below_counter(),
{
    let r = m.map_download(id, f);
    let pos = download_position(m.downloads, id);
    if pos >= 0 {
        let k = choose|k: int| 0 <= k < m.downloads.len() && m.downloads[k].id == id;
        lemma_first_download_exists(m.downloads, id, k);
        assert forall|i: int| 0 <= i < r.downloads.len() implies (#[trigger] r.downloads[i]).id.value() < r.next_id by {
            if i == pos {
                assert(f(m.downloads[pos]).id == m.downloads[pos].id);
            } else {
                assert(r.downloads[i] == m.downloads[i]);
            }
            assert(m.downloads[i].id.value() < m.next_id);
        }
    }
}

/// Dropping downloads keeps every id below the counter.
proof fn lemma_filter_keeps_ids_below(m: DownloadManagerView, pred: spec_fn(DownloadView) -> bool)
    requires
        m.ids_below_counter(),
    ensures
        (DownloadManagerView { downloads: m.downloads.filter(pred), ..m }).ids_below_counter(),
{
    let g = m.downloads.filter(pred);
    crate::seqs::lemma_filter_membership(m.downloads, pred);
    assert forall|i: int| 0 <= i < g.len() implies (#[trigger] g[i]).id.value() < m.next_id by {
        assert(g.contains(g[i]));
        assert(m.downloads.contains(g[i]));
        let k = choose|k: int| 0 <= k < m.downloads.len() && m.downloads[k] == g[i];
        assert(0 <= k < m.downloads.len());
        assert(m.downloads[k].id.value() < m.next_id);
    }
}

impl DownloadManager {
    /// Create a download manager saving into `download_dir`.
    pub fn new(download_dir: std::path::PathBuf) -> (m: DownloadManager)
        ensures
            m@.downloads.len() == 0,
            m@.download_dir == download_dir,
            !m@.ask_location,
            m@.next_id == 1,
            m@.ids_below_counter(),
    {
        let m = DownloadManager { downloads: Vec::new(), download_dir, ask_location: false, next_id: 1 };
        proof {
            assert(download_views(m.downloads@) =~= Seq::<DownloadView>::empty());
        }
        m
    }

    /// The position of the first download with id `id`.
    fn position(&self, id: DownloadId) -> (res: Option<usize>)
        ensures
            match res {
                Some(i) => i < self@.downloads.len() && download_position(self@.downloads, id) == i,
                None => download_position(self@.downloads, id) == -1,
            },
    {
        let mut i: usize = 0;
        while i < self.downloads.len()
            invariant
                i <= self@.downloads.len(),
                forall|j: int| 0 <= j < i ==> self@.downloads[j].id != id,
            decreases self@.downloads.len() - i,
        {
            if self.downloads[i].id == id {
                proof {
                    assert(self@.downloads[i as int].id == id);
                    assert(is_first_download(self@.downloads, id, i as int));
                    let k = choose|k: int| is_first_download(self@.downloads, id, k);
                    assert(k == i);
                }
                return Some(i);
            }
            i = i + 1;
        }
        None
    }

    /// Start downloading `url` into `filename` in the download directory; the
    /// new download comes first in the list. Returns the new download's id,
    /// which no earlier download has while ids stay below the counter.
    pub fn start_download(&mut self, url: Url, filename: &str) -> (id: DownloadId)
        ensures
            id.value() == old(self)@.next_id,
            final(self)@.next_id == old(self)@.next_id.wrapping_add(1),
            final(self)@.ask_location == old(self)@.ask_location,
            final(self)@.download_dir == old(self)@.download_dir,
            final(self)@.downloads.len() == old(self)@.downloads.len() + 1,
            final(self)@.downloads.skip(1) == old(self)@.downloads,
            download_position(final(self)@.downloads, id) == 0,
            final(self)@.downloads.filter(active_pred()).len() == old(self)@.downloads.filter(
                active_pred(),
            ).len() + 1,
            old(self)@.ids_below_counter() ==> forall|i: int|
                0 <= i < old(self)@.downloads.len() ==> (#[trigger] old(self)@.downloads[i]).id != id,
            old(self)@.ids_below_counter() && old(self)@.next_id < u64::MAX
                ==> final(self)@.ids_below_counter(),
            final(self)@.downloads[0] == (DownloadView {
                id,
                url: url@,
                filename: filename@,
                path: joined_path(old(self)@.download_dir, filename@),
                mime_type: None,
                bytes_downloaded: 0,
                total_bytes: None,
                state: DownloadState::InProgress,
                started_at: final(self)@.downloads[0].started_at,
                finished_at: None,
                error: None,
            }),
    {
        let path = join_path(&self.download_dir, filename);
        let id = DownloadId::next(&mut self.next_id);
        let mut download = Download::new(id, url, filename, path);
        download.state = DownloadState::InProgress;
        self.downloads.insert(0, download);
        proof {
            let s = self@.downloads;
            assert(s.skip(1) =~= old(self)@.downloads);
            assert(s =~= seq![s[0]] + old(self)@.downloads);
            Seq::filter_distributes_over_add(seq![s[0]], old(self)@.downloads, active_pred());
            assert(seq![s[0]].filter(active_pred()) =~= seq![s[0]]) by {
                reveal(Seq::filter);
                let e = Seq::<DownloadView>::empty();
                assert(e.filter(active_pred()) =~= e);
                assert(seq![s[0]].drop_last() =~= e);
                assert(active_pred()(s[0]));
            }
            assert(s[0].id == id);
            assert(is_first_download(s, id, 0));
            let k = choose|k: int| is_first_download(s, id, k);
            if k != 0 {
                assert(s[0].id != id);
            }
            if old(self)@.ids_below_counter() {
                assert forall|i: int| 0 <= i < old(self)@.downloads.len() implies
                    (#[trigger] old(self)@.downloads[i]).id != id by {
                    assert(old(self)@.downloads[i].id.value() < id.value());
                }
                if old(self)@.next_id < u64::MAX {
                    assert forall|i: int| 0 <= i < s.len() implies (#[trigger] s[i]).id.value() < self@.next_id by {
                        if i > 0 {
                            assert(s[i] == old(self)@.downloads[i - 1]);
                        }
                    }
                }
            }
        }
        id
    }

    /// Record progress of the first download with id `id`.
    pub fn update_progress(&mut self, id: DownloadId, bytes_downloaded: u64, total_bytes: Option<u64>)
        ensures
            final(self)@ == old(self)@.map_download(
                id,
                |d: DownloadView| progressed(d, bytes_downloaded, total_bytes),
            ),
            old(self)@.ids_below_counter() ==> final(self)@.ids_below_counter(),
    {
        proof {
            if old(self)@.ids_below_counter() {
                lemma_map_keeps_ids_below(old(self)@, id, |d: DownloadView| progressed(d, bytes_downloaded, total_bytes));
            }
        }
        if let Some(p) = self.position(id) {
            let ghost before = self.downloads@;
            let dl = &mut self.downloads[p];
            dl.bytes_downloaded = bytes_downloaded;
            if let Some(total) = total_bytes {
                dl.total_bytes = Some(total);
            }
            proof {
                lemma_download_views_update(before, p as int, self.downloads@[p as int]);
                assert(self.downloads@ =~= before.update(p as int, self.downloads@[p as int]));
            }
        }
    }

    /// Mark the first download with id `id` completed at time `t`.
    pub fn complete_at(&mut self, id: DownloadId, t: i64)
        ensures
            final(self)@ == old(self)@.completion(id, t),
            old(self)@.ids_below_counter() ==> final(self)@.ids_below_counter(),
    {
        proof {
            if old(self)@.ids_below_counter() {
                lemma_map_keeps_ids_below(old(self)@, id, |d: DownloadView| completed_at(d, t));
            }
        }
        if let Some(p) = self.position(id) {
            let ghost before = self.downloads@;
            let dl = &mut self.downloads[p];
            dl.state = DownloadState::Completed;
            dl.finished_at = Some(t);
            if let Some(total) = dl.total_bytes {
                dl.bytes_downloaded = total;
            }
            proof {
                lemma_download_views_update(before, p as int, self.downloads@[p as int]);
                assert(self.downloads@ =~= before.update(p as int, self.downloads@[p as int]));
            }
        }
    }

    /// Mark the first download with id `id` completed now.
    pub fn complete(&mut self, id: DownloadId)
        ensures
            exists|t: i64| final(self)@ == #[trigger] old(self)@.completion(id, t),
            old(self)@.ids_below_counter() ==> final(self)@.ids_below_counter(),
    {
        let t = now_timestamp();
        self.complete_at(id, t);
    }

    /// Mark the first download with id `id` failed with `error` at time `t`.
    pub fn fail_at(&mut self, id: DownloadId, error: &str, t: i64)
        ensures
            final(self)@ == old(self)@.failure(id, error@, t),
            old(self)@.ids_below_counter() ==> final(self)@.ids_below_counter(),
    {
        proof {
            if old(self)@.ids_below_counter() {
                lemma_map_keeps_ids_below(old(self)@, id, |d: DownloadView| failed_at(d, error@, t));
            }
        }
        if let Some(p) = self.position(id) {
            let ghost before = self.downloads@;
            let dl = &mut self.downloads[p];
            dl.state = DownloadState::Failed;
            dl.finished_at = Some(t);
            dl.error = Some(error.to_owned());
            proof {
                lemma_download_views_update(before, p as int, self.downloads@[p as int]);
                assert(self.downloads@ =~= before.update(p as int, self.downloads@[p as int]));
            }
        }
    }

    /// Mark the first download with id `id` failed with `error` now.
    pub fn fail(&mut self, id: DownloadId, error: &str)
        ensures
            exists|t: i64| final(self)@ == #[trigger] old(self)@.failure(id, error@, t),
            old(self)@.ids_below_counter() ==> final(self)@.ids_below_counter(),
    {
        let t = now_timestamp();
        self.fail_at(id, error, t);
    }

    /// Cancel the first download with id `id` at time `t`, if it is active.
    pub fn cancel_at(&mut self, id: DownloadId, t: i64)
        ensures
            final(self)@ == old(self)@.cancellation(id, t),
            old(self)@.ids_below_counter() ==> final(self)@.ids_below_counter(),
    {
        proof {
            if old(self)@.ids_below_counter() {
                lemma_map_keeps_ids_below(old(self)@, id, |d: DownloadView| cancelled_at(d, t));
            }
        }
        if let Some(p) = self.position(id) {
            if self.downloads[p].state.is_active() {
                let ghost before = self.downloads@;
                let dl = &mut self.downloads[p];
                dl.state = DownloadState::Cancelled;
                dl.finished_at = Some(t);
                proof {
                    lemma_download_views_update(before, p as int, self.downloads@[p as int]);
                    assert(self.downloads@ =~= before.update(p as int, self.downloads@[p as int]));
                }
            } else {
                proof {
                    assert(self@.downloads.update(p as int, cancelled_at(self@.downloads[p as int], t)) =~= self@.downloads);
                }
            }
        }
    }

    /// Cancel the first download with id `id` now, if it is active.
    pub fn cancel(&mut self, id: DownloadId)
        ensures
            exists|t: i64| final(self)@ == #[trigger] old(self)@.cancellation(id, t),
            old(self)@.ids_below_counter() ==> final(self)@.ids_below_counter(),
    {
        let t = now_timestamp();
        self.cancel_at(id, t);
    }

    /// Pause the first download with id `id`, if it is in progress.
    pub fn pause(&mut self, id: DownloadId)
        ensures
            final(self)@ == old(self)@.map_download(id, |d: DownloadView| paused(d)),
            old(self)@.ids_below_counter() ==> final(self)@.ids_below_counter(),
    {
        proof {
            if old(self)@.ids_below_counter() {
                lemma_map_keeps_ids_below(old(self)@, id, |d: DownloadView| paused(d));
            }
        }
        if let Some(p) = self.position(id) {
            if self.downloads[p].state == DownloadState::InProgress {
                let ghost before = self.downloads@;
                self.downloads[p].state = DownloadState::Paused;
                proof {
                    lemma_download_views_update(before, p as int, self.downloads@[p as int]);
                    assert(self.downloads@ =~= before.update(p as int, self.downloads@[p as int]));
                }
            } else {
                proof {
                    assert(self@.downloads.update(p as int, paused(self@.downloads[p as int])) =~= self@.downloads);
                }
            }
        }
    }

    /// Resume the first download with id `id`, if it is paused.
    pub fn resume(&mut self, id: DownloadId)
        ensures
            final(self)@ == old(self)@.map_download(id, |d: DownloadView| resumed(d)),
            old(self)@.ids_below_counter() ==> final(self)@.ids_below_counter(),
    {
        proof {
            if old(self)@.ids_below_counter() {
                lemma_map_keeps_ids_below(old(self)@, id, |d: DownloadView| resumed(d));
            }
        }
        if let Some(p) = self.position(id) {
            if self.downloads[p].state == DownloadState::Paused {
                let ghost before = self.downloads@;
                self.downloads[p].state = DownloadState::InProgress;
                proof {
                    lemma_download_views_update(before, p as int, self.downloads@[p as int]);
                    assert(self.downloads@ =~= before.update(p as int, self.downloads@[p as int]));
                }
            } else {
                proof {
                    assert(self@.downloads.update(p as int, resumed(self@.downloads[p as int])) =~= self@.downloads);
                }
            }
        }
    }

    /// The first download with id `id`.
    pub fn get(&self, id: DownloadId) -> (res: Option<&Download>)
        ensures
            match res {
                Some(d) => download_position(self@.downloads, id) >= 0 && d@ == self@.downloads[download_position(self@.downloads, id)],
                None => download_position(self@.downloads, id) == -1,
            },
    {
        match self.position(id) {
            Some(p) => Some(&self.downloads[p]),
            None => None,
        }
    }

    /// The first download with id `id`, for changing it in place.
    pub fn get_mut(&mut self, id: DownloadId) -> (res: Option<&mut Download>)
        ensures
            match res {
                Some(d) => {
                    &&& download_position(old(self)@.downloads, id) >= 0
                    &&& d@ == old(self)@.downloads[download_position(old(self)@.downloads, id)]
                    &&& final(self)@ == (DownloadManagerView {
                        downloads: old(self)@.downloads.update(download_position(old(self)@.downloads, id), final(d)@),
                        ..old(self)@
                    })
                },
                None => download_position(old(self)@.downloads, id) == -1 && final(self)@ == old(self)@,
            },
    {
        match self.position(id) {
            Some(p) => {
                let ghost before = self.downloads@;
                let d = &mut self.downloads[p];
                proof {
                    lemma_download_views_update(before, p as int, *final(d));
                }
                Some(d)
            },
            None => None,
        }
    }

    /// Downloads that are still active (pending, in progress or paused).
    pub fn active(&self) -> (res: Vec<&Download>)
        ensures
            download_ref_views(res@) == self@.downloads.filter(active_pred()),
    {
        let mut out: Vec<&Download> = Vec::new();
        let mut i: usize = 0;
        while i < self.downloads.len()
            invariant
                i <= self@.downloads.len(),
                download_ref_views(out@) == self@.downloads.take(i as int).filter(active_pred()),
            decreases self@.downloads.len() - i,
        {
            let d = &self.downloads[i];
            proof {
                reveal(Seq::filter);
                assert(self@.downloads.take(i + 1).drop_last() =~= self@.downloads.take(i as int));
                assert(self@.downloads.take(i + 1).last() == d@);
            }
            if d.state.is_active() {
                out.push(d);
            }
            proof {
                reveal(Seq::filter);
                assert(download_ref_views(out@) =~= self@.downloads.take(i + 1).filter(active_pred()));
            }
            i = i + 1;
        }
        proof {
            assert(self@.downloads.take(self@.downloads.len() as int) =~= self@.downloads);
        }
        out
    }

    /// Completed downloads.
    pub fn completed(&self) -> (res: Vec<&Download>)
        ensures
            download_ref_views(res@) == self@.downloads.filter(completed_pred()),
    {
        let mut out: Vec<&Download> = Vec::new();
        let mut i: usize = 0;
        while i < self.downloads.len()
            invariant
                i <= self@.downloads.len(),
                download_ref_views(out@) == self@.downloads.take(i as int).filter(completed_pred()),
            decreases self@.downloads.len() - i,
        {
            let d = &self.downloads[i];
            proof {
                reveal(Seq::filter);
                assert(self@.downloads.take(i + 1).drop_last() =~= self@.downloads.take(i as int));
                assert(self@.downloads.take(i + 1).last() == d@);
            }
            if d.state == DownloadState::Completed {
                out.push(d);
            }
            proof {
                reveal(Seq::filter);
                assert(download_ref_views(out@) =~= self@.downloads.take(i + 1).filter(completed_pred()));
            }
            i = i + 1;
        }
        proof {
            assert(self@.downloads.take(self@.downloads.len() as int) =~= self@.downloads);
        }
        out
    }

    /// All downloads, the most recently started first.
    pub fn all(&self) -> (res: &[Download])
        ensures
            download_views(res@) == self@.downloads,
    {
        self.downloads.as_slice()
    }

    /// The download manager of a user whose home directory is `home`:
    /// saving into `<home>/Downloads`, or into the working directory when the
    /// home directory is unknown.
    pub fn for_home(home: Option<&str>) -> (m: DownloadManager)
        ensures
            m@.downloads.len() == 0,
            m@.download_dir == match home {
                Some(h) => joined_path(path_from_text(h@), "Downloads"@),
                None => path_from_text("."@),
            },
            !m@.ask_location,
            m@.next_id == 1,
            m@.ids_below_counter(),
    {
        let dir = match home {
            Some(h) => {
                let base = path_from(h);
                join_path(&base, "Downloads")
            },
            None => path_from("."),
        };
        DownloadManager::new(dir)
    }

    /// Choose whether the user is asked where to save each download.
    pub fn set_ask_location(&mut self, ask: bool)
        ensures
            final(self)@ == (DownloadManagerView { ask_location: ask, ..old(self)@ }),
    {
        self.ask_location = ask;
    }

    /// Number of active downloads.
    pub fn active_count(&self) -> (n: usize)
        ensures
            n == self@.downloads.filter(active_pred()).len(),
    {
        let mut n: usize = 0;
        let mut i: usize = 0;
        while i < self.downloads.len()
            invariant
                i <= self@.downloads.len(),
                n <= i,
                n == self@.downloads.take(i as int).filter(active_pred()).len(),
            decreases self@.downloads.len() - i,
        {
            proof {
                reveal(Seq::filter);
                assert(self@.downloads.take(i + 1).drop_last() =~= self@.downloads.take(i as int));
                assert(self@.downloads.take(i + 1).last() == self@.downloads[i as int]);
            }
            if self.downloads[i].state.is_active() {
                n = n + 1;
            }
            i = i + 1;
        }
        proof {
            assert(self@.downloads.take(self@.downloads.len() as int) =~= self@.downloads);
        }
        n
    }

    /// Keep only the downloads matching `keep_active` (active ones) or with
    /// an id other than `id`.
    fn retain_downloads(&mut self, by_active: bool, id: DownloadId)
        ensures
            final(self)@ == (DownloadManagerView {
                downloads: old(self)@.downloads.filter(
                    if by_active { active_pred() } else { other_id_pred(id) },
                ),
                ..old(self)@
            }),
    {
        let ghost pred = if by_active { active_pred() } else { other_id_pred(id) };
        let ghost all = self@.downloads;
        let ghost mut j: int = 0;
        let mut i: usize = 0;
        while i < self.downloads.len()
            invariant
                0 <= j <= all.len(),
                self@.ask_location == old(self)@.ask_location,
                self@.download_dir == old(self)@.download_dir,
                self@.next_id == old(self)@.next_id,
                self@.downloads == all.take(j).filter(pred) + all.skip(j),
                i == all.take(j).filter(pred).len(),
                all == old(self)@.downloads,
                pred == if by_active { active_pred() } else { other_id_pred(id) },
            decreases self@.downloads.len() - i,
        {
            let ghost before = self@.downloads;
            let ghost kept = all.take(j).filter(pred);
            proof {
                reveal(Seq::filter);
                assert(all.take(j + 1).drop_last() =~= all.take(j));
                assert(all.take(j + 1).last() == all[j]);
                assert(self@.downloads[i as int] == all[j]);
                assert(all.skip(j) =~= seq![all[j]] + all.skip(j + 1));
                assert(before =~= kept + seq![all[j]] + all.skip(j + 1));
            }
            let keep = if by_active {
                self.downloads[i].state.is_active()
            } else {
                self.downloads[i].id != id
            };
            if keep {
                proof {
                    assert(pred(all[j]));
                    assert(all.take(j + 1).filter(pred) == kept.push(all[j]));
                    assert(self@.downloads =~= all.take(j + 1).filter(pred) + all.skip(j + 1));
                }
                i = i + 1;
            } else {
                self.downloads.remove(i);
                proof {
                    assert(!pred(all[j]));
                    assert(all.take(j + 1).filter(pred) == kept);
                    assert(download_views(self.downloads@) =~= before.remove(i as int));
                    assert(self@.downloads =~= all.take(j + 1).filter(pred) + all.skip(j + 1));
                }
            }
            proof {
                j = j + 1;
            }
        }
        proof {
            assert(all.skip(j) =~= Seq::<DownloadView>::empty()) by {
                assert(self@.downloads.len() == i);
            }
            assert(all.take(j) =~= all);
            assert(self@.downloads =~= all.filter(pred));
        }
    }

    /// Remove all completed, failed and cancelled downloads.
    pub fn clear_finished(&mut self)
        ensures
            final(self)@ == (DownloadManagerView {
                downloads: old(self)@.downloads.filter(active_pred()),
                ..old(self)@
            }),
            old(self)@.ids_below_counter() ==> final(self)@.ids_below_counter(),
    {
        proof {
            if old(self)@.ids_below_counter() {
                lemma_filter_keeps_ids_below(old(self)@, active_pred());
            }
        }
        self.retain_downloads(true, DownloadId(0));
    }

    /// Remove every download with id `id`.
    pub fn remove(&mut self, id: DownloadId)
        ensures
            final(self)@ == (DownloadManagerView {
                downloads: old(self)@.downloads.filter(other_id_pred(id)),
                ..old(self)@
            }),
            old(self)@.ids_below_counter() ==> final(self)@.ids_below_counter(),
    {
        proof {
            if old(self)@.ids_below_counter() {
                lemma_filter_keeps_ids_below(old(self)@, other_id_pred(id));
            }
        }
        self.retain_downloads(false, id);
    }
}

/// A download is active exactly when it is not finished.
pub proof fn lemma_active_iff_not_finished(s: DownloadState)
    ensures
        s.spec_is_active() <==> !s.spec_is_finished(),
{
}

/// Pausing and then resuming a download in progress leaves it as it was,
/// and resuming and then pausing a paused one leaves it as it was.
pub proof fn lemma_pause_resume_roundtrip(d: DownloadView)
    ensures
        d.state == DownloadState::InProgress ==> resumed(paused(d)) == d,
        d.state == DownloadState::Paused ==> paused(resumed(d)) == d,
{
}

/// A finished download stays as it is under pause, resume and cancel
/// requests.
pub proof fn lemma_finished_is_terminal(d: DownloadView, t: i64)
    requires
        d.state.spec_is_finished(),
    ensures
        paused(d) == d,
        resumed(d) == d,
        cancelled_at(d, t) == d,
{
}

} // verus!

verus! {

/// The identity of a download: what no state change touches.
pub open spec fn same_download(a: DownloadView, b: DownloadView) -> bool {
    &&& a.id == b.id
    &&& a.url == b.url
    &&& a.filename == b.filename
    &&& a.path == b.path
    &&& a.mime_type == b.mime_type
    &&& a.started_at == b.started_at
}

/// What each event does to one download. Completing marks it completed at
/// that time, with the byte count at the total when the total is known.
/// Failing marks it failed at that time with the error. Cancelling marks an
/// active download cancelled at that time and leaves a finished one alone.
/// Pausing pauses only a download in progress, resuming resumes only a
/// paused one. A progress report sets the byte count and, when given, the
/// total. None of them changes which download it is.
pub proof fn lemma_download_events(d: DownloadView, t: i64, error: Seq<char>, bytes: u64, total: Option<u64>)
    ensures
        completed_at(d, t).state == DownloadState::Completed,
        completed_at(d, t).finished_at == Some(t),
        completed_at(d, t).total_bytes == d.total_bytes,
        completed_at(d, t).bytes_downloaded == match d.total_bytes {
            Some(n) => n,
            None => d.bytes_downloaded,
        },
        completed_at(d, t).error == d.error,
        same_download(completed_at(d, t), d),
        failed_at(d, error, t).state == DownloadState::Failed,
        failed_at(d, error, t).finished_at == Some(t),
        failed_at(d, error, t).error == Some(error),
        failed_at(d, error, t).bytes_downloaded == d.bytes_downloaded,
        same_download(failed_at(d, error, t), d),
        d.state.spec_is_active() ==> cancelled_at(d, t).state == DownloadState::Cancelled
            && cancelled_at(d, t).finished_at == Some(t)
            && cancelled_at(d, t).bytes_downloaded == d.bytes_downloaded,
        !d.state.spec_is_active() ==> cancelled_at(d, t) == d,
        same_download(cancelled_at(d, t), d),
        d.state == DownloadState::InProgress ==> paused(d).state == DownloadState::Paused,
        d.state != DownloadState::InProgress ==> paused(d) == d,
        paused(d).bytes_downloaded == d.bytes_downloaded && same_download(paused(d), d),
        d.state == DownloadState::Paused ==> resumed(d).state == DownloadState::InProgress,
        d.state != DownloadState::Paused ==> resumed(d) == d,
        resumed(d).bytes_downloaded == d.bytes_downloaded && same_download(resumed(d), d),
        progressed(d, bytes, total).bytes_downloaded == bytes,
        progressed(d, bytes, total).total_bytes == if total is Some { total } else { d.total_bytes },
        progressed(d, bytes, total).state == d.state,
        same_download(progressed(d, bytes, total), d),
{
}

/// An event for a download changes that download alone: the first one
/// with the id becomes `f` of itself, every other download stays as it
/// was, and no download is added or dropped. With no such download nothing
/// changes.
pub proof fn lemma_map_download_touches_one(m: DownloadManagerView, id: DownloadId, f: spec_fn(DownloadView) -> DownloadView)
    ensures
        ({
            let r = m.map_download(id, f);
            &&& r.downloads.len() == m.downloads.len()
            &&& r.next_id == m.next_id && r.download_dir == m.download_dir && r.ask_location == m.ask_location
            &&& (forall|i: int| 0 <= i < m.downloads.len() ==> m.downloads[i].id != id) ==> r == m
            &&& forall|i: int|
                0 <= i < m.downloads.len() && is_first_download(m.downloads, id, i) ==> {
                    &&& r.downloads[i] == f(m.downloads[i])
                    &&& forall|j: int| 0 <= j < m.downloads.len() && j != i ==> #[trigger] r.downloads[j] == m.downloads[j]
                }
        }),
{
    let pos = download_position(m.downloads, id);
    if exists|k: int| 0 <= k < m.downloads.len() && m.downloads[k].id == id {
        let k = choose|k: int| 0 <= k < m.downloads.len() && m.downloads[k].id == id;
        lemma_first_download_exists(m.downloads, id, k);
        assert forall|i: int| 0 <= i < m.downloads.len() && is_first_download(m.downloads, id, i) implies i == pos by {
            if i < pos {
                assert(m.downloads[i].id == id);
            } else if i > pos {
                assert(m.downloads[pos].id == id);
            }
        }
    }
}

/// Which downloads count as active and which as completed: active ones are
/// pending, in progress or paused; completed ones are exactly those in the
/// completed state. Clearing the finished downloads keeps exactly the
/// active ones, and removing an id keeps exactly the downloads with other
/// ids, in both cases in their order.
pub proof fn lemma_download_filters(s: Seq<DownloadView>, id: DownloadId)
    ensures
        forall|d: DownloadView| #[trigger] s.filter(active_pred()).contains(d) <==> s.contains(d) && (d.state
            == DownloadState::Pending || d.state == DownloadState::InProgress || d.state == DownloadState::Paused),
        forall|d: DownloadView| #[trigger] s.filter(completed_pred()).contains(d) <==> s.contains(d) && d.state
            == DownloadState::Completed,
        forall|d: DownloadView| #[trigger] s.filter(other_id_pred(id)).contains(d) <==> s.contains(d) && d.id != id,
{
    crate::seqs::lemma_filter_membership(s, active_pred());
    crate::seqs::lemma_filter_membership(s, completed_pred());
    crate::seqs::lemma_filter_membership(s, other_id_pred(id));
}

} // verus!
