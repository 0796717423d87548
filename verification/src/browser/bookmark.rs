//! The user's bookmarks: adding, removing, organising into folders and
//! searching.

use vstd::prelude::*;

use crate::clock::now_timestamp;
use crate::location::{Url, UrlView};
use crate::seqs::{lemma_filter_unique, unique_by};
use crate::text::{chars_of, contains_ignoring_case, contains_lowered, contains_seq, lowercase, str_eq, to_lower};

verus! {

/// A single bookmark entry.
pub struct Bookmark {
    /// Bookmark title.
    pub title: String,
    /// The bookmarked URL.
    pub url: Url,
    /// Folder path (e.g. "News/Tech"). `None` means root.
    pub folder: Option<String>,
    /// Tags for search/filtering.
    pub tags: Vec<String>,
    /// Unix timestamp when the bookmark was created.
    pub created_at: i64,
}

/// The model of a bookmark.
pub struct BookmarkView {
    pub title: Seq<char>,
    pub url: UrlView,
    pub folder: Option<Seq<char>>,
    pub tags: Seq<Seq<char>>,
    pub created_at: i64,
}

/// The view of an optional string.
pub open spec fn opt_view(o: Option<String>) -> Option<Seq<char>> {
    match o {
        Some(s) => Some(s@),
        None => None,
    }
}

/// The views of a sequence of strings.
pub open spec fn string_views(s: Seq<String>) -> Seq<Seq<char>> {
    s.map_values(|t: String| t@)
}

impl View for Bookmark {
    type V = BookmarkView;

    open spec fn view(&self) -> BookmarkView {
        BookmarkView {
            title: self.title@,
            url: self.url@,
            folder: opt_view(self.folder),
            tags: string_views(self.tags@),
            created_at: self.created_at,
        }
    }
}

/// The views of a sequence of bookmarks.
pub open spec fn bookmark_views(s: Seq<Bookmark>) -> Seq<BookmarkView> {
    s.map_values(|b: Bookmark| b@)
}

/// The views of a sequence of borrowed bookmarks.
pub open spec fn bookmark_ref_views(s: Seq<&Bookmark>) -> Seq<BookmarkView> {
    s.map_values(|b: &Bookmark| b@)
}

impl Bookmark {
    /// Create a bookmark at the root level, stamped with the current time.
    pub fn new(title: &str, url: Url) -> (b: Bookmark)
        ensures
            b@ == (BookmarkView {
                title: title@,
                url: url@,
                folder: None,
                tags: Seq::empty(),
                created_at: b@.created_at,
            }),
    {
        let now = now_timestamp();
        Bookmark::new_at(title, url, now)
    }

    /// Create a bookmark at the root level, stamped with `created_at`.
    pub fn new_at(title: &str, url: Url, created_at: i64) -> (b: Bookmark)
        ensures
            b@ == (BookmarkView {
                title: title@,
                url: url@,
                folder: None,
                tags: Seq::empty(),
                created_at,
            }),
    {
        let b = Bookmark {
            title: title.to_owned(),
            url,
            folder: None,
            tags: Vec::new(),
            created_at,
        };
        proof {
            assert(string_views(b.tags@) =~= Seq::<Seq<char>>::empty());
        }
        b
    }

    /// Place this bookmark in a folder.
    pub fn with_folder(self, folder: &str) -> (b: Bookmark)
        ensures
            b@ == (BookmarkView { folder: Some(folder@), ..self@ }),
    {
        let mut b = self;
        b.folder = Some(folder.to_owned());
        b
    }

    /// Replace the tags of this bookmark.
    pub fn with_tags(self, tags: Vec<String>) -> (b: Bookmark)
        ensures
            b@ == (BookmarkView { tags: string_views(tags@), ..self@ }),
    {
        let mut b = self;
        b.tags = tags;
        b
    }
}

/// A folder in the bookmark tree.
pub struct BookmarkFolder {
    /// Folder name: the last segment of the path.
    pub name: String,
    /// Full path (e.g. "News/Tech").
    pub path: String,
}

/// The model of a folder.
pub struct BookmarkFolderView {
    pub name: Seq<char>,
    pub path: Seq<char>,
}

impl View for BookmarkFolder {
    type V = BookmarkFolderView;

    open spec fn view(&self) -> BookmarkFolderView {
        BookmarkFolderView { name: self.name@, path: self.path@ }
    }
}

/// The views of a sequence of folders.
pub open spec fn folder_views(s: Seq<BookmarkFolder>) -> Seq<BookmarkFolderView> {
    s.map_values(|f: BookmarkFolder| f@)
}

/// The part of a folder path after its last `/` (all of it when there is
/// none).
pub open spec fn last_segment(p: Seq<char>) -> Seq<char>
    decreases p.len(),
{
    if p.len() == 0 {
        p
    } else if p.last() == '/' {
        Seq::empty()
    } else {
        last_segment(p.drop_last()).push(p.last())
    }
}

/// The parent paths of folder path `p` that end within its first `n`
/// characters: each non-empty prefix that stops just before a `/`, shortest
/// first.
pub open spec fn parent_paths_upto(p: Seq<char>, n: int) -> Seq<Seq<char>>
    decreases n,
{
    if n <= 0 {
        Seq::empty()
    } else {
        let rest = parent_paths_upto(p, n - 1);
        if p[n - 1] == '/' && n - 1 > 0 {
            rest.push(p.take(n - 1))
        } else {
            rest
        }
    }
}

/// The paths that making folder `p` known creates where missing: its parent
/// paths, shortest first, then `p` itself ("News", then "News/Tech").
pub open spec fn folder_chain(p: Seq<char>) -> Seq<Seq<char>> {
    parent_paths_upto(p, p.len() as int).push(p)
}

/// The model of a bookmark manager.
pub struct BookmarkManagerView {
    /// All bookmarks, in insertion order.
    pub bookmarks: Seq<BookmarkView>,
    /// Known folders, in creation order.
    pub folders: Seq<BookmarkFolderView>,
}

/// A bookmark is known by the serialization of its URL.
pub open spec fn bookmark_key() -> spec_fn(BookmarkView) -> Seq<char> {
    |b: BookmarkView| b.url.text
}

/// A folder is known by its path.
pub open spec fn folder_key() -> spec_fn(BookmarkFolderView) -> Seq<char> {
    |f: BookmarkFolderView| f.path
}

/// A bookmark matches a search: its title, URL or one of its tags contains
/// the query, ignoring case.
pub open spec fn bookmark_matches(b: BookmarkView, query: Seq<char>) -> bool {
    ||| contains_seq(lowercase(b.title), lowercase(query))
    ||| contains_seq(lowercase(b.url.text), lowercase(query))
    ||| exists|i: int| 0 <= i < b.tags.len() && contains_seq(lowercase(b.tags[i]), lowercase(query))
}

/// The search predicate for `query`.
pub open spec fn search_pred(query: Seq<char>) -> spec_fn(BookmarkView) -> bool {
    |b: BookmarkView| bookmark_matches(b, query)
}

/// The predicate of bookmarks in `folder` (every bookmark, for `None`).
pub open spec fn folder_pred(folder: Option<Seq<char>>) -> spec_fn(BookmarkView) -> bool {
    |b: BookmarkView|
        match folder {
            Some(f) => b.folder == Some(f),
            None => true,
        }
}

/// The predicate of root-level bookmarks.
pub open spec fn root_pred() -> spec_fn(BookmarkView) -> bool {
    |b: BookmarkView| b.folder is None
}

/// The predicate of bookmarks whose URL differs from `text`.
pub open spec fn other_url_pred(text: Seq<char>) -> spec_fn(BookmarkView) -> bool {
    |b: BookmarkView| b.url.text != text
}

impl BookmarkManagerView {
    /// No URL is bookmarked twice and no folder path is known twice.
    pub open spec fn wf(self) -> bool {
        &&& unique_by(self.bookmarks, bookmark_key())
        &&& unique_by(self.folders, folder_key())
    }

    /// Whether the URL with serialization `text` is bookmarked.
    pub open spec fn has_url(self, text: Seq<char>) -> bool {
        exists|i: int| 0 <= i < self.bookmarks.len() && self.bookmarks[i].url.text == text
    }

    /// Whether a folder with path `path` is known.
    pub open spec fn has_folder(self, path: Seq<char>) -> bool {
        exists|i: int| 0 <= i < self.folders.len() && self.folders[i].path == path
    }

    /// The folders after making sure that the single path `path` is known:
    /// a new path is added at the end, named by its last segment.
    pub open spec fn with_one_folder(self, path: Seq<char>) -> BookmarkManagerView {
        if self.has_folder(path) {
            self
        } else {
            BookmarkManagerView {
                folders: self.folders.push(
                    BookmarkFolderView { name: last_segment(path), path },
                ),
                ..self
            }
        }
    }

    /// The folders after making each of `paths` known, in order.
    pub open spec fn with_folders(self, paths: Seq<Seq<char>>) -> BookmarkManagerView
        decreases paths.len(),
    {
        if paths.len() == 0 {
            self
        } else {
            self.with_folders(paths.drop_last()).with_one_folder(paths.last())
        }
    }

    /// The folders after making sure that `path` and every parent path of
    /// it are known: missing parents are added first, shortest first, then
    /// `path` itself.
    pub open spec fn with_folder(self, path: Seq<char>) -> BookmarkManagerView {
        self.with_folders(folder_chain(path))
    }

    /// The manager after adding `b` (its folder made known first), when its
    /// URL is not bookmarked yet.
    pub open spec fn added(self, b: BookmarkView) -> BookmarkManagerView {
        let f = match b.folder {
            Some(p) => self.with_folder(p),
            None => self,
        };
        BookmarkManagerView { bookmarks: f.bookmarks.push(b), ..f }
    }

    /// Position of the bookmark for the URL with serialization `text`, or -1.
    pub open spec fn position(self, text: Seq<char>) -> int {
        if self.has_url(text) {
            choose|i: int| 0 <= i < self.bookmarks.len() && self.bookmarks[i].url.text == text
        } else {
            -1
        }
    }

    /// The manager after moving the bookmark for `text` into `folder` (the
    /// folder made known first).
    pub open spec fn moved(self, text: Seq<char>, folder: Option<Seq<char>>) -> BookmarkManagerView {
        let f = match folder {
            Some(p) => self.with_folder(p),
            None => self,
        };
        let pos = f.position(text);
        if pos < 0 {
            f
        } else {
            BookmarkManagerView {
                bookmarks: f.bookmarks.update(pos, BookmarkView { folder, ..f.bookmarks[pos] }),
                ..f
            }
        }
    }

    /// The manager after forgetting folder `path`: its bookmarks move to
    /// the root.
    pub open spec fn folder_removed(self, path: Seq<char>) -> BookmarkManagerView {
        BookmarkManagerView {
            folders: self.folders.filter(|f: BookmarkFolderView| f.path != path),
            bookmarks: self.bookmarks.map_values(
                |b: BookmarkView|
                    if b.folder == Some(path) {
                        BookmarkView { folder: None, ..b }
                    } else {
                        b
                    },
            ),
        }
    }
}

/// Making one folder path known keeps the bookmarks and the folders known
/// before, keeps paths unique, and makes that path known.
pub proof fn lemma_with_one_folder(b: BookmarkManagerView, path: Seq<char>)
    requires
        b.wf(),
    ensures
        b.with_one_folder(path).wf(),
        b.with_one_folder(path).bookmarks == b.bookmarks,
        b.with_one_folder(path).has_folder(path),
        b.with_one_folder(path).folders.len() >= b.folders.len(),
        forall|k: int| 0 <= k < b.folders.len() ==> b.with_one_folder(path).folders[k] == #[trigger] b.folders[k],
{
    let r = b.with_one_folder(path);
    if !b.has_folder(path) {
        let n = b.folders.len();
        assert(r.folders[n as int].path == path);
        assert forall|i: int, j: int|
            0 <= i < r.folders.len() && 0 <= j < r.folders.len() && i != j
                implies folder_key()(r.folders[i]) != folder_key()(r.folders[j]) by {
            if i < n && j < n {
                assert(r.folders[i] == b.folders[i] && r.folders[j] == b.folders[j]);
            } else if i < n {
                assert(r.folders[i] == b.folders[i]);
            } else {
                assert(r.folders[j] == b.folders[j]);
            }
        }
    } else {
        let k = choose|k: int| 0 <= k < b.folders.len() && b.folders[k].path == path;
        assert(r.folders[k].path == path);
    }
}

/// Making several folder paths known keeps the bookmarks and the folders
/// known before, keeps paths unique, and makes every one of them known.
pub proof fn lemma_with_folders(b: BookmarkManagerView, paths: Seq<Seq<char>>)
    requires
        b.wf(),
    ensures
        b.with_folders(paths).wf(),
        b.with_folders(paths).bookmarks == b.bookmarks,
        b.with_folders(paths).folders.len() >= b.folders.len(),
        forall|k: int| 0 <= k < b.folders.len() ==> b.with_folders(paths).folders[k] == #[trigger] b.folders[k],
        forall|k: int| 0 <= k < paths.len() ==> b.with_folders(paths).has_folder(#[trigger] paths[k]),
    decreases paths.len(),
{
    if paths.len() > 0 {
        let d = paths.drop_last();
        lemma_with_folders(b, d);
        let m = b.with_folders(d);
        lemma_with_one_folder(m, paths.last());
        let r = m.with_one_folder(paths.last());
        assert forall|k: int| 0 <= k < paths.len() implies r.has_folder(#[trigger] paths[k]) by {
            if k < d.len() {
                assert(paths[k] == d[k]);
                assert(m.has_folder(d[k]));
                let i = choose|i: int| 0 <= i < m.folders.len() && m.folders[i].path == d[k];
                assert(r.folders[i] == m.folders[i]);
            }
        }
    }
}

/// A folder path that is known occurs exactly once among the folders.
pub open spec fn folder_known_once(b: BookmarkManagerView, path: Seq<char>) -> bool {
    exists|i: int|
        0 <= i < b.folders.len() && b.folders[i].path == path && forall|j: int|
            0 <= j < b.folders.len() && #[trigger] b.folders[j].path == path ==> j == i
}

/// Making a folder known leaves its path, and each of its parent paths,
/// among the folders exactly once; the bookmarks are untouched.
pub proof fn lemma_with_folder_known_once(b: BookmarkManagerView, path: Seq<char>)
    requires
        b.wf(),
    ensures
        b.with_folder(path).wf(),
        b.with_folder(path).bookmarks == b.bookmarks,
        forall|k: int| 0 <= k < folder_chain(path).len() ==> folder_known_once(
            b.with_folder(path),
            #[trigger] folder_chain(path)[k],
        ),
{
    let c = folder_chain(path);
    lemma_with_folders(b, c);
    let r = b.with_folder(path);
    assert forall|k: int| 0 <= k < c.len() implies folder_known_once(r, #[trigger] c[k]) by {
        assert(r.has_folder(c[k]));
        let i = choose|i: int| 0 <= i < r.folders.len() && r.folders[i].path == c[k];
        assert forall|j: int| 0 <= j < r.folders.len() && #[trigger] r.folders[j].path == c[k] implies j == i by {
            if j != i {
                assert(folder_key()(r.folders[i]) != folder_key()(r.folders[j]));
            }
        }
    }
}

/// Searching the bookmarks finds exactly those whose title, URL or one of
/// whose tags contains the query, ignoring case.
pub proof fn lemma_search_finds_title_url_or_tag(bookmarks: Seq<BookmarkView>, query: Seq<char>)
    ensures
        forall|b: BookmarkView| #[trigger] bookmarks.filter(search_pred(query)).contains(b) <==> (
            bookmarks.contains(b) && (contains_ignoring_case(b.title, query) || contains_ignoring_case(
                b.url.text,
                query,
            ) || exists|i: int| 0 <= i < b.tags.len() && contains_ignoring_case(#[trigger] b.tags[i], query))),
{
    crate::seqs::lemma_filter_membership(bookmarks, search_pred(query));
}

/// Manages the user's bookmarks: add, remove, organize, search.
pub struct BookmarkManager {
    bookmarks: Vec<Bookmark>,
    folders: Vec<BookmarkFolder>,
}

impl View for BookmarkManager {
    type V = BookmarkManagerView;

    closed spec fn view(&self) -> BookmarkManagerView {
        BookmarkManagerView {
            bookmarks: bookmark_views(self.bookmarks@),
            folders: folder_views(self.folders@),
        }
    }
}

/// The part of `path` after its last `/`.
fn last_segment_of(path: &str) -> (res: String)
    ensures
        res@ == last_segment(path@),
{
    let cs = chars_of(path);
    let mut out = String::new();
    let mut i: usize = 0;
    while i < cs.len()
        invariant
            i <= cs@.len(),
            cs@ == path@,
            out@ == last_segment(cs@.take(i as int)),
        decreases cs@.len() - i,
    {
        proof {
            assert(cs@.take(i + 1).drop_last() =~= cs@.take(i as int));
        }
        if cs[i] == '/' {
            out = String::new();
        } else {
            crate::text::push_char(&mut out, cs[i]);
        }
        i = i + 1;
    }
    proof {
        assert(cs@.take(cs@.len() as int) =~= cs@);
    }
    out
}

impl BookmarkManager {
    /// Create an empty bookmark manager.
    pub fn new() -> (m: BookmarkManager)
        ensures
            m@.wf(),
            m@.bookmarks.len() == 0,
            m@.folders.len() == 0,
    {
        let m = BookmarkManager { bookmarks: Vec::new(), folders: Vec::new() };
        proof {
            assert(bookmark_views(m.bookmarks@) =~= Seq::<BookmarkView>::empty());
            assert(folder_views(m.folders@) =~= Seq::<BookmarkFolderView>::empty());
        }
        m
    }

    /// The position of the bookmark for `url`.
    fn find(&self, url: &Url) -> (res: Option<usize>)
        requires
            self@.wf(),
        ensures
            match res {
                Some(i) => i < self@.bookmarks.len() && self@.has_url(url@.text) && self@.position(
                    url@.text,
                ) == i,
                None => !self@.has_url(url@.text) && self@.position(url@.text) == -1,
            },
    {
        let mut i: usize = 0;
        while i < self.bookmarks.len()
            invariant
                self@.wf(),
                i <= self@.bookmarks.len(),
                forall|j: int| 0 <= j < i ==> self@.bookmarks[j].url.text != url@.text,
            decreases self@.bookmarks.len() - i,
        {
            if self.bookmarks[i].url.same_as(url) {
                proof {
                    assert(self@.bookmarks[i as int].url.text == url@.text);
                    let k = choose|k: int|
                        0 <= k < self@.bookmarks.len() && self@.bookmarks[k].url.text == url@.text;
                    assert(bookmark_key()(self@.bookmarks[k]) == bookmark_key()(self@.bookmarks[i as int]));
                }
                return Some(i);
            }
            i = i + 1;
        }
        None
    }

    /// Make sure a folder with `path` and each of its parent paths are
    /// known, parents first.
    fn ensure_folder(&mut self, path: &str)
        requires
            old(self)@.wf(),
        ensures
            final(self)@ == old(self)@.with_folder(path@),
            final(self)@.wf(),
    {
        let cs = chars_of(path);
        let mut prefix = String::new();
        let mut i: usize = 0;
        while i < cs.len()
            invariant
                i <= cs@.len(),
                cs@ == path@,
                prefix@ == cs@.take(i as int),
                self@.wf(),
                self@ == old(self)@.with_folders(parent_paths_upto(cs@, i as int)),
            decreases cs@.len() - i,
        {
            let ghost rest = parent_paths_upto(cs@, i as int);
            if cs[i] == '/' && i > 0 {
                self.ensure_one_folder(prefix.as_str());
                proof {
                    let more = rest.push(cs@.take(i as int));
                    assert(more.drop_last() =~= rest);
                    assert(parent_paths_upto(cs@, i + 1) == more);
                }
            }
            proof {
                assert(cs@.take(i + 1) =~= cs@.take(i as int).push(cs@[i as int]));
            }
            crate::text::push_char(&mut prefix, cs[i]);
            i = i + 1;
        }
        let ghost parents = parent_paths_upto(cs@, i as int);
        self.ensure_one_folder(path);
        proof {
            assert(folder_chain(path@).drop_last() =~= parents);
        }
    }

    /// Make sure a folder with the single path `path` is known, naming it by
    /// its last segment.
    fn ensure_one_folder(&mut self, path: &str)
        requires
            old(self)@.wf(),
        ensures
            final(self)@ == old(self)@.with_one_folder(path@),
            final(self)@.wf(),
    {
        let mut i: usize = 0;
        while i < self.folders.len()
            invariant
                i <= self@.folders.len(),
                self@ == old(self)@,
                old(self)@.wf(),
                forall|j: int| 0 <= j < i ==> self@.folders[j].path != path@,
            decreases self@.folders.len() - i,
        {
            if str_eq(self.folders[i].path.as_str(), path) {
                proof {
                    assert(self@.folders[i as int].path == path@);
                    assert(self@.has_folder(path@));
                }
                return;
            }
            i = i + 1;
        }
        let name = last_segment_of(path);
        self.folders.push(BookmarkFolder { name, path: path.to_owned() });
        proof {
            assert(folder_views(self.folders@) =~= old(self)@.folders.push(
                BookmarkFolderView { name: last_segment(path@), path: path@ },
            ));
        }
    }

    /// Add a bookmark. Returns `false` (and changes nothing) if its URL is
    /// already bookmarked.
    pub fn add(&mut self, bookmark: Bookmark) -> (added: bool)
        requires
            old(self)@.wf(),
        ensures
            added == !old(self)@.has_url(bookmark@.url.text),
            added ==> final(self)@ == old(self)@.added(bookmark@),
            !added ==> final(self)@ == old(self)@,
            final(self)@.wf(),
            added ==> final(self)@.bookmarks == old(self)@.bookmarks.push(bookmark@),
            added ==> match bookmark@.folder {
                Some(f) => folder_known_once(final(self)@, f),
                None => final(self)@.folders == old(self)@.folders,
            },
    {
        if self.find(&bookmark.url).is_some() {
            return false;
        }
        match &bookmark.folder {
            Some(f) => {
                proof {
                    lemma_with_folders(old(self)@, folder_chain(f@));
                    lemma_with_folder_known_once(old(self)@, f@);
                    assert(folder_chain(f@)[folder_chain(f@).len() - 1] == f@);
                }
                self.ensure_folder(f.as_str());
            },
            None => {},
        }
        let ghost mid = self@;
        self.bookmarks.push(bookmark);
        proof {
            assert(bookmark_views(self.bookmarks@) =~= mid.bookmarks.push(bookmark@));
            assert(unique_by(self@.bookmarks, bookmark_key())) by {
                assert forall|i: int, j: int|
                    0 <= i < self@.bookmarks.len() && 0 <= j < self@.bookmarks.len() && i != j
                        implies bookmark_key()(self@.bookmarks[i]) != bookmark_key()(self@.bookmarks[j]) by {
                    if i < mid.bookmarks.len() && j < mid.bookmarks.len() {
                    } else if i < mid.bookmarks.len() {
                        assert(self@.bookmarks[i] == old(self)@.bookmarks[i]);
                    } else {
                        assert(self@.bookmarks[j] == old(self)@.bookmarks[j]);
                    }
                }
            }
        }
        true
    }

    /// Remove the bookmark for `url`. Returns whether one was removed.
    pub fn remove(&mut self, url: &Url) -> (removed: bool)
        requires
            old(self)@.wf(),
        ensures
            removed == old(self)@.has_url(url@.text),
            final(self)@ == (BookmarkManagerView {
                bookmarks: old(self)@.bookmarks.filter(other_url_pred(url@.text)),
                ..old(self)@
            }),
            final(self)@.wf(),
    {
        let ghost pred = other_url_pred(url@.text);
        let ghost all = self@.bookmarks;
        let ghost mut j: int = 0;
        let mut found = false;
        let mut i: usize = 0;
        while i < self.bookmarks.len()
            invariant
                0 <= j <= all.len(),
                self@.folders == old(self)@.folders,
                self@.bookmarks == all.take(j).filter(pred) + all.skip(j),
                i == all.take(j).filter(pred).len(),
                all == old(self)@.bookmarks,
                pred == other_url_pred(url@.text),
                found == exists|k: int| 0 <= k < j && all[k].url.text == url@.text,
            decreases self@.bookmarks.len() - i,
        {
            let ghost before = self@.bookmarks;
            let ghost kept = all.take(j).filter(pred);
            proof {
                reveal(Seq::filter);
                assert(all.take(j + 1).drop_last() =~= all.take(j));
                assert(all.take(j + 1).last() == all[j]);
                assert(self@.bookmarks[i as int] == all[j]);
                assert(all.skip(j) =~= seq![all[j]] + all.skip(j + 1));
                assert(before =~= kept + seq![all[j]] + all.skip(j + 1));
            }
            if !self.bookmarks[i].url.same_as(url) {
                proof {
                    assert(pred(all[j]));
                    assert(all.take(j + 1).filter(pred) == kept.push(all[j]));
                    assert(self@.bookmarks =~= all.take(j + 1).filter(pred) + all.skip(j + 1));
                }
                i = i + 1;
            } else {
                self.bookmarks.remove(i);
                found = true;
                proof {
                    assert(!pred(all[j]));
                    assert(all.take(j + 1).filter(pred) == kept);
                    assert(bookmark_views(self.bookmarks@) =~= before.remove(i as int));
                    assert(self@.bookmarks =~= all.take(j + 1).filter(pred) + all.skip(j + 1));
                }
            }
            proof {
                j = j + 1;
            }
        }
        proof {
            assert(all.skip(j) =~= Seq::<BookmarkView>::empty()) by {
                assert(self@.bookmarks.len() == i);
            }
            assert(all.take(j) =~= all);
            assert(self@.bookmarks =~= all.filter(pred));
            lemma_filter_unique(all, bookmark_key(), pred);
        }
        found
    }

    /// Whether `url` is bookmarked.
    pub fn is_bookmarked(&self, url: &Url) -> (res: bool)
        requires
            self@.wf(),
        ensures
            res == self@.has_url(url@.text),
    {
        self.find(url).is_some()
    }

    /// Toggle a bookmark: remove it if `url` is bookmarked, else add one
    /// titled `title`. Returns whether `url` is bookmarked afterwards.
    pub fn toggle(&mut self, title: &str, url: Url) -> (now_bookmarked: bool)
        requires
            old(self)@.wf(),
        ensures
            now_bookmarked == !old(self)@.has_url(url@.text),
            now_bookmarked == final(self)@.has_url(url@.text),
            final(self)@.wf(),
            final(self)@.bookmarks.len() as int == old(self)@.bookmarks.len() + if now_bookmarked {
                1int
            } else {
                -1int
            },
            !now_bookmarked ==> final(self)@ == (BookmarkManagerView {
                bookmarks: old(self)@.bookmarks.filter(other_url_pred(url@.text)),
                ..old(self)@
            }),
            now_bookmarked ==> final(self)@ == old(self)@.added(
                BookmarkView {
                    title: title@,
                    url: url@,
                    folder: None,
                    tags: Seq::empty(),
                    created_at: final(self)@.bookmarks.last().created_at,
                },
            ),
    {
        if self.is_bookmarked(&url) {
            let ghost text = url@.text;
            self.remove(&url);
            proof {
                let b = old(self)@.bookmarks;
                let k = choose|k: int| 0 <= k < b.len() && b[k].url.text == text;
                assert forall|i: int| 0 <= i < b.len() && i != k implies other_url_pred(text)(#[trigger] b[i]) by {
                    assert(bookmark_key()(b[i]) != bookmark_key()(b[k]));
                }
                crate::seqs::lemma_filter_drops_one(b, other_url_pred(text), k);
                crate::seqs::lemma_filter_membership(old(self)@.bookmarks, other_url_pred(text));
                if self@.has_url(text) {
                    let k = choose|k: int| 0 <= k < self@.bookmarks.len() && self@.bookmarks[k].url.text == text;
                    assert(self@.bookmarks.contains(self@.bookmarks[k]));
                }
            }
            false
        } else {
            let b = Bookmark::new(title, url);
            let ghost bv = b@;
            self.add(b);
            proof {
                assert(self@.bookmarks.last() == bv);
                assert(self@.bookmarks[self@.bookmarks.len() - 1].url.text == bv.url.text);
            }
            true
        }
    }

    /// Move the bookmark for `url` into `folder` (the root, for `None`); the
    /// folder becomes known even when no such bookmark exists.
    pub fn move_to_folder(&mut self, url: &Url, folder: Option<String>)
        requires
            old(self)@.wf(),
        ensures
            final(self)@ == old(self)@.moved(url@.text, opt_view(folder)),
            final(self)@.wf(),
            final(self)@.bookmarks.len() == old(self)@.bookmarks.len(),
            match folder {
                Some(f) => folder_known_once(final(self)@, f@),
                None => final(self)@.folders == old(self)@.folders,
            },
    {
        match &folder {
            Some(f) => {
                proof {
                    lemma_with_folder_known_once(old(self)@, f@);
                    assert(folder_chain(f@)[folder_chain(f@).len() - 1] == f@);
                }
                self.ensure_folder(f.as_str());
            },
            None => {},
        }
        let ghost mid = self@;
        match self.find(url) {
            Some(p) => {
                let ghost before = self.bookmarks@;
                self.bookmarks[p].folder = folder;
                proof {
                    assert(bookmark_views(self.bookmarks@) =~= mid.bookmarks.update(
                        p as int,
                        BookmarkView { folder: opt_view(folder), ..mid.bookmarks[p as int] },
                    ));
                    assert(unique_by(self@.bookmarks, bookmark_key())) by {
                        assert forall|i: int, j: int|
                            0 <= i < self@.bookmarks.len() && 0 <= j < self@.bookmarks.len() && i != j
                                implies bookmark_key()(self@.bookmarks[i]) != bookmark_key()(self@.bookmarks[j]) by {
                            assert(self@.bookmarks[i].url == mid.bookmarks[i].url);
                            assert(self@.bookmarks[j].url == mid.bookmarks[j].url);
                        }
                    }
                }
            },
            None => {},
        }
    }

    /// Make sure a folder with `path` is known, and each of its parent
    /// paths ("News" for "News/Tech"), parents first.
    pub fn create_folder(&mut self, path: &str)
        requires
            old(self)@.wf(),
        ensures
            final(self)@ == old(self)@.with_folder(path@),
            final(self)@.wf(),
            final(self)@.bookmarks == old(self)@.bookmarks,
            forall|k: int| 0 <= k < folder_chain(path@).len() ==> folder_known_once(
                final(self)@,
                #[trigger] folder_chain(path@)[k],
            ),
    {
        proof {
            lemma_with_folder_known_once(old(self)@, path@);
        }
        self.ensure_folder(path);
    }

    /// Forget a folder; its bookmarks move to the root.
    pub fn remove_folder(&mut self, path: &str)
        requires
            old(self)@.wf(),
        ensures
            final(self)@ == old(self)@.folder_removed(path@),
            final(self)@.wf(),
    {
        let ghost fpred = |f: BookmarkFolderView| f.path != path@;
        let ghost all = self@.folders;
        let ghost mut j: int = 0;
        let mut i: usize = 0;
        while i < self.folders.len()
            invariant
                0 <= j <= all.len(),
                self@.bookmarks == old(self)@.bookmarks,
                self@.folders == all.take(j).filter(fpred) + all.skip(j),
                i == all.take(j).filter(fpred).len(),
                all == old(self)@.folders,
                fpred == (|f: BookmarkFolderView| f.path != path@),
            decreases self@.folders.len() - i,
        {
            let ghost before = self@.folders;
            let ghost kept = all.take(j).filter(fpred);
            proof {
                reveal(Seq::filter);
                assert(all.take(j + 1).drop_last() =~= all.take(j));
                assert(all.take(j + 1).last() == all[j]);
                assert(self@.folders[i as int] == all[j]);
                assert(all.skip(j) =~= seq![all[j]] + all.skip(j + 1));
                assert(before =~= kept + seq![all[j]] + all.skip(j + 1));
            }
            if !str_eq(self.folders[i].path.as_str(), path) {
                proof {
                    assert(fpred(all[j]));
                    assert(all.take(j + 1).filter(fpred) == kept.push(all[j]));
                    assert(self@.folders =~= all.take(j + 1).filter(fpred) + all.skip(j + 1));
                }
                i = i + 1;
            } else {
                self.folders.remove(i);
                proof {
                    assert(!fpred(all[j]));
                    assert(all.take(j + 1).filter(fpred) == kept);
                    assert(folder_views(self.folders@) =~= before.remove(i as int));
                    assert(self@.folders =~= all.take(j + 1).filter(fpred) + all.skip(j + 1));
                }
            }
            proof {
                j = j + 1;
            }
        }
        proof {
            assert(all.skip(j) =~= Seq::<BookmarkFolderView>::empty()) by {
                assert(self@.folders.len() == i);
            }
            assert(all.take(j) =~= all);
            assert(self@.folders =~= all.filter(fpred));
            lemma_filter_unique(all, folder_key(), fpred);
        }
        let ghost mid = self@;
        let mut k: usize = 0;
        while k < self.bookmarks.len()
            invariant
                k <= self@.bookmarks.len(),
                self@.folders == mid.folders,
                self@.bookmarks.len() == mid.bookmarks.len(),
                mid.bookmarks == old(self)@.bookmarks,
                forall|m: int| 0 <= m < k ==> self@.bookmarks[m] == (if mid.bookmarks[m].folder == Some(path@) {
                    BookmarkView { folder: None, ..mid.bookmarks[m] }
                } else {
                    mid.bookmarks[m]
                }),
                forall|m: int| k <= m < self@.bookmarks.len() ==> self@.bookmarks[m] == mid.bookmarks[m],
            decreases self@.bookmarks.len() - k,
        {
            let in_folder = match &self.bookmarks[k].folder {
                Some(f) => str_eq(f.as_str(), path),
                None => false,
            };
            if in_folder {
                let ghost before = self.bookmarks@;
                self.bookmarks[k].folder = None;
                proof {
                    assert(bookmark_views(self.bookmarks@) =~= bookmark_views(before).update(
                        k as int,
                        BookmarkView { folder: None, ..bookmark_views(before)[k as int] },
                    ));
                }
            }
            k = k + 1;
        }
        proof {
            let target = old(self)@.folder_removed(path@);
            assert(self@.bookmarks =~= target.bookmarks);
            assert(unique_by(self@.bookmarks, bookmark_key())) by {
                assert forall|a: int, b: int|
                    0 <= a < self@.bookmarks.len() && 0 <= b < self@.bookmarks.len() && a != b
                        implies bookmark_key()(self@.bookmarks[a]) != bookmark_key()(self@.bookmarks[b]) by {
                    assert(self@.bookmarks[a].url == mid.bookmarks[a].url);
                    assert(self@.bookmarks[b].url == mid.bookmarks[b].url);
                }
            }
        }
    }

    /// Bookmarks in `folder` (all of them, for `None`), in insertion order.
    pub fn list(&self, folder: Option<&str>) -> (res: Vec<&Bookmark>)
        ensures
            bookmark_ref_views(res@) == self@.bookmarks.filter(
                folder_pred(
                    match folder {
                        Some(f) => Some(f@),
                        None => None,
                    },
                ),
            ),
    {
        let ghost want = match folder {
            Some(f) => Some(f@),
            None => None,
        };
        let mut out: Vec<&Bookmark> = Vec::new();
        let mut i: usize = 0;
        while i < self.bookmarks.len()
            invariant
                i <= self@.bookmarks.len(),
                want == match folder {
                    Some(f) => Some(f@),
                    None => None::<Seq<char>>,
                },
                bookmark_ref_views(out@) == self@.bookmarks.take(i as int).filter(folder_pred(want)),
            decreases self@.bookmarks.len() - i,
        {
            let b = &self.bookmarks[i];
            let hit = match folder {
                Some(f) => match &b.folder {
                    Some(bf) => str_eq(bf.as_str(), f),
                    None => false,
                },
                None => true,
            };
            proof {
                reveal(Seq::filter);
                assert(self@.bookmarks.take(i + 1).drop_last() =~= self@.bookmarks.take(i as int));
                assert(self@.bookmarks.take(i + 1).last() == b@);
            }
            let ghost prev = out@;
            if hit {
                out.push(b);
            }
            proof {
                reveal(Seq::filter);
                assert(bookmark_ref_views(out@) =~= self@.bookmarks.take(i + 1).filter(folder_pred(want)));
            }
            i = i + 1;
        }
        proof {
            assert(self@.bookmarks.take(self@.bookmarks.len() as int) =~= self@.bookmarks);
        }
        out
    }

    /// Whether some tag contains `q` (already lower-cased), ignoring case.
    fn any_tag_contains(tags: &Vec<String>, q: &Vec<char>) -> (res: bool)
        ensures
            res == exists|i: int| 0 <= i < tags@.len() && contains_seq(lowercase(tags@[i]@), q@),
    {
        let mut i: usize = 0;
        while i < tags.len()
            invariant
                i <= tags@.len(),
                forall|k: int| 0 <= k < i ==> !contains_seq(lowercase(tags@[k]@), q@),
            decreases tags@.len() - i,
        {
            if contains_lowered(tags[i].as_str(), q) {
                return true;
            }
            i = i + 1;
        }
        false
    }

    /// Bookmarks whose title, URL or a tag contains `query`, ignoring case.
    pub fn search(&self, query: &str) -> (res: Vec<&Bookmark>)
        ensures
            bookmark_ref_views(res@) == self@.bookmarks.filter(search_pred(query@)),
            query@.len() == 0 ==> bookmark_ref_views(res@) == self@.bookmarks,
    {
        let lowered = to_lower(query);
        proof {
            if query@.len() == 0 {
                assert(lowercase(query@) =~= Seq::<char>::empty());
                assert forall|i: int| 0 <= i < self@.bookmarks.len() implies #[trigger] search_pred(query@)(
                    self@.bookmarks[i],
                ) by {
                    let b = self@.bookmarks[i];
                    assert(lowercase(b.title).subrange(0, 0) =~= lowercase(query@));
                    assert(crate::text::occurs_at(lowercase(b.title), lowercase(query@), 0));
                }
                crate::seqs::lemma_filter_all(self@.bookmarks, search_pred(query@));
            }
        }
        let q = chars_of(lowered.as_str());
        let mut out: Vec<&Bookmark> = Vec::new();
        let mut i: usize = 0;
        while i < self.bookmarks.len()
            invariant
                i <= self@.bookmarks.len(),
                q@ == lowercase(query@),
                bookmark_ref_views(out@) == self@.bookmarks.take(i as int).filter(search_pred(query@)),
            decreases self@.bookmarks.len() - i,
        {
            let b = &self.bookmarks[i];
            let hit = contains_lowered(b.title.as_str(), &q) || contains_lowered(b.url.as_str(), &q)
                || BookmarkManager::any_tag_contains(&b.tags, &q);
            proof {
                reveal(Seq::filter);
                assert(self@.bookmarks.take(i + 1).drop_last() =~= self@.bookmarks.take(i as int));
                assert(self@.bookmarks.take(i + 1).last() == b@);
                assert(b@.tags =~= string_views(b.tags@));
                assert(forall|k: int| 0 <= k < b@.tags.len() ==> b@.tags[k] == b.tags@[k]@);
                if exists|k: int| 0 <= k < b@.tags.len() && contains_seq(lowercase(b@.tags[k]), lowercase(query@)) {
                    let k = choose|k: int| 0 <= k < b@.tags.len() && contains_seq(lowercase(b@.tags[k]), lowercase(query@));
                    assert(b@.tags[k] == b.tags@[k]@);
                    assert(contains_seq(lowercase(b.tags@[k]@), q@));
                }
                if exists|k: int| 0 <= k < b.tags@.len() && contains_seq(lowercase(b.tags@[k]@), q@) {
                    let k = choose|k: int| 0 <= k < b.tags@.len() && contains_seq(lowercase(b.tags@[k]@), q@);
                    assert(b@.tags[k] == b.tags@[k]@);
                    assert(contains_seq(lowercase(b@.tags[k]), lowercase(query@)));
                }
            }
            if hit {
                out.push(b);
            }
            proof {
                reveal(Seq::filter);
                assert(bookmark_ref_views(out@) =~= self@.bookmarks.take(i + 1).filter(search_pred(query@)));
            }
            i = i + 1;
        }
        proof {
            assert(self@.bookmarks.take(self@.bookmarks.len() as int) =~= self@.bookmarks);
        }
        out
    }

    /// Bookmarks shown in the bookmark bar: those at the root level.
    pub fn bar_bookmarks(&self) -> (res: Vec<&Bookmark>)
        ensures
            bookmark_ref_views(res@) == self@.bookmarks.filter(root_pred()),
    {
        let mut out: Vec<&Bookmark> = Vec::new();
        let mut i: usize = 0;
        while i < self.bookmarks.len()
            invariant
                i <= self@.bookmarks.len(),
                bookmark_ref_views(out@) == self@.bookmarks.take(i as int).filter(root_pred()),
            decreases self@.bookmarks.len() - i,
        {
            let b = &self.bookmarks[i];
            proof {
                reveal(Seq::filter);
                assert(self@.bookmarks.take(i + 1).drop_last() =~= self@.bookmarks.take(i as int));
                assert(self@.bookmarks.take(i + 1).last() == b@);
            }
            if b.folder.is_none() {
                out.push(b);
            }
            proof {
                reveal(Seq::filter);
                assert(bookmark_ref_views(out@) =~= self@.bookmarks.take(i + 1).filter(root_pred()));
            }
            i = i + 1;
        }
        proof {
            assert(self@.bookmarks.take(self@.bookmarks.len() as int) =~= self@.bookmarks);
        }
        out
    }

    /// All known folders.
    pub fn folders(&self) -> (res: &[BookmarkFolder])
        ensures
            folder_views(res@) == self@.folders,
    {
        self.folders.as_slice()
    }

    /// All bookmarks, in insertion order.
    pub fn bookmarks(&self) -> (res: &[Bookmark])
        ensures
            bookmark_views(res@) == self@.bookmarks,
    {
        self.bookmarks.as_slice()
    }

    /// Total number of bookmarks.
    pub fn len(&self) -> (n: usize)
        ensures
            n == self@.bookmarks.len(),
    {
        self.bookmarks.len()
    }

    /// Whether there are no bookmarks.
    pub fn is_empty(&self) -> (b: bool)
        ensures
            b == (self@.bookmarks.len() == 0),
    {
        self.bookmarks.len() == 0
    }
}

impl Default for BookmarkManager {
    /// A manager with no bookmarks and no folders.
    fn default() -> (m: BookmarkManager)
        ensures
            m@.wf(),
            m@.bookmarks.len() == 0,
            m@.folders.len() == 0,
    {
        BookmarkManager::new()
    }
}

} // verus!

verus! {

/// Removing the bookmark of a URL leaves no bookmark of that URL and keeps
/// every other bookmark, and the folders.
pub proof fn lemma_remove_drops_url(b: BookmarkManagerView, text: Seq<char>)
    ensures
        ({
            let r = b.bookmarks.filter(other_url_pred(text));
            &&& forall|i: int| 0 <= i < r.len() ==> (#[trigger] r[i]).url.text != text
            &&& forall|x: BookmarkView| #[trigger] r.contains(x) <==> b.bookmarks.contains(x) && x.url.text != text
            &&& r.len() <= b.bookmarks.len()
        }),
{
    let r = b.bookmarks.filter(other_url_pred(text));
    crate::seqs::lemma_filter_membership(b.bookmarks, other_url_pred(text));
    b.bookmarks.lemma_filter_len(other_url_pred(text));
    assert forall|i: int| 0 <= i < r.len() implies (#[trigger] r[i]).url.text != text by {
        assert(r.contains(r[i]));
    }
}

/// Listing a folder gives the bookmarks in that folder; listing with no
/// folder gives every bookmark; the bookmark bar shows the bookmarks that
/// are in no folder.
pub proof fn lemma_list_and_bar(b: BookmarkManagerView, folder: Seq<char>)
    ensures
        forall|x: BookmarkView| #[trigger] b.bookmarks.filter(folder_pred(Some(folder))).contains(x)
            <==> b.bookmarks.contains(x) && x.folder == Some(folder),
        b.bookmarks.filter(folder_pred(None)) == b.bookmarks,
        forall|x: BookmarkView| #[trigger] b.bookmarks.filter(root_pred()).contains(x) <==> b.bookmarks.contains(x)
            && x.folder is None,
{
    crate::seqs::lemma_filter_membership(b.bookmarks, folder_pred(Some(folder)));
    crate::seqs::lemma_filter_membership(b.bookmarks, root_pred());
    crate::seqs::lemma_filter_all(b.bookmarks, folder_pred(None));
}

/// Removing a folder forgets its path, keeps the other folders, and moves
/// its bookmarks to the root while every other bookmark stays as it was,
/// in the same order.
pub proof fn lemma_folder_removed(b: BookmarkManagerView, path: Seq<char>)
    ensures
        ({
            let r = b.folder_removed(path);
            &&& !r.has_folder(path)
            &&& forall|p: Seq<char>| p != path ==> (#[trigger] r.has_folder(p) <==> b.has_folder(p))
            &&& r.bookmarks.len() == b.bookmarks.len()
            &&& forall|i: int| 0 <= i < b.bookmarks.len() ==> #[trigger] r.bookmarks[i] == if b.bookmarks[i].folder
                == Some(path) {
                BookmarkView { folder: None, ..b.bookmarks[i] }
            } else {
                b.bookmarks[i]
            }
        }),
{
    let pred = |f: BookmarkFolderView| f.path != path;
    let r = b.folder_removed(path);
    assert(r.folders == b.folders.filter(pred));
    crate::seqs::lemma_filter_membership(b.folders, pred);
    if r.has_folder(path) {
        let k = choose|k: int| 0 <= k < r.folders.len() && r.folders[k].path == path;
        assert(r.folders.contains(r.folders[k]));
    }
    assert forall|p: Seq<char>| p != path implies (#[trigger] r.has_folder(p) <==> b.has_folder(p)) by {
        if r.has_folder(p) {
            let k = choose|k: int| 0 <= k < r.folders.len() && r.folders[k].path == p;
            assert(r.folders.contains(r.folders[k]));
        }
        if b.has_folder(p) {
            let k = choose|k: int| 0 <= k < b.folders.len() && b.folders[k].path == p;
            assert(b.folders.contains(b.folders[k]));
            assert(r.folders.contains(b.folders[k]));
            let j = choose|j: int| 0 <= j < r.folders.len() && r.folders[j] == b.folders[k];
            assert(r.folders[j].path == p);
        }
        if r.has_folder(p) {
            let k = choose|k: int| 0 <= k < r.folders.len() && r.folders[k].path == p;
            assert(b.folders.contains(r.folders[k]));
            let j = choose|j: int| 0 <= j < b.folders.len() && b.folders[j] == r.folders[k];
            assert(b.folders[j].path == p);
        }
    }
}

} // verus!
