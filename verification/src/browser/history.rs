//! Browsing history: recording visits, searching, ranking and clearing.

use vstd::prelude::*;

use crate::clock::{now_timestamp, utc_date, utc_date_of};
use crate::location::{Url, UrlView};
use crate::text::{chars_of, contains_ignoring_case, contains_lowered, contains_seq, lowercase, str_eq, to_lower};

verus! {

/// How many entries a history keeps.
pub const MAX_HISTORY_ENTRIES: usize = 10000;

/// How many suggestions autocompletion offers at most.
pub const MAX_AUTOCOMPLETE: usize = 10;

/// A single browsing history entry.
pub struct HistoryEntry {
    /// Page title at time of visit.
    pub title: String,
    /// URL visited.
    pub url: Url,
    /// Unix timestamp of the visit.
    pub timestamp: i64,
    /// Number of times this URL has been visited.
    pub visit_count: u32,
}

/// The model of a history entry.
pub struct HistoryEntryView {
    pub title: Seq<char>,
    pub url: UrlView,
    pub timestamp: i64,
    pub visit_count: u32,
}

impl View for HistoryEntry {
    type V = HistoryEntryView;

    open spec fn view(&self) -> HistoryEntryView {
        HistoryEntryView {
            title: self.title@,
            url: self.url@,
            timestamp: self.timestamp,
            visit_count: self.visit_count,
        }
    }
}

/// The views of a sequence of entries.
pub open spec fn entry_views(s: Seq<HistoryEntry>) -> Seq<HistoryEntryView> {
    s.map_values(|e: HistoryEntry| e@)
}

/// The views of a sequence of borrowed entries.
pub open spec fn entry_ref_views(s: Seq<&HistoryEntry>) -> Seq<HistoryEntryView> {
    s.map_values(|e: &HistoryEntry| e@)
}

/// The model of a history: entries most recent first.
pub struct HistoryView {
    pub entries: Seq<HistoryEntryView>,
    pub max_entries: usize,
}

/// Position of the entry for the URL with serialization `text`, or -1.
pub open spec fn url_position(entries: Seq<HistoryEntryView>, text: Seq<char>) -> int {
    if exists|i: int| 0 <= i < entries.len() && entries[i].url.text == text {
        choose|i: int| 0 <= i < entries.len() && entries[i].url.text == text
    } else {
        -1
    }
}

/// The key an entry is known by: the serialization of its URL.
pub open spec fn url_key() -> spec_fn(HistoryEntryView) -> Seq<char> {
    |e: HistoryEntryView| e.url.text
}

/// No URL occurs twice.
pub open spec fn urls_unique(entries: Seq<HistoryEntryView>) -> bool {
    crate::seqs::unique_by(entries, url_key())
}

/// An entry matches a search: its title or URL contains the query, ignoring
/// case.
pub open spec fn matches_query(e: HistoryEntryView, query: Seq<char>) -> bool {
    contains_seq(lowercase(e.title), lowercase(query)) || contains_seq(
        lowercase(e.url.text),
        lowercase(query),
    )
}

/// An entry matches an autocompletion prefix: its URL or title contains it,
/// ignoring case.
pub open spec fn matches_prefix(e: HistoryEntryView, prefix: Seq<char>) -> bool {
    contains_seq(lowercase(e.url.text), lowercase(prefix)) || contains_seq(
        lowercase(e.title),
        lowercase(prefix),
    )
}

/// The search predicate for `query`.
pub open spec fn query_pred(query: Seq<char>) -> spec_fn(HistoryEntryView) -> bool {
    |e: HistoryEntryView| matches_query(e, query)
}

/// The autocompletion predicate for `prefix`.
pub open spec fn prefix_pred(prefix: Seq<char>) -> spec_fn(HistoryEntryView) -> bool {
    |e: HistoryEntryView| matches_prefix(e, prefix)
}

/// The predicate of entries visited on the UTC date `date`.
pub open spec fn date_pred(date: Seq<char>) -> spec_fn(HistoryEntryView) -> bool {
    |e: HistoryEntryView| utc_date_of(e.timestamp) == Some(date)
}

/// How many entries of `s` have at least `c` visits.
pub open spec fn count_at_least(s: Seq<HistoryEntryView>, c: u32) -> nat
    decreases s.len(),
{
    if s.len() == 0 {
        0
    } else {
        count_at_least(s.drop_last(), c) + if s.last().visit_count >= c {
            1nat
        } else {
            0nat
        }
    }
}

/// `s` ordered by visit count, most visited first, keeping the order of
/// entries with equal counts (the stable sort that `sort_by` performs): each
/// entry in turn goes after every earlier one with at least as many visits.
pub open spec fn sorted_by_visits(s: Seq<HistoryEntryView>) -> Seq<HistoryEntryView>
    decreases s.len(),
{
    if s.len() == 0 {
        s
    } else {
        let r = sorted_by_visits(s.drop_last());
        r.insert(count_at_least(r, s.last().visit_count) as int, s.last())
    }
}

/// The first `n` elements of `s` (all of them when there are fewer).
pub open spec fn first_n<A>(s: Seq<A>, n: int) -> Seq<A> {
    if n < s.len() {
        s.take(n)
    } else {
        s
    }
}

impl HistoryView {
    /// The size bound holds and no URL occurs twice.
    pub open spec fn wf(self) -> bool {
        &&& self.max_entries == MAX_HISTORY_ENTRIES
        &&& self.entries.len() <= self.max_entries
        &&& urls_unique(self.entries)
    }

    /// Whether a visit to the URL with serialization `text` can be counted
    /// (its count is not at the top of the `u32` range).
    pub open spec fn can_count_visit(self, text: Seq<char>) -> bool {
        forall|i: int|
            0 <= i < self.entries.len() && self.entries[i].url.text == text
                ==> self.entries[i].visit_count < u32::MAX
    }

    /// The history after a visit to `url` titled `title` at time `t`: the
    /// URL's entry (if any) is taken out, updated with the title and time and
    /// one more visit, and put first; a new URL gets a fresh entry first. The
    /// oldest entries beyond the size bound are dropped.
    pub open spec fn recorded(self, title: Seq<char>, url: UrlView, t: i64) -> HistoryView {
        let pos = url_position(self.entries, url.text);
        let updated = if pos >= 0 {
            let e = self.entries[pos];
            seq![
                HistoryEntryView {
                    title,
                    url: e.url,
                    timestamp: t,
                    visit_count: (e.visit_count + 1) as u32,
                },
            ] + self.entries.remove(pos)
        } else {
            seq![HistoryEntryView { title, url, timestamp: t, visit_count: 1 }] + self.entries
        };
        HistoryView { entries: first_n(updated, self.max_entries as int), ..self }
    }
}

/// Manages browsing history: recording visits, searching, clearing.
pub struct HistoryManager {
    entries: Vec<HistoryEntry>,
    max_entries: usize,
}

impl View for HistoryManager {
    type V = HistoryView;

    closed spec fn view(&self) -> HistoryView {
        HistoryView { entries: entry_views(self.entries@), max_entries: self.max_entries }
    }
}

impl HistoryManager {
    /// Create a new empty history manager.
    pub fn new() -> (h: HistoryManager)
        ensures
            h@.wf(),
            h@.entries.len() == 0,
    {
        let h = HistoryManager { entries: Vec::new(), max_entries: MAX_HISTORY_ENTRIES };
        proof {
            assert(entry_views(h.entries@) =~= Seq::<HistoryEntryView>::empty());
        }
        h
    }

    /// The position of the entry for `url`.
    fn position(&self, url: &Url) -> (res: Option<usize>)
        requires
            self@.wf(),
        ensures
            match res {
                Some(i) => i < self@.entries.len() && url_position(self@.entries, url@.text) == i,
                None => url_position(self@.entries, url@.text) == -1,
            },
    {
        let mut i: usize = 0;
        while i < self.entries.len()
            invariant
                self@.wf(),
                i <= self@.entries.len(),
                forall|j: int| 0 <= j < i ==> self@.entries[j].url.text != url@.text,
            decreases self@.entries.len() - i,
        {
            if self.entries[i].url.same_as(url) {
                proof {
                    assert(self@.entries[i as int].url.text == url@.text);
                    let k = choose|k: int|
                        0 <= k < self@.entries.len() && self@.entries[k].url.text == url@.text;
                    assert(k == i);
                }
                return Some(i);
            }
            i = i + 1;
        }
        None
    }

    /// Whether a visit to `url` can be counted.
    pub fn can_record_visit(&self, url: &Url) -> (res: bool)
        requires
            self@.wf(),
        ensures
            res == self@.can_count_visit(url@.text),
    {
        match self.position(url) {
            Some(p) => {
                let ok = self.entries[p].visit_count < u32::MAX;
                proof {
                    if ok {
                        assert forall|i: int|
                            0 <= i < self@.entries.len() && self@.entries[i].url.text
                                == url@.text implies self@.entries[i].visit_count < u32::MAX by {
                            if i != p {
                                assert(self@.entries[i].url.text != self@.entries[p as int].url.text);
                            }
                        }
                    }
                }
                ok
            },
            None => true,
        }
    }

    /// Record a visit to `url` at time `timestamp`: a URL seen before has its
    /// count raised and moves to the top; a new URL is added at the top.
    pub fn record_visit_at(&mut self, title: &str, url: Url, timestamp: i64)
        requires
            old(self)@.wf(),
            old(self)@.can_count_visit(url@.text),
        ensures
            final(self)@ == old(self)@.recorded(title@, url@, timestamp),
            final(self)@.wf(),
    {
        let ghost old_entries = self@.entries;
        let title_owned = title.to_owned();
        match self.position(&url) {
            Some(pos) => {
                let mut entry = self.entries.remove(pos);
                entry.title = title_owned;
                entry.timestamp = timestamp;
                entry.visit_count = entry.visit_count + 1;
                self.entries.insert(0, entry);
            },
            None => {
                self.entries.insert(
                    0,
                    HistoryEntry { title: title_owned, url, timestamp, visit_count: 1 },
                );
            },
        }
        let ghost before_truncate = entry_views(self.entries@);
        if self.entries.len() > self.max_entries {
            self.entries.truncate(self.max_entries);
        }
        proof {
            let pos = url_position(old_entries, url@.text);
            let r = old(self)@.recorded(title@, url@, timestamp);
            if pos >= 0 {
                assert(before_truncate =~= seq![
                    HistoryEntryView {
                        title: title@,
                        url: old_entries[pos].url,
                        timestamp,
                        visit_count: (old_entries[pos].visit_count + 1) as u32,
                    },
                ] + old_entries.remove(pos));
            } else {
                assert(before_truncate =~= seq![
                    HistoryEntryView { title: title@, url: url@, timestamp, visit_count: 1 },
                ] + old_entries);
            }
            assert(entry_views(self.entries@) =~= r.entries);
            lemma_recorded_unique(old(self)@, title@, url@, timestamp);
        }
    }

    /// Record a page visit now: a URL seen before has its count raised and
    /// moves to the top; a new URL is added at the top.
    pub fn record_visit(&mut self, title: &str, url: Url)
        requires
            old(self)@.wf(),
            old(self)@.can_count_visit(url@.text),
        ensures
            final(self)@ == old(self)@.recorded(title@, url@, final(self)@.entries[0].timestamp),
            final(self)@.wf(),
    {
        let now = now_timestamp();
        self.record_visit_at(title, url, now);
        proof {
            lemma_recorded_first(old(self)@, title@, url@, now);
        }
    }

    /// Entries whose title or URL contains `query`, ignoring case, most
    /// recent first.
    pub fn search(&self, query: &str) -> (res: Vec<&HistoryEntry>)
        ensures
            entry_ref_views(res@) == self@.entries.filter(query_pred(query@)),
            query@.len() == 0 ==> entry_ref_views(res@) == self@.entries,
    {
        let lowered = to_lower(query);
        proof {
            if query@.len() == 0 {
                assert(lowercase(query@) =~= Seq::<char>::empty());
                assert forall|i: int| 0 <= i < self@.entries.len() implies #[trigger] query_pred(query@)(
                    self@.entries[i],
                ) by {
                    let e = self@.entries[i];
                    assert(lowercase(e.title).subrange(0, 0) =~= lowercase(query@));
                    assert(crate::text::occurs_at(lowercase(e.title), lowercase(query@), 0));
                }
                crate::seqs::lemma_filter_all(self@.entries, query_pred(query@));
            }
        }
        let q = chars_of(lowered.as_str());
        let mut out: Vec<&HistoryEntry> = Vec::new();
        let mut i: usize = 0;
        while i < self.entries.len()
            invariant
                i <= self@.entries.len(),
                q@ == lowercase(query@),
                entry_ref_views(out@) == self@.entries.take(i as int).filter(
                    query_pred(query@),
                ),
            decreases self@.entries.len() - i,
        {
            let e = &self.entries[i];
            let hit = contains_lowered(e.title.as_str(), &q) || contains_lowered(e.url.as_str(), &q);
            proof {
                reveal(Seq::filter);
                assert(self@.entries.take(i + 1).drop_last() =~= self@.entries.take(i as int));
                assert(self@.entries.take(i + 1).last() == e@);
            }
            if hit {
                out.push(e);
            }
            proof {
                reveal(Seq::filter);
                assert(entry_ref_views(out@) =~= self@.entries.take(i + 1).filter(
                    query_pred(query@),
                ));
            }
            i = i + 1;
        }
        proof {
            assert(self@.entries.take(self@.entries.len() as int) =~= self@.entries);
        }
        out
    }

    /// The `count` most recent entries (all of them when there are fewer).
    pub fn recent(&self, count: usize) -> (res: &[HistoryEntry])
        ensures
            entry_views(res@) == first_n(self@.entries, count as int),
    {
        let end = if count < self.entries.len() {
            count
        } else {
            self.entries.len()
        };
        let res = vstd::slice::slice_subrange(self.entries.as_slice(), 0, end);
        proof {
            assert(entry_views(res@) =~= first_n(self@.entries, count as int));
        }
        res
    }

    /// Entries visited on the given UTC date (`YYYY-MM-DD`), most recent
    /// first.
    pub fn entries_for_date(&self, date: &str) -> (res: Vec<&HistoryEntry>)
        ensures
            entry_ref_views(res@) == self@.entries.filter(
                date_pred(date@),
            ),
    {
        let mut out: Vec<&HistoryEntry> = Vec::new();
        let mut i: usize = 0;
        while i < self.entries.len()
            invariant
                i <= self@.entries.len(),
                entry_ref_views(out@) == self@.entries.take(i as int).filter(
                    date_pred(date@),
                ),
            decreases self@.entries.len() - i,
        {
            let e = &self.entries[i];
            let hit = match utc_date(e.timestamp) {
                Some(d) => str_eq(d.as_str(), date),
                None => false,
            };
            proof {
                reveal(Seq::filter);
                assert(self@.entries.take(i + 1).drop_last() =~= self@.entries.take(i as int));
                assert(self@.entries.take(i + 1).last() == e@);
            }
            if hit {
                out.push(e);
            }
            proof {
                reveal(Seq::filter);
                assert(entry_ref_views(out@) =~= self@.entries.take(i + 1).filter(
                    date_pred(date@),
                ));
            }
            i = i + 1;
        }
        proof {
            assert(self@.entries.take(self@.entries.len() as int) =~= self@.entries);
        }
        out
    }

    /// The `count` most visited entries, most visited first (entries with
    /// equal counts in history order).
    pub fn most_visited(&self, count: usize) -> (res: Vec<&HistoryEntry>)
        ensures
            entry_ref_views(res@) == first_n(sorted_by_visits(self@.entries), count as int),
    {
        let mut all: Vec<&HistoryEntry> = Vec::new();
        let mut i: usize = 0;
        while i < self.entries.len()
            invariant
                i <= self@.entries.len(),
                entry_ref_views(all@) == self@.entries.take(i as int),
            decreases self@.entries.len() - i,
        {
            let r = &self.entries[i];
            let ghost prev = all@;
            all.push(r);
            proof {
                assert(all@ == prev.push(r));
                assert(entry_ref_views(all@) =~= entry_ref_views(prev).push(r@));
                assert(self@.entries.take(i + 1) =~= self@.entries.take(i as int).push(self@.entries[i as int]));
                assert(self@.entries[i as int] == r@);
                assert(entry_ref_views(all@).last() == r@);
                assert(entry_ref_views(all@) =~= self@.entries.take(i + 1));
            }
            i = i + 1;
        }
        proof {
            assert(self@.entries.take(self@.entries.len() as int) =~= self@.entries);
        }
        let mut sorted = sort_by_visits(&all);
        if count < sorted.len() {
            sorted.truncate(count);
        }
        proof {
            assert(entry_ref_views(sorted@) =~= first_n(sorted_by_visits(self@.entries), count as int));
        }
        sorted
    }

    /// Clear all history.
    pub fn clear(&mut self)
        requires
            old(self)@.wf(),
        ensures
            final(self)@.entries.len() == 0,
            final(self)@.wf(),
    {
        self.entries.clear();
        proof {
            assert(entry_views(self.entries@) =~= Seq::<HistoryEntryView>::empty());
        }
    }

    /// Keep only the entries at or after `timestamp`.
    pub fn clear_before(&mut self, timestamp: i64)
        requires
            old(self)@.wf(),
        ensures
            final(self)@.entries == old(self)@.entries.filter(
                |e: HistoryEntryView| e.timestamp >= timestamp,
            ),
            final(self)@.wf(),
    {
        let ghost pred = |e: HistoryEntryView| e.timestamp >= timestamp;
        let ghost all = self@.entries;
        let ghost mut j: int = 0;
        let mut i: usize = 0;
        while i < self.entries.len()
            invariant
                0 <= j <= all.len(),
                self@.max_entries == old(self)@.max_entries,
                self@.entries == all.take(j).filter(pred) + all.skip(j),
                i == all.take(j).filter(pred).len(),
                all == old(self)@.entries,
                pred == (|e: HistoryEntryView| e.timestamp >= timestamp),
            decreases self@.entries.len() - i,
        {
            proof {
                reveal(Seq::filter);
                assert(all.take(j + 1).drop_last() =~= all.take(j));
                assert(all.take(j + 1).last() == all[j]);
                assert(self@.entries[i as int] == all[j]);
            }
            let ghost before = self@.entries;
            let ghost kept = all.take(j).filter(pred);
            proof {
                assert(all.skip(j) =~= seq![all[j]] + all.skip(j + 1));
                assert(before =~= kept + seq![all[j]] + all.skip(j + 1));
            }
            if self.entries[i].timestamp >= timestamp {
                proof {
                    assert(pred(all[j]));
                    assert(all.take(j + 1).filter(pred) == kept.push(all[j]));
                    assert(self@.entries =~= all.take(j + 1).filter(pred) + all.skip(j + 1));
                }
                i = i + 1;
            } else {
                self.entries.remove(i);
                proof {
                    assert(!pred(all[j]));
                    assert(all.take(j + 1).filter(pred) == kept);
                    assert(entry_views(self.entries@) =~= before.remove(i as int));
                    assert(self@.entries =~= all.take(j + 1).filter(pred) + all.skip(j + 1));
                }
            }
            proof {
                j = j + 1;
            }
        }
        proof {
            assert(all.skip(j) =~= Seq::<HistoryEntryView>::empty()) by {
                assert(self@.entries.len() == i);
            }
            assert(all.take(j) =~= all);
            assert(self@.entries =~= all.filter(pred));
            lemma_filter_keeps_wf(old(self)@, pred);
        }
    }

    /// Remove the entry for `url`.
    pub fn remove_url(&mut self, url: &Url)
        requires
            old(self)@.wf(),
        ensures
            final(self)@.entries == old(self)@.entries.filter(
                |e: HistoryEntryView| e.url.text != url@.text,
            ),
            final(self)@.wf(),
    {
        let ghost pred = |e: HistoryEntryView| e.url.text != url@.text;
        let ghost all = self@.entries;
        let ghost mut j: int = 0;
        let mut i: usize = 0;
        while i < self.entries.len()
            invariant
                0 <= j <= all.len(),
                self@.max_entries == old(self)@.max_entries,
                self@.entries == all.take(j).filter(pred) + all.skip(j),
                i == all.take(j).filter(pred).len(),
                all == old(self)@.entries,
                pred == (|e: HistoryEntryView| e.url.text != url@.text),
            decreases self@.entries.len() - i,
        {
            proof {
                reveal(Seq::filter);
                assert(all.take(j + 1).drop_last() =~= all.take(j));
                assert(all.take(j + 1).last() == all[j]);
                assert(self@.entries[i as int] == all[j]);
            }
            let ghost before = self@.entries;
            let ghost kept = all.take(j).filter(pred);
            proof {
                assert(all.skip(j) =~= seq![all[j]] + all.skip(j + 1));
                assert(before =~= kept + seq![all[j]] + all.skip(j + 1));
            }
            if !self.entries[i].url.same_as(url) {
                proof {
                    assert(pred(all[j]));
                    assert(all.take(j + 1).filter(pred) == kept.push(all[j]));
                    assert(self@.entries =~= all.take(j + 1).filter(pred) + all.skip(j + 1));
                }
                i = i + 1;
            } else {
                self.entries.remove(i);
                proof {
                    assert(!pred(all[j]));
                    assert(all.take(j + 1).filter(pred) == kept);
                    assert(entry_views(self.entries@) =~= before.remove(i as int));
                    assert(self@.entries =~= all.take(j + 1).filter(pred) + all.skip(j + 1));
                }
            }
            proof {
                j = j + 1;
            }
        }
        proof {
            assert(all.skip(j) =~= Seq::<HistoryEntryView>::empty()) by {
                assert(self@.entries.len() == i);
            }
            assert(all.take(j) =~= all);
            assert(self@.entries =~= all.filter(pred));
            lemma_filter_keeps_wf(old(self)@, pred);
        }
    }

    /// Suggestions for the address bar: entries whose URL or title contains
    /// `prefix` (ignoring case), most visited first, at most ten.
    pub fn autocomplete(&self, prefix: &str) -> (res: Vec<&HistoryEntry>)
        ensures
            entry_ref_views(res@) == first_n(
                sorted_by_visits(
                    self@.entries.filter(prefix_pred(prefix@)),
                ),
                MAX_AUTOCOMPLETE as int,
            ),
    {
        let lowered = to_lower(prefix);
        let q = chars_of(lowered.as_str());
        let mut matches: Vec<&HistoryEntry> = Vec::new();
        let mut i: usize = 0;
        while i < self.entries.len()
            invariant
                i <= self@.entries.len(),
                q@ == lowercase(prefix@),
                entry_ref_views(matches@) == self@.entries.take(i as int).filter(
                    prefix_pred(prefix@),
                ),
            decreases self@.entries.len() - i,
        {
            let e = &self.entries[i];
            let hit = contains_lowered(e.url.as_str(), &q) || contains_lowered(e.title.as_str(), &q);
            proof {
                reveal(Seq::filter);
                assert(self@.entries.take(i + 1).drop_last() =~= self@.entries.take(i as int));
                assert(self@.entries.take(i + 1).last() == e@);
            }
            if hit {
                matches.push(e);
            }
            proof {
                reveal(Seq::filter);
                assert(entry_ref_views(matches@) =~= self@.entries.take(i + 1).filter(
                    prefix_pred(prefix@),
                ));
            }
            i = i + 1;
        }
        proof {
            assert(self@.entries.take(self@.entries.len() as int) =~= self@.entries);
        }
        let mut sorted = sort_by_visits(&matches);
        if MAX_AUTOCOMPLETE < sorted.len() {
            sorted.truncate(MAX_AUTOCOMPLETE);
        }
        sorted
    }

    /// Total number of history entries.
    pub fn len(&self) -> (n: usize)
        ensures
            n == self@.entries.len(),
    {
        self.entries.len()
    }

    /// Whether history is empty.
    pub fn is_empty(&self) -> (b: bool)
        ensures
            b == (self@.entries.len() == 0),
    {
        self.entries.len() == 0
    }

    /// All entries, most recent first.
    pub fn entries(&self) -> (res: &[HistoryEntry])
        ensures
            entry_views(res@) == self@.entries,
    {
        self.entries.as_slice()
    }
}

/// How many of the first `n` entries have at least `c` visits.
fn count_visits_at_least(v: &Vec<&HistoryEntry>, c: u32) -> (k: usize)
    ensures
        k == count_at_least(entry_ref_views(v@), c),
{
    let mut k: usize = 0;
    let mut i: usize = 0;
    while i < v.len()
        invariant
            i <= v@.len(),
            k <= i,
            k == count_at_least(entry_ref_views(v@).take(i as int), c),
        decreases v@.len() - i,
    {
        proof {
            assert(entry_ref_views(v@).take(i + 1).drop_last() =~= entry_ref_views(v@).take(i as int));
        }
        if v[i].visit_count >= c {
            k = k + 1;
        }
        i = i + 1;
    }
    proof {
        assert(entry_ref_views(v@).take(v@.len() as int) =~= entry_ref_views(v@));
    }
    k
}

/// Orders entries by visit count, most visited first, keeping the order of
/// entries with equal counts.
fn sort_by_visits<'a>(v: &Vec<&'a HistoryEntry>) -> (res: Vec<&'a HistoryEntry>)
    ensures
        entry_ref_views(res@) == sorted_by_visits(entry_ref_views(v@)),
{
    let mut out: Vec<&HistoryEntry> = Vec::new();
    let mut i: usize = 0;
    while i < v.len()
        invariant
            i <= v@.len(),
            out@.len() == i,
            entry_ref_views(out@) == sorted_by_visits(entry_ref_views(v@).take(i as int)),
        decreases v@.len() - i,
    {
        let e = v[i];
        let k = count_visits_at_least(&out, e.visit_count);
        proof {
            lemma_count_at_least_le(entry_ref_views(out@), e.visit_count);
        }
        out.insert(k, e);
        proof {
            let s = entry_ref_views(v@).take(i + 1);
            assert(s.drop_last() =~= entry_ref_views(v@).take(i as int));
            assert(s.last() == e@);
            assert(entry_ref_views(out@) =~= sorted_by_visits(s));
        }
        i = i + 1;
    }
    proof {
        assert(entry_ref_views(v@).take(v@.len() as int) =~= entry_ref_views(v@));
    }
    out
}

/// The count of entries with at least `c` visits is at most the number of
/// entries.
pub proof fn lemma_count_at_least_le(s: Seq<HistoryEntryView>, c: u32)
    ensures
        count_at_least(s, c) <= s.len(),
    decreases s.len(),
{
    if s.len() > 0 {
        lemma_count_at_least_le(s.drop_last(), c);
    }
}

/// Entries ordered most visited first.
pub open spec fn by_visits_descending(s: Seq<HistoryEntryView>) -> bool {
    forall|i: int, j: int| 0 <= i < j < s.len() ==> #[trigger] s[i].visit_count >= #[trigger] s[j].visit_count
}

/// In entries ordered most visited first, those with at least `c` visits
/// come first.
proof fn lemma_count_at_least_prefix(r: Seq<HistoryEntryView>, c: u32)
    requires
        by_visits_descending(r),
    ensures
        forall|i: int| 0 <= i < count_at_least(r, c) ==> #[trigger] r[i].visit_count >= c,
        forall|i: int| count_at_least(r, c) <= i < r.len() ==> #[trigger] r[i].visit_count < c,
    decreases r.len(),
{
    if r.len() > 0 {
        let p = r.drop_last();
        assert(by_visits_descending(p)) by {
            assert forall|i: int, j: int| 0 <= i < j < p.len() implies #[trigger] p[i].visit_count
                >= #[trigger] p[j].visit_count by {
                assert(p[i] == r[i] && p[j] == r[j]);
            }
        }
        lemma_count_at_least_prefix(p, c);
        lemma_count_at_least_le(p, c);
        if r.last().visit_count >= c {
            if count_at_least(p, c) < p.len() {
                let k = count_at_least(p, c) as int;
                assert(p[k].visit_count < c);
                assert(r[k].visit_count >= r[r.len() - 1].visit_count);
            }
        }
        assert forall|i: int| 0 <= i < count_at_least(r, c) implies #[trigger] r[i].visit_count >= c by {
            if i < p.len() {
                assert(r[i] == p[i]);
            }
        }
        assert forall|i: int| count_at_least(r, c) <= i < r.len() implies #[trigger] r[i].visit_count < c by {
            if i < p.len() {
                assert(r[i] == p[i]);
            }
        }
    }
}

/// Ordering by visit count puts the most visited entries first and keeps
/// exactly the entries it was given.
pub proof fn lemma_sorted_by_visits_orders(s: Seq<HistoryEntryView>)
    ensures
        by_visits_descending(sorted_by_visits(s)),
        sorted_by_visits(s).to_multiset() == s.to_multiset(),
    decreases s.len(),
{
    if s.len() > 0 {
        let x = s.last();
        let r = sorted_by_visits(s.drop_last());
        lemma_sorted_by_visits_orders(s.drop_last());
        let c = x.visit_count;
        lemma_count_at_least_prefix(r, c);
        lemma_count_at_least_le(r, c);
        let k = count_at_least(r, c) as int;
        let t = r.insert(k, x);
        assert(t == sorted_by_visits(s));
        assert forall|i: int, j: int| 0 <= i < j < t.len() implies #[trigger] t[i].visit_count
            >= #[trigger] t[j].visit_count by {
            if j < k {
                assert(t[i] == r[i] && t[j] == r[j]);
            } else if j == k {
                assert(t[i] == r[i]);
            } else if i < k {
                assert(t[i] == r[i] && t[j] == r[j - 1]);
            } else if i == k {
                assert(t[j] == r[j - 1]);
            } else {
                assert(t[i] == r[i - 1] && t[j] == r[j - 1]);
            }
        }
        vstd::seq_lib::to_multiset_insert(r, k, x);
        vstd::seq_lib::to_multiset_build(s.drop_last(), x);
        assert(s.drop_last().push(x) =~= s);
    }
}

/// The predicate of entries visited exactly `c` times.
pub open spec fn visits_pred(c: u32) -> spec_fn(HistoryEntryView) -> bool {
    |e: HistoryEntryView| e.visit_count == c
}

/// Ordering by visit count is stable: the entries with any one visit count
/// keep the order they had.
pub proof fn lemma_sorted_by_visits_stable(s: Seq<HistoryEntryView>, c: u32)
    ensures
        sorted_by_visits(s).filter(visits_pred(c)) == s.filter(visits_pred(c)),
    decreases s.len(),
{
    reveal(Seq::filter);
    if s.len() > 0 {
        let p = visits_pred(c);
        let x = s.last();
        let d = s.drop_last();
        let r = sorted_by_visits(d);
        lemma_sorted_by_visits_stable(d, c);
        lemma_sorted_by_visits_orders(d);
        lemma_count_at_least_prefix(r, x.visit_count);
        lemma_count_at_least_le(r, x.visit_count);
        let k = count_at_least(r, x.visit_count) as int;
        let front = r.take(k);
        let back = r.skip(k);
        assert(r =~= front + back);
        assert(r.insert(k, x) =~= front + seq![x] + back);
        Seq::filter_distributes_over_add(front, back, p);
        Seq::filter_distributes_over_add(front + seq![x], back, p);
        Seq::filter_distributes_over_add(front, seq![x], p);
        assert(seq![x].filter(p) == if p(x) { seq![x] } else { Seq::<HistoryEntryView>::empty() }) by {
            reveal(Seq::filter);
            let e = Seq::<HistoryEntryView>::empty();
            assert(e.filter(p) =~= e);
            assert(seq![x] =~= e.push(x));
            assert(e.push(x).drop_last() =~= e);
            assert(e.push(x).filter(p) == if p(x) { e.filter(p).push(x) } else { e.filter(p) });
            assert(e.push(x) =~= seq![x]);
        }
        assert(s.filter(p) == if p(x) { d.filter(p).push(x) } else { d.filter(p) });
        if p(x) {
            assert forall|i: int| 0 <= i < back.len() implies !p(#[trigger] back[i]) by {
                assert(back[i] == r[k + i]);
            }
            back.lemma_all_neg_filter_empty(p);
            assert(back.filter(p) =~= Seq::<HistoryEntryView>::empty());
            assert(front.filter(p) + seq![x] + back.filter(p) =~= r.filter(p).push(x));
        } else {
            assert(front.filter(p) + Seq::<HistoryEntryView>::empty() + back.filter(p) =~= r.filter(p));
        }
    }
}

/// What autocomplete and the most-visited list return from entries `s`:
/// the `n` most visited of them (all of them when there are fewer), each
/// taken at most as often as it occurs, most visited first; no entry left
/// out has more visits than the last one taken, and entries with equal
/// visit counts come in the order they had in `s`.
pub proof fn lemma_first_by_visits(s: Seq<HistoryEntryView>, n: int)
    requires
        n >= 0,
    ensures
        ({
            let f = first_n(sorted_by_visits(s), n);
            &&& by_visits_descending(f)
            &&& f.len() == if n < s.len() { n } else { s.len() as int }
            &&& f.to_multiset().subset_of(s.to_multiset())
            &&& forall|i: int| 0 <= i < f.len() ==> s.contains(#[trigger] f[i])
            &&& forall|x: HistoryEntryView|
                f.len() > 0 && #[trigger] s.to_multiset().count(x) > f.to_multiset().count(x)
                    ==> x.visit_count <= f.last().visit_count
            &&& forall|c: u32| #[trigger] f.filter(visits_pred(c)) == s.filter(visits_pred(c)).take(
                f.filter(visits_pred(c)).len() as int,
            )
        }),
{
    broadcast use vstd::multiset::group_multiset_axioms;
    lemma_sorted_by_visits_orders(s);
    let r = sorted_by_visits(s);
    let f = first_n(r, n);
    let g = r.skip(f.len() as int);
    assert(r.len() == s.len()) by {
        vstd::seq_lib::to_multiset_len(r);
        vstd::seq_lib::to_multiset_len(s);
    }
    assert(r =~= f + g);
    vstd::seq_lib::lemma_multiset_commutative(f, g);
    assert forall|i: int| 0 <= i < f.len() implies s.contains(#[trigger] f[i]) by {
        assert(f[i] == r[i]);
        vstd::seq_lib::to_multiset_contains(r, r[i]);
        vstd::seq_lib::to_multiset_contains(s, r[i]);
    }
    assert forall|i: int, j: int| 0 <= i < j < f.len() implies #[trigger] f[i].visit_count
        >= #[trigger] f[j].visit_count by {
        assert(f[i] == r[i] && f[j] == r[j]);
    }
    assert forall|x: HistoryEntryView|
        f.len() > 0 && #[trigger] s.to_multiset().count(x) > f.to_multiset().count(x) implies
        x.visit_count <= f.last().visit_count by {
        assert(g.to_multiset().count(x) > 0);
        vstd::seq_lib::to_multiset_contains(g, x);
        let j = choose|j: int| 0 <= j < g.len() && g[j] == x;
        assert(r[f.len() + j] == x);
        assert(r[f.len() - 1] == f.last());
    }
    assert forall|c: u32| #[trigger] f.filter(visits_pred(c)) == s.filter(visits_pred(c)).take(
        f.filter(visits_pred(c)).len() as int,
    ) by {
        lemma_sorted_by_visits_stable(s, c);
        Seq::filter_distributes_over_add(f, g, visits_pred(c));
        assert(s.filter(visits_pred(c)) =~= f.filter(visits_pred(c)) + g.filter(visits_pred(c)));
        assert(s.filter(visits_pred(c)).take(f.filter(visits_pred(c)).len() as int) =~= f.filter(visits_pred(c)));
    }
}

/// Taking the most visited of entries with distinct URLs takes no URL twice.
pub proof fn lemma_first_by_visits_distinct(s: Seq<HistoryEntryView>, n: int)
    requires
        n >= 0,
        urls_unique(s),
    ensures
        urls_unique(first_n(sorted_by_visits(s), n)),
{
    broadcast use vstd::multiset::group_multiset_axioms;
    lemma_first_by_visits(s, n);
    let f = first_n(sorted_by_visits(s), n);
    assert(s.no_duplicates()) by {
        assert forall|i: int, j: int| 0 <= i < s.len() && 0 <= j < s.len() && i != j implies s[i] != s[j] by {
            assert(url_key()(s[i]) != url_key()(s[j]));
        }
    }
    s.lemma_multiset_has_no_duplicates();
    assert forall|i: int, j: int|
        0 <= i < f.len() && 0 <= j < f.len() && i != j implies url_key()(f[i]) != url_key()(f[j]) by {
        if f[i].url.text == f[j].url.text {
            assert(s.contains(f[i]) && s.contains(f[j]));
            let a = choose|a: int| 0 <= a < s.len() && s[a] == f[i];
            let b = choose|b: int| 0 <= b < s.len() && s[b] == f[j];
            if a != b {
                assert(url_key()(s[a]) != url_key()(s[b]));
            }
            let e = f[i];
            let g = f.remove(i);
            vstd::seq_lib::to_multiset_remove(f, i);
            let k = if j < i { j } else { j - 1 };
            assert(g[k] == e);
            vstd::seq_lib::to_multiset_contains(g, e);
            vstd::seq_lib::to_multiset_contains(s, e);
            assert(f.to_multiset().count(e) >= 2);
            assert(s.to_multiset().count(e) == 1);
        }
    }
}

/// Autocompletion offers, of the entries whose URL or title contains the
/// prefix (ignoring case), the ten most visited (all of them when there are
/// fewer), each at most once, most visited first; no matching entry left out
/// has more visits than the last one offered, and matches with equal visit
/// counts keep their history order.
pub proof fn lemma_autocomplete_offers_top_matches(h: HistoryView, prefix: Seq<char>)
    requires
        h.wf(),
    ensures
        ({
            let m = h.entries.filter(prefix_pred(prefix));
            let f = first_n(sorted_by_visits(m), MAX_AUTOCOMPLETE as int);
            &&& f.len() == if (MAX_AUTOCOMPLETE as int) < m.len() { MAX_AUTOCOMPLETE as int } else { m.len() as int }
            &&& by_visits_descending(f)
            &&& urls_unique(f)
            &&& forall|i: int| 0 <= i < f.len() ==> h.entries.contains(#[trigger] f[i]) && matches_prefix(f[i], prefix)
            &&& forall|x: HistoryEntryView|
                f.len() > 0 && #[trigger] m.to_multiset().count(x) > f.to_multiset().count(x)
                    ==> x.visit_count <= f.last().visit_count
            &&& forall|c: u32| #[trigger] f.filter(visits_pred(c)) == m.filter(visits_pred(c)).take(
                f.filter(visits_pred(c)).len() as int,
            )
        }),
{
    let m = h.entries.filter(prefix_pred(prefix));
    crate::seqs::lemma_filter_unique(h.entries, url_key(), prefix_pred(prefix));
    crate::seqs::lemma_filter_membership(h.entries, prefix_pred(prefix));
    lemma_first_by_visits(m, MAX_AUTOCOMPLETE as int);
    lemma_first_by_visits_distinct(m, MAX_AUTOCOMPLETE as int);
    let f = first_n(sorted_by_visits(m), MAX_AUTOCOMPLETE as int);
    assert forall|i: int| 0 <= i < f.len() implies h.entries.contains(#[trigger] f[i]) && matches_prefix(f[i], prefix) by {
        assert(m.contains(f[i]));
        assert(prefix_pred(prefix)(f[i]));
    }
}

/// The most-visited list holds the `count` most visited entries (all of them
/// when there are fewer), each at most once, most visited first; no entry
/// left out has more visits than the last one listed, and entries with
/// equal visit counts keep their history order.
pub proof fn lemma_most_visited_top(h: HistoryView, count: int)
    requires
        h.wf(),
        count >= 0,
    ensures
        ({
            let f = first_n(sorted_by_visits(h.entries), count);
            &&& f.len() == if count < h.entries.len() { count } else { h.entries.len() as int }
            &&& by_visits_descending(f)
            &&& urls_unique(f)
            &&& forall|i: int| 0 <= i < f.len() ==> h.entries.contains(#[trigger] f[i])
            &&& forall|x: HistoryEntryView|
                f.len() > 0 && #[trigger] h.entries.to_multiset().count(x) > f.to_multiset().count(x)
                    ==> x.visit_count <= f.last().visit_count
            &&& forall|c: u32| #[trigger] f.filter(visits_pred(c)) == h.entries.filter(visits_pred(c)).take(
                f.filter(visits_pred(c)).len() as int,
            )
        }),
{
    lemma_first_by_visits(h.entries, count);
    lemma_first_by_visits_distinct(h.entries, count);
}

/// Searching the history finds exactly the entries whose title or whose URL
/// contains the query, ignoring case, in history order (most recent first).
pub proof fn lemma_search_finds_title_or_url(entries: Seq<HistoryEntryView>, query: Seq<char>)
    ensures
        forall|e: HistoryEntryView| #[trigger] entries.filter(query_pred(query)).contains(e) <==> (
            entries.contains(e) && (contains_ignoring_case(e.title, query) || contains_ignoring_case(
                e.url.text,
                query,
            ))),
        forall|i: int|
            0 <= i < entries.len() && contains_ignoring_case(#[trigger] entries[i].url.text, query)
                ==> entries.filter(query_pred(query)).contains(entries[i]),
        forall|i: int|
            0 <= i < entries.len() && contains_ignoring_case(#[trigger] entries[i].title, query)
                ==> entries.filter(query_pred(query)).contains(entries[i]),
        entries.filter(query_pred(query)).len() <= entries.len(),
{
    crate::seqs::lemma_filter_membership(entries, query_pred(query));
    entries.lemma_filter_len(query_pred(query));
    assert forall|i: int| 0 <= i < entries.len() && contains_ignoring_case(#[trigger] entries[i].url.text, query)
        implies entries.filter(query_pred(query)).contains(entries[i]) by {
        assert(entries.contains(entries[i]));
    }
    assert forall|i: int| 0 <= i < entries.len() && contains_ignoring_case(#[trigger] entries[i].title, query)
        implies entries.filter(query_pred(query)).contains(entries[i]) by {
        assert(entries.contains(entries[i]));
    }
}

/// The entries that autocompletion chooses from are exactly those whose URL
/// or whose title contains the typed prefix, ignoring case.
pub proof fn lemma_autocomplete_candidates(entries: Seq<HistoryEntryView>, prefix: Seq<char>)
    ensures
        forall|e: HistoryEntryView| #[trigger] entries.filter(prefix_pred(prefix)).contains(e) <==> (
            entries.contains(e) && (contains_ignoring_case(e.url.text, prefix) || contains_ignoring_case(
                e.title,
                prefix,
            ))),
{
    crate::seqs::lemma_filter_membership(entries, prefix_pred(prefix));
}

/// Keeping a subsequence of a well-formed history keeps it well-formed.
proof fn lemma_filter_keeps_wf(v: HistoryView, pred: spec_fn(HistoryEntryView) -> bool)
    requires
        v.wf(),
    ensures
        (HistoryView { entries: v.entries.filter(pred), ..v }).wf(),
{
    crate::seqs::lemma_filter_unique(v.entries, url_key(), pred);
}

/// Recording a visit keeps a history well-formed.
proof fn lemma_recorded_unique(v: HistoryView, title: Seq<char>, url: UrlView, t: i64)
    requires
        v.wf(),
    ensures
        v.recorded(title, url, t).wf(),
{
    let pos = url_position(v.entries, url.text);
    let r = v.recorded(title, url, t);
    if pos >= 0 {
        let e = v.entries[pos];
        let rest = v.entries.remove(pos);
        let updated = seq![
            HistoryEntryView { title, url: e.url, timestamp: t, visit_count: (e.visit_count + 1) as u32 },
        ] + rest;
        assert forall|i: int, j: int| 0 <= i < updated.len() && 0 <= j < updated.len() && i != j implies updated[i].url.text != updated[j].url.text by {
            if i > 0 && j > 0 {
                let a = if i - 1 < pos { i - 1 } else { i };
                let b = if j - 1 < pos { j - 1 } else { j };
                assert(updated[i] == v.entries[a]);
                assert(updated[j] == v.entries[b]);
            } else if i == 0 {
                let b = if j - 1 < pos { j - 1 } else { j };
                assert(updated[j] == v.entries[b]);
            } else {
                let a = if i - 1 < pos { i - 1 } else { i };
                assert(updated[i] == v.entries[a]);
            }
        }
    } else {
        let updated = seq![HistoryEntryView { title, url, timestamp: t, visit_count: 1 }] + v.entries;
        assert forall|i: int, j: int| 0 <= i < updated.len() && 0 <= j < updated.len() && i != j implies updated[i].url.text != updated[j].url.text by {
            if i > 0 && j > 0 {
                assert(updated[i] == v.entries[i - 1]);
                assert(updated[j] == v.entries[j - 1]);
            } else if i == 0 {
                assert(updated[j] == v.entries[j - 1]);
            } else {
                assert(updated[i] == v.entries[i - 1]);
            }
        }
    }
}

/// After recording a visit, the first entry is the visited URL, carrying the
/// time of the visit and one more visit than before (one, for a new URL).
pub proof fn lemma_recorded_first(v: HistoryView, title: Seq<char>, url: UrlView, t: i64)
    requires
        v.wf(),
    ensures
        v.recorded(title, url, t).entries.len() > 0,
        v.recorded(title, url, t).entries[0].url.text == url.text,
        v.recorded(title, url, t).entries[0].title == title,
        v.recorded(title, url, t).entries[0].timestamp == t,
        v.recorded(title, url, t).entries[0].visit_count == if url_position(v.entries, url.text) >= 0 {
            (v.entries[url_position(v.entries, url.text)].visit_count + 1) as u32
        } else {
            1u32
        },
{
}

impl Default for HistoryManager {
    /// An empty history.
    fn default() -> (h: HistoryManager)
        ensures
            h@.wf(),
            h@.entries.len() == 0,
    {
        HistoryManager::new()
    }
}

} // verus!

verus! {

/// Recording a visit keeps every URL once: the visited URL is first, every
/// later entry is an entry of the history before with another URL, the
/// history grows by one entry for a new URL (not at all for a known one)
/// until it reaches its bound, and the visit count of a known URL goes up
/// by one.
pub proof fn lemma_recorded_keeps_others(v: HistoryView, title: Seq<char>, url: UrlView, t: i64)
    requires
        v.wf(),
    ensures
        ({
            let r = v.recorded(title, url, t);
            let known = exists|i: int| 0 <= i < v.entries.len() && v.entries[i].url.text == url.text;
            &&& r.wf()
            &&& r.entries[0].url.text == url.text
            &&& r.entries[0].title == title
            &&& r.entries[0].timestamp == t
            &&& forall|i: int| 1 <= i < r.entries.len() ==> (#[trigger] r.entries[i]).url.text != url.text
                && v.entries.contains(r.entries[i])
            &&& r.entries.len() == if known {
                if v.entries.len() <= v.max_entries { v.entries.len() as int } else { v.max_entries as int }
            } else if v.entries.len() + 1 <= v.max_entries {
                v.entries.len() + 1int
            } else {
                v.max_entries as int
            }
            &&& known && v.can_count_visit(url.text) ==> forall|i: int|
                0 <= i < v.entries.len() && #[trigger] v.entries[i].url.text == url.text
                    ==> r.entries[0].visit_count == v.entries[i].visit_count + 1
            &&& !known ==> r.entries[0].visit_count == 1
        }),
{
    lemma_recorded_unique(v, title, url, t);
    lemma_recorded_first(v, title, url, t);
    let r = v.recorded(title, url, t);
    let pos = url_position(v.entries, url.text);
    assert forall|i: int| 1 <= i < r.entries.len() implies (#[trigger] r.entries[i]).url.text != url.text
        && v.entries.contains(r.entries[i]) by {
        assert(crate::seqs::unique_by(r.entries, url_key()));
        assert(url_key()(r.entries[i]) != url_key()(r.entries[0]));
        if pos >= 0 {
            let k = if i - 1 < pos { i - 1 } else { i };
            assert(r.entries[i] == v.entries[k]);
        } else {
            assert(r.entries[i] == v.entries[i - 1]);
        }
    }
    if pos >= 0 && v.can_count_visit(url.text) {
        assert(v.entries[pos].url.text == url.text);
        assert(v.entries[pos].visit_count < u32::MAX);
        assert forall|i: int|
            0 <= i < v.entries.len() && #[trigger] v.entries[i].url.text == url.text
                implies r.entries[0].visit_count == v.entries[i].visit_count + 1 by {
            if i != pos {
                assert(url_key()(v.entries[i]) != url_key()(v.entries[pos]));
            }
        }
    }
}

/// The recent entries are the first `count` entries of the history (all of
/// them when there are fewer), most recent first.
pub proof fn lemma_recent_is_prefix(entries: Seq<HistoryEntryView>, count: int)
    requires
        count >= 0,
    ensures
        first_n(entries, count).len() == if count < entries.len() { count } else { entries.len() as int },
        forall|i: int| 0 <= i < first_n(entries, count).len() ==> #[trigger] first_n(entries, count)[i] == entries[i],
{
}

/// The entries of a date are exactly those whose timestamp falls on that
/// UTC date; clearing before a time keeps exactly the entries from that
/// time on.
pub proof fn lemma_date_and_clear_filters(entries: Seq<HistoryEntryView>, date: Seq<char>, timestamp: i64)
    ensures
        forall|e: HistoryEntryView| #[trigger] entries.filter(date_pred(date)).contains(e) <==> entries.contains(e)
            && utc_date_of(e.timestamp) == Some(date),
        ({
            let kept = |x: HistoryEntryView| x.timestamp >= timestamp;
            forall|e: HistoryEntryView| #[trigger] entries.filter(kept).contains(e) <==> entries.contains(e)
                && e.timestamp >= timestamp
        }),
{
    crate::seqs::lemma_filter_membership(entries, date_pred(date));
    crate::seqs::lemma_filter_membership(entries, |x: HistoryEntryView| x.timestamp >= timestamp);
}

} // verus!
