//! The application state: the cached histories of every discovered
//! installation, the filter options, and the ordered pin registry whose
//! entries bypass the main-feed filter.

use vstd::prelude::*;

use crate::history::ReadError;
use crate::filter::spec_default_options;
use crate::filter::spec_visible;
use crate::filter::FilterOptions;
use crate::filter::FilterOptionsView;
use crate::filter::is_visible;
use crate::vscode::Entry;
use crate::vscode::EntryView;
use crate::vscode::VscodeEntries;
use crate::vscode::VscodeEntriesView;
use crate::vscode::VscodeInstances;

verus! {

/// The views of a sequence of (entry, installation) pairs.
pub open spec fn pair_views(s: Seq<(Entry, VscodeInstances)>) -> Seq<(EntryView, VscodeInstances)> {
    s.map(|i: int, p: (Entry, VscodeInstances)| (p.0@, p.1))
}

/// The views of a sequence of per-installation histories.
pub open spec fn cached_views(s: Seq<VscodeEntries>) -> Seq<VscodeEntriesView> {
    s.map(|i: int, v: VscodeEntries| v@)
}

/// A structurally equal entry is somewhere in the registry.
pub open spec fn spec_is_pinned(p: Seq<(EntryView, VscodeInstances)>, e: EntryView) -> bool {
    exists|i: int| 0 <= i < p.len() && #[trigger] p[i].0 == e
}

/// The registry invariant: no two pairs share a structurally equal entry.
pub open spec fn pin_registry_wf(p: Seq<(EntryView, VscodeInstances)>) -> bool {
    forall|i: int, j: int| 0 <= i < j < p.len() ==> #[trigger] p[i].0 != #[trigger] p[j].0
}

/// The visible part of one installation's history, in stored order: the
/// entries the filter lets through and the registry does not already pin.
pub open spec fn inst_feed(
    entries: Seq<EntryView>,
    inst: VscodeInstances,
    o: FilterOptionsView,
    p: Seq<(EntryView, VscodeInstances)>,
) -> Seq<(EntryView, VscodeInstances)>
    decreases entries.len(),
{
    if entries.len() == 0 {
        Seq::empty()
    } else {
        let tail = inst_feed(entries.drop_last(), inst, o, p);
        if spec_visible(entries.last(), inst, o) && !spec_is_pinned(p, entries.last()) {
            tail.push((entries.last(), inst))
        } else {
            tail
        }
    }
}

/// The whole main feed: each cached installation's visible entries, in the
/// order the cache holds them.
pub open spec fn feed_of(
    cached: Seq<VscodeEntriesView>,
    o: FilterOptionsView,
    p: Seq<(EntryView, VscodeInstances)>,
) -> Seq<(EntryView, VscodeInstances)>
    decreases cached.len(),
{
    if cached.len() == 0 {
        Seq::empty()
    } else {
        feed_of(cached.drop_last(), o, p) + inst_feed(
            cached.last().entry_list,
            cached.last().installation,
            o,
            p,
        )
    }
}

/// The top-level application state.
pub struct Toolbox {
    pub cached: Vec<VscodeEntries>,
    pub filter_options: FilterOptions,
    pub pinned: Vec<(Entry, VscodeInstances)>,
}

impl Default for Toolbox {
    fn default() -> (r: Toolbox)
        ensures
            r.cached@.len() == 0,
            r.pinned@.len() == 0,
            r.filter_options@ == spec_default_options(),
    {
        Toolbox {
            cached: Vec::new(),
            filter_options: Default::default(),
            pinned: Vec::new(),
        }
    }
}

impl Toolbox {
    /// Membership test by structural equality of entries.
    pub fn is_pinned(&self, entry: &Entry) -> (r: bool)
        ensures
            r == spec_is_pinned(pair_views(self.pinned@), entry@),
    {
        let n = self.pinned.len();
        let mut i: usize = 0;
        while i < n
            invariant
                n == self.pinned@.len(),
                0 <= i <= n,
                forall|k: int| 0 <= k < i ==> #[trigger] pair_views(self.pinned@)[k].0 != entry@,
            decreases n - i,
        {
            if self.pinned[i].0 == *entry {
                proof {
                    assert(pair_views(self.pinned@)[i as int].0 == entry@);
                }
                return true;
            }
            i += 1;
        }
        false
    }

    /// Inserts the pair at the front of the registry; a no-op when a
    /// structurally equal entry is already pinned, so pinning twice never
    /// creates a duplicate.
    pub fn pin(&mut self, entry: Entry, installation: VscodeInstances)
        requires
            pin_registry_wf(pair_views(old(self).pinned@)),
        ensures
            final(self).cached == old(self).cached,
            final(self).filter_options == old(self).filter_options,
            pin_registry_wf(pair_views(final(self).pinned@)),
            spec_is_pinned(pair_views(final(self).pinned@), entry@),
            spec_is_pinned(pair_views(old(self).pinned@), entry@) ==> final(self).pinned@ == old(
                self,
            ).pinned@,
            !spec_is_pinned(pair_views(old(self).pinned@), entry@) ==> pair_views(
                final(self).pinned@,
            ) == seq![(entry@, installation)] + pair_views(old(self).pinned@),
    {
        if self.is_pinned(&entry) {
            return ;
        }
        let ghost old_pinned = self.pinned@;
        self.pinned.insert(0, (entry, installation));
        proof {
            let new_views = pair_views(self.pinned@);
            let ghost e = self.pinned@[0].0@;
            assert(new_views =~= seq![(self.pinned@[0].0@, installation)] + pair_views(old_pinned));
            assert(new_views[0].0 == entry@);
            assert forall|i: int, j: int|
                0 <= i < j < new_views.len() implies #[trigger] new_views[i].0
                != #[trigger] new_views[j].0 by {
                if i == 0 {
                    assert(pair_views(old_pinned)[j - 1].0 != e);
                } else {
                    assert(pair_views(old_pinned)[i - 1].0 != pair_views(old_pinned)[j - 1].0);
                }
            }
        }
    }

    /// Removes the first pair whose entry is structurally equal; a no-op when
    /// none is. Under the registry invariant no equal entry remains pinned.
    pub fn unpin(&mut self, entry: &Entry)
        requires
            pin_registry_wf(pair_views(old(self).pinned@)),
        ensures
            final(self).cached == old(self).cached,
            final(self).filter_options == old(self).filter_options,
            pin_registry_wf(pair_views(final(self).pinned@)),
            !spec_is_pinned(pair_views(final(self).pinned@), entry@),
            !spec_is_pinned(pair_views(old(self).pinned@), entry@) ==> final(self).pinned@ == old(
                self,
            ).pinned@,
            spec_is_pinned(pair_views(old(self).pinned@), entry@) ==> exists|i: int|
                0 <= i < old(self).pinned@.len() && #[trigger] pair_views(old(self).pinned@)[i].0
                    == entry@ && pair_views(final(self).pinned@) == pair_views(
                    old(self).pinned@,
                ).remove(i),
    {
        let ghost old_views = pair_views(old(self).pinned@);
        let n = self.pinned.len();
        let mut i: usize = 0;
        while i < n
            invariant
                n == self.pinned@.len(),
                self.pinned@ == old(self).pinned@,
                self.cached == old(self).cached,
                self.filter_options == old(self).filter_options,
                old_views == pair_views(old(self).pinned@),
                pin_registry_wf(old_views),
                0 <= i <= n,
                forall|k: int| 0 <= k < i ==> #[trigger] pair_views(self.pinned@)[k].0 != entry@,
            decreases n - i,
        {
            if self.pinned[i].0 == *entry {
                proof {
                    assert(pair_views(self.pinned@)[i as int].0 == entry@);
                    self.ghost_unpin_step(entry, i);
                }
                let _ = self.pinned.remove(i);
                proof {
                    assert(pair_views(self.pinned@) =~= old_views.remove(i as int));
                }
                return ;
            }
            i += 1;
        }
    }

    /// After removing the only match at `i`, no equal entry remains.
    proof fn ghost_unpin_step(&self, entry: &Entry, i: usize)
        requires
            pin_registry_wf(pair_views(self.pinned@)),
            0 <= i < self.pinned@.len(),
            pair_views(self.pinned@)[i as int].0 == entry@,
        ensures
            forall|k: int|
                0 <= k < pair_views(self.pinned@).remove(i as int).len()
                    ==> #[trigger] pair_views(self.pinned@).remove(i as int)[k].0 != entry@,
    {
        let p = pair_views(self.pinned@);
        let q = p.remove(i as int);
        assert forall|k: int| 0 <= k < q.len() implies #[trigger] q[k].0 != entry@ by {
            if k < i {
                assert(p[k].0 != p[i as int].0);
            } else {
                assert(p[i as int].0 != p[k + 1].0);
            }
        }
    }

    /// One step of the feed: appending an entry to the history either
    /// appends its pair to the feed or leaves the feed as it was.
    proof fn lemma_inst_feed_push(
        s: Seq<EntryView>,
        e: EntryView,
        inst: VscodeInstances,
        o: FilterOptionsView,
        p: Seq<(EntryView, VscodeInstances)>,
    )
        ensures
            inst_feed(s.push(e), inst, o, p) == if spec_visible(e, inst, o) && !spec_is_pinned(
                p,
                e,
            ) {
                inst_feed(s, inst, o, p).push((e, inst))
            } else {
                inst_feed(s, inst, o, p)
            },
    {
        assert(s.push(e).drop_last() =~= s);
        assert(s.push(e).last() == e);
    }

    /// Clears the cache, so the next aggregation pass rebuilds it.
    pub fn refresh(&mut self)
        ensures
            final(self).cached@.len() == 0,
            final(self).filter_options == old(self).filter_options,
            final(self).pinned == old(self).pinned,
    {
        self.cached.clear();
    }

    /// The main feed under the current options: every cached installation's
    /// visible, unpinned entries, in cache order.
    pub fn visible_entries(&self) -> (r: Vec<(Entry, VscodeInstances)>)
        ensures
            pair_views(r@) == feed_of(
                cached_views(self.cached@),
                self.filter_options@,
                pair_views(self.pinned@),
            ),
    {
        let ghost c = cached_views(self.cached@);
        let ghost o = self.filter_options@;
        let ghost p = pair_views(self.pinned@);
        let mut r: Vec<(Entry, VscodeInstances)> = Vec::new();
        let n = self.cached.len();
        let mut i: usize = 0;
        while i < n
            invariant
                n == self.cached@.len(),
                c == cached_views(self.cached@),
                o == self.filter_options@,
                p == pair_views(self.pinned@),
                pin_registry_wf(p) == pin_registry_wf(pair_views(self.pinned@)),
                0 <= i <= n,
                pair_views(r@) == feed_of(c.subrange(0, i as int), o, p),
            decreases n - i,
        {
            let ghost r_before = r@;
            let inst = self.cached[i].installation;
            let m = self.cached[i].entry_list.entries.len();
            let mut j: usize = 0;
            while j < m
                invariant
                    n == self.cached@.len(),
                    c == cached_views(self.cached@),
                    o == self.filter_options@,
                    p == pair_views(self.pinned@),
                    0 <= i < n,
                    inst == self.cached@[i as int].installation,
                    m == self.cached@[i as int].entry_list.entries@.len(),
                    0 <= j <= m,
                    pair_views(r@) == pair_views(r_before) + inst_feed(
                        c[i as int].entry_list.subrange(0, j as int),
                        inst,
                        o,
                        p,
                    ),
                decreases m - j,
            {
                let entry = &self.cached[i].entry_list.entries[j];
                proof {
                    let s = c[i as int].entry_list.subrange(0, j as int);
                    assert(c[i as int].entry_list[j as int] == entry@);
                    assert(c[i as int].entry_list.subrange(0, j + 1) =~= s.push(entry@));
                    Self::lemma_inst_feed_push(s, entry@, inst, o, p);
                }
                if is_visible(entry, inst, &self.filter_options) && !self.is_pinned(entry) {
                    let cloned = entry.clone();
                    proof {
                        assert(cloned@ == entry@);
                    }
                    let ghost r_mid = r@;
                    r.push((cloned, inst));
                    proof {
                        let s = c[i as int].entry_list.subrange(0, j as int);
                        assert(r@ == r_mid.push(r@[r@.len() - 1]));
                        assert(r@[r@.len() - 1].0@ == entry@);
                        assert(pair_views(r@) =~= pair_views(r_mid).push((entry@, inst)));
                        assert(inst_feed(c[i as int].entry_list.subrange(0, j + 1), inst, o, p)
                            == inst_feed(s, inst, o, p).push((entry@, inst)));
                        assert(pair_views(r@) =~= pair_views(r_before) + inst_feed(
                            c[i as int].entry_list.subrange(0, j + 1),
                            inst,
                            o,
                            p,
                        ));
                    }
                } else {
                    proof {
                        assert(pair_views(r@) =~= pair_views(r_before) + inst_feed(
                            c[i as int].entry_list.subrange(0, j + 1),
                            inst,
                            o,
                            p,
                        ));
                    }
                }
                j += 1;
            }
            proof {
                assert(c[i as int].entry_list.subrange(0, m as int) =~= c[i as int].entry_list);
                assert(c.subrange(0, i + 1).drop_last() =~= c.subrange(0, i as int));
                assert(c.subrange(0, i + 1).last() == c[i as int]);
                assert(pair_views(r@) =~= feed_of(c.subrange(0, i + 1), o, p));
            }
            i += 1;
        }
        proof {
            assert(c.subrange(0, n as int) =~= c);
        }
        r
    }
}

/// Reads the history of every installed variant and keeps the successful
/// reads, one aggregate per installation, in the given order. A failed read
/// contributes nothing and never stops the pass.
pub fn aggregate_histories(installed: &Vec<VscodeInstances>, app_data_root: &str) -> (r: Vec<
    VscodeEntries,
>)
    ensures
        forall|j: int| 0 <= j < r@.len() ==> installed@.contains(#[trigger] r@[j].installation),
        forall|j: int|
            0 <= j < r@.len() ==> exists|t: Seq<char>|
                crate::history::spec_history_of(t) == Ok::<Seq<EntryView>, ReadError>(
                    (#[trigger] r@[j]).entry_list@,
                ),
{
    let mut r: Vec<VscodeEntries> = Vec::new();
    let n = installed.len();
    let mut i: usize = 0;
    while i < n
        invariant
            n == installed@.len(),
            0 <= i <= n,
            forall|j: int|
                0 <= j < r@.len() ==> installed@.contains(#[trigger] r@[j].installation),
            forall|j: int|
                0 <= j < r@.len() ==> exists|t: Seq<char>|
                    crate::history::spec_history_of(t) == Ok::<Seq<EntryView>, ReadError>(
                        (#[trigger] r@[j]).entry_list@,
                    ),
        decreases n - i,
    {
        let inst = installed[i];
        match crate::history::read_history(inst, app_data_root) {
            Ok(entry_list) => {
                r.push(VscodeEntries { installation: inst, entry_list });
            },
            Err(_) => {},
        }
        i += 1;
    }
    r
}

impl Toolbox {
    /// When the cache is empty, rebuilds it from the installed variants'
    /// histories; a non-empty cache, the options, and the pins are left as
    /// they are.
    pub fn ensure_cache(&mut self, installed: &Vec<VscodeInstances>, app_data_root: &str)
        ensures
            final(self).filter_options == old(self).filter_options,
            final(self).pinned == old(self).pinned,
            old(self).cached@.len() > 0 ==> final(self).cached == old(self).cached,
            forall|j: int|
                0 <= j < final(self).cached@.len() ==> old(self).cached@.len() > 0 || installed@
                    .contains(#[trigger] final(self).cached@[j].installation),
    {
        if self.cached.len() == 0 {
            self.cached = aggregate_histories(installed, app_data_root);
        }
    }
}

/// No pinned entry appears in one installation's slice of the feed.
proof fn lemma_inst_feed_excludes_pinned(
    entries: Seq<EntryView>,
    inst: VscodeInstances,
    o: FilterOptionsView,
    p: Seq<(EntryView, VscodeInstances)>,
    k: int,
)
    requires
        0 <= k < inst_feed(entries, inst, o, p).len(),
    ensures
        !spec_is_pinned(p, inst_feed(entries, inst, o, p)[k].0),
    decreases entries.len(),
{
    if entries.len() > 0 {
        let tail = inst_feed(entries.drop_last(), inst, o, p);
        if k < tail.len() {
            lemma_inst_feed_excludes_pinned(entries.drop_last(), inst, o, p, k);
        }
    }
}

/// Entries in the registry never appear in the main feed, whatever the
/// options: the feed filter is bypassed for pinned entries by exclusion,
/// and the registry itself is rendered as its own unfiltered section.
pub proof fn lemma_feed_excludes_pinned(
    cached: Seq<VscodeEntriesView>,
    o: FilterOptionsView,
    p: Seq<(EntryView, VscodeInstances)>,
    k: int,
)
    requires
        0 <= k < feed_of(cached, o, p).len(),
    ensures
        !spec_is_pinned(p, feed_of(cached, o, p)[k].0),
    decreases cached.len(),
{
    if cached.len() > 0 {
        let head = feed_of(cached.drop_last(), o, p);
        if k < head.len() {
            lemma_feed_excludes_pinned(cached.drop_last(), o, p, k);
        } else {
            lemma_inst_feed_excludes_pinned(
                cached.last().entry_list,
                cached.last().installation,
                o,
                p,
                k - head.len(),
            );
        }
    }
}

} // verus!
