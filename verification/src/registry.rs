//! The process registry.
//!
//! Bidirectional bookkeeping between backend-issued task handles and the
//! view-issued identifiers of the progress indicators that display them.
//! An entry is created when a task is reported started and removed when
//! the task is reported finished; a finish for a handle that was never
//! started leaves the registry untouched and yields a warning outcome,
//! never a failure.
//!
//! The registry is modelled as a map from backend handle to view handle.
//! Internally it keeps a vector of pairs in which a later pair for the
//! same handle shadows an earlier one, matching the map's `insert`.

use vstd::prelude::*;

verus! {

/// The map described by a vector of `(backend handle, view handle)`
/// pairs, later pairs winning.
pub open spec fn entry_map(s: Seq<(u64, u64)>) -> Map<u64, u64>
    decreases s.len(),
{
    if s.len() == 0 {
        Map::empty()
    } else {
        entry_map(s.drop_last()).insert(s.last().0, s.last().1)
    }
}

/// The same vector with every pair for key `k` taken out.
pub open spec fn without_key(s: Seq<(u64, u64)>, k: u64) -> Seq<(u64, u64)>
    decreases s.len(),
{
    if s.len() == 0 {
        Seq::empty()
    } else if s.last().0 == k {
        without_key(s.drop_last(), k)
    } else {
        without_key(s.drop_last(), k).push(s.last())
    }
}

proof fn lemma_entry_map_push(s: Seq<(u64, u64)>, p: (u64, u64))
    ensures
        entry_map(s.push(p)) == entry_map(s).insert(p.0, p.1),
{
    assert(s.push(p).drop_last() =~= s);
    assert(s.push(p).last() == p);
}

proof fn lemma_without_key_push(s: Seq<(u64, u64)>, p: (u64, u64), k: u64)
    ensures
        without_key(s.push(p), k) == (if p.0 == k {
            without_key(s, k)
        } else {
            without_key(s, k).push(p)
        }),
{
    assert(s.push(p).drop_last() =~= s);
    assert(s.push(p).last() == p);
}

proof fn lemma_entry_map_absent(s: Seq<(u64, u64)>, k: u64)
    requires
        forall|i: int| 0 <= i < s.len() ==> (#[trigger] s[i]).0 != k,
    ensures
        !entry_map(s).contains_key(k),
    decreases s.len(),
{
    if s.len() > 0 {
        assert forall|i: int| 0 <= i < s.drop_last().len() implies (#[trigger] s.drop_last()[i]).0
            != k by {
            assert(s.drop_last()[i] == s[i]);
        }
        lemma_entry_map_absent(s.drop_last(), k);
        assert(s.last() == s[s.len() - 1]);
    }
}

proof fn lemma_entry_map_last_match(s: Seq<(u64, u64)>, k: u64, ji: int)
    requires
        0 <= ji < s.len(),
        s[ji].0 == k,
        forall|j: int| ji < j < s.len() ==> (#[trigger] s[j]).0 != k,
    ensures
        entry_map(s).contains_key(k),
        entry_map(s)[k] == s[ji].1,
    decreases s.len(),
{
    if ji == s.len() - 1 {
        assert(s.last() == s[ji]);
    } else {
        assert forall|j: int| ji < j < s.drop_last().len() implies (#[trigger] s.drop_last()[j]).0
            != k by {
            assert(s.drop_last()[j] == s[j]);
        }
        assert(s.drop_last()[ji] == s[ji]);
        lemma_entry_map_last_match(s.drop_last(), k, ji);
        assert(s.last() == s[s.len() - 1]);
        assert(s.last().0 != k);
    }
}

proof fn lemma_without_key_removes(s: Seq<(u64, u64)>, k: u64)
    ensures
        entry_map(without_key(s, k)) == entry_map(s).remove(k),
    decreases s.len(),
{
    if s.len() == 0 {
        assert(entry_map(without_key(s, k)) =~= entry_map(s).remove(k));
    } else {
        lemma_without_key_removes(s.drop_last(), k);
        if s.last().0 == k {
            assert(entry_map(s).remove(k) =~= entry_map(s.drop_last()).remove(k));
        } else {
            lemma_entry_map_push(without_key(s.drop_last(), k), s.last());
            assert(entry_map(s.drop_last()).remove(k).insert(s.last().0, s.last().1)
                =~= entry_map(s.drop_last()).insert(s.last().0, s.last().1).remove(k));
        }
    }
}

/// What a finish report did to the registry.
#[derive(Clone, Copy, Debug, PartialEq, Eq, Structural)]
pub enum FinishOutcome {
    /// The handle was outstanding; the view indicator with this
    /// identifier must be retired.
    Retire { view_handle: u64 },
    /// The handle was never started: a warning, nothing more.
    UnknownHandle,
}

/// The registry of outstanding background tasks.
#[derive(Debug)]
pub struct ProcessRegistry {
    entries: Vec<(u64, u64)>,
}

impl View for ProcessRegistry {
    type V = Map<u64, u64>;

    closed spec fn view(&self) -> Map<u64, u64> {
        entry_map(self.entries@)
    }
}

impl ProcessRegistry {
    /// A registry with no outstanding task.
    pub fn new() -> (r: ProcessRegistry)
        ensures
            r@ == Map::<u64, u64>::empty(),
    {
        ProcessRegistry { entries: Vec::new() }
    }

    /// Whether no task is outstanding.
    pub fn is_empty(&self) -> (r: bool)
        ensures
            r == (self@ == Map::<u64, u64>::empty()),
    {
        let r = self.entries.len() == 0;
        proof {
            if self.entries@.len() == 0 {
                assert(self@ =~= Map::<u64, u64>::empty());
            } else {
                assert(self@.contains_key(self.entries@.last().0));
                assert(self@ != Map::<u64, u64>::empty());
            }
        }
        r
    }

    /// Record a task reported started, already shown in the view under
    /// `view_handle`.
    pub fn on_started(&mut self, handle: u64, view_handle: u64)
        ensures
            final(self)@ == old(self)@.insert(handle, view_handle),
    {
        proof {
            lemma_entry_map_push(self.entries@, (handle, view_handle));
        }
        self.entries.push((handle, view_handle));
    }

    /// Record a task reported finished.
    ///
    /// If the handle is outstanding, its entry is removed and the view
    /// handle to retire is returned; otherwise the registry is left
    /// unchanged and the outcome says so.
    pub fn on_finished(&mut self, handle: u64) -> (outcome: FinishOutcome)
        ensures
            old(self)@.contains_key(handle) ==> final(self)@ == old(self)@.remove(handle)
                && outcome == (FinishOutcome::Retire { view_handle: old(self)@[handle] }),
            !old(self)@.contains_key(handle) ==> final(self)@ == old(self)@ && outcome
                == FinishOutcome::UnknownHandle,
    {
        let n = self.entries.len();
        let mut i: usize = n;
        let mut hit: Option<usize> = None;
        while i > 0 && hit.is_none()
            invariant
                i <= n,
                n == self.entries@.len(),
                hit is None ==> forall|j: int|
                    i <= j < n ==> (#[trigger] self.entries@[j]).0 != handle,
                hit matches Some(ji) ==> i < n && ji == i && self.entries@[ji as int].0 == handle
                    && forall|j: int| i < j < n ==> (#[trigger] self.entries@[j]).0 != handle,
            decreases i,
        {
            i = i - 1;
            if self.entries[i].0 == handle {
                hit = Some(i);
            }
        }
        match hit {
            Some(ji) => {
                let view_handle = self.entries[ji].1;
                proof {
                    lemma_entry_map_last_match(self.entries@, handle, ji as int);
                }
                let mut kept: Vec<(u64, u64)> = Vec::new();
                let mut j: usize = 0;
                while j < n
                    invariant
                        j <= n,
                        n == self.entries@.len(),
                        kept@ == without_key(self.entries@.subrange(0, j as int), handle),
                    decreases n - j,
                {
                    let p = self.entries[j];
                    proof {
                        assert(self.entries@.subrange(0, j + 1) =~= self.entries@.subrange(
                            0,
                            j as int,
                        ).push(p));
                        lemma_without_key_push(
                            self.entries@.subrange(0, j as int),
                            p,
                            handle,
                        );
                    }
                    if p.0 != handle {
                        kept.push(p);
                    }
                    j = j + 1;
                }
                proof {
                    assert(self.entries@.subrange(0, n as int) =~= self.entries@);
                    lemma_without_key_removes(self.entries@, handle);
                }
                self.entries = kept;
                FinishOutcome::Retire { view_handle }
            },
            None => {
                proof {
                    lemma_entry_map_absent(self.entries@, handle);
                }
                FinishOutcome::UnknownHandle
            },
        }
    }
}

/// Law: a finish reported for a handle that was never started leaves the
/// registry's contents exactly as they were, whatever they were.
pub proof fn lemma_unknown_finish_is_harmless(m: Map<u64, u64>, h: u64)
    requires
        !m.contains_key(h),
    ensures
        m.remove(h) == m,
{
    assert(m.remove(h) =~= m);
}

/// Law: recording a started task and then its finish leaves the registry
/// as it was before the pair; started on an empty registry, the pair
/// leaves it empty.
pub proof fn lemma_start_then_finish(m: Map<u64, u64>, h: u64, vh: u64)
    ensures
        !m.contains_key(h) ==> m.insert(h, vh).remove(h) == m,
        m == Map::<u64, u64>::empty() ==> m.insert(h, vh).remove(h) == Map::<u64, u64>::empty(),
{
    if !m.contains_key(h) {
        assert(m.insert(h, vh).remove(h) =~= m);
    }
}

} // verus!
