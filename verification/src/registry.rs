//! The registry of running downloads: each task id maps to the handle that
//! cancels it.
use vstd::prelude::*;

use crate::text::str_eq;

verus! {

/// The value of the last entry whose key is `k` (later entries win).
pub open spec fn lookup<T>(s: Seq<(Seq<char>, T)>, k: Seq<char>) -> Option<T>
    decreases s.len(),
{
    if s.len() == 0 {
        None
    } else if s.last().0 == k {
        Some(s.last().1)
    } else {
        lookup(s.drop_last(), k)
    }
}

/// The entries whose key is not `k`, in order.
pub open spec fn without<T>(s: Seq<(Seq<char>, T)>, k: Seq<char>) -> Seq<(Seq<char>, T)>
    decreases s.len(),
{
    if s.len() == 0 {
        s
    } else if s.last().0 == k {
        without(s.drop_last(), k)
    } else {
        without(s.drop_last(), k).push(s.last())
    }
}

pub open spec fn map_of<T>(s: Seq<(Seq<char>, T)>) -> Map<Seq<char>, T> {
    Map::new(|k: Seq<char>| lookup(s, k) is Some, |k: Seq<char>| lookup(s, k)->0)
}

proof fn lemma_lookup_without<T>(s: Seq<(Seq<char>, T)>, key: Seq<char>, k: Seq<char>)
    ensures
        lookup(without(s, key), k) == if k == key {
            None
        } else {
            lookup(s, k)
        },
    decreases s.len(),
{
    if s.len() > 0 {
        lemma_lookup_without(s.drop_last(), key, k);
        if s.last().0 != key {
            let w = without(s.drop_last(), key).push(s.last());
            assert(w.drop_last() == without(s.drop_last(), key));
        }
    }
}

proof fn lemma_lookup_cons<T>(x: (Seq<char>, T), t: Seq<(Seq<char>, T)>, k: Seq<char>)
    ensures
        lookup(seq![x] + t, k) == match lookup(t, k) {
            Some(v) => Some(v),
            None => if x.0 == k {
                Some(x.1)
            } else {
                None
            },
        },
    decreases t.len(),
{
    if t.len() == 0 {
        assert(seq![x] + t == seq![x]);
        assert(seq![x].drop_last() == Seq::<(Seq<char>, T)>::empty());
    } else {
        assert((seq![x] + t).drop_last() == seq![x] + t.drop_last());
        assert((seq![x] + t).last() == t.last());
        lemma_lookup_cons(x, t.drop_last(), k);
        let u = seq![x] + t;
        if t.last().0 == k {
            assert(lookup(u, k) == Some(t.last().1));
            assert(lookup(t, k) == Some(t.last().1));
        } else {
            assert(lookup(u, k) == lookup(u.drop_last(), k));
            assert(lookup(t, k) == lookup(t.drop_last(), k));
        }
    }
}

proof fn lemma_without_cons<T>(x: (Seq<char>, T), t: Seq<(Seq<char>, T)>, k: Seq<char>)
    ensures
        without(seq![x] + t, k) == if x.0 == k {
            without(t, k)
        } else {
            seq![x] + without(t, k)
        },
    decreases t.len(),
{
    if t.len() == 0 {
        assert(seq![x] + t == seq![x]);
        assert(seq![x].drop_last() == Seq::<(Seq<char>, T)>::empty());
        assert(without(Seq::<(Seq<char>, T)>::empty(), k) == Seq::<(Seq<char>, T)>::empty());
        if x.0 != k {
            assert(Seq::<(Seq<char>, T)>::empty().push(x) == seq![x] + Seq::<
                (Seq<char>, T),
            >::empty());
        }
    } else {
        assert((seq![x] + t).drop_last() == seq![x] + t.drop_last());
        lemma_without_cons(x, t.drop_last(), k);
        if t.last().0 != k && x.0 != k {
            assert((seq![x] + without(t.drop_last(), k)).push(t.last()) == seq![x] + without(
                t.drop_last(),
                k,
            ).push(t.last()));
        }
    }
}

/// Running downloads by task id.
pub struct TaskRegistry<T> {
    entries: Vec<(String, T)>,
}

impl<T> TaskRegistry<T> {
    pub closed spec fn entries_view(&self) -> Seq<(Seq<char>, T)> {
        self.entries@.map_values(|e: (String, T)| (e.0@, e.1))
    }

    /// The task ids with their handles.
    pub closed spec fn view(&self) -> Map<Seq<char>, T> {
        map_of(self.entries_view())
    }

    /// An empty registry.
    pub fn new() -> (r: TaskRegistry<T>)
        ensures
            r.view() == Map::<Seq<char>, T>::empty(),
    {
        let r = TaskRegistry { entries: Vec::new() };
        assert(r.view() =~= Map::<Seq<char>, T>::empty());
        r
    }

    /// Removes the handle of `task_id`, returning it if there was one.
    pub fn remove(&mut self, task_id: &str) -> (r: Option<T>)
        ensures
            final(self).view() == old(self).view().remove(task_id@),
            r == (if old(self).view().dom().contains(task_id@) {
                Some(old(self).view()[task_id@])
            } else {
                None
            }),
    {
        let ghost s = self.entries_view();
        let mut result: Option<T> = None;
        let mut i = self.entries.len();
        proof {
            assert(s.skip(i as int) =~= Seq::<(Seq<char>, T)>::empty());
            assert(without(s.skip(i as int), task_id@) == s.skip(i as int));
            assert(lookup(s.skip(i as int), task_id@) is None);
            assert(s.take(i as int) =~= s);
            assert(self.entries_view() =~= s.take(i as int) + without(s.skip(i as int), task_id@));
        }
        while i > 0
            invariant
                i <= s.len(),
                self.entries_view().len() == self.entries@.len(),
                self.entries_view() == s.take(i as int) + without(s.skip(i as int), task_id@),
                result == lookup(s.skip(i as int), task_id@),
            decreases i,
        {
            let j = i - 1;
            proof {
                assert((s.take(i as int) + without(s.skip(i as int), task_id@)).len() >= i);
                assert(s.skip(j as int) == seq![s[j as int]] + s.skip(i as int));
                lemma_lookup_cons(s[j as int], s.skip(i as int), task_id@);
                lemma_without_cons(s[j as int], s.skip(i as int), task_id@);
                assert(self.entries_view()[j as int] == s[j as int]);
            }
            if str_eq(self.entries[j].0.as_str(), task_id) {
                let ghost before = self.entries_view();
                let (_, v) = self.entries.remove(j);
                proof {
                    assert(self.entries_view() =~= before.take(j as int) + before.skip(i as int));
                    assert(s.take(i as int).take(j as int) == s.take(j as int));
                    assert(before.take(j as int) =~= s.take(j as int));
                    assert(before.skip(i as int) =~= without(s.skip(i as int), task_id@));
                }
                if result.is_none() {
                    result = Some(v);
                }
            } else {
                proof {
                    assert(s.take(i as int) =~= s.take(j as int) + seq![s[j as int]]);
                    assert(self.entries_view() =~= s.take(j as int) + (seq![s[j as int]]
                        + without(s.skip(i as int), task_id@)));
                }
            }
            i = j;
        }
        proof {
            assert(s.take(0) + without(s.skip(0), task_id@) =~= without(s, task_id@));
            assert(s.skip(0) == s);
            assert forall|k: Seq<char>| true implies lookup(self.entries_view(), k) == if k
                == task_id@ {
                None
            } else {
                lookup(s, k)
            } by {
                lemma_lookup_without(s, task_id@, k);
            }
            assert(self.view() =~= old(self).view().remove(task_id@));
        }
        result
    }

    /// Registers `handle` for `task_id`, replacing and returning any handle
    /// it had.
    pub fn insert(&mut self, task_id: String, handle: T) -> (r: Option<T>)
        ensures
            final(self).view() == old(self).view().insert(task_id@, handle),
            r == (if old(self).view().dom().contains(task_id@) {
                Some(old(self).view()[task_id@])
            } else {
                None
            }),
    {
        let previous = self.remove(task_id.as_str());
        let ghost mid = self.entries_view();
        let ghost key = task_id@;
        proof {
            assert(map_of(mid) == old(self).view().remove(key));
        }
        self.entries.push((task_id, handle));
        proof {
            assert(self.entries_view() =~= mid.push((key, handle)));
            assert(self.entries_view().drop_last() == mid);
            assert(self.entries_view().last() == (key, handle));
            assert forall|k: Seq<char>| true implies lookup(self.entries_view(), k) == if k == key {
                Some(handle)
            } else {
                lookup(mid, k)
            } by {}
            let target = old(self).view().insert(key, handle);
            assert forall|k: Seq<char>|
                #![trigger self.view().dom().contains(k)]
                #![trigger target.dom().contains(k)]
                #![trigger self.view()[k]]
                #![trigger target[k]]
                self.view().dom().contains(k) == target.dom().contains(k) && (self.view().dom().contains(
                    k,
                ) ==> self.view()[k] == target[k]) by {
                assert(self.view() == map_of(self.entries_view()));
                if k != key {
                    assert(lookup(self.entries_view(), k) == lookup(mid, k));
                    assert(map_of(mid).dom().contains(k) == (lookup(mid, k) is Some));
                    assert(map_of(mid).dom().contains(k) == old(self).view().dom().contains(k));
                    assert(target.dom().contains(k) == old(self).view().dom().contains(k));
                    if lookup(mid, k) is Some {
                        assert(map_of(mid)[k] == lookup(mid, k)->0);
                        assert(map_of(mid)[k] == old(self).view()[k]);
                    }
                } else {
                    assert(lookup(self.entries_view(), k) == Some(handle));
                }
            }
            assert(self.view() =~= target);
        }
        previous
    }
}

// ---------------------------------------------------------------------------
// Laws
// ---------------------------------------------------------------------------

/// Pausing a task hands back exactly the handle its start registered, and a
/// second pause finds nothing to cancel.
pub proof fn law_pause_after_start<T>(m: Map<Seq<char>, T>, task_id: Seq<char>, handle: T)
    ensures
        m.insert(task_id, handle).dom().contains(task_id),
        m.insert(task_id, handle)[task_id] == handle,
        !m.insert(task_id, handle).remove(task_id).dom().contains(task_id),
{
}

/// Registering or removing one task leaves every other task's handle alone.
pub proof fn law_other_tasks_untouched<T>(
    m: Map<Seq<char>, T>,
    task_id: Seq<char>,
    other: Seq<char>,
    handle: T,
)
    requires
        task_id != other,
    ensures
        m.insert(task_id, handle).dom().contains(other) == m.dom().contains(other),
        m.dom().contains(other) ==> m.insert(task_id, handle)[other] == m[other],
        m.remove(task_id).dom().contains(other) == m.dom().contains(other),
        m.dom().contains(other) ==> m.remove(task_id)[other] == m[other],
{
}

} // verus!
