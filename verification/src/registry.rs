//! The process-wide connection registry.
//!
//! The registry maps connection identifiers to mailbox handles. Its model is
//! the finite map from each identifier to the *token* of the handle bound to
//! it: every handle a session shares carries the session's token, so the map
//! says which session each identifier currently reaches. Registering an
//! identifier already in use silently replaces the prior binding; the prior
//! holder's own session keeps running, it merely stops being reachable by
//! that identifier.
//!
//! The registry itself is plain data: callers that share it across sessions
//! wrap it in one exclusive lock and take that lock for every operation.

use crate::frame::Frame;
use vstd::prelude::*;

verus! {

/// One binding: an identifier, the owning session's token, and the sending
/// half of that session's mailbox.
pub struct Entry {
    /// The identifier this binding is looked up by.
    pub id: String,
    /// The token of the session whose mailbox `handle` reaches.
    pub token: u64,
    /// The deposit handle onto that session's mailbox.
    pub handle: tokio::sync::broadcast::Sender<Frame>,
}

/// The map induced by a sequence of bindings, later bindings winning.
pub open spec fn map_of(s: Seq<Entry>) -> Map<Seq<char>, u64>
    decreases s.len(),
{
    if s.len() == 0 {
        Map::empty()
    } else {
        map_of(s.drop_last()).insert(s.last().id@, s.last().token)
    }
}

/// Whether some binding in `s` carries the identifier `k`.
pub open spec fn has_id(s: Seq<Entry>, k: Seq<char>) -> bool {
    exists|i: int| 0 <= i < s.len() && s[i].id@ == k
}

/// Whether the bindings of `s` carry pairwise distinct identifiers.
pub open spec fn entries_distinct(s: Seq<Entry>) -> bool {
    forall|i: int, j: int| 0 <= i < j < s.len() ==> s[i].id@ != s[j].id@
}

/// The identifiers bound by `s` are exactly the domain of its map.
proof fn lemma_map_of_dom(s: Seq<Entry>)
    ensures
        forall|k: Seq<char>| #[trigger] map_of(s).dom().contains(k) <==> has_id(s, k),
    decreases s.len(),
{
    if s.len() > 0 {
        lemma_map_of_dom(s.drop_last());
        assert forall|k: Seq<char>| #[trigger] map_of(s).dom().contains(k) <==> has_id(s, k) by {
            if map_of(s).dom().contains(k) {
                if k == s.last().id@ {
                    assert(s[s.len() - 1].id@ == k);
                } else {
                    assert(map_of(s.drop_last()).dom().contains(k));
                    assert(has_id(s.drop_last(), k));
                    let i = choose|i: int|
                        0 <= i < s.drop_last().len() && s.drop_last()[i].id@ == k;
                    assert(s.drop_last()[i] == s[i]);
                    assert(s[i].id@ == k);
                }
            }
            if has_id(s, k) {
                let i = choose|i: int| 0 <= i < s.len() && s[i].id@ == k;
                if i < s.len() - 1 {
                    assert(s.drop_last()[i] == s[i]);
                    assert(s.drop_last()[i].id@ == k);
                    assert(has_id(s.drop_last(), k));
                    assert(map_of(s.drop_last()).dom().contains(k));
                }
            }
        }
    }
}

/// Under distinctness, each binding's token is the map's value at its id.
proof fn lemma_map_of_get(s: Seq<Entry>, i: int)
    requires
        entries_distinct(s),
        0 <= i < s.len(),
    ensures
        map_of(s).dom().contains(s[i].id@),
        map_of(s)[s[i].id@] == s[i].token,
    decreases s.len(),
{
    if i < s.len() - 1 {
        assert(entries_distinct(s.drop_last()));
        assert(s.drop_last()[i] == s[i]);
        lemma_map_of_get(s.drop_last(), i);
        assert(s[i].id@ != s.last().id@);
    }
}

/// Removing the (unique) binding at index `i` removes exactly its id from
/// the map, preserving distinctness.
proof fn lemma_map_of_remove(s: Seq<Entry>, i: int)
    requires
        entries_distinct(s),
        0 <= i < s.len(),
    ensures
        map_of(s.remove(i)) == map_of(s).remove(s[i].id@),
        entries_distinct(s.remove(i)),
        !has_id(s.remove(i), s[i].id@),
    decreases s.len(),
{
    let k = s[i].id@;
    assert forall|a: int, b: int| 0 <= a < b < s.remove(i).len() implies s.remove(i)[a].id@
        != s.remove(i)[b].id@ by {
        let a0 = if a < i {
            a
        } else {
            a + 1
        };
        let b0 = if b < i {
            b
        } else {
            b + 1
        };
        assert(s.remove(i)[a] == s[a0] && s.remove(i)[b] == s[b0]);
    }
    assert forall|j: int| 0 <= j < s.remove(i).len() implies s.remove(i)[j].id@ != k by {
        let j0 = if j < i {
            j
        } else {
            j + 1
        };
        assert(s.remove(i)[j] == s[j0] && j0 != i);
    }
    if i == s.len() - 1 {
        assert(s.remove(i) =~= s.drop_last());
        lemma_map_of_dom(s.drop_last());
        assert(!map_of(s.drop_last()).dom().contains(k));
        assert(map_of(s.drop_last()) =~= map_of(s).remove(k));
    } else {
        assert(s.remove(i).drop_last() =~= s.drop_last().remove(i));
        assert(s.remove(i).last() == s.last());
        assert(entries_distinct(s.drop_last()));
        assert(s.drop_last()[i] == s[i]);
        lemma_map_of_remove(s.drop_last(), i);
        assert(s.last().id@ != k);
        assert(map_of(s.remove(i)) == map_of(s.drop_last()).remove(k).insert(
            s.last().id@,
            s.last().token,
        ));
        assert(map_of(s.drop_last()).remove(k).insert(s.last().id@, s.last().token)
            =~= map_of(s).remove(k));
    }
}

/// The connection registry: the only state shared between sessions.
pub struct Registry {
    /// The current bindings, with pairwise distinct identifiers.
    pub entries: Vec<Entry>,
    /// The next token to hand to a starting session.
    pub next_token: u64,
}

impl View for Registry {
    type V = Map<Seq<char>, u64>;

    open spec fn view(&self) -> Map<Seq<char>, u64> {
        map_of(self.entries@)
    }
}

impl Registry {
    /// The registry's invariant: no identifier is bound twice.
    pub open spec fn wf(&self) -> bool {
        entries_distinct(self.entries@)
    }

    /// Creates the registry, empty, once at process start.
    pub fn new() -> (r: Registry)
        ensures
            r.wf(),
            r@ == Map::<Seq<char>, u64>::empty(),
            r.next_token == 0,
    {
        Registry { entries: Vec::new(), next_token: 0 }
    }

    /// Hands out the next session token. Bindings are untouched.
    pub fn mint_token(&mut self) -> (t: u64)
        requires
            old(self).wf(),
        ensures
            final(self).wf(),
            final(self)@ == old(self)@,
            final(self).entries == old(self).entries,
            t == old(self).next_token,
    {
        let t = self.next_token;
        if t < u64::MAX {
            self.next_token = t + 1;
        }
        t
    }

    /// The index of the binding that carries `id`, if one does.
    fn find_index(&self, id: &String) -> (r: Option<usize>)
        ensures
            match r {
                Some(i) => i < self.entries.len() && self.entries@[i as int].id@ == id@,
                None => !has_id(self.entries@, id@),
            },
    {
        let n = self.entries.len();
        let mut i: usize = 0;
        while i < n
            invariant
                i <= n,
                n == self.entries.len(),
                forall|j: int| 0 <= j < i ==> self.entries@[j].id@ != id@,
            decreases n - i,
        {
            if self.entries[i].id == *id {
                return Some(i);
            }
            i += 1;
        }
        None
    }

    /// Binds `id` to the given handle, inserting or silently overwriting.
    /// Always succeeds; any previous holder of `id` simply stops being
    /// reachable by it.
    pub fn register(&mut self, id: String, token: u64, handle: tokio::sync::broadcast::Sender<Frame>)
        requires
            old(self).wf(),
        ensures
            final(self).wf(),
            final(self)@ == old(self)@.insert(id@, token),
            final(self).next_token == old(self).next_token,
    {
        let ghost s0 = self.entries@;
        let found = self.find_index(&id);
        match found {
            Some(i) => {
                proof {
                    lemma_map_of_remove(s0, i as int);
                }
                let _prior = self.entries.remove(i);
                let ghost s1 = self.entries@;
                self.entries.push(Entry { id, token, handle });
                proof {
                    assert(self.entries@.drop_last() =~= s1);
                    assert(map_of(self.entries@) =~= map_of(s0).insert(
                        self.entries@.last().id@,
                        token,
                    ));
                    assert forall|a: int, b: int|
                        0 <= a < b < self.entries@.len() implies self.entries@[a].id@
                        != self.entries@[b].id@ by {
                        if b == self.entries@.len() - 1 {
                            assert(s1[a].id@ != s0[i as int].id@);
                        }
                    }
                }
            },
            None => {
                self.entries.push(Entry { id, token, handle });
                proof {
                    assert(self.entries@.drop_last() =~= s0);
                    assert forall|a: int, b: int|
                        0 <= a < b < self.entries@.len() implies self.entries@[a].id@
                        != self.entries@[b].id@ by {
                        if b == self.entries@.len() - 1 {
                            assert(s0[a].id@ != id@);
                        }
                    }
                }
            },
        }
    }

    /// Drops the binding for `id` if one exists; a no-op otherwise. The
    /// mailbox behind the binding is unaffected; it merely stops being
    /// reachable by `id`.
    pub fn unregister(&mut self, id: &String)
        requires
            old(self).wf(),
        ensures
            final(self).wf(),
            final(self)@ == old(self)@.remove(id@),
            final(self).next_token == old(self).next_token,
    {
        let ghost s0 = self.entries@;
        let found = self.find_index(id);
        match found {
            Some(i) => {
                proof {
                    lemma_map_of_remove(s0, i as int);
                }
                let _prior = self.entries.remove(i);
            },
            None => {
                proof {
                    lemma_map_of_dom(s0);
                    assert(map_of(s0).remove(id@) =~= map_of(s0));
                }
            },
        }
    }

    /// The current handle bound to `id`, with its token; nothing when `id`
    /// is not registered.
    pub fn lookup<'a>(&'a self, id: &String) -> (r: Option<
        (u64, &'a tokio::sync::broadcast::Sender<Frame>),
    >)
        requires
            self.wf(),
        ensures
            r is Some <==> self@.contains_key(id@),
            r matches Some(p) ==> p.0 == self@[id@],
    {
        proof {
            lemma_map_of_dom(self.entries@);
        }
        let found = self.find_index(id);
        match found {
            Some(i) => {
                proof {
                    lemma_map_of_get(self.entries@, i as int);
                }
                Some((self.entries[i].token, &self.entries[i].handle))
            },
            None => None,
        }
    }

    /// Every current binding except the one for `id`, as (identifier, token)
    /// pairs: the fan-out set of a broadcast originating at `id`.
    pub fn snapshot_except(&self, id: &String) -> (r: Vec<(String, u64)>)
        requires
            self.wf(),
        ensures
            forall|m: int|
                0 <= m < r@.len() ==> (#[trigger] r@[m]).0@ != id@ && self@.contains_key(r@[m].0@)
                    && self@[r@[m].0@] == r@[m].1,
            forall|k: Seq<char>|
                #[trigger] self@.contains_key(k) && k != id@ ==> exists|m: int|
                    0 <= m < r@.len() && (#[trigger] r@[m]).0@ == k,
            forall|m: int, n: int| 0 <= m < n < r@.len() ==> r@[m].0@ != r@[n].0@,
    {
        proof {
            lemma_map_of_dom(self.entries@);
        }
        let mut out: Vec<(String, u64)> = Vec::new();
        let n = self.entries.len();
        let mut i: usize = 0;
        while i < n
            invariant
                i <= n,
                n == self.entries.len(),
                self.wf(),
                forall|m: int|
                    0 <= m < out@.len() ==> (#[trigger] out@[m]).0@ != id@ && exists|j: int|
                        0 <= j < i && self.entries@[j].id@ == out@[m].0@ && self.entries@[j].token
                            == out@[m].1,
                forall|j: int|
                    0 <= j < i ==> (#[trigger] self.entries@[j]).id@ == id@ || exists|m: int|
                        0 <= m < out@.len() && (#[trigger] out@[m]).0@ == self.entries@[j].id@,
                forall|m: int, n2: int| 0 <= m < n2 < out@.len() ==> out@[m].0@ != out@[n2].0@,
            decreases n - i,
        {
            let ghost out0 = out@;
            if !(self.entries[i].id == *id) {
                proof {
                    assert forall|m: int| 0 <= m < out0.len() implies out0[m].0@
                        != self.entries@[i as int].id@ by {
                        assert((out0[m]).0@ != id@);
                        let j = choose|j: int|
                            0 <= j < i && self.entries@[j].id@ == out0[m].0@
                                && self.entries@[j].token == out0[m].1;
                        assert(self.entries@[j].id@ != self.entries@[i as int].id@);
                    }
                }
                let bound_id = self.entries[i].id.clone();
                let bound_token = self.entries[i].token;
                out.push((bound_id, bound_token));
                proof {
                    assert(out@ == out0.push((bound_id, bound_token)));
                    assert((out@[out0.len() as int]).0@ == self.entries@[i as int].id@);
                    assert forall|m: int|
                        0 <= m < out@.len() implies (#[trigger] out@[m]).0@ != id@ && exists|j: int|
                        0 <= j < i + 1 && self.entries@[j].id@ == out@[m].0@
                            && self.entries@[j].token == out@[m].1 by {
                        if m < out0.len() {
                            assert(out@[m] == out0[m]);
                            assert((out0[m]).0@ != id@);
                            let j = choose|j: int|
                                0 <= j < i && self.entries@[j].id@ == out0[m].0@
                                    && self.entries@[j].token == out0[m].1;
                            assert(0 <= j < i + 1 && self.entries@[j].id@ == out@[m].0@
                                && self.entries@[j].token == out@[m].1);
                        } else {
                            assert(0 <= i < i + 1 && self.entries@[i as int].id@ == out@[m].0@
                                && self.entries@[i as int].token == out@[m].1);
                        }
                    }
                }
            } else {
                proof {
                    assert(self.entries@[i as int].id@ == id@);
                }
            }
            proof {
                assert forall|j: int|
                    0 <= j < i + 1 implies (#[trigger] self.entries@[j]).id@ == id@ || exists|m: int|
                    0 <= m < out@.len() && (#[trigger] out@[m]).0@ == self.entries@[j].id@ by {
                    if j == i {
                        if self.entries@[j].id@ != id@ {
                            assert((out@[out0.len() as int]).0@ == self.entries@[j].id@);
                        }
                    } else {
                        if self.entries@[j].id@ != id@ {
                            let m = choose|m: int|
                                0 <= m < out0.len() && (out0[m]).0@ == self.entries@[j].id@;
                            assert(out@[m] == out0[m]);
                            assert((out@[m]).0@ == self.entries@[j].id@);
                        }
                    }
                }
            }
            i += 1;
        }
        proof {
            assert forall|m: int|
                0 <= m < out@.len() implies (#[trigger] out@[m]).0@ != id@ && self@.contains_key(
                out@[m].0@,
            ) && self@[out@[m].0@] == out@[m].1 by {
                assert((out@[m]).0@ != id@);
                let j = choose|j: int|
                    0 <= j < i && self.entries@[j].id@ == out@[m].0@ && self.entries@[j].token
                        == out@[m].1;
                lemma_map_of_get(self.entries@, j);
            }
            assert forall|k: Seq<char>|
                #[trigger] self@.contains_key(k) && k != id@ implies exists|m: int|
                0 <= m < out@.len() && (#[trigger] out@[m]).0@ == k by {
                assert(map_of(self.entries@).dom().contains(k));
                assert(has_id(self.entries@, k));
                let j = choose|j: int| 0 <= j < self.entries@.len() && self.entries@[j].id@ == k;
                assert(0 <= j < i);
                assert((self.entries@[j]).id@ == id@ || exists|m: int|
                    0 <= m < out@.len() && (#[trigger] out@[m]).0@ == self.entries@[j].id@);
            }
        }
        out
    }
}

} // verus!
