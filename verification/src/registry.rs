//! The process-wide session registry: the directory from session id to that
//! session's mailbox handle.
//!
//! The handle type is a parameter: the runtime instantiates it with its
//! channel sender.  An entry exists exactly while a live session actor
//! consumes the mailbox: it is inserted when initialization succeeds and
//! removed when the session reports its terminal transition.  The surrounding
//! runtime guards the whole registry with one reader/writer lock; every
//! operation here is one short critical section.

use vstd::prelude::*;
use vstd::hash_map::StringHashMap;
use crate::session_common::SessionResponseStatus;
use crate::session_common::str_eq;

verus! {

/// The directory from session id to mailbox handle `V`.
#[verifier::reject_recursive_types(V)]
pub struct Registry<V> {
    map: StringHashMap<V>,
    ids: Vec<String>,
}

impl<V> Registry<V> {
    /// The directory as a map from session id to handle.
    pub closed spec fn entries(&self) -> Map<Seq<char>, V> {
        self.map@
    }

    /// The registered ids, oldest registration first.
    pub closed spec fn order(&self) -> Seq<Seq<char>> {
        self.ids@.map_values(|s: String| s@)
    }

    /// The id list carries exactly the directory's keys, each once.
    pub closed spec fn wf(&self) -> bool {
        &&& (forall|i: int, j: int|
            0 <= i < j < self.order().len() ==> #[trigger] self.order()[i] != #[trigger] self.order()[j])
        &&& (forall|i: int|
            0 <= i < self.order().len() ==> self.entries().contains_key(#[trigger] self.order()[i]))
        &&& (forall|k: Seq<char>| #[trigger] self.entries().contains_key(k) ==> self.order().contains(k))
    }

    /// An empty directory.
    pub fn new() -> (r: Self)
        ensures
            r.wf(),
            r.entries() == Map::<Seq<char>, V>::empty(),
            r.order() == Seq::<Seq<char>>::empty(),
    {
        let r = Registry { map: StringHashMap::new(), ids: Vec::new() };
        proof {
            assert(r.order() =~= Seq::<Seq<char>>::empty());
        }
        r
    }

    /// Registers a session's mailbox handle under its id.  A fresh id is
    /// appended to the order; re-registering an id only replaces its handle.
    pub fn insert(&mut self, id: String, handle: V)
        requires
            old(self).wf(),
        ensures
            final(self).wf(),
            final(self).entries() == old(self).entries().insert(id@, handle),
            old(self).entries().contains_key(id@) ==> final(self).order() == old(self).order(),
            !old(self).entries().contains_key(id@) ==> final(self).order() == old(self).order().push(
                id@,
            ),
    {
        let ghost gid = id@;
        let fresh = !self.map.contains_key(id.as_str());
        if fresh {
            self.ids.push(id.clone());
        }
        self.map.insert(id, handle);
        proof {
            if fresh {
                assert(self.order() =~= old(self).order().push(gid));
            } else {
                assert(self.order() =~= old(self).order());
            }
            assert forall|k: Seq<char>| #[trigger] self.entries().contains_key(k) implies self.order().contains(k) by {
                if k == gid {
                    if fresh {
                        assert(self.order()[self.order().len() - 1] == k);
                    } else {
                        assert(old(self).entries().contains_key(k));
                        let w = choose|w: int|
                            0 <= w < old(self).order().len() && old(self).order()[w] == k;
                        assert(self.order()[w] == k);
                    }
                } else {
                    assert(old(self).entries().contains_key(k));
                    let w = choose|w: int|
                        0 <= w < old(self).order().len() && old(self).order()[w] == k;
                    assert(self.order()[w] == k);
                }
            }
        }
    }

    /// The handle registered under an id, if any.
    pub fn get<'a>(&'a self, id: &str) -> (r: Option<&'a V>)
        ensures
            (match r {
                Some(v) => self.entries().contains_key(id@) && *v == self.entries()[id@],
                None => !self.entries().contains_key(id@),
            }),
    {
        self.map.get(id)
    }

    /// Whether a session with this id is registered.
    pub fn contains(&self, id: &str) -> (r: bool)
        ensures
            r == self.entries().contains_key(id@),
    {
        self.map.contains_key(id)
    }

    /// Drops a session from the directory; its id fails lookup afterwards.
    pub fn remove(&mut self, id: &str)
        requires
            old(self).wf(),
        ensures
            final(self).wf(),
            final(self).entries() == old(self).entries().remove(id@),
            !final(self).entries().contains_key(id@),
            !final(self).order().contains(id@),
            forall|k: Seq<char>|
                k != id@ ==> (final(self).order().contains(k) <==> old(self).order().contains(k)),
    {
        self.map.remove(id);
        let ghost old_ids = self.ids@;
        let mut i: usize = 0;
        while i < self.ids.len()
            invariant
                old(self).wf(),
                old_ids == old(self).ids@,
                self.ids@ == old_ids,
                self.map@ == old(self).map@.remove(id@),
                i <= old_ids.len(),
                forall|j: int| 0 <= j < i ==> #[trigger] old_ids[j]@ != id@,
            decreases self.ids.len() - i,
        {
            if str_eq(self.ids[i].as_str(), id) {
                self.ids.remove(i);
                proof {
                    Self::lemma_order_after_removal(*old(self), *self, id@, i as int);
                }
                return ;
            }
            i += 1;
        }
        proof {
            assert(self.order() =~= old(self).order());
            if self.order().contains(id@) {
                let w = choose|w: int|
                    0 <= w < old(self).order().len() && old(self).order()[w] == id@;
                assert(old_ids[w]@ != id@);
            }
            assert forall|w: int| 0 <= w < self.order().len() implies self.entries().contains_key(
                #[trigger] self.order()[w],
            ) by {
                assert(old(self).entries().contains_key(old(self).order()[w]));
                assert(old_ids[w]@ != id@);
            }
            assert forall|k: Seq<char>| #[trigger] self.entries().contains_key(k) implies self.order().contains(
                k,
            ) by {
                assert(old(self).entries().contains_key(k));
                assert(old(self).order().contains(k));
            }
        }
    }

    /// After `ids` lost position `at` (which held `id`), the order keeps
    /// every other id, keeps its uniqueness, and matches the map again.
    proof fn lemma_order_after_removal(pre: Self, post: Self, id: Seq<char>, at: int)
        requires
            pre.wf(),
            0 <= at < pre.order().len(),
            pre.order()[at] == id,
            forall|j: int| 0 <= j < at ==> #[trigger] pre.order()[j] != id,
            post.ids@ == pre.ids@.remove(at),
            post.map@ == pre.map@.remove(id),
        ensures
            post.wf(),
            !post.order().contains(id),
            forall|k: Seq<char>| k != id ==> (post.order().contains(k) <==> pre.order().contains(k)),
    {
        assert(post.order() =~= pre.order().remove(at));
        let pord = pre.order();
        let nord = post.order();
        assert forall|k: Seq<char>| nord.contains(k) implies (k != id && pord.contains(k)) by {
            let w = choose|w: int| 0 <= w < nord.len() && nord[w] == k;
            if w < at {
                assert(pord[w] == k);
            } else {
                assert(pord[w + 1] == k);
            }
        }
        assert forall|k: Seq<char>| k != id && pord.contains(k) implies nord.contains(k) by {
            let w = choose|w: int| 0 <= w < pord.len() && pord[w] == k;
            if w < at {
                assert(nord[w] == k);
            } else {
                assert(w != at);
                assert(nord[w - 1] == k);
            }
        }
        assert forall|k: Seq<char>| #[trigger] post.entries().contains_key(k) implies nord.contains(
            k,
        ) by {
            assert(pre.entries().contains_key(k));
            assert(k != id);
            assert(pord.contains(k));
        }
    }

    /// A snapshot of every registered id, oldest registration first.  No
    /// ordering is promised to callers beyond matching the internal order.
    pub fn list(&self) -> (r: Vec<String>)
        ensures
            r@.len() == self.order().len(),
            forall|i: int| 0 <= i < r@.len() ==> #[trigger] r@[i]@ == self.order()[i],
    {
        let mut r: Vec<String> = Vec::new();
        let mut i: usize = 0;
        while i < self.ids.len()
            invariant
                i <= self.ids@.len(),
                r@.len() == i,
                forall|j: int| 0 <= j < i ==> #[trigger] r@[j]@ == self.ids@[j]@,
            decreases self.ids.len() - i,
        {
            let s = self.ids[i].clone();
            r.push(s);
            i += 1;
        }
        r
    }

    /// The number of registered sessions.
    pub fn len(&self) -> (r: usize)
        ensures
            r == self.entries().len(),
    {
        self.map.len()
    }

    /// The dispatch epilogue: a session whose reply reports its terminal
    /// transition is dropped from the directory, so a later command to the
    /// same id fails with "session not found".  An `Ok` reply changes nothing.
    pub fn remove_on_exit(&mut self, id: &str, status: &SessionResponseStatus)
        requires
            old(self).wf(),
        ensures
            final(self).wf(),
            status is SessionExit ==> final(self).entries() == old(self).entries().remove(id@)
                && !final(self).entries().contains_key(id@),
            status is SessionOk ==> *final(self) == *old(self),
    {
        match status {
            SessionResponseStatus::SessionExit => self.remove(id),
            SessionResponseStatus::SessionOk => {},
        }
    }
}

/// The directory after every id in `ids` has removed itself, front to back.
pub open spec fn remove_all<V>(m: Map<Seq<char>, V>, ids: Seq<Seq<char>>) -> Map<Seq<char>, V>
    decreases ids.len(),
{
    if ids.len() == 0 {
        m
    } else {
        remove_all(m.remove(ids[0]), ids.drop_first())
    }
}

/// Law (shutdown fan-out): when the stop command reaches every listed
/// session and each removes itself, the directory ends empty, and every
/// previously valid id fails lookup.
pub proof fn lemma_shutdown_empties<V>(m: Map<Seq<char>, V>, ids: Seq<Seq<char>>)
    requires
        forall|k: Seq<char>| #[trigger] m.contains_key(k) ==> ids.contains(k),
    ensures
        remove_all(m, ids) == Map::<Seq<char>, V>::empty(),
        forall|k: Seq<char>| !remove_all(m, ids).contains_key(k),
    decreases ids.len(),
{
    if ids.len() == 0 {
        assert forall|k: Seq<char>| !m.contains_key(k) by {
            if m.contains_key(k) {
                assert(ids.contains(k));
            }
        }
        assert(remove_all(m, ids) =~= Map::<Seq<char>, V>::empty());
    } else {
        let m1 = m.remove(ids[0]);
        assert forall|k: Seq<char>| #[trigger] m1.contains_key(k) implies ids.drop_first().contains(
            k,
        ) by {
            assert(m.contains_key(k));
            assert(ids.contains(k));
            let i = choose|i: int| 0 <= i < ids.len() && ids[i] == k;
            assert(k != ids[0]);
            assert(i != 0);
            assert(ids.drop_first()[i - 1] == k);
        }
        lemma_shutdown_empties(m1, ids.drop_first());
    }
}

} // verus!
