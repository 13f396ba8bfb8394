//! The registry of handlers that the host calls back by id, and the steps
//! that keep it in line with what the host has accepted.

use vstd::prelude::*;
use vstd::hash_map::StringHashMap;

verus! {

broadcast use vstd::hash_map::group_hash_map_axioms;

/// `r` holds, in order, the ids of `s` and clones of its handlers.
pub open spec fn handler_clones<H: Clone>(r: Seq<(String, H)>, s: Seq<(Seq<char>, H)>) -> bool {
    &&& r.len() == s.len()
    &&& forall|i: int| 0 <= i < r.len() ==> (#[trigger] r[i]).0@ == s[i].0 && cloned(s[i].1, r[i].1)
}

/// The characters of each string, in order.
pub open spec fn string_views(v: Seq<String>) -> Seq<Seq<char>> {
    v.map_values(|s: String| s@)
}

/// The ids of `pairs`, in order.
pub open spec fn ids_of<H>(pairs: Seq<(String, H)>) -> Seq<Seq<char>> {
    pairs.map_values(|p: (String, H)| p.0@)
}

/// The map after inserting `pairs` one after another: a later pair with an
/// id already present replaces the earlier handler.
pub open spec fn extended<H>(m: Map<Seq<char>, H>, pairs: Seq<(String, H)>) -> Map<Seq<char>, H>
    decreases pairs.len(),
{
    if pairs.len() == 0 {
        m
    } else {
        extended(m, pairs.drop_last()).insert(pairs.last().0@, pairs.last().1)
    }
}

/// The map without any of the keys in `ids`.
pub open spec fn without_ids<H>(m: Map<Seq<char>, H>, ids: Seq<Seq<char>>) -> Map<Seq<char>, H> {
    m.remove_keys(ids.to_set())
}

/// Handlers registered by id.
#[verifier::reject_recursive_types(H)]
pub struct HandlerRegistry<H> {
    handlers: StringHashMap<H>,
}

impl<H> View for HandlerRegistry<H> {
    type V = Map<Seq<char>, H>;

    closed spec fn view(&self) -> Map<Seq<char>, H> {
        self.handlers@
    }
}

impl<H> HandlerRegistry<H> {
    /// A registry with no handlers.
    pub fn new() -> (r: Self)
        ensures
            r@ == Map::<Seq<char>, H>::empty(),
    {
        Self { handlers: StringHashMap::new() }
    }

    /// Registers every pair in order; a later pair replaces an earlier
    /// handler with the same id.
    pub fn extend(&mut self, pairs: Vec<(String, H)>)
        ensures
            final(self)@ == extended(old(self)@, pairs@),
    {
        let ghost all = pairs@;
        let ghost start = self@;
        let mut rest = pairs;
        while rest.len() > 0
            invariant
                rest@.len() <= all.len(),
                rest@ == all.skip(all.len() - rest@.len()),
                self@ == extended(start, all.take(all.len() - rest@.len())),
            decreases rest.len(),
        {
            let ghost k = all.len() - rest@.len();
            let p = rest.remove(0);
            assert(p == all[k]);
            assert(all.take(k + 1).drop_last() =~= all.take(k));
            assert(rest@ =~= all.skip(k + 1));
            self.handlers.insert(p.0, p.1);
        }
        assert(all.take(all.len() as int) =~= all);
    }

    /// Registers `handler` under `id`, replacing any handler with that id.
    pub fn insert(&mut self, id: String, handler: H)
        ensures
            final(self)@ == old(self)@.insert(id@, handler),
    {
        self.handlers.insert(id, handler);
    }

    /// Unregisters the handler with the given id, if any.
    pub fn remove(&mut self, id: &str)
        ensures
            final(self)@ == old(self)@.remove(id@),
    {
        self.handlers.remove(id);
    }

    /// Unregisters the handlers with any of the given ids.
    pub fn remove_all(&mut self, ids: &[String])
        ensures
            final(self)@ == without_ids(old(self)@, string_views(ids@)),
    {
        let ghost start = self@;
        let ghost keys = string_views(ids@);
        let n = ids.len();
        let mut i: usize = 0;
        while i < n
            invariant
                n == ids@.len(),
                keys == string_views(ids@),
                0 <= i <= n,
                self@ == without_ids(start, keys.take(i as int)),
            decreases n - i,
        {
            self.handlers.remove(ids[i].as_str());
            assert(keys.take(i + 1) =~= keys.take(i as int).push(keys[i as int]));
            proof {
                keys.take(i as int).lemma_push_to_set_commute(keys[i as int]);
            }
            assert(without_ids(start, keys.take(i + 1)) =~= without_ids(start, keys.take(i as int)).remove(keys[i as int]));
            i += 1;
        }
        assert(keys.take(n as int) =~= keys);
    }

    /// The handler registered under `id`, if any.
    pub fn get(&self, id: &str) -> (r: Option<&H>)
        ensures
            match r {
                Some(h) => self@.contains_key(id@) && *h == self@[id@],
                None => !self@.contains_key(id@),
            },
    {
        self.handlers.get(id)
    }

    /// The number of registered handlers.
    pub fn len(&self) -> (r: usize)
        ensures
            r == self@.len(),
    {
        self.handlers.len()
    }
}

/// The ids of the handler pairs, in order.
pub fn handler_ids<H>(pairs: &Vec<(String, H)>) -> (r: Vec<String>)
    ensures
        string_views(r@) == ids_of(pairs@),
{
    let n = pairs.len();
    let mut r: Vec<String> = Vec::new();
    let mut i: usize = 0;
    while i < n
        invariant
            n == pairs@.len(),
            0 <= i <= n,
            r@.len() == i,
            string_views(r@) == ids_of(pairs@.take(i as int)),
        decreases n - i,
    {
        let ghost before = r@;
        let id = pairs[i].0.clone();
        r.push(id);
        assert forall|k: int| 0 <= k < i + 1 implies string_views(r@)[k] == ids_of(pairs@.take(i + 1))[k] by {
            if k < i {
                assert(r@[k] == before[k]);
                assert(string_views(before)[k] == ids_of(pairs@.take(i as int))[k]);
            }
        }
        assert(string_views(r@) =~= ids_of(pairs@.take(i + 1)));
        i += 1;
    }
    assert(pairs@.take(n as int) =~= pairs@);
    r
}

/// Settles handlers that were registered ahead of asking the host to show
/// them: when the host refused, the handlers with the given ids are
/// unregistered again; when it accepted, they stay.
pub fn settle_registration<H>(registry: &mut HandlerRegistry<H>, ids: &[String], accepted: bool)
    ensures
        final(registry)@ == if accepted {
            old(registry)@
        } else {
            without_ids(old(registry)@, string_views(ids@))
        },
{
    if !accepted {
        registry.remove_all(ids);
    }
}

/// Settles the removal of a handler that the host was asked to drop: it is
/// unregistered only when the host accepted.
pub fn settle_removal<H>(registry: &mut HandlerRegistry<H>, id: &str, accepted: bool)
    ensures
        final(registry)@ == if accepted {
            old(registry)@.remove(id@)
        } else {
            old(registry)@
        },
{
    if accepted {
        registry.remove(id);
    }
}

/// Removing a set of keys that covers every id of `pairs` undoes inserting `pairs`.
proof fn lemma_extended_removed<H>(m: Map<Seq<char>, H>, pairs: Seq<(String, H)>, keys: Set<Seq<char>>)
    requires
        forall|i: int| 0 <= i < pairs.len() ==> keys.contains(#[trigger] pairs[i].0@),
    ensures
        extended(m, pairs).remove_keys(keys) == m.remove_keys(keys),
    decreases pairs.len(),
{
    if pairs.len() > 0 {
        let init = pairs.drop_last();
        assert forall|i: int| 0 <= i < init.len() implies keys.contains(#[trigger] init[i].0@) by {
            assert(init[i] == pairs[i]);
        }
        lemma_extended_removed(m, init, keys);
        assert(keys.contains(pairs[pairs.len() - 1].0@));
        assert(extended(m, pairs).remove_keys(keys) =~= extended(m, init).remove_keys(keys));
    }
}

/// A registration that the host refused, once settled, leaves no handler
/// under any of its ids and every other handler as it was.
pub proof fn law_refused_registration<H>(m: Map<Seq<char>, H>, pairs: Seq<(String, H)>)
    ensures
        without_ids(extended(m, pairs), ids_of(pairs)) == without_ids(m, ids_of(pairs)),
        forall|i: int| 0 <= i < pairs.len() ==> !(#[trigger] without_ids(extended(m, pairs), ids_of(pairs)).contains_key(pairs[i].0@)),
{
    let keys = ids_of(pairs).to_set();
    assert forall|i: int| 0 <= i < pairs.len() implies keys.contains(#[trigger] pairs[i].0@) by {
        assert(ids_of(pairs)[i] == pairs[i].0@);
    }
    lemma_extended_removed(m, pairs, keys);
}

/// A registration that the host accepted holds, under each of its ids, the
/// handler of the last pair with that id, and leaves every other id as it was.
pub proof fn law_accepted_registration<H>(m: Map<Seq<char>, H>, pairs: Seq<(String, H)>)
    ensures
        forall|i: int| 0 <= i < pairs.len() ==> #[trigger] extended(m, pairs).contains_key(pairs[i].0@),
        forall|i: int| 0 <= i < pairs.len() && (forall|j: int| i < j < pairs.len() ==> pairs[j].0@ != pairs[i].0@) ==> #[trigger] extended(m, pairs)[pairs[i].0@] == pairs[i].1,
        forall|k: Seq<char>| !ids_of(pairs).contains(k) ==> (#[trigger] extended(m, pairs).contains_key(k) == m.contains_key(k) && (m.contains_key(k) ==> extended(m, pairs)[k] == m[k])),
    decreases pairs.len(),
{
    if pairs.len() > 0 {
        let init = pairs.drop_last();
        law_accepted_registration(m, init);
        let last = pairs[pairs.len() - 1];
        assert(extended(m, pairs) == extended(m, init).insert(last.0@, last.1));
        assert forall|i: int| 0 <= i < pairs.len() implies #[trigger] extended(m, pairs).contains_key(pairs[i].0@) by {
            if i < init.len() {
                assert(init[i] == pairs[i]);
                assert(extended(m, init).contains_key(init[i].0@));
            }
        }
        assert forall|i: int| 0 <= i < pairs.len() && (forall|j: int| i < j < pairs.len() ==> pairs[j].0@ != pairs[i].0@) implies #[trigger] extended(m, pairs)[pairs[i].0@] == pairs[i].1 by {
            if i < init.len() {
                assert(init[i] == pairs[i]);
                assert(pairs[pairs.len() - 1].0@ != pairs[i].0@);
                assert forall|j: int| i < j < init.len() implies init[j].0@ != init[i].0@ by {
                    assert(init[j] == pairs[j]);
                }
                assert(extended(m, init)[init[i].0@] == init[i].1);
            }
        }
        assert forall|k: Seq<char>| !ids_of(pairs).contains(k) implies (#[trigger] extended(m, pairs).contains_key(k) == m.contains_key(k) && (m.contains_key(k) ==> extended(m, pairs)[k] == m[k])) by {
            assert(ids_of(pairs)[pairs.len() - 1] == last.0@);
            if ids_of(init).contains(k) {
                let j = choose|j: int| 0 <= j < ids_of(init).len() && ids_of(init)[j] == k;
                assert(init[j] == pairs[j]);
                assert(ids_of(pairs)[j] == k);
            }
            assert(extended(m, init).contains_key(k) == m.contains_key(k));
        }
    }
}

} // verus!
