//! The connection registry: for each user identity, the outbound queue of
//! the session that registered last.
//!
//! Registering replaces whatever entry the identity had. A session that
//! closes takes its own entry out with `release`, which leaves alone an
//! entry that a newer session has put in its place.

use std::collections::HashMap;
use vstd::prelude::*;

verus! {

broadcast use vstd::std_specs::hash::group_hash_axioms;

/// A registered connection: the session that owns it and the handle of its
/// outbound queue.
pub struct Entry<C> {
    pub session: u64,
    pub outbound: C,
}

/// The registry: at most one entry per user identity.
pub struct Registry<C> {
    entries: HashMap<i64, Entry<C>>,
}

impl<C> View for Registry<C> {
    type V = Map<i64, Entry<C>>;

    closed spec fn view(&self) -> Map<i64, Entry<C>> {
        self.entries@
    }
}

/// The members of `members` that have an entry in `online`, in order.
pub open spec fn online_among<C>(members: Seq<i64>, online: Map<i64, Entry<C>>) -> Seq<i64> {
    members.filter(|m: i64| online.contains_key(m))
}

impl<C> Registry<C> {
    /// A registry with no entries.
    pub fn new() -> (r: Registry<C>)
        ensures
            r@ == Map::<i64, Entry<C>>::empty(),
    {
        Registry { entries: HashMap::new() }
    }

    /// Makes `outbound`, owned by `session`, the entry of `user_id`,
    /// replacing any earlier one.
    pub fn register(&mut self, user_id: i64, session: u64, outbound: C)
        ensures
            final(self)@ == old(self)@.insert(user_id, Entry { session, outbound }),
    {
        self.entries.insert(user_id, Entry { session, outbound });
    }

    /// The current entry of `user_id`, if it has one.
    pub fn lookup(&self, user_id: i64) -> (r: Option<&Entry<C>>)
        ensures
            r matches Some(e) ==> self@.contains_key(user_id) && *e == self@[user_id],
            r is None ==> !self@.contains_key(user_id),
    {
        self.entries.get(&user_id)
    }

    /// Whether `user_id` has a live entry.
    pub fn is_online(&self, user_id: i64) -> (r: bool)
        ensures
            r == self@.contains_key(user_id),
    {
        self.entries.contains_key(&user_id)
    }

    /// Takes out the entry of `user_id` if `session` owns it; returns whether
    /// it did. An entry of another session stays.
    pub fn release(&mut self, user_id: i64, session: u64) -> (r: bool)
        ensures
            r == (old(self)@.contains_key(user_id) && old(self)@[user_id].session == session),
            r ==> final(self)@ == old(self)@.remove(user_id),
            !r ==> final(self)@ == old(self)@,
    {
        let owned = match self.entries.get(&user_id) {
            Some(e) => e.session == session,
            None => false,
        };
        if owned {
            self.entries.remove(&user_id);
        }
        owned
    }

    /// The members that are online, in the order given.
    pub fn online_members(&self, members: &Vec<i64>) -> (r: Vec<i64>)
        ensures
            r@ == online_among(members@, self@),
    {
        let mut out: Vec<i64> = Vec::new();
        let mut i: usize = 0;
        while i < members.len()
            invariant
                i <= members.len(),
                out@ == online_among(members@.subrange(0, i as int), self@),
            decreases members.len() - i,
        {
            let m = members[i];
            proof {
                let pre = members@.subrange(0, i as int);
                assert(members@.subrange(0, i + 1) =~= pre.push(m));
                pre.lemma_filter_push(m, |x: i64| self@.contains_key(x));
            }
            if self.entries.contains_key(&m) {
                out.push(m);
            }
            i = i + 1;
        }
        assert(members@.subrange(0, members.len() as int) =~= members@);
        out
    }
}

/// Last registration wins: after `user_id` is registered twice, the second
/// time by `second` with queue `c2`, a lookup of `user_id` finds the second
/// connection and never the first, and the entries of other users are as
/// they were before either registration.
pub proof fn lemma_last_registration_wins<C>(
    before: Map<i64, Entry<C>>,
    user_id: i64,
    first: u64,
    c1: C,
    second: u64,
    c2: C,
)
    ensures
        ({
            let after = before.insert(user_id, Entry { session: first, outbound: c1 }).insert(
                user_id,
                Entry { session: second, outbound: c2 },
            );
            &&& after.contains_key(user_id)
            &&& after[user_id] == Entry { session: second, outbound: c2 }
            &&& forall|u: i64| u != user_id ==> after.contains_key(u) == before.contains_key(u)
            &&& forall|u: i64| u != user_id && before.contains_key(u) ==> after[u] == before[u]
        }),
{
}

/// The online members are exactly the members that have an entry.
pub proof fn lemma_online_among_exact<C>(members: Seq<i64>, online: Map<i64, Entry<C>>)
    ensures
        forall|u: i64|
            online_among(members, online).contains(u) <==> (members.contains(u)
                && online.contains_key(u)),
{
    let pred = |m: i64| online.contains_key(m);
    assert forall|u: i64|
        online_among(members, online).contains(u) <==> (members.contains(u) && online.contains_key(
            u,
        )) by {
        let f = members.filter(pred);
        if f.contains(u) {
            members.lemma_filter_contains_rev(pred, u);
            let i = choose|i: int| 0 <= i < f.len() && f[i] == u;
            members.lemma_filter_pred(pred, i);
        }
        if members.contains(u) && online.contains_key(u) {
            let i = choose|i: int| 0 <= i < members.len() && members[i] == u;
            members.lemma_filter_contains(pred, i);
        }
    }
}

} // verus!
