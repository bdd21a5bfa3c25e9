use vstd::prelude::*;
use crate::model::Checkin;

verus! {

broadcast use vstd::seq_lib::group_to_multiset_ensures;

/// What the read route hands out of the stored check-ins.
#[derive(Clone, Copy, Debug, PartialEq, Eq, Structural)]
pub enum ListPolicy {
    /// Only the most recent check-in (the default).
    FirstOnly,
    /// Every check-in, most recent first.
    FullList,
}

impl ListPolicy {
    /// The policy used unless configured otherwise.
    pub fn default_policy() -> (r: ListPolicy)
        ensures
            r == ListPolicy::FirstOnly,
    {
        ListPolicy::FirstOnly
    }
}

/// The payload of a successful read.
#[derive(Debug)]
pub enum Listing {
    /// No check-in is stored (under `FirstOnly`).
    Nothing,
    /// The most recent check-in (under `FirstOnly`).
    One(Checkin),
    /// All check-ins, most recent first (under `FullList`).
    All(Vec<Checkin>),
}

/// `i` is the first position holding the latest `created_at` of `s`.
pub open spec fn is_first_latest(s: Seq<Checkin>, i: int) -> bool {
    &&& 0 <= i < s.len()
    &&& forall|j: int| 0 <= j < s.len() ==> #[trigger] s[j].created_at <= s[i].created_at
    &&& forall|j: int| 0 <= j < i ==> #[trigger] s[j].created_at < s[i].created_at
}

/// `s` runs from the latest `created_at` to the earliest.
pub open spec fn most_recent_first(s: Seq<Checkin>) -> bool {
    forall|i: int, j: int|
        0 <= i < j < s.len() ==> #[trigger] s[i].created_at >= #[trigger] s[j].created_at
}

/// `listing` is what `policy` hands out of the stored check-ins `stored`.
pub open spec fn listing_of(stored: Seq<Checkin>, policy: ListPolicy, listing: Listing) -> bool {
    match policy {
        ListPolicy::FirstOnly => {
            if stored.len() == 0 {
                listing is Nothing
            } else {
                listing matches Listing::One(c) && exists|i: int|
                    is_first_latest(stored, i) && c == #[trigger] stored[i]
            }
        },
        ListPolicy::FullList => {
            listing matches Listing::All(v) && most_recent_first(v@) && v@.to_multiset()
                == stored.to_multiset()
        },
    }
}

/// Position of the most recent check-in; the first such where several share
/// the latest timestamp.
pub fn latest_index(records: &Vec<Checkin>) -> (r: Option<usize>)
    ensures
        r is None <==> records@.len() == 0,
        r matches Some(i) ==> is_first_latest(records@, i as int),
{
    if records.len() == 0 {
        return None;
    }
    let mut best: usize = 0;
    let mut k: usize = 1;
    while k < records.len()
        invariant
            1 <= k <= records@.len(),
            best < k,
            forall|j: int| 0 <= j < k ==> #[trigger] records@[j].created_at <= records@[best as int].created_at,
            forall|j: int| 0 <= j < best ==> #[trigger] records@[j].created_at < records@[best as int].created_at,
        decreases records@.len() - k,
    {
        if records[k].created_at > records[best].created_at {
            best = k;
        }
        k = k + 1;
    }
    Some(best)
}

/// Reorders `records` from the most recent check-in to the oldest.
pub fn order_most_recent_first(records: Vec<Checkin>) -> (r: Vec<Checkin>)
    ensures
        most_recent_first(r@),
        r@.to_multiset() == records@.to_multiset(),
{
    let mut rest = records;
    let mut out: Vec<Checkin> = Vec::new();
    while rest.len() > 0
        invariant
            most_recent_first(out@),
            rest@.to_multiset().add(out@.to_multiset()) == records@.to_multiset(),
        decreases rest@.len(),
    {
        let ghost before = rest@;
        let c = rest.pop().unwrap();
        proof {
            assert(before == rest@.push(c));
        }
        let mut p: usize = 0;
        while p < out.len() && out[p].created_at > c.created_at
            invariant
                p <= out@.len(),
                most_recent_first(out@),
                forall|j: int| 0 <= j < p ==> #[trigger] out@[j].created_at > c.created_at,
            decreases out@.len() - p,
        {
            p = p + 1;
        }
        let ghost prev = out@;
        out.insert(p, c);
        proof {
            assert(out@ == prev.insert(p as int, c));
            assert forall|i: int, j: int| 0 <= i < j < out@.len() implies
                #[trigger] out@[i].created_at >= #[trigger] out@[j].created_at by {
                if j < p {
                } else if j == p {
                } else if i < p {
                    assert(out@[j] == prev[j - 1]);
                } else if i == p {
                    assert(out@[j] == prev[j - 1]);
                    if p < prev.len() {
                        assert(prev[p as int] == out@[p + 1]);
                        assert(prev[p as int].created_at <= c.created_at);
                    }
                } else {
                    assert(out@[i] == prev[i - 1]);
                    assert(out@[j] == prev[j - 1]);
                }
            }
            vstd::seq_lib::to_multiset_insert(prev, p as int, c);
        }
    }
    out
}

/// Selects what `policy` hands out of the stored check-ins.
pub fn select_listing(records: Vec<Checkin>, policy: ListPolicy) -> (r: Listing)
    ensures
        listing_of(records@, policy, r),
{
    match policy {
        ListPolicy::FirstOnly => {
            match latest_index(&records) {
                None => Listing::Nothing,
                Some(i) => {
                    let ghost stored = records@;
                    let mut records = records;
                    let c = records.swap_remove(i);
                    assert(c == stored[i as int]);
                    Listing::One(c)
                },
            }
        },
        ListPolicy::FullList => Listing::All(order_most_recent_first(records)),
    }
}

} // verus!
