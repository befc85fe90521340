//! Where the thrusters are mounted.
//!
//! A thruster names the link that carries it by the link's number, counted
//! from one.

use vstd::prelude::*;

verus! {

/// A thruster's parent entry names one of `links` links, counted from one.
pub open spec fn thruster_ok(thruster_parents: Seq<u16>, links: nat, k: int) -> bool {
    1 <= thruster_parents[k] <= links
}

/// Checks the thruster parents in order and reports the first thruster
/// that sits on no link.
pub fn first_bad_thruster(thruster_parents: &Vec<u16>, links: usize) -> (r: Option<usize>)
    ensures
        match r {
            None => forall|k: int|
                0 <= k < thruster_parents.len() ==> thruster_ok(
                    thruster_parents@,
                    links as nat,
                    k,
                ),
            Some(t) => {
                &&& t < thruster_parents.len()
                &&& !thruster_ok(thruster_parents@, links as nat, t as int)
                &&& forall|k: int|
                    0 <= k < t ==> thruster_ok(thruster_parents@, links as nat, k)
            },
        },
{
    let n: usize = thruster_parents.len();
    let mut k: usize = 0;
    while k < n
        invariant
            k <= n,
            n == thruster_parents.len(),
            forall|j: int| 0 <= j < k ==> thruster_ok(thruster_parents@, links as nat, j),
        decreases n - k,
    {
        let p: usize = thruster_parents[k] as usize;
        if p < 1 || p > links {
            return Some(k);
        }
        k += 1;
    }
    None
}

/// Link that carries thruster `k`, counted from zero; `None` where the
/// thruster or the link does not exist.
pub open spec fn spec_thruster_link(thruster_parents: Seq<u16>, links: nat, k: int) -> Option<
    usize,
> {
    if 0 <= k < thruster_parents.len() && thruster_ok(thruster_parents, links, k) {
        Some((thruster_parents[k] - 1) as usize)
    } else {
        None
    }
}

/// Looks up the link that carries thruster `k`.
pub fn thruster_link_of(thruster_parents: &Vec<u16>, links: usize, k: usize) -> (r: Option<usize>)
    ensures
        r == spec_thruster_link(thruster_parents@, links as nat, k as int),
{
    if k >= thruster_parents.len() {
        return None;
    }
    let p: usize = thruster_parents[k] as usize;
    if p < 1 || p > links {
        None
    } else {
        Some(p - 1)
    }
}

/// `list` holds the thrusters mounted on `link` (counted from zero): all of
/// them, no other, in rising order.
pub open spec fn lists_mounted(list: Seq<usize>, thruster_parents: Seq<u16>, link: nat) -> bool {
    &&& forall|j: int|
        0 <= j < list.len() ==> list[j] < thruster_parents.len() && thruster_parents[list[j] as int]
            == link + 1
    &&& forall|a: int, b: int| 0 <= a < b < list.len() ==> list[a] < list[b]
    &&& forall|k: int|
        0 <= k < thruster_parents.len() && thruster_parents[k] == link + 1 ==> list.contains(
            k as usize,
        )
}

/// `list` holds, in rising order, the thrusters below `below` that are
/// mounted on `link`.
spec fn lists_below(list: Seq<usize>, thruster_parents: Seq<u16>, link: nat, below: int) -> bool {
    &&& below <= thruster_parents.len()
    &&& forall|j: int|
        0 <= j < list.len() ==> list[j] < below && thruster_parents[list[j] as int] == link + 1
    &&& forall|a: int, b: int| 0 <= a < b < list.len() ==> list[a] < list[b]
    &&& forall|k: int|
        0 <= k < below && thruster_parents[k] == link + 1 ==> list.contains(k as usize)
}

proof fn lemma_below_unique(
    a: Seq<usize>,
    b: Seq<usize>,
    thruster_parents: Seq<u16>,
    link: nat,
    below: int,
)
    requires
        lists_below(a, thruster_parents, link, below),
        lists_below(b, thruster_parents, link, below),
    ensures
        a == b,
    decreases a.len(),
{
    if a.len() == 0 {
        if b.len() > 0 {
            assert(a.contains(b[0]));
        }
        assert(a =~= b);
    } else {
        let m = a.last();
        assert(b.contains(m));
        let j = choose|j: int| 0 <= j < b.len() && b[j] == m;
        if b.last() != m {
            assert(b[j] < b[b.len() - 1]);
            assert(a.contains(b.last()));
            let i = choose|i: int| 0 <= i < a.len() && a[i] == b.last();
            if i < a.len() - 1 {
                assert(a[i] < a[a.len() - 1]);
            }
        }
        let a0 = a.drop_last();
        let b0 = b.drop_last();
        assert forall|k: int|
            0 <= k < m && thruster_parents[k] == link + 1 implies a0.contains(k as usize) by {
            assert(a.contains(k as usize));
            let i = choose|i: int| 0 <= i < a.len() && a[i] == k as usize;
            assert(a0[i] == k as usize);
        }
        assert forall|k: int|
            0 <= k < m && thruster_parents[k] == link + 1 implies b0.contains(k as usize) by {
            assert(b.contains(k as usize));
            let i = choose|i: int| 0 <= i < b.len() && b[i] == k as usize;
            assert(b0[i] == k as usize);
        }
        assert forall|j: int| 0 <= j < a0.len() implies a0[j] < m by {
            assert(a[j] < a[a.len() - 1]);
        }
        assert forall|j: int| 0 <= j < b0.len() implies b0[j] < m by {
            assert(b[j] < b[b.len() - 1]);
        }
        lemma_below_unique(a0, b0, thruster_parents, link, m as int);
        assert(a =~= a0.push(m));
        assert(b =~= b0.push(m));
    }
}

/// The thrusters on a link have one listing only.
pub proof fn lemma_listing_unique(
    a: Seq<usize>,
    b: Seq<usize>,
    thruster_parents: Seq<u16>,
    link: nat,
)
    requires
        lists_mounted(a, thruster_parents, link),
        lists_mounted(b, thruster_parents, link),
    ensures
        a == b,
{
    lemma_below_unique(a, b, thruster_parents, link, thruster_parents.len() as int);
}

/// Lists, in rising order, the thrusters mounted on `link` (counted from
/// zero).
pub fn thrusters_on_link(thruster_parents: &Vec<u16>, link: usize) -> (r: Vec<usize>)
    ensures
        lists_mounted(r@, thruster_parents@, link as nat),
{
    let n: usize = thruster_parents.len();
    let mut out: Vec<usize> = Vec::new();
    let mut k: usize = 0;
    while k < n
        invariant
            k <= n,
            n == thruster_parents.len(),
            forall|j: int|
                0 <= j < out.len() ==> out[j] < k && thruster_parents[out[j] as int] == link + 1,
            forall|a: int, b: int| 0 <= a < b < out.len() ==> out[a] < out[b],
            forall|i: int|
                0 <= i < k && thruster_parents[i] == link + 1 ==> out@.contains(i as usize),
        decreases n - k,
    {
        let p: usize = thruster_parents[k] as usize;
        if p >= 1 && p - 1 == link {
            let ghost before = out@;
            out.push(k);
            proof {
                assert(out@[before.len() as int] == k);
                assert forall|i: int|
                    0 <= i < k + 1 && thruster_parents[i] == link + 1 implies out@.contains(
                    i as usize,
                ) by {
                    if i < k {
                        let j = choose|j: int| 0 <= j < before.len() && before[j] == i as usize;
                        assert(out@[j] == i as usize);
                    }
                }
            }
        }
        k += 1;
    }
    out
}

} // verus!
