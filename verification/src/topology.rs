//! The kinematic tree: a floating base followed by single-axis joints.
//!
//! Parent entries count links from one, and zero names the world, so the
//! parent of link `i` is link `parents[i] - 1`.

use vstd::prelude::*;
use crate::joint::JointType;

verus! {

/// The parent entry of link `i` names the world for the base and an earlier
/// link for every other link.
pub open spec fn parent_ok(parents: Seq<u16>, i: int) -> bool {
    if i == 0 {
        parents[0] == 0
    } else {
        1 <= parents[i] <= i
    }
}

/// The joint of link `i` is the floating joint for the base and a single-axis
/// joint for every other link.
pub open spec fn joint_ok(joint_types: Seq<JointType>, i: int) -> bool {
    (i == 0) <==> (joint_types[i] is SixDOF)
}

/// Index of the link that link `i` hangs from; `-1` for the base.
pub open spec fn parent_link(parents: Seq<u16>, i: int) -> int {
    parents[i] - 1
}

/// A single tree rooted at the floating base, every parent before its child.
pub open spec fn is_tree(joint_types: Seq<JointType>, parents: Seq<u16>) -> bool {
    &&& joint_types.len() >= 1
    &&& parents.len() == joint_types.len()
    &&& forall|i: int| 0 <= i < joint_types.len() ==> joint_ok(joint_types, i)
    &&& forall|i: int| 0 <= i < parents.len() ==> parent_ok(parents, i)
}

/// Number of joints between link `i` and the base, following parent entries.
pub open spec fn depth(parents: Seq<u16>, i: int) -> nat
    decreases i,
{
    if 0 < i < parents.len() && 0 <= parent_link(parents, i) < i {
        1 + depth(parents, parent_link(parents, i))
    } else {
        0
    }
}

/// The ancestor of link `i` that lies `k` joints towards the base.
pub open spec fn ancestor(parents: Seq<u16>, i: int, k: nat) -> int
    decreases k,
{
    if k == 0 {
        i
    } else {
        ancestor(parents, parent_link(parents, i), (k - 1) as nat)
    }
}

/// Sum of the generalized coordinates of the first `n` joints.
pub open spec fn dof_sum(joint_types: Seq<JointType>, n: int) -> nat
    decreases n,
{
    if n <= 0 {
        0
    } else {
        dof_sum(joint_types, n - 1) + joint_types[n - 1].spec_dof()
    }
}

/// In a tree every link reaches the base after `depth` steps towards it, and
/// in no more steps than its own index: the parent relation has no cycle.
pub proof fn lemma_tree_reaches_base(joint_types: Seq<JointType>, parents: Seq<u16>, i: int)
    requires
        is_tree(joint_types, parents),
        0 <= i < parents.len(),
    ensures
        depth(parents, i) <= i,
        ancestor(parents, i, depth(parents, i)) == 0,
    decreases i,
{
    if i > 0 {
        assert(parent_ok(parents, i));
        let p = parent_link(parents, i);
        lemma_tree_reaches_base(joint_types, parents, p);
    }
}

/// A tree of `n` links has `n + 5` generalized coordinates: six for the
/// base and one for each joint.
pub proof fn lemma_tree_dof(joint_types: Seq<JointType>, parents: Seq<u16>)
    requires
        is_tree(joint_types, parents),
    ensures
        dof_sum(joint_types, joint_types.len() as int) == joint_types.len() + 5,
{
    lemma_dof_prefix(joint_types, joint_types.len() as int);
}

proof fn lemma_dof_prefix(joint_types: Seq<JointType>, n: int)
    requires
        1 <= n <= joint_types.len(),
        forall|i: int| 0 <= i < joint_types.len() ==> joint_ok(joint_types, i),
    ensures
        dof_sum(joint_types, n) == n + 5,
    decreases n,
{
    assert(joint_ok(joint_types, n - 1));
    if n > 1 {
        lemma_dof_prefix(joint_types, n - 1);
    } else {
        assert(dof_sum(joint_types, 0) == 0);
    }
}

/// The sum of generalized coordinates never shrinks as joints are added.
pub proof fn lemma_dof_sum_grows(joint_types: Seq<JointType>, m: int, n: int)
    requires
        m <= n,
    ensures
        dof_sum(joint_types, m) <= dof_sum(joint_types, n),
    decreases n - m,
{
    if m < n {
        lemma_dof_sum_grows(joint_types, m, n - 1);
    }
}

/// Checks the joint kinds in order and reports the first link that breaks
/// the rule.
pub fn first_bad_joint(joint_types: &Vec<JointType>) -> (r: Option<usize>)
    ensures
        match r {
            None => forall|i: int| 0 <= i < joint_types.len() ==> joint_ok(joint_types@, i),
            Some(k) => {
                &&& k < joint_types.len()
                &&& !joint_ok(joint_types@, k as int)
                &&& forall|i: int| 0 <= i < k ==> joint_ok(joint_types@, i)
            },
        },
{
    let n: usize = joint_types.len();
    let mut i: usize = 0;
    while i < n
        invariant
            i <= n,
            n == joint_types.len(),
            forall|j: int| 0 <= j < i ==> joint_ok(joint_types@, j),
        decreases n - i,
    {
        if joint_types[i].is_floating() != (i == 0) {
            return Some(i);
        }
        i += 1;
    }
    None
}

/// Checks the parent entries in order and reports the first link whose
/// parent is not an earlier link (or, for the base, not the world).
pub fn first_bad_parent(parents: &Vec<u16>) -> (r: Option<usize>)
    ensures
        match r {
            None => forall|i: int| 0 <= i < parents.len() ==> parent_ok(parents@, i),
            Some(k) => {
                &&& k < parents.len()
                &&& !parent_ok(parents@, k as int)
                &&& forall|i: int| 0 <= i < k ==> parent_ok(parents@, i)
            },
        },
{
    let n: usize = parents.len();
    let mut i: usize = 0;
    while i < n
        invariant
            i <= n,
            n == parents.len(),
            forall|j: int| 0 <= j < i ==> parent_ok(parents@, j),
        decreases n - i,
    {
        let p: usize = parents[i] as usize;
        let ok: bool = if i == 0 {
            p == 0
        } else {
            1 <= p && p <= i
        };
        if !ok {
            return Some(i);
        }
        i += 1;
    }
    None
}

/// Adds up the generalized coordinates of all joints; `None` where the sum
/// does not fit the machine word.
pub fn total_dof(joint_types: &Vec<JointType>) -> (r: Option<usize>)
    ensures
        r == if dof_sum(joint_types@, joint_types.len() as int) <= usize::MAX {
            Some(dof_sum(joint_types@, joint_types.len() as int) as usize)
        } else {
            None
        },
{
    let n: usize = joint_types.len();
    let mut acc: usize = 0;
    let mut i: usize = 0;
    while i < n
        invariant
            i <= n,
            n == joint_types.len(),
            acc == dof_sum(joint_types@, i as int),
        decreases n - i,
    {
        let d: usize = joint_types[i].dof();
        if acc > usize::MAX - d {
            proof {
                lemma_dof_sum_grows(joint_types@, i + 1, n as int);
            }
            return None;
        }
        acc += d;
        i += 1;
    }
    Some(acc)
}

} // verus!
