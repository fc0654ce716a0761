//! Volume-boundary discovery: walking upward from a target path through
//! its parents, device/inode identity tells where the containing volume's
//! mount boundary lies. The walk itself is pure; the caller supplies the
//! (device, inode) pair of each path along the chain.

use vstd::prelude::*;

verus! {

/// The stable filesystem identity of one path: its device identifier and
/// its inode (filesystem-object) identifier.
#[derive(Clone, Copy, Debug, PartialEq, Eq, Structural)]
pub struct NodeId {
    pub dev: u64,
    pub ino: u64,
}

/// True when position `i` of an ancestor chain is a volume root: either
/// it has no parent in the chain, or the parent lies on another device (a
/// mount-point crossing), or the parent's inode equals its own (the
/// filesystem root, where "." and ".." resolve to the same node).
///
/// `chain[0]` is the starting path and `chain[j + 1]` is the parent
/// directory of `chain[j]`.
pub open spec fn is_volume_root(chain: Seq<NodeId>, i: int) -> bool
    recommends
        0 <= i < chain.len(),
{
    ||| i == chain.len() - 1
    ||| chain[i + 1].dev != chain[i].dev
    ||| chain[i + 1].ino == chain[i].ino
}

/// One decision of the walk: given the identity of the current path and
/// of its parent directory, true when the walk stops at the current path.
pub fn volume_root_step(cur: NodeId, parent: NodeId) -> (stop: bool)
    ensures
        stop == (parent.dev != cur.dev || parent.ino == cur.ino),
{
    parent.dev != cur.dev || parent.ino == cur.ino
}

/// Walks the ancestor chain upward and returns how many steps above the
/// start the containing volume's root lies: the first position where the
/// device changes, the inode repeats, or the chain ends.
pub fn find_volume_root(chain: &Vec<NodeId>) -> (idx: usize)
    requires
        chain@.len() >= 1,
    ensures
        idx < chain@.len(),
        is_volume_root(chain@, idx as int),
        forall|j: int| 0 <= j < idx ==> !is_volume_root(chain@, j),
{
    let mut i: usize = 0;
    loop
        invariant
            chain@.len() >= 1,
            i < chain@.len(),
            forall|j: int| 0 <= j < i ==> !is_volume_root(chain@, j),
        decreases chain@.len() - i,
    {
        if i == chain.len() - 1 {
            return i;
        }
        if volume_root_step(chain[i], chain[i + 1]) {
            return i;
        }
        i = i + 1;
    }
}

/// Once the walk has found a volume root, the root is a fixed point:
/// restarting the walk from that path (the chain with the first `k`
/// positions dropped) stops immediately and returns the same path.
pub proof fn lemma_volume_root_fixed_point(chain: Seq<NodeId>, k: int)
    requires
        0 <= k < chain.len(),
        is_volume_root(chain, k),
    ensures
        is_volume_root(chain.skip(k), 0),
{
    assert(chain.skip(k).len() == chain.len() - k);
    if k < chain.len() - 1 {
        assert(chain.skip(k)[0] == chain[k]);
        assert(chain.skip(k)[1] == chain[k + 1]);
    }
}

} // verus!
