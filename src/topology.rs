//! Selection of the single logical core that target processes are restricted to.

use vstd::prelude::*;

verus! {

/// Width of an affinity mask: one processor group addresses at most this many cores.
pub const AFFINITY_MASK_BITS: u32 = 64;

/// Which end of the efficiency-class scale is preferred on a heterogeneous machine.
#[derive(Clone, Copy, Debug, PartialEq, Eq, Structural)]
pub enum ClassRank {
    /// Prefer the cores that report the largest efficiency class.
    Highest,
    /// Prefer the cores that report the smallest efficiency class.
    Lowest,
}

/// The core that target processes are restricted to.
#[derive(Clone, Copy, Debug, PartialEq, Eq, Structural)]
pub struct TargetCoreSelection {
    pub core_index: u32,
    /// `1 << core_index`: exactly one bit is set.
    pub core_mask: u64,
    /// Whether the core was chosen by efficiency class rather than by position alone.
    pub is_heterogeneous_target: bool,
}

/// A snapshot of the machine's logical cores, taken once per sweep.
pub struct CoreTopology {
    /// Number of logical cores; their indices are `0..core_count`.
    pub core_count: u32,
    /// The efficiency class of each core, by index, or `None` where the
    /// platform query is unsupported or failed.
    pub efficiency_classes: Option<Vec<u8>>,
}

/// Number of cores that an affinity mask can address.
pub open spec fn addressable_cores(core_count: u32) -> nat {
    if core_count <= AFFINITY_MASK_BITS {
        core_count as nat
    } else {
        AFFINITY_MASK_BITS as nat
    }
}

/// The highest addressable core index (0 on a machine that reports no cores).
pub open spec fn last_core(core_count: u32) -> u32 {
    if addressable_cores(core_count) == 0 {
        0
    } else {
        (addressable_cores(core_count) - 1) as u32
    }
}

/// The affinity mask that holds exactly the core `index`.
pub open spec fn mask_of(index: u32) -> u64 {
    1u64 << index
}

/// `a` is at least as preferred as `b` under `rank`.
pub open spec fn ranks_at_least(rank: ClassRank, a: u8, b: u8) -> bool {
    match rank {
        ClassRank::Highest => a >= b,
        ClassRank::Lowest => a <= b,
    }
}

/// Every core reports the same class (vacuously so for no cores).
pub open spec fn uniform(classes: Seq<u8>) -> bool {
    forall|i: int, j: int|
        0 <= i < classes.len() && 0 <= j < classes.len() ==> classes[i] == classes[j]
}

/// The classes that the selection considers: those of the addressable cores,
/// and none where the query failed or does not describe every core.
pub open spec fn considered_classes(t: CoreTopology) -> Seq<u8> {
    match t.efficiency_classes {
        Some(v) => if v@.len() == t.core_count as nat {
            v@.subrange(0, addressable_cores(t.core_count) as int)
        } else {
            Seq::empty()
        },
        None => Seq::empty(),
    }
}

/// Core `i` carries the preferred class, and no higher-index core carries it.
pub open spec fn is_preferred_core(classes: Seq<u8>, rank: ClassRank, i: int) -> bool {
    &&& 0 <= i < classes.len()
    &&& forall|j: int| 0 <= j < classes.len() ==> ranks_at_least(rank, #[trigger] classes[i], classes[j])
    &&& forall|j: int| i < j < classes.len() ==> #[trigger] classes[j] != classes[i]
}

/// The selection made when efficiency classes cannot tell cores apart.
pub open spec fn homogeneous_selection(core_count: u32) -> TargetCoreSelection {
    TargetCoreSelection {
        core_index: last_core(core_count),
        core_mask: mask_of(last_core(core_count)),
        is_heterogeneous_target: false,
    }
}

/// What `select_target_core` returns, stated over the topology.
pub open spec fn is_selection_for(t: CoreTopology, rank: ClassRank, r: TargetCoreSelection) -> bool {
    let c = considered_classes(t);
    &&& r.core_mask == mask_of(r.core_index)
    &&& r.is_heterogeneous_target == !uniform(c)
    &&& !r.is_heterogeneous_target ==> r == homogeneous_selection(t.core_count)
    &&& r.is_heterogeneous_target ==> is_preferred_core(c, rank, r.core_index as int)
}

/// On a machine whose cores all report one class, or whose classes cannot be
/// read, the selection is the last core and is not heterogeneous.
pub proof fn homogeneous_topology_selects_last_core(t: CoreTopology, rank: ClassRank, r: TargetCoreSelection)
    requires
        is_selection_for(t, rank, r),
        1 <= t.core_count <= AFFINITY_MASK_BITS,
        match t.efficiency_classes {
            Some(v) => uniform(v@),
            None => true,
        },
    ensures
        r.core_index == t.core_count - 1,
        r.core_mask == mask_of((t.core_count - 1) as u32),
        !r.is_heterogeneous_target,
{
    let c = considered_classes(t);
    if let Some(v) = t.efficiency_classes {
        if v@.len() == t.core_count as nat {
            assert(c =~= v@);
        }
    }
    assert(uniform(c));
}

/// The selection is a function of the topology and the rank.
pub proof fn selection_is_unique(t: CoreTopology, rank: ClassRank, r1: TargetCoreSelection, r2: TargetCoreSelection)
    requires
        is_selection_for(t, rank, r1),
        is_selection_for(t, rank, r2),
    ensures
        r1 == r2,
{
    let c = considered_classes(t);
    if r1.is_heterogeneous_target {
        let i1 = r1.core_index as int;
        let i2 = r2.core_index as int;
        assert(ranks_at_least(rank, c[i1], c[i2]));
        assert(ranks_at_least(rank, c[i2], c[i1]));
        assert(c[i1] == c[i2]);
        if i1 < i2 {
            assert(c[i2] != c[i1]);
        } else if i2 < i1 {
            assert(c[i1] != c[i2]);
        }
    }
}

/// The affinity mask that holds exactly the core `index`.
pub fn single_core_mask(index: u32) -> (r: u64)
    requires
        index < AFFINITY_MASK_BITS,
    ensures
        r == mask_of(index),
{
    1u64 << index
}

fn class_ranks_at_least(rank: ClassRank, a: u8, b: u8) -> (r: bool)
    ensures
        r == ranks_at_least(rank, a, b),
{
    match rank {
        ClassRank::Highest => a >= b,
        ClassRank::Lowest => a <= b,
    }
}

/// The highest addressable core index for a machine with `core_count` cores.
pub fn last_core_index(core_count: u32) -> (r: u32)
    ensures
        r == last_core(core_count),
        r < AFFINITY_MASK_BITS,
{
    if core_count == 0 {
        0
    } else if core_count <= AFFINITY_MASK_BITS {
        core_count - 1
    } else {
        AFFINITY_MASK_BITS - 1
    }
}

/// The highest addressable core, chosen by position alone.
pub fn fallback_selection(core_count: u32) -> (r: TargetCoreSelection)
    ensures
        r == homogeneous_selection(core_count),
{
    let core_index = last_core_index(core_count);
    TargetCoreSelection { core_index, core_mask: single_core_mask(core_index), is_heterogeneous_target: false }
}

/// The last addressable core and its mask, for a machine with `core_count` cores.
pub fn find_target_core(core_count: u32) -> (r: (u32, u64))
    ensures
        r.0 == last_core(core_count),
        r.1 == mask_of(r.0),
        1 <= core_count <= AFFINITY_MASK_BITS ==> r.0 == core_count - 1,
{
    let s = fallback_selection(core_count);
    (s.core_index, s.core_mask)
}

/// Chooses the core that target processes are restricted to.
///
/// Where the classes tell cores apart, the highest-index core of the
/// preferred class is chosen; otherwise the highest addressable core.
pub fn select_target_core(topology: &CoreTopology, rank: ClassRank) -> (r: TargetCoreSelection)
    ensures
        is_selection_for(*topology, rank, r),
{
    let classes = match &topology.efficiency_classes {
        Some(v) => v,
        None => return fallback_selection(topology.core_count),
    };
    if classes.len() != topology.core_count as usize {
        return fallback_selection(topology.core_count);
    }
    let k: usize = if topology.core_count <= AFFINITY_MASK_BITS {
        topology.core_count as usize
    } else {
        AFFINITY_MASK_BITS as usize
    };
    if k == 0 {
        return fallback_selection(topology.core_count);
    }
    let ghost c = considered_classes(*topology);
    assert(c.len() == k);
    assert(forall|j: int| 0 <= j < k ==> c[j] == classes@[j]);
    let mut best: usize = 0;
    let mut differs = false;
    let mut i: usize = 1;
    while i < k
        invariant
            1 <= i <= k,
            k == c.len(),
            k <= classes@.len(),
            k <= AFFINITY_MASK_BITS,
            forall|j: int| 0 <= j < k ==> c[j] == classes@[j],
            best < i,
            forall|j: int| 0 <= j < i ==> ranks_at_least(rank, #[trigger] c[best as int], c[j]),
            forall|j: int| best < j < i ==> !ranks_at_least(rank, #[trigger] c[j], c[best as int]),
            differs <==> exists|j: int| 0 <= j < i && #[trigger] c[j] != c[0],
        decreases k - i,
    {
        assert(c[i as int] == classes@[i as int] && c[0] == classes@[0]);
        if classes[i] != classes[0] {
            differs = true;
        }
        if class_ranks_at_least(rank, classes[i], classes[best]) {
            best = i;
        }
        i = i + 1;
    }
    if !differs {
        assert(uniform(c)) by {
            assert forall|a: int, b: int| 0 <= a < c.len() && 0 <= b < c.len() implies c[a] == c[b] by {
                assert(c[a] == c[0]);
                assert(c[b] == c[0]);
            }
        }
        return fallback_selection(topology.core_count);
    }
    let ghost wit = choose|j: int| 0 <= j < k && #[trigger] c[j] != c[0];
    assert(!uniform(c)) by {
        assert(c[wit] != c[0]);
    }
    let core_index = best as u32;
    proof {
        assert forall|j: int| best < j < c.len() implies #[trigger] c[j] != c[best as int] by {
            assert(!ranks_at_least(rank, c[j], c[best as int]));
        }
    }
    TargetCoreSelection { core_index, core_mask: single_core_mask(core_index), is_heterogeneous_target: true }
}

} // verus!
