//! What the bar at the top of the screen shows.

use crate::ball::CollectedResources;
use crate::blocks::{BlockType, BLOCK_SIZE};
use vstd::prelude::*;

verus! {

/// Height of the bar, in thousandths of a world unit.
pub const STATS_BAR_HEIGHT: i64 = 30_000;

/// The field of the bar that shows the count of one material.
#[derive(Clone, Copy, PartialEq, Eq, Debug, Structural)]
pub struct StatsBarResource(pub BlockType);

impl StatsBarResource {
    /// What the field shows for the ledger `resources`: the count of its
    /// material, or nothing where the ledger has no entry for it.
    pub fn readout(&self, resources: &CollectedResources) -> (shown: Option<u32>)
        ensures
            shown is Some <==> resources@.contains_key(self.0),
            shown matches Some(count) ==> count == resources@[self.0],
    {
        resources.counts.get(self.0)
    }
}

/// Asks for the resource fields of the bar to be brought up to date.
#[derive(Clone, Copy, PartialEq, Eq, Debug, Default, Structural)]
pub struct UpdateStatsBarResourcesEvent;

/// Asks for the depth field of the bar to show `depth`.
#[derive(Clone, Copy, PartialEq, Eq, Debug, Default, Structural)]
pub struct UpdateStatsBarDepthEvent {
    pub depth: i32,
}

/// Asks for the ball field of the bar to show `balls`.
#[derive(Clone, Copy, PartialEq, Eq, Debug, Default, Structural)]
pub struct UpdateStatsBarBallsEvent {
    pub balls: u32,
}

/// What the resource fields show, one for each material in the order of
/// declaration: the count that the ledger holds, or nothing where it has no
/// entry.
pub open spec fn spec_resource_readout(resources: Map<BlockType, nat>) -> Seq<Option<u32>> {
    Seq::new(
        BlockType::COUNT as nat,
        |i: int|
            {
                let t = BlockType::spec_from_index(i as nat).unwrap();
                if resources.contains_key(t) {
                    Some(resources[t] as u32)
                } else {
                    None
                }
            },
    )
}

/// What the resource fields show for the paddle's ledger, one for each
/// material in the order of declaration.
pub fn update_stats_bar_resources(resources: &CollectedResources) -> (readout: Vec<Option<u32>>)
    ensures
        readout@ == spec_resource_readout(resources@),
        readout@.len() == BlockType::COUNT,
        forall|t: BlockType|
            #![trigger resources@.contains_key(t)]
            #![trigger readout@[t.spec_index() as int]]
            (readout@[t.spec_index() as int] is Some <==> resources@.contains_key(t)) && (
            resources@.contains_key(t) ==> readout@[t.spec_index() as int] == Some(
                resources@[t] as u32,
            )),
{
    let types: Vec<BlockType> = BlockType::all();
    let mut readout: Vec<Option<u32>> = Vec::new();
    let mut i: usize = 0;
    while i < types.len()
        invariant
            i <= types@.len(),
            types@ == BlockType::spec_all(),
            types@.len() == BlockType::COUNT,
            readout@.len() == i,
            forall|k: int| 0 <= k < i ==> readout@[k] == #[trigger] spec_resource_readout(resources@)[k],
        decreases types@.len() - i,
    {
        let t: BlockType = types[i];
        readout.push(resources.counts.get(t));
        i += 1;
    }
    assert(readout@ =~= spec_resource_readout(resources@));
    readout
}

/// The depth that the bar shows for a paddle at height `y`: the number of
/// whole blocks between the paddle and one block above the top of the grid,
/// negative while the paddle is below, and held to the range of 32 bits.
pub open spec fn spec_depth_readout(y: int) -> int {
    let depth = (y - BLOCK_SIZE) / (BLOCK_SIZE as int);
    if depth > i32::MAX {
        i32::MAX as int
    } else if depth < i32::MIN {
        i32::MIN as int
    } else {
        depth
    }
}

/// The depth that the bar shows for a paddle at height `y`.
pub fn depth_readout(y: i64) -> (event: UpdateStatsBarDepthEvent)
    ensures
        event.depth == spec_depth_readout(y as int),
{
    let shifted: i128 = y as i128 - BLOCK_SIZE as i128;
    let size: i128 = BLOCK_SIZE as i128;
    // Division in the machine rounds towards zero; the depth rounds down.
    let quotient: i128 = shifted / size;
    let remainder: i128 = shifted % size;
    let depth: i128 = if remainder < 0 {
        quotient - 1
    } else {
        quotient
    };
    let clamped: i32 = if depth > i32::MAX as i128 {
        i32::MAX
    } else if depth < i32::MIN as i128 {
        i32::MIN
    } else {
        depth as i32
    };
    UpdateStatsBarDepthEvent { depth: clamped }
}

} // verus!
