//! Counts of block materials: what a ledger holds and what an upgrade costs.

use crate::blocks::BlockType;
use vstd::prelude::*;

verus! {

/// A count for each of some block materials. A material that has no entry
/// is distinct from one whose count is zero.
#[derive(Clone, Copy, PartialEq, Eq, Debug, Structural)]
pub struct ResourceCounts {
    blue: Option<u32>,
    light_blue: Option<u32>,
    dark_blue: Option<u32>,
    purple: Option<u32>,
    light_purple: Option<u32>,
    pink: Option<u32>,
    red: Option<u32>,
    orange: Option<u32>,
}

/// The count that `counts` holds for `block_type`, zero where it has no
/// entry.
pub open spec fn spec_count(counts: Map<BlockType, nat>, block_type: BlockType) -> nat {
    if counts.contains_key(block_type) {
        counts[block_type]
    } else {
        0
    }
}

impl View for ResourceCounts {
    type V = Map<BlockType, nat>;

    closed spec fn view(&self) -> Map<BlockType, nat> {
        Map::new(
            |t: BlockType| self.slot(t) is Some,
            |t: BlockType| self.slot(t).unwrap() as nat,
        )
    }
}

impl ResourceCounts {
    spec fn slot(self, block_type: BlockType) -> Option<u32> {
        match block_type {
            BlockType::Blue => self.blue,
            BlockType::LightBlue => self.light_blue,
            BlockType::DarkBlue => self.dark_blue,
            BlockType::Purple => self.purple,
            BlockType::LightPurple => self.light_purple,
            BlockType::Pink => self.pink,
            BlockType::Red => self.red,
            BlockType::Orange => self.orange,
        }
    }

    /// Every count fits the machine's 32 bits.
    pub proof fn counts_fit_the_machine(self)
        ensures
            forall|t: BlockType| #[trigger] self@.contains_key(t) ==> self@[t] <= u32::MAX,
            forall|t: BlockType| #[trigger] spec_count(self@, t) <= u32::MAX,
    {
    }

    /// Two values with the same entries are the same value.
    pub proof fn equal_entries_make_equal_counts(self, other: ResourceCounts)
        requires
            self@ == other@,
        ensures
            self == other,
    {
        assert forall|t: BlockType| self.slot(t) == other.slot(t) by {
            if self@.contains_key(t) {
                assert(other@[t] == other.slot(t).unwrap() as nat);
            }
        }
        assert(self.slot(BlockType::Blue) == other.slot(BlockType::Blue));
        assert(self.slot(BlockType::LightBlue) == other.slot(BlockType::LightBlue));
        assert(self.slot(BlockType::DarkBlue) == other.slot(BlockType::DarkBlue));
        assert(self.slot(BlockType::Purple) == other.slot(BlockType::Purple));
        assert(self.slot(BlockType::LightPurple) == other.slot(BlockType::LightPurple));
        assert(self.slot(BlockType::Pink) == other.slot(BlockType::Pink));
        assert(self.slot(BlockType::Red) == other.slot(BlockType::Red));
        assert(self.slot(BlockType::Orange) == other.slot(BlockType::Orange));
    }

    /// No entry at all.
    pub fn new() -> (counts: ResourceCounts)
        ensures
            counts@ == Map::<BlockType, nat>::empty(),
    {
        let counts = ResourceCounts {
            blue: None,
            light_blue: None,
            dark_blue: None,
            purple: None,
            light_purple: None,
            pink: None,
            red: None,
            orange: None,
        };
        counts
    }

    /// The entry of `block_type`, if there is one.
    pub fn get(&self, block_type: BlockType) -> (count: Option<u32>)
        ensures
            count is Some <==> self@.contains_key(block_type),
            count matches Some(n) ==> n == self@[block_type],
    {
        match block_type {
            BlockType::Blue => self.blue,
            BlockType::LightBlue => self.light_blue,
            BlockType::DarkBlue => self.dark_blue,
            BlockType::Purple => self.purple,
            BlockType::LightPurple => self.light_purple,
            BlockType::Pink => self.pink,
            BlockType::Red => self.red,
            BlockType::Orange => self.orange,
        }
    }

    /// The count of `block_type`, zero where there is no entry.
    pub fn count(&self, block_type: BlockType) -> (count: u32)
        ensures
            count == spec_count(self@, block_type),
    {
        match self.get(block_type) {
            Some(n) => n,
            None => 0,
        }
    }

    /// Sets the entry of `block_type` to `count` and returns the entry it
    /// had before.
    pub fn insert(&mut self, block_type: BlockType, count: u32) -> (previous: Option<u32>)
        ensures
            final(self)@ == old(self)@.insert(block_type, count as nat),
            previous is Some <==> old(self)@.contains_key(block_type),
            previous matches Some(n) ==> n == old(self)@[block_type],
    {
        let previous: Option<u32> = self.get(block_type);
        match block_type {
            BlockType::Blue => { self.blue = Some(count); },
            BlockType::LightBlue => { self.light_blue = Some(count); },
            BlockType::DarkBlue => { self.dark_blue = Some(count); },
            BlockType::Purple => { self.purple = Some(count); },
            BlockType::LightPurple => { self.light_purple = Some(count); },
            BlockType::Pink => { self.pink = Some(count); },
            BlockType::Red => { self.red = Some(count); },
            BlockType::Orange => { self.orange = Some(count); },
        }
        previous
    }

    /// Removes every entry.
    pub fn clear(&mut self)
        ensures
            final(self)@ == Map::<BlockType, nat>::empty(),
    {
        *self = ResourceCounts::new();
    }

    /// Whether there is no entry.
    pub fn is_empty(&self) -> (empty: bool)
        ensures
            empty == (self@ == Map::<BlockType, nat>::empty()),
    {
        let empty: bool = self.blue.is_none() && self.light_blue.is_none()
            && self.dark_blue.is_none() && self.purple.is_none() && self.light_purple.is_none()
            && self.pink.is_none() && self.red.is_none() && self.orange.is_none();
        proof {
            if empty {
                assert(self@ =~= Map::<BlockType, nat>::empty());
            } else {
                let t = if self.blue is Some {
                    BlockType::Blue
                } else if self.light_blue is Some {
                    BlockType::LightBlue
                } else if self.dark_blue is Some {
                    BlockType::DarkBlue
                } else if self.purple is Some {
                    BlockType::Purple
                } else if self.light_purple is Some {
                    BlockType::LightPurple
                } else if self.pink is Some {
                    BlockType::Pink
                } else if self.red is Some {
                    BlockType::Red
                } else {
                    BlockType::Orange
                };
                assert(self@.contains_key(t));
            }
        }
        empty
    }
}

} // verus!
