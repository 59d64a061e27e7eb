//! The shop: upgrade levels, what the next level costs, and purchases.

use crate::ball::CollectedResources;
use crate::blocks::BlockType;
use crate::resources::{spec_count, ResourceCounts};
use vstd::prelude::*;

verus! {

/// The upgrade tracks.
#[derive(Clone, Copy, PartialEq, Eq, Debug, Structural)]
pub enum ShopItem {
    Damage,
    Speed,
    Capacity,
    Size,
}

/// Whether the shop is shown.
#[derive(Clone, Copy, PartialEq, Eq, Debug, Hash, Structural)]
pub enum ShopState {
    Closed,
    Open,
}

impl Default for ShopState {
    fn default() -> (state: Self)
        ensures
            state == ShopState::Closed,
    {
        ShopState::Closed
    }
}

/// The state of the shop after a frame in which the interact action was or
/// was not pressed: a press opens a closed shop and closes an open one.
pub open spec fn spec_shop_toggle(state: ShopState, interact: bool) -> ShopState {
    if interact {
        if state == ShopState::Open {
            ShopState::Closed
        } else {
            ShopState::Open
        }
    } else {
        state
    }
}

/// The state of the shop after a frame in which the interact action was or
/// was not pressed.
pub fn check_for_shop_toggle(state: ShopState, interact: bool) -> (next: ShopState)
    ensures
        next == spec_shop_toggle(state, interact),
{
    if interact {
        match state {
            ShopState::Open => ShopState::Closed,
            ShopState::Closed => ShopState::Open,
        }
    } else {
        state
    }
}

/// What one entry of a cost table asks for.
pub open spec fn spec_cost_1(a: BlockType, n: nat) -> Map<BlockType, nat> {
    Map::<BlockType, nat>::empty().insert(a, n)
}

/// What two entries of a cost table ask for.
pub open spec fn spec_cost_2(a: BlockType, n: nat, b: BlockType, m: nat) -> Map<BlockType, nat> {
    Map::<BlockType, nat>::empty().insert(a, n).insert(b, m)
}

/// The cost of the damage level that follows `level`, if there is one.
pub open spec fn spec_damage_cost(level: nat) -> Option<Map<BlockType, nat>> {
    if level == 1 {
        Some(spec_cost_1(BlockType::Purple, 6))
    } else if level == 2 {
        Some(spec_cost_2(BlockType::LightPurple, 5, BlockType::Purple, 10))
    } else if level == 3 {
        Some(spec_cost_2(BlockType::Pink, 5, BlockType::Purple, 10))
    } else if level == 4 {
        Some(spec_cost_1(BlockType::Red, 10))
    } else if level == 5 {
        Some(spec_cost_1(BlockType::Orange, 10))
    } else {
        None
    }
}

/// The cost of the speed level that follows `level`, if there is one.
pub open spec fn spec_speed_cost(level: nat) -> Option<Map<BlockType, nat>> {
    if level == 1 {
        Some(spec_cost_1(BlockType::LightBlue, 50))
    } else if level == 2 {
        Some(spec_cost_1(BlockType::LightBlue, 100))
    } else if level == 3 {
        Some(spec_cost_2(BlockType::LightBlue, 200, BlockType::DarkBlue, 50))
    } else if level == 4 {
        Some(spec_cost_2(BlockType::LightBlue, 500, BlockType::DarkBlue, 200))
    } else {
        None
    }
}

/// The cost of the capacity level that follows `level`, if there is one.
pub open spec fn spec_capacity_cost(level: nat) -> Option<Map<BlockType, nat>> {
    if level == 1 {
        Some(spec_cost_1(BlockType::LightBlue, 10))
    } else if level == 2 {
        Some(spec_cost_1(BlockType::Pink, 20))
    } else if level == 3 {
        Some(spec_cost_1(BlockType::Purple, 40))
    } else if level == 4 {
        Some(spec_cost_2(BlockType::Red, 5, BlockType::Blue, 500))
    } else {
        None
    }
}

/// The cost of the size level that follows `level`, if there is one.
pub open spec fn spec_size_cost(level: nat) -> Option<Map<BlockType, nat>> {
    if level == 1 {
        Some(spec_cost_1(BlockType::LightBlue, 10))
    } else if level == 2 {
        Some(spec_cost_2(BlockType::Red, 1, BlockType::LightPurple, 10))
    } else if level == 3 {
        Some(spec_cost_2(BlockType::Red, 10, BlockType::Pink, 10))
    } else if level == 4 {
        Some(spec_cost_2(BlockType::Orange, 5, BlockType::Pink, 10))
    } else {
        None
    }
}

fn cost_1(a: BlockType, n: u32) -> (cost: ResourceCounts)
    ensures
        cost@ == spec_cost_1(a, n as nat),
{
    let mut cost: ResourceCounts = ResourceCounts::new();
    cost.insert(a, n);
    cost
}

fn cost_2(a: BlockType, n: u32, b: BlockType, m: u32) -> (cost: ResourceCounts)
    ensures
        cost@ == spec_cost_2(a, n as nat, b, m as nat),
{
    let mut cost: ResourceCounts = ResourceCounts::new();
    cost.insert(a, n);
    cost.insert(b, m);
    cost
}

/// The level of each upgrade track. A new game starts with every track at
/// level one.
#[derive(Clone, Copy, PartialEq, Eq, Debug, Structural)]
pub struct ShopStats {
    pub damage_level: u8,
    pub speed_level: u8,
    pub capacity_level: u8,
    pub size_level: u8,
}

impl Default for ShopStats {
    fn default() -> (stats: Self)
        ensures
            stats == (ShopStats { damage_level: 1, speed_level: 1, capacity_level: 1, size_level: 1 }),
    {
        ShopStats { damage_level: 1, speed_level: 1, capacity_level: 1, size_level: 1 }
    }
}

impl ShopStats {
    /// Points of damage that a ball deals with one hit.
    pub open spec fn spec_damage(self) -> nat {
        if self.damage_level > 5 {
            20
        } else {
            self.damage_level as nat
        }
    }

    /// Speed of the paddle, in thousandths of a world unit per second.
    pub open spec fn spec_speed(self) -> nat {
        self.speed_level as nat * 100_000
    }

    /// Number of balls that the paddle holds when it has been refilled.
    pub open spec fn spec_capacity(self) -> nat {
        self.capacity_level as nat * 3
    }

    /// Width of the paddle, in thousandths of a world unit.
    pub open spec fn spec_size(self) -> nat {
        self.size_level as nat * 10_000 + 30_000
    }

    /// The level of the track `item`.
    pub open spec fn spec_level(self, item: ShopItem) -> u8 {
        match item {
            ShopItem::Damage => self.damage_level,
            ShopItem::Speed => self.speed_level,
            ShopItem::Capacity => self.capacity_level,
            ShopItem::Size => self.size_level,
        }
    }

    /// The cost of the next level of the track `item`; `None` where the
    /// track has no further level.
    pub open spec fn spec_cost(self, item: ShopItem) -> Option<Map<BlockType, nat>> {
        match item {
            ShopItem::Damage => spec_damage_cost(self.damage_level as nat),
            ShopItem::Speed => spec_speed_cost(self.speed_level as nat),
            ShopItem::Capacity => spec_capacity_cost(self.capacity_level as nat),
            ShopItem::Size => spec_size_cost(self.size_level as nat),
        }
    }

    /// The levels after the track `item` has gone up by one.
    pub open spec fn spec_upgraded(self, item: ShopItem) -> ShopStats {
        match item {
            ShopItem::Damage => ShopStats {
                damage_level: (self.damage_level + 1) as u8,
                ..self
            },
            ShopItem::Speed => ShopStats { speed_level: (self.speed_level + 1) as u8, ..self },
            ShopItem::Capacity => ShopStats {
                capacity_level: (self.capacity_level + 1) as u8,
                ..self
            },
            ShopItem::Size => ShopStats { size_level: (self.size_level + 1) as u8, ..self },
        }
    }

    /// Points of damage that a ball deals with one hit.
    pub fn damage(&self) -> (points: u16)
        ensures
            points == self.spec_damage(),
    {
        if self.damage_level > 5 {
            return 20;
        }
        self.damage_level as u16
    }

    /// The cost of the next damage level; `None` at the last level.
    pub fn damage_cost(&self) -> (cost: Option<ResourceCounts>)
        ensures
            cost is Some <==> spec_damage_cost(self.damage_level as nat) is Some,
            cost matches Some(c) ==> Some(c@) == spec_damage_cost(self.damage_level as nat),
    {
        match self.damage_level {
            1 => Some(cost_1(BlockType::Purple, 6)),
            2 => Some(cost_2(BlockType::LightPurple, 5, BlockType::Purple, 10)),
            3 => Some(cost_2(BlockType::Pink, 5, BlockType::Purple, 10)),
            4 => Some(cost_1(BlockType::Red, 10)),
            5 => Some(cost_1(BlockType::Orange, 10)),
            _ => None,
        }
    }

    /// Speed of the paddle, in thousandths of a world unit per second.
    pub fn speed(&self) -> (speed: u32)
        ensures
            speed == self.spec_speed(),
    {
        self.speed_level as u32 * 100_000
    }

    /// The cost of the next speed level; `None` at the last level.
    pub fn speed_cost(&self) -> (cost: Option<ResourceCounts>)
        ensures
            cost is Some <==> spec_speed_cost(self.speed_level as nat) is Some,
            cost matches Some(c) ==> Some(c@) == spec_speed_cost(self.speed_level as nat),
    {
        match self.speed_level {
            1 => Some(cost_1(BlockType::LightBlue, 50)),
            2 => Some(cost_1(BlockType::LightBlue, 100)),
            3 => Some(cost_2(BlockType::LightBlue, 200, BlockType::DarkBlue, 50)),
            4 => Some(cost_2(BlockType::LightBlue, 500, BlockType::DarkBlue, 200)),
            _ => None,
        }
    }

    /// Number of balls that the paddle holds when it has been refilled.
    pub fn capacity(&self) -> (balls: u32)
        ensures
            balls == self.spec_capacity(),
    {
        self.capacity_level as u32 * 3
    }

    /// The cost of the next capacity level; `None` at the last level.
    pub fn capacity_cost(&self) -> (cost: Option<ResourceCounts>)
        ensures
            cost is Some <==> spec_capacity_cost(self.capacity_level as nat) is Some,
            cost matches Some(c) ==> Some(c@) == spec_capacity_cost(self.capacity_level as nat),
    {
        match self.capacity_level {
            1 => Some(cost_1(BlockType::LightBlue, 10)),
            2 => Some(cost_1(BlockType::Pink, 20)),
            3 => Some(cost_1(BlockType::Purple, 40)),
            4 => Some(cost_2(BlockType::Red, 5, BlockType::Blue, 500)),
            _ => None,
        }
    }

    /// Width of the paddle, in thousandths of a world unit.
    pub fn size(&self) -> (width: u32)
        ensures
            width == self.spec_size(),
    {
        self.size_level as u32 * 10_000 + 30_000
    }

    /// The cost of the next size level; `None` at the last level.
    pub fn size_cost(&self) -> (cost: Option<ResourceCounts>)
        ensures
            cost is Some <==> spec_size_cost(self.size_level as nat) is Some,
            cost matches Some(c) ==> Some(c@) == spec_size_cost(self.size_level as nat),
    {
        match self.size_level {
            1 => Some(cost_1(BlockType::LightBlue, 10)),
            2 => Some(cost_2(BlockType::Red, 1, BlockType::LightPurple, 10)),
            3 => Some(cost_2(BlockType::Red, 10, BlockType::Pink, 10)),
            4 => Some(cost_2(BlockType::Orange, 5, BlockType::Pink, 10)),
            _ => None,
        }
    }

    /// The level of the track `item`.
    pub fn level(&self, item: ShopItem) -> (level: u8)
        ensures
            level == self.spec_level(item),
    {
        match item {
            ShopItem::Damage => self.damage_level,
            ShopItem::Speed => self.speed_level,
            ShopItem::Capacity => self.capacity_level,
            ShopItem::Size => self.size_level,
        }
    }

    /// The cost of the next level of the track `item`; `None` where the
    /// track has no further level.
    pub fn cost(&self, item: ShopItem) -> (cost: Option<ResourceCounts>)
        ensures
            cost is Some <==> self.spec_cost(item) is Some,
            cost matches Some(c) ==> Some(c@) == self.spec_cost(item),
    {
        match item {
            ShopItem::Damage => self.damage_cost(),
            ShopItem::Speed => self.speed_cost(),
            ShopItem::Capacity => self.capacity_cost(),
            ShopItem::Size => self.size_cost(),
        }
    }
}

/// Only the levels from one to five have a cost: beyond the cap a track
/// sells nothing. A level that has a cost can go up by one.
pub proof fn only_low_levels_are_priced(stats: ShopStats, item: ShopItem)
    requires
        stats.spec_cost(item) is Some,
    ensures
        1 <= stats.spec_level(item) <= 5,
        stats.spec_upgraded(item).spec_level(item) == stats.spec_level(item) + 1,
{
}

/// A higher level never has a weaker effect: damage, speed, capacity and
/// size grow with their levels.
pub proof fn effects_grow_with_levels(lower: ShopStats, higher: ShopStats)
    requires
        lower.damage_level <= higher.damage_level,
        lower.speed_level <= higher.speed_level,
        lower.capacity_level <= higher.capacity_level,
        lower.size_level <= higher.size_level,
    ensures
        lower.spec_damage() <= higher.spec_damage(),
        lower.spec_speed() <= higher.spec_speed(),
        lower.spec_capacity() <= higher.spec_capacity(),
        lower.spec_size() <= higher.spec_size(),
{
}

/// Whether `owned` holds at least what `reqs` asks for, for every material
/// that `reqs` names.
pub open spec fn spec_can_afford(reqs: Map<BlockType, nat>, owned: Map<BlockType, nat>) -> bool {
    forall|t: BlockType| #[trigger] reqs.contains_key(t) ==> spec_count(owned, t) >= reqs[t]
}

/// What is left of `owned` after `reqs` has been paid: every entry that
/// `reqs` names is lowered by what `reqs` asks for, every other entry is as
/// it was, and no entry appears or disappears.
pub open spec fn spec_debit(reqs: Map<BlockType, nat>, owned: Map<BlockType, nat>) -> Map<
    BlockType,
    nat,
> {
    Map::new(
        |t: BlockType| owned.contains_key(t),
        |t: BlockType|
            if reqs.contains_key(t) {
                (owned[t] - reqs[t]) as nat
            } else {
                owned[t]
            },
    )
}

/// What is left of `owned` after the entries that `reqs` holds for the
/// first `done` materials have been paid.
pub open spec fn spec_debit_first(
    reqs: Map<BlockType, nat>,
    owned: Map<BlockType, nat>,
    done: nat,
) -> Map<BlockType, nat> {
    Map::new(
        |t: BlockType| owned.contains_key(t),
        |t: BlockType|
            if reqs.contains_key(t) && t.spec_index() < done {
                (owned[t] - reqs[t]) as nat
            } else {
                owned[t]
            },
    )
}

fn can_afford(reqs: &ResourceCounts, owned: &ResourceCounts) -> (affordable: bool)
    ensures
        affordable == spec_can_afford(reqs@, owned@),
{
    let types: Vec<BlockType> = BlockType::all();
    let mut i: usize = 0;
    while i < types.len()
        invariant
            i <= types@.len(),
            types@ == BlockType::spec_all(),
            forall|t: BlockType| #[trigger] types@[t.spec_index() as int] == t,
            forall|t: BlockType|
                t.spec_index() < i && #[trigger] reqs@.contains_key(t) ==> spec_count(owned@, t)
                    >= reqs@[t],
        decreases types@.len() - i,
    {
        let t: BlockType = types[i];
        match reqs.get(t) {
            Some(count) => {
                if owned.count(t) < count {
                    return false;
                }
            },
            None => {},
        }
        i += 1;
    }
    true
}

/// Tries to pay `reqs` out of `owned`. Succeeds where `owned` holds enough
/// of every material that `reqs` names, and then takes exactly what `reqs`
/// asks for. Fails otherwise, and then takes nothing at all.
pub fn try_buy(reqs: &ResourceCounts, owned: &mut ResourceCounts) -> (succeeded: bool)
    ensures
        succeeded == spec_can_afford(reqs@, old(owned)@),
        succeeded ==> final(owned)@ == spec_debit(reqs@, old(owned)@),
        !succeeded ==> *final(owned) == *old(owned),
{
    if !can_afford(reqs, owned) {
        return false;
    }
    let types: Vec<BlockType> = BlockType::all();
    let mut i: usize = 0;
    while i < types.len()
        invariant
            i <= types@.len(),
            types@ == BlockType::spec_all(),
            forall|t: BlockType| #[trigger] types@[t.spec_index() as int] == t,
            spec_can_afford(reqs@, old(owned)@),
            owned@ == spec_debit_first(reqs@, old(owned)@, i as nat),
        decreases types@.len() - i,
    {
        let t: BlockType = types[i];
        match reqs.get(t) {
            Some(count) => {
                match owned.get(t) {
                    Some(held) => {
                        owned.insert(t, held - count);
                    },
                    None => {},
                }
            },
            None => {},
        }
        i += 1;
    }
    true
}

/// What a purchase takes: after a successful purchase the count of every
/// material is lower by exactly what the cost asks for, and a material that
/// the cost does not name keeps its entry as it was.
pub proof fn debit_takes_exactly_the_cost(reqs: Map<BlockType, nat>, owned: Map<BlockType, nat>)
    requires
        spec_can_afford(reqs, owned),
    ensures
        forall|t: BlockType| #[trigger]
            spec_count(spec_debit(reqs, owned), t) == spec_count(owned, t) - spec_count(reqs, t),
        forall|t: BlockType|
            !reqs.contains_key(t) ==> (#[trigger] spec_debit(reqs, owned).contains_key(t)
                == owned.contains_key(t)) && (owned.contains_key(t) ==> spec_debit(reqs, owned)[t]
                == owned[t]),
        spec_debit(reqs, owned).dom() == owned.dom(),
{
}

/// How an attempt to buy an upgrade ended.
#[derive(Clone, Copy, PartialEq, Eq, Debug, Structural)]
pub enum Purchase {
    /// The cost was paid and the level went up by one.
    Bought,
    /// The ledger does not hold the cost. Nothing has changed.
    Failed,
    /// The track has no further level. Nothing has changed.
    Unavailable,
}

/// How an attempt to buy the next level of `item` ends, with the levels
/// `stats` and the ledger `owned`.
pub open spec fn spec_purchase(item: ShopItem, stats: ShopStats, owned: Map<BlockType, nat>) -> Purchase {
    match stats.spec_cost(item) {
        Some(cost) => if spec_can_afford(cost, owned) {
            Purchase::Bought
        } else {
            Purchase::Failed
        },
        None => Purchase::Unavailable,
    }
}

/// Tries to buy the next level of `item` out of `resources`. Where the
/// track has a further level and the ledger holds its cost, the cost is
/// taken and the level goes up by one. In every other case neither the
/// levels nor the ledger change.
pub fn on_shop_item_pressed(
    item: ShopItem,
    shop_stats: &mut ShopStats,
    resources: &mut CollectedResources,
) -> (outcome: Purchase)
    ensures
        outcome == spec_purchase(item, *old(shop_stats), old(resources)@),
        outcome == Purchase::Bought ==> *final(shop_stats) == old(shop_stats).spec_upgraded(item)
            && final(shop_stats).spec_level(item) == old(shop_stats).spec_level(item) + 1
            && final(resources)@ == spec_debit(
            old(shop_stats).spec_cost(item).unwrap(),
            old(resources)@,
        ),
        outcome != Purchase::Bought ==> *final(shop_stats) == *old(shop_stats) && *final(resources)
            == *old(resources),
{
    match shop_stats.cost(item) {
        Some(cost) => {
            if try_buy(&cost, &mut resources.counts) {
                match item {
                    ShopItem::Damage => { shop_stats.damage_level += 1; },
                    ShopItem::Speed => { shop_stats.speed_level += 1; },
                    ShopItem::Capacity => { shop_stats.capacity_level += 1; },
                    ShopItem::Size => { shop_stats.size_level += 1; },
                }
                Purchase::Bought
            } else {
                Purchase::Failed
            }
        },
        None => Purchase::Unavailable,
    }
}

} // verus!
