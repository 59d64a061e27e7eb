//! Collisions: which rule a pair of colliding bodies falls under, and what
//! the rule does to the world.

use crate::ball::{
    spec_add, spec_can_absorb, spec_combine, Ball, BallView, CollectedResources,
};
use crate::blocks::{BlockType, Colour, BLOCK_GROUP_OFFSET};
use crate::particles::{BoxParticlesEvent, Point, Scale};
use crate::resources::spec_count;
use crate::shoppanel::{ShopPanelView, UpdateShopPanelsEvent};
use crate::statsbar::{UpdateStatsBarBallsEvent, UpdateStatsBarResourcesEvent};
use crate::paddle::PaddleView;
use crate::world::{
    BlockEntity, BlockView, PaddleEntityView, ShopPanelEntityView, World, WorldView,
};
use vstd::prelude::*;

verus! {

broadcast use vstd::std_specs::hash::group_hash_axioms;

/// Collision group of the blocks.
pub const BLOCK_GROUP: u32 = 0x01;

/// Collision group of the balls.
pub const BALL_GROUP: u32 = 0x02;

/// Collision group of the paddle.
pub const PADDLE_GROUP: u32 = 0x04;

/// Collision group of the side walls.
pub const WALL_GROUP: u32 = 0x08;

/// Collision group of the shop zones and of the paddle's sensor.
pub const PADDLE_SHOP_GROUP: u32 = 0x10;

/// What the physics step reports of two bodies: that they have come into
/// contact, or that they have parted. The order of the two is arbitrary.
#[derive(Clone, Copy, PartialEq, Eq, Debug, Structural)]
pub enum CollisionEvent {
    Started(u64, u64),
    Stopped(u64, u64),
}

/// What the host has to do after the rules have changed the world.
#[derive(Clone, Copy, PartialEq, Eq, Debug, Structural)]
pub enum Effect {
    /// The block `entity` took a lethal hit: it is to vanish with the next
    /// frame, and breaks apart in the colour of `block_type`.
    BlockBreak { entity: u64, block_type: BlockType },
    /// The ball `ball` handed units of `block_type` to the paddle:
    /// `num_spawns` particles fly from the ball to the stats bar.
    Deposit { ball: u64, block_type: BlockType, num_spawns: u32 },
    /// The paddle's ledger has changed: the stats bar shows it anew.
    StatsBarResources(UpdateStatsBarResourcesEvent),
    /// The paddle holds another number of balls: the stats bar shows it.
    StatsBarBalls(UpdateStatsBarBallsEvent),
    /// A shop zone or a level has changed: the zones and the prompt are
    /// drawn anew.
    ShopPanels(UpdateShopPanelsEvent),
    /// A ball leaves the paddle.
    SpawnBall,
    /// The paddle was refilled: `particles` particles fly to the stats bar.
    Refill { particles: u32 },
    /// The paddle has a new width, in thousandths of a world unit.
    ResizePaddle { width: u32 },
}

/// A world and the effects of what led to it.
pub struct Outcome {
    pub world: WorldView,
    pub effects: Seq<Effect>,
}

/// Number of particles that show the deposit of `count` units of one
/// material.
pub open spec fn spec_deposit_spawns(count: nat) -> nat {
    if count == 0 {
        0
    } else if count <= 10 {
        3
    } else if count <= 50 {
        6
    } else {
        9
    }
}

/// Number of particles that show the deposit of `count` units of one
/// material.
pub fn deposit_spawns(count: u32) -> (num_spawns: u32)
    ensures
        num_spawns == spec_deposit_spawns(count as nat),
{
    if count == 0 {
        0
    } else if count <= 10 {
        3
    } else if count <= 50 {
        6
    } else {
        9
    }
}

/// The deposit effects of the ball `ball` for the first `upto` materials:
/// one for each material of which the ball carries at least one unit, in
/// the order of declaration.
pub open spec fn spec_deposits(ball: u64, resources: Map<BlockType, nat>, upto: nat) -> Seq<Effect>
    decreases upto,
{
    if upto == 0 || upto > BlockType::COUNT {
        Seq::empty()
    } else {
        let before = spec_deposits(ball, resources, (upto - 1) as nat);
        let block_type = BlockType::spec_from_index((upto - 1) as nat).unwrap();
        let count = spec_count(resources, block_type);
        if count == 0 {
            before
        } else {
            before.push(
                Effect::Deposit {
                    ball,
                    block_type,
                    num_spawns: spec_deposit_spawns(count) as u32,
                },
            )
        }
    }
}

/// What a hit of the body `other` does to the block `block`. Only a ball
/// does damage, and only to a block that is there: as many points as the
/// damage level gives. A lethal hit
/// leaves the hit points alone, puts the block on the list of blocks that
/// vanish with the next frame and adds one unit of its material to the
/// ball's ledger. Any other hit lowers the hit points and does nothing
/// else.
pub open spec fn spec_on_block_hit(world: WorldView, block: u64, other: u64) -> Outcome {
    if world.is_ball(other) && world.blocks.contains_key(block) {
        let hit = world.blocks[block];
        let ball = world.balls[other];
        let amount = world.shop_stats.spec_damage();
        if hit.hit_points <= amount {
            Outcome {
                world: WorldView {
                    despawning: world.despawning.push(block),
                    balls: world.balls.insert(
                        other,
                        BallView { resources: spec_add(ball.resources, hit.block.0), ..ball },
                    ),
                    ..world
                },
                effects: seq![Effect::BlockBreak { entity: block, block_type: hit.block.0 }],
            }
        } else {
            Outcome {
                world: WorldView {
                    blocks: world.blocks.insert(
                        block,
                        BlockView { hit_points: (hit.hit_points - amount) as nat, ..hit },
                    ),
                    ..world
                },
                effects: Seq::empty(),
            }
        }
    } else {
        Outcome { world, effects: Seq::empty() }
    }
}

/// Whether the hit of `other` on the block `block` leaves every count
/// within the machine's 32 bits.
pub open spec fn spec_block_hit_fits(world: WorldView, block: u64, other: u64) -> bool {
    world.is_ball(other) && world.blocks.contains_key(block) && world.blocks[block].hit_points
        <= world.shop_stats.spec_damage() ==> spec_count(
        world.balls[other].resources,
        world.blocks[block].block.0,
    ) < u32::MAX
}

/// What a hit of the body `other` does to the paddle, if there is one. Only
/// a ball does anything: all it carries is added to the paddle's ledger, and its own
/// ledger is emptied.
pub open spec fn spec_on_paddle_hit(world: WorldView, other: u64) -> Outcome {
    if world.is_ball(other) && world.paddle is Some {
        let ball = world.balls[other];
        let entity = world.paddle.unwrap();
        Outcome {
            world: WorldView {
                paddle: Some(
                    PaddleEntityView {
                        paddle: PaddleView {
                            resources: spec_combine(entity.paddle.resources, ball.resources),
                            ..entity.paddle
                        },
                        ..entity
                    },
                ),
                balls: world.balls.insert(other, BallView { resources: Map::empty(), ..ball }),
                ..world
            },
            effects: spec_deposits(other, ball.resources, BlockType::COUNT as nat).push(
                Effect::StatsBarResources(UpdateStatsBarResourcesEvent),
            ),
        }
    } else {
        Outcome { world, effects: Seq::empty() }
    }
}

/// A deposit moves resources and destroys none: what the ball carried is
/// added to what the paddle held, material by material, and the ball is
/// left with nothing.
pub proof fn deposit_moves_resources(world: WorldView, other: u64)
    requires
        world.is_ball(other),
        world.paddle is Some,
    ensures
        ({
            let after = spec_on_paddle_hit(world, other).world;
            &&& after.balls[other].resources == Map::<BlockType, nat>::empty()
            &&& after.paddle is Some
            &&& forall|t: BlockType| #[trigger]
                spec_count(after.paddle.unwrap().paddle.resources, t) == spec_count(
                    world.paddle.unwrap().paddle.resources,
                    t,
                ) + spec_count(world.balls[other].resources, t)
        }),
{
}

/// Whether the hit of `other` on the paddle leaves every count within the
/// machine's 32 bits.
pub open spec fn spec_paddle_hit_fits(world: WorldView, other: u64) -> bool {
    world.is_ball(other) && world.paddle is Some ==> spec_can_absorb(
        world.paddle.unwrap().paddle.resources,
        world.balls[other].resources,
    )
}

/// The world after the paddle has entered or left the first shop zone
/// named `id`. Where no zone has that name nothing happens.
pub open spec fn spec_set_panel(world: WorldView, id: u64, enabled: bool) -> Outcome {
    match world.panel_index(id) {
        Some(i) => {
            let entity = world.shop_panels[i];
            Outcome {
                world: WorldView {
                    shop_panels: world.shop_panels.update(
                        i,
                        ShopPanelEntityView {
                            panel: ShopPanelView { enabled, ..entity.panel },
                            ..entity
                        },
                    ),
                    ..world
                },
                effects: seq![Effect::ShopPanels(UpdateShopPanelsEvent)],
            }
        },
        None => Outcome { world, effects: Seq::empty() },
    }
}

/// What one collision event does to the world. A contact that has started
/// falls under the first rule that one of its two bodies makes apply: a
/// block is hit, else the paddle is hit, else a shop zone is entered; for
/// each rule the first body is looked at before the second. A contact that
/// has ended matters only where a shop zone is left.
pub open spec fn spec_process_collision(world: WorldView, event: CollisionEvent) -> Outcome {
    match event {
        CollisionEvent::Started(lhs, rhs) => {
            if world.is_block(lhs) {
                spec_on_block_hit(world, lhs, rhs)
            } else if world.is_block(rhs) {
                spec_on_block_hit(world, rhs, lhs)
            } else if world.is_paddle(lhs) {
                spec_on_paddle_hit(world, rhs)
            } else if world.is_paddle(rhs) {
                spec_on_paddle_hit(world, lhs)
            } else if world.is_shop_panel(lhs) {
                spec_set_panel(world, lhs, true)
            } else if world.is_shop_panel(rhs) {
                spec_set_panel(world, rhs, true)
            } else {
                Outcome { world, effects: Seq::empty() }
            }
        },
        CollisionEvent::Stopped(lhs, rhs) => {
            if world.is_shop_panel(lhs) {
                spec_set_panel(world, lhs, false)
            } else if world.is_shop_panel(rhs) {
                spec_set_panel(world, rhs, false)
            } else {
                Outcome { world, effects: Seq::empty() }
            }
        },
    }
}

/// The event with its two bodies in the other order.
pub open spec fn spec_swapped(event: CollisionEvent) -> CollisionEvent {
    match event {
        CollisionEvent::Started(lhs, rhs) => CollisionEvent::Started(rhs, lhs),
        CollisionEvent::Stopped(lhs, rhs) => CollisionEvent::Stopped(rhs, lhs),
    }
}

/// The two bodies of an event.
pub open spec fn spec_bodies(event: CollisionEvent) -> (u64, u64) {
    match event {
        CollisionEvent::Started(lhs, rhs) => (lhs, rhs),
        CollisionEvent::Stopped(lhs, rhs) => (lhs, rhs),
    }
}

/// The order in which an event names its two bodies does not matter, unless
/// both are shop zones: then the zone that is named first is entered or
/// left.
pub proof fn collision_order_is_immaterial(world: WorldView, event: CollisionEvent)
    requires
        !(world.is_shop_panel(spec_bodies(event).0) && world.is_shop_panel(spec_bodies(event).1)),
    ensures
        spec_process_collision(world, spec_swapped(event)) == spec_process_collision(world, event),
        spec_collision_fits(world, spec_swapped(event)) == spec_collision_fits(world, event),
{
}

/// Whether the event leaves every count within the machine's 32 bits.
pub open spec fn spec_collision_fits(world: WorldView, event: CollisionEvent) -> bool {
    match event {
        CollisionEvent::Started(lhs, rhs) => {
            if world.is_block(lhs) {
                spec_block_hit_fits(world, lhs, rhs)
            } else if world.is_block(rhs) {
                spec_block_hit_fits(world, rhs, lhs)
            } else if world.is_paddle(lhs) {
                spec_paddle_hit_fits(world, rhs)
            } else if world.is_paddle(rhs) {
                spec_paddle_hit_fits(world, lhs)
            } else {
                true
            }
        },
        CollisionEvent::Stopped(_, _) => true,
    }
}

/// What the events do to the world, one after the other, and the effects
/// in the order in which they arise.
pub open spec fn spec_process_collisions(world: WorldView, events: Seq<CollisionEvent>) -> Outcome
    decreases events.len(),
{
    if events.len() == 0 {
        Outcome { world, effects: Seq::empty() }
    } else {
        let before = spec_process_collisions(world, events.drop_last());
        let last = spec_process_collision(before.world, events.last());
        Outcome { world: last.world, effects: before.effects + last.effects }
    }
}

/// Whether `after` has the entities of `before`, and each of them is what
/// it was: the same blocks of the same materials, none with more hit
/// points than it had; the same balls; the same paddle, if any; the same
/// shop zones with the same tracks, in the same order; and the same levels.
pub open spec fn spec_same_entities(before: WorldView, after: WorldView) -> bool {
    &&& after.blocks.dom() == before.blocks.dom()
    &&& forall|id: u64| #[trigger]
        before.blocks.contains_key(id) ==> after.blocks[id].block == before.blocks[id].block
            && after.blocks[id].hit_points <= before.blocks[id].hit_points
    &&& after.balls.dom() == before.balls.dom()
    &&& forall|id: u64| #[trigger]
        before.balls.contains_key(id) ==> after.balls[id].previous_velocity
            == before.balls[id].previous_velocity
    &&& (after.paddle is Some) == (before.paddle is Some)
    &&& before.paddle is Some ==> after.paddle.unwrap().id == before.paddle.unwrap().id
        && after.paddle.unwrap().paddle.num_balls == before.paddle.unwrap().paddle.num_balls
    &&& after.shop_panels.len() == before.shop_panels.len()
    &&& forall|i: int|
        0 <= i < before.shop_panels.len() ==> (#[trigger] after.shop_panels[i]).id
            == before.shop_panels[i].id && after.shop_panels[i].panel.item
            == before.shop_panels[i].panel.item && after.shop_panels[i].panel.upgrade
            == before.shop_panels[i].panel.upgrade && after.shop_panels[i].panel.is_refresh
            == before.shop_panels[i].panel.is_refresh
    &&& after.shop_stats == before.shop_stats
}

/// One collision neither makes nor destroys an entity, and never heals a
/// block.
pub proof fn collision_keeps_the_entities(world: WorldView, event: CollisionEvent)
    ensures
        spec_same_entities(world, spec_process_collision(world, event).world),
{
    let after = spec_process_collision(world, event).world;
    assert(after.blocks.dom() =~= world.blocks.dom());
    assert(after.balls.dom() =~= world.balls.dom());
    let (lhs, rhs) = spec_bodies(event);
    world.panel_found_is_in_range(lhs);
    world.panel_found_is_in_range(rhs);
}

/// Collisions neither make nor destroy an entity, and never heal a block:
/// what they change is hit points, ledgers, the list of blocks that are to
/// vanish, and which shop zones the paddle is in.
pub proof fn collisions_keep_the_entities(world: WorldView, events: Seq<CollisionEvent>)
    ensures
        spec_same_entities(world, spec_process_collisions(world, events).world),
    decreases events.len(),
{
    if events.len() > 0 {
        let before = spec_process_collisions(world, events.drop_last()).world;
        collisions_keep_the_entities(world, events.drop_last());
        collision_keeps_the_entities(before, events.last());
    }
}

/// Applies the block rule: the body `other` has hit the block `block`.
/// Returns the effects of the hit.
pub fn on_block_hit(world: &mut World, block: u64, other: u64) -> (effects: Vec<Effect>)
    requires
        spec_block_hit_fits(old(world)@, block, other),
    ensures
        final(world)@ == spec_on_block_hit(old(world)@, block, other).world,
        effects@ == spec_on_block_hit(old(world)@, block, other).effects,
{
    let mut effects: Vec<Effect> = Vec::new();
    let carried: Option<Ball> = match world.balls.get(&other) {
        Some(ball) => Some(*ball),
        None => None,
    };
    // skip if we aren't hitting a ball
    if let Some(mut ball) = carried {
        let found: Option<BlockEntity> = match world.blocks.get(&block) {
            Some(entity) => Some(*entity),
            None => None,
        };
        if let Some(mut entity) = found {
            match entity.hit_points.damage(world.shop_stats.damage()) {
                Ok(_) => {
                    world.blocks.insert(block, entity);
                    assert(world@.blocks =~= spec_on_block_hit(
                        old(world)@,
                        block,
                        other,
                    ).world.blocks);
                },
                Err(_) => {
                    world.despawning.push(block);
                    // Update CollectedResources for the corresponding ball
                    ball.resources.add(entity.block.0);
                    world.balls.insert(other, ball);
                    effects.push(Effect::BlockBreak { entity: block, block_type: entity.block.0 });
                    assert(world@.balls =~= spec_on_block_hit(
                        old(world)@,
                        block,
                        other,
                    ).world.balls);
                },
            }
        }
    }
    effects
}

/// The deposit effects of a ball: one for each material of which it
/// carries at least one unit.
fn deposits(ball: u64, resources: &CollectedResources) -> (effects: Vec<Effect>)
    ensures
        effects@ == spec_deposits(ball, resources@, BlockType::COUNT as nat),
{
    let types: Vec<BlockType> = BlockType::all();
    let mut effects: Vec<Effect> = Vec::new();
    let mut i: usize = 0;
    while i < types.len()
        invariant
            i <= types@.len(),
            types@ == BlockType::spec_all(),
            types@.len() == BlockType::COUNT,
            effects@ == spec_deposits(ball, resources@, i as nat),
        decreases types@.len() - i,
    {
        let block_type: BlockType = types[i];
        let count: u32 = resources.counts.count(block_type);
        if count != 0 {
            effects.push(
                Effect::Deposit { ball, block_type, num_spawns: deposit_spawns(count) },
            );
        }
        i += 1;
    }
    effects
}

/// Applies the paddle rule: the body `other` has hit the paddle. Returns
/// the effects of the hit.
pub fn on_paddle_hit(world: &mut World, other: u64) -> (effects: Vec<Effect>)
    requires
        spec_paddle_hit_fits(old(world)@, other),
    ensures
        final(world)@ == spec_on_paddle_hit(old(world)@, other).world,
        effects@ == spec_on_paddle_hit(old(world)@, other).effects,
{
    let carried: Option<Ball> = match world.balls.get(&other) {
        Some(ball) => Some(*ball),
        None => None,
    };
    // check if collision is with a ball
    match (carried, world.paddle) {
        (Some(mut ball), Some(mut entity)) => {
            let mut effects: Vec<Effect> = deposits(other, &ball.resources);
            // add collected resources to paddle
            entity.paddle.resources.combine(&ball.resources);
            // clear the ball's collected resources
            ball.resources.clear();
            world.paddle = Some(entity);
            world.balls.insert(other, ball);
            effects.push(Effect::StatsBarResources(UpdateStatsBarResourcesEvent));
            assert(world@.balls =~= spec_on_paddle_hit(old(world)@, other).world.balls);
            effects
        },
        _ => Vec::new(),
    }
}

impl World {
    /// Whether `id` names a ball.
    pub fn is_ball(&self, id: u64) -> (found: bool)
        ensures
            found == self@.is_ball(id),
    {
        self.balls.contains_key(&id)
    }

    /// Whether `id` names a block.
    pub fn is_block(&self, id: u64) -> (found: bool)
        ensures
            found == self@.is_block(id),
    {
        self.blocks.contains_key(&id) && !self.balls.contains_key(&id)
    }

    /// Whether `id` names the paddle.
    pub fn is_paddle(&self, id: u64) -> (found: bool)
        ensures
            found == self@.is_paddle(id),
    {
        match self.paddle {
            Some(entity) => entity.id == id && !self.balls.contains_key(&id),
            None => false,
        }
    }

    /// The position of the first shop zone named `id`, if there is one.
    pub fn find_shop_panel(&self, id: u64) -> (index: Option<usize>)
        ensures
            index is Some <==> self@.is_shop_panel(id),
            index matches Some(i) ==> self@.panel_index(id) == Some(i as int) && i
                < self.shop_panels@.len(),
    {
        let mut i: usize = 0;
        while i < self.shop_panels.len()
            invariant
                i <= self.shop_panels@.len(),
                self@.panel_index_upto(id, i as nat) is None,
            decreases self.shop_panels@.len() - i,
        {
            if self.shop_panels[i].id == id {
                proof {
                    lemma_found_panel(self@, id, i as nat, self@.shop_panels.len());
                }
                return Some(i);
            }
            i += 1;
        }
        None
    }
}

/// A shop zone that is the first of its name among the zones up to and
/// including itself is the first of its name among any more zones.
proof fn lemma_found_panel(world: WorldView, id: u64, at: nat, upto: nat)
    requires
        at < upto <= world.shop_panels.len(),
        world.panel_index_upto(id, at) is None,
        world.shop_panels[at as int].id == id,
    ensures
        world.panel_index_upto(id, upto) == Some(at as int),
    decreases upto,
{
    if upto > at + 1 {
        lemma_found_panel(world, id, at, (upto - 1) as nat);
    }
}

/// Records that the paddle has entered or left the first shop zone named
/// `id`. Returns the effects.
pub fn set_shop_panel(world: &mut World, id: u64, enabled: bool) -> (effects: Vec<Effect>)
    ensures
        final(world)@ == spec_set_panel(old(world)@, id, enabled).world,
        effects@ == spec_set_panel(old(world)@, id, enabled).effects,
{
    let mut effects: Vec<Effect> = Vec::new();
    if let Some(i) = world.find_shop_panel(id) {
        world.shop_panels[i].panel.enabled = enabled;
        effects.push(Effect::ShopPanels(UpdateShopPanelsEvent));
        assert(world@.shop_panels =~= spec_set_panel(old(world)@, id, enabled).world.shop_panels);
    }
    effects
}

/// Whether the event leaves every count within the machine's 32 bits.
pub fn collision_fits(world: &World, event: &CollisionEvent) -> (fits: bool)
    ensures
        fits == spec_collision_fits(world@, *event),
{
    match *event {
        CollisionEvent::Started(lhs, rhs) => {
            if world.is_block(lhs) {
                block_hit_fits(world, lhs, rhs)
            } else if world.is_block(rhs) {
                block_hit_fits(world, rhs, lhs)
            } else if world.is_paddle(lhs) {
                paddle_hit_fits(world, rhs)
            } else if world.is_paddle(rhs) {
                paddle_hit_fits(world, lhs)
            } else {
                true
            }
        },
        CollisionEvent::Stopped(_, _) => true,
    }
}

fn block_hit_fits(world: &World, block: u64, other: u64) -> (fits: bool)
    ensures
        fits == spec_block_hit_fits(world@, block, other),
{
    match (world.balls.get(&other), world.blocks.get(&block)) {
        (Some(ball), Some(entity)) => {
            if entity.hit_points.remaining() <= world.shop_stats.damage() {
                ball.resources.has_room(entity.block.0)
            } else {
                true
            }
        },
        _ => true,
    }
}

fn paddle_hit_fits(world: &World, other: u64) -> (fits: bool)
    ensures
        fits == spec_paddle_hit_fits(world@, other),
{
    match (world.balls.get(&other), world.paddle) {
        (Some(ball), Some(entity)) => entity.paddle.resources.can_absorb(&ball.resources),
        _ => true,
    }
}

/// Applies the rule that one collision event falls under. Returns the
/// effects.
pub fn process_collision(world: &mut World, event: &CollisionEvent) -> (effects: Vec<Effect>)
    requires
        spec_collision_fits(old(world)@, *event),
    ensures
        final(world)@ == spec_process_collision(old(world)@, *event).world,
        effects@ == spec_process_collision(old(world)@, *event).effects,
{
    match *event {
        CollisionEvent::Started(lhs, rhs) => {
            if world.is_block(lhs) {
                on_block_hit(world, lhs, rhs)
            } else if world.is_block(rhs) {
                on_block_hit(world, rhs, lhs)
            }
            // Process the paddle collisions. Use 'else if' to avoid reprocessing any block collisions.
             else if world.is_paddle(lhs) {
                on_paddle_hit(world, rhs)
            } else if world.is_paddle(rhs) {
                on_paddle_hit(world, lhs)
            }
            // Process shop panel collisions.
             else if world.find_shop_panel(lhs).is_some() {
                set_shop_panel(world, lhs, true)
            } else if world.find_shop_panel(rhs).is_some() {
                set_shop_panel(world, rhs, true)
            } else {
                Vec::new()
            }
        },
        CollisionEvent::Stopped(lhs, rhs) => {
            if world.find_shop_panel(lhs).is_some() {
                set_shop_panel(world, lhs, false)
            } else if world.find_shop_panel(rhs).is_some() {
                set_shop_panel(world, rhs, false)
            } else {
                Vec::new()
            }
        },
    }
}

/// What became of a frame's collision events.
pub struct CollisionReport {
    /// The effects of the events that were applied, in the order in which
    /// they arose.
    pub effects: Vec<Effect>,
    /// Number of events that were applied, from the first on. It is less
    /// than the number of events only where the event at this position
    /// would have taken a count beyond the machine's 32 bits.
    pub processed: usize,
}

/// Applies the collision events of one frame, one after the other in the
/// order given. Stops in front of the first event that would take a count
/// of some ledger beyond the machine's 32 bits, and says in the report how
/// far it came.
pub fn process_collisions(world: &mut World, events: &Vec<CollisionEvent>) -> (report:
    CollisionReport)
    ensures
        report.processed <= events@.len(),
        final(world)@ == spec_process_collisions(
            old(world)@,
            events@.take(report.processed as int),
        ).world,
        report.effects@ == spec_process_collisions(
            old(world)@,
            events@.take(report.processed as int),
        ).effects,
        forall|k: int|
            0 <= k < report.processed ==> spec_collision_fits(
                spec_process_collisions(old(world)@, #[trigger] events@.take(k)).world,
                events@[k],
            ),
        report.processed < events@.len() ==> !spec_collision_fits(
            final(world)@,
            events@[report.processed as int],
        ),
{
    let mut effects: Vec<Effect> = Vec::new();
    let mut i: usize = 0;
    while i < events.len()
        invariant
            i <= events@.len(),
            world@ == spec_process_collisions(old(world)@, events@.take(i as int)).world,
            effects@ == spec_process_collisions(old(world)@, events@.take(i as int)).effects,
            forall|k: int|
                0 <= k < i ==> spec_collision_fits(
                    spec_process_collisions(old(world)@, #[trigger] events@.take(k)).world,
                    events@[k],
                ),
        decreases events@.len() - i,
    {
        if !collision_fits(world, &events[i]) {
            return CollisionReport { effects, processed: i };
        }
        let mut more: Vec<Effect> = process_collision(world, &events[i]);
        effects.append(&mut more);
        proof {
            let next = events@.take(i + 1);
            assert(next.drop_last() =~= events@.take(i as int));
        }
        i += 1;
    }
    CollisionReport { effects, processed: i }
}

/// The kinds of body that the physics step knows.
#[derive(Clone, Copy, PartialEq, Eq, Debug, Structural)]
pub enum Body {
    Block,
    Ball,
    Paddle,
    Wall,
    /// A shop zone, which only senses.
    ShopZone,
    /// The sensor in the middle of the paddle that the shop zones sense.
    PaddleSensor,
}

/// The groups that a body is a member of, and the groups whose members it
/// can touch.
#[derive(Clone, Copy, PartialEq, Eq, Debug, Structural)]
pub struct CollisionGroups {
    pub memberships: u32,
    pub filters: u32,
}

/// The collision groups of each kind of body.
pub open spec fn spec_collision_groups(body: Body) -> CollisionGroups {
    match body {
        Body::Block => CollisionGroups {
            memberships: BLOCK_GROUP,
            filters: BALL_GROUP | PADDLE_GROUP,
        },
        Body::Ball => CollisionGroups {
            memberships: BALL_GROUP,
            filters: WALL_GROUP | PADDLE_GROUP | BLOCK_GROUP | BALL_GROUP,
        },
        Body::Paddle => CollisionGroups {
            memberships: PADDLE_GROUP,
            filters: WALL_GROUP | BALL_GROUP | BLOCK_GROUP,
        },
        Body::Wall => CollisionGroups {
            memberships: WALL_GROUP,
            filters: BALL_GROUP | PADDLE_GROUP,
        },
        Body::ShopZone => CollisionGroups {
            memberships: PADDLE_SHOP_GROUP,
            filters: PADDLE_SHOP_GROUP,
        },
        Body::PaddleSensor => CollisionGroups {
            memberships: PADDLE_SHOP_GROUP,
            filters: PADDLE_SHOP_GROUP,
        },
    }
}

/// The collision groups of each kind of body. Blocks and walls touch balls
/// and the paddle; a ball touches everything but the shop; the paddle
/// touches walls, balls and blocks; the shop zones and the paddle's sensor
/// touch each other only.
pub fn collision_groups(body: Body) -> (groups: CollisionGroups)
    ensures
        groups == spec_collision_groups(body),
{
    match body {
        Body::Block => CollisionGroups {
            memberships: BLOCK_GROUP,
            filters: BALL_GROUP | PADDLE_GROUP,
        },
        Body::Ball => CollisionGroups {
            memberships: BALL_GROUP,
            filters: WALL_GROUP | PADDLE_GROUP | BLOCK_GROUP | BALL_GROUP,
        },
        Body::Paddle => CollisionGroups {
            memberships: PADDLE_GROUP,
            filters: WALL_GROUP | BALL_GROUP | BLOCK_GROUP,
        },
        Body::Wall => CollisionGroups {
            memberships: WALL_GROUP,
            filters: BALL_GROUP | PADDLE_GROUP,
        },
        Body::ShopZone => CollisionGroups {
            memberships: PADDLE_SHOP_GROUP,
            filters: PADDLE_SHOP_GROUP,
        },
        Body::PaddleSensor => CollisionGroups {
            memberships: PADDLE_SHOP_GROUP,
            filters: PADDLE_SHOP_GROUP,
        },
    }
}

/// Whether a particle can fly from a body at `from`, moved by `jitter`, to
/// the stats bar without a coordinate leaving its range. `half_screen` is
/// half the height of the view.
pub open spec fn spec_can_fly_to_bar(from: Point, half_screen: int, jitter: Point) -> bool {
    &&& i64::MIN <= from.x + jitter.x <= i64::MAX
    &&& i64::MIN <= from.y + jitter.y <= i64::MAX
    &&& i64::MIN <= from.y + half_screen + 10_000 <= i64::MAX
}

/// One of the particles that show a deposit of `block_type`: it starts at
/// the ball, moved by `jitter`, glows in the colour of the material, and
/// flies to the right end of the stats bar within half a second.
pub open spec fn spec_deposit_particle(
    block_type: BlockType,
    ball: Point,
    half_screen: int,
    jitter: Point,
) -> BoxParticlesEvent {
    BoxParticlesEvent {
        init_position: Point {
            x: (ball.x + jitter.x) as i64,
            y: (ball.y + jitter.y) as i64,
        },
        target_position: Point {
            x: BLOCK_GROUP_OFFSET,
            y: (ball.y + half_screen + 10_000) as i64,
        },
        z_index: 5_000,
        color: block_type.spec_bloom_colour(),
        target_color: block_type.spec_bloom_colour(),
        size: Point { x: 4_000, y: 4_000 },
        target_scale: Scale { x: 1_200, y: 1_200, z: 1_200 },
        duration_millis: 500,
    }
}

/// One of the particles that show a deposit of `block_type` by the ball at
/// `ball`. `half_screen` is half the height of the view; `jitter` is how
/// far the host moves the start, at random.
pub fn deposit_particle(block_type: BlockType, ball: Point, half_screen: i64, jitter: Point) -> (event:
    BoxParticlesEvent)
    requires
        spec_can_fly_to_bar(ball, half_screen as int, jitter),
    ensures
        event == spec_deposit_particle(block_type, ball, half_screen as int, jitter),
{
    let bloom_color: Colour = block_type.bloom_colour();
    BoxParticlesEvent {
        init_position: Point { x: ball.x + jitter.x, y: ball.y + jitter.y },
        target_position: Point {
            x: BLOCK_GROUP_OFFSET,
            y: (ball.y as i128 + half_screen as i128 + 10_000) as i64,
        },
        z_index: 5_000,
        color: bloom_color,
        target_color: bloom_color,
        size: Point { x: 4_000, y: 4_000 },
        target_scale: Scale { x: 1_200, y: 1_200, z: 1_200 },
        duration_millis: 500,
    }
}

} // verus!
