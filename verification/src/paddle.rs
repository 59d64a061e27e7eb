//! The paddle: what it holds and what its actions do.

use crate::ball::CollectedResources;
use crate::blocks::{BlockType, BLOCK_GROUP_OFFSET};
use crate::particles::{spec_white, white, BoxParticlesEvent, Point, Scale};
use crate::physics::spec_can_fly_to_bar;
use crate::statsbar::{depth_readout, spec_depth_readout, UpdateStatsBarDepthEvent};
use crate::physics::{Effect, Outcome};
use crate::shop::{on_shop_item_pressed, spec_debit, spec_purchase, Purchase, ShopItem};
use crate::shoppanel::UpdateShopPanelsEvent;
use crate::statsbar::{UpdateStatsBarBallsEvent, UpdateStatsBarResourcesEvent};
use crate::world::{PaddleEntity, PaddleEntityView, World, WorldView};
use vstd::prelude::*;

verus! {

/// Width of the paddle at the first size level, in thousandths of a world
/// unit.
pub const PADDLE_WIDTH: i64 = 32_200;

/// Half the height of the paddle, in thousandths of a world unit.
pub const PADDLE_HEIGHT: i64 = 5_000;

/// The camera follows the paddle up to this height.
pub const PADDLE_MAX_HEIGHT: i64 = 1_000_000;

/// Number of balls that a new paddle holds.
pub const STARTING_BALLS: u32 = 3;

/// What the player can ask the paddle to do.
#[derive(Clone, Copy, PartialEq, Eq, Debug, Hash, Structural)]
pub enum PaddleAction {
    Move,
    Fire,
    Interact,
}

/// Number of balls that the paddle can still fire.
#[derive(Clone, Copy, PartialEq, Eq, Debug, Structural)]
pub struct NumBalls(pub u32);

/// The paddle as the rules see it.
#[derive(Clone, Copy, PartialEq, Eq, Debug, Structural)]
pub struct Paddle {
    pub num_balls: NumBalls,
    pub resources: CollectedResources,
}

/// The mathematical model of a paddle.
pub struct PaddleView {
    pub num_balls: nat,
    pub resources: Map<BlockType, nat>,
}

impl View for Paddle {
    type V = PaddleView;

    open spec fn view(&self) -> PaddleView {
        PaddleView { num_balls: self.num_balls.0 as nat, resources: self.resources@ }
    }
}

impl Paddle {
    /// The paddle of a new game: three balls and an empty ledger.
    pub fn new() -> (paddle: Paddle)
        ensures
            paddle@.num_balls == STARTING_BALLS,
            paddle@.resources == Map::<BlockType, nat>::empty(),
    {
        Paddle { num_balls: NumBalls(STARTING_BALLS), resources: CollectedResources::new() }
    }
}

/// What the fire action does: where the paddle has a ball left, one ball
/// leaves it. Else nothing happens.
pub open spec fn spec_fire(world: WorldView) -> Outcome
    recommends
        world.paddle is Some,
{
    let entity = world.paddle.unwrap();
    if entity.paddle.num_balls > 0 {
        let left = (entity.paddle.num_balls - 1) as nat;
        Outcome {
            world: WorldView {
                paddle: Some(
                    PaddleEntityView {
                        paddle: PaddleView { num_balls: left, ..entity.paddle },
                        ..entity
                    },
                ),
                ..world
            },
            effects: seq![
                Effect::StatsBarBalls(UpdateStatsBarBallsEvent { balls: left as u32 }),
                Effect::SpawnBall,
            ],
        }
    } else {
        Outcome { world, effects: Seq::empty() }
    }
}

/// Fires a ball, if the paddle has one left. Returns the effects: the host
/// spawns the ball and puts it into the world under the name it gave it.
pub fn fire(world: &mut World) -> (effects: Vec<Effect>)
    requires
        old(world)@.paddle is Some,
    ensures
        final(world)@ == spec_fire(old(world)@).world,
        effects@ == spec_fire(old(world)@).effects,
{
    let mut effects: Vec<Effect> = Vec::new();
    if let Some(mut entity) = world.paddle {
        if entity.paddle.num_balls.0 > 0 {
            entity.paddle.num_balls = NumBalls(entity.paddle.num_balls.0 - 1);
            world.paddle = Some(entity);
            effects.push(
                Effect::StatsBarBalls(UpdateStatsBarBallsEvent { balls: entity.paddle.num_balls.0 }),
            );
            effects.push(Effect::SpawnBall);
        }
    }
    effects
}

/// How far the interact action has come through the shop zones.
pub struct Interaction {
    pub world: WorldView,
    pub effects: Seq<Effect>,
    /// Whether a refill has ended the action.
    pub stopped: bool,
}

/// What the interact action does at the shop zone at position `i`. A zone
/// that the paddle is not in does nothing. A refill zone sets the paddle's
/// balls to its capacity and ends the action. Any other zone sells the
/// next level of its track, if there is one and the paddle's ledger holds
/// its cost.
pub open spec fn spec_interact_at(world: WorldView, i: int) -> Interaction
    recommends
        world.paddle is Some,
        0 <= i < world.shop_panels.len(),
{
    let panel = world.shop_panels[i].panel;
    let entity = world.paddle.unwrap();
    if !panel.enabled {
        Interaction { world, effects: Seq::empty(), stopped: false }
    } else if panel.is_refresh {
        let balls = world.shop_stats.spec_capacity();
        let particles = if balls > entity.paddle.num_balls {
            balls - entity.paddle.num_balls
        } else {
            0
        };
        Interaction {
            world: WorldView {
                paddle: Some(
                    PaddleEntityView {
                        paddle: PaddleView { num_balls: balls, ..entity.paddle },
                        ..entity
                    },
                ),
                ..world
            },
            effects: seq![
                Effect::StatsBarBalls(UpdateStatsBarBallsEvent { balls: balls as u32 }),
                Effect::Refill { particles: particles as u32 },
            ],
            stopped: true,
        }
    } else if spec_purchase(panel.item, world.shop_stats, entity.paddle.resources)
        == Purchase::Bought {
        let stats = world.shop_stats.spec_upgraded(panel.item);
        let news = seq![
            Effect::StatsBarResources(UpdateStatsBarResourcesEvent),
            Effect::ShopPanels(UpdateShopPanelsEvent),
        ];
        Interaction {
            world: WorldView {
                paddle: Some(
                    PaddleEntityView {
                        paddle: PaddleView {
                            resources: spec_debit(
                                world.shop_stats.spec_cost(panel.item).unwrap(),
                                entity.paddle.resources,
                            ),
                            ..entity.paddle
                        },
                        ..entity
                    },
                ),
                shop_stats: stats,
                ..world
            },
            effects: if panel.item == ShopItem::Size {
                seq![Effect::ResizePaddle { width: stats.spec_size() as u32 }] + news
            } else {
                news
            },
            stopped: false,
        }
    } else {
        Interaction { world, effects: Seq::empty(), stopped: false }
    }
}

/// What the interact action does at the first `upto` shop zones, taken in
/// their order.
pub open spec fn spec_interact_upto(world: WorldView, upto: nat) -> Interaction
    decreases upto,
{
    if upto == 0 {
        Interaction { world, effects: Seq::empty(), stopped: false }
    } else {
        let before = spec_interact_upto(world, (upto - 1) as nat);
        if before.stopped {
            before
        } else {
            let here = spec_interact_at(before.world, upto - 1);
            Interaction {
                world: here.world,
                effects: before.effects + here.effects,
                stopped: here.stopped,
            }
        }
    }
}

/// What the interact action does: it goes through the shop zones in their
/// order.
pub open spec fn spec_interact(world: WorldView) -> Outcome {
    let done = spec_interact_upto(world, world.shop_panels.len());
    Outcome { world: done.world, effects: done.effects }
}

/// The interact action changes neither the shop zones nor whether there is
/// a paddle.
proof fn lemma_interact_keeps_panels(world: WorldView, upto: nat)
    requires
        world.paddle is Some,
        upto <= world.shop_panels.len(),
    ensures
        spec_interact_upto(world, upto).world.shop_panels == world.shop_panels,
        spec_interact_upto(world, upto).world.paddle is Some,
        spec_interact_upto(world, upto).world.blocks == world.blocks,
        spec_interact_upto(world, upto).world.balls == world.balls,
        spec_interact_upto(world, upto).world.despawning == world.despawning,
    decreases upto,
{
    if upto > 0 {
        lemma_interact_keeps_panels(world, (upto - 1) as nat);
    }
}

/// Performs the interact action at the shop zone at position `i`. Returns
/// the effects and whether the action has ended.
fn interact_at(world: &mut World, i: usize) -> (done: (Vec<Effect>, bool))
    requires
        old(world)@.paddle is Some,
        i < old(world)@.shop_panels.len(),
    ensures
        final(world)@ == spec_interact_at(old(world)@, i as int).world,
        done.0@ == spec_interact_at(old(world)@, i as int).effects,
        done.1 == spec_interact_at(old(world)@, i as int).stopped,
{
    let mut effects: Vec<Effect> = Vec::new();
    let enabled: bool = world.shop_panels[i].panel.enabled;
    let is_refresh: bool = world.shop_panels[i].panel.is_refresh;
    let item: ShopItem = world.shop_panels[i].panel.item;
    if !enabled {
        return (effects, false);
    }
    let mut entity: PaddleEntity = match world.paddle {
        Some(entity) => entity,
        None => { return (effects, false); },
    };
    if is_refresh {
        let init_balls: u32 = entity.paddle.num_balls.0;
        // refresh ball count
        let balls: u32 = world.shop_stats.capacity();
        entity.paddle.num_balls = NumBalls(balls);
        world.paddle = Some(entity);
        effects.push(Effect::StatsBarBalls(UpdateStatsBarBallsEvent { balls }));
        let particles: u32 = if balls > init_balls {
            balls - init_balls
        } else {
            0
        };
        effects.push(Effect::Refill { particles });
        return (effects, true);
    }
    // try to buy
    let outcome: Purchase = on_shop_item_pressed(
        item,
        &mut world.shop_stats,
        &mut entity.paddle.resources,
    );
    match outcome {
        Purchase::Bought => {
            world.paddle = Some(entity);
            match item {
                ShopItem::Size => {
                    effects.push(Effect::ResizePaddle { width: world.shop_stats.size() });
                },
                _ => {},
            }
            effects.push(Effect::StatsBarResources(UpdateStatsBarResourcesEvent));
            effects.push(Effect::ShopPanels(UpdateShopPanelsEvent));
        },
        _ => {},
    }
    (effects, false)
}

/// Performs the interact action: the paddle uses the shop zones that it is
/// in. Returns the effects.
pub fn interact(world: &mut World) -> (effects: Vec<Effect>)
    requires
        old(world)@.paddle is Some,
    ensures
        final(world)@ == spec_interact(old(world)@).world,
        effects@ == spec_interact(old(world)@).effects,
{
    let mut effects: Vec<Effect> = Vec::new();
    let mut i: usize = 0;
    // find enabled shop panel
    while i < world.shop_panels.len()
        invariant
            i <= old(world)@.shop_panels.len(),
            old(world)@.paddle is Some,
            world@.shop_panels == old(world)@.shop_panels,
            world@ == spec_interact_upto(old(world)@, i as nat).world,
            effects@ == spec_interact_upto(old(world)@, i as nat).effects,
            !spec_interact_upto(old(world)@, i as nat).stopped,
        decreases old(world)@.shop_panels.len() - i,
    {
        proof {
            lemma_interact_keeps_panels(old(world)@, i as nat);
            lemma_interact_keeps_panels(old(world)@, (i + 1) as nat);
        }
        let (mut more, stopped) = interact_at(world, i);
        effects.append(&mut more);
        if stopped {
            proof {
                lemma_interact_stays_stopped(
                    old(world)@,
                    (i + 1) as nat,
                    old(world)@.shop_panels.len(),
                );
            }
            return effects;
        }
        i += 1;
    }
    effects
}

/// Once a refill has ended the interact action, the zones that follow do
/// nothing.
proof fn lemma_interact_stays_stopped(world: WorldView, at: nat, upto: nat)
    requires
        at <= upto,
        spec_interact_upto(world, at).stopped,
    ensures
        spec_interact_upto(world, upto) == spec_interact_upto(world, at),
    decreases upto,
{
    if upto > at {
        lemma_interact_stays_stopped(world, at, (upto - 1) as nat);
    }
}

/// What one action of the paddle does. Moving changes nothing that the
/// rules keep.
pub open spec fn spec_act(world: WorldView, action: PaddleAction) -> Outcome {
    match action {
        PaddleAction::Move => Outcome { world, effects: Seq::empty() },
        PaddleAction::Fire => spec_fire(world),
        PaddleAction::Interact => spec_interact(world),
    }
}

/// Performs one action of the paddle. Returns the effects.
pub fn act(world: &mut World, action: PaddleAction) -> (effects: Vec<Effect>)
    requires
        old(world)@.paddle is Some,
    ensures
        final(world)@ == spec_act(old(world)@, action).world,
        effects@ == spec_act(old(world)@, action).effects,
{
    match action {
        PaddleAction::Move => Vec::new(),
        PaddleAction::Fire => fire(world),
        PaddleAction::Interact => interact(world),
    }
}

/// What the paddle's actions of one frame do: first the fire action, if it
/// was pressed, then the interact action, if it was pressed.
pub open spec fn spec_move_paddle(world: WorldView, fire: bool, interact: bool) -> Outcome {
    let fired = if fire {
        spec_fire(world)
    } else {
        Outcome { world, effects: Seq::empty() }
    };
    if interact {
        let used = spec_interact(fired.world);
        Outcome { world: used.world, effects: fired.effects + used.effects }
    } else {
        fired
    }
}

/// Performs the paddle's actions of one frame. `fire_pressed` and
/// `interact_pressed` say which of the two actions were pressed in this
/// frame. Steering is the host's business.
pub fn move_paddle(world: &mut World, fire_pressed: bool, interact_pressed: bool) -> (effects: Vec<
    Effect,
>)
    requires
        old(world)@.paddle is Some,
    ensures
        final(world)@ == spec_move_paddle(old(world)@, fire_pressed, interact_pressed).world,
        effects@ == spec_move_paddle(old(world)@, fire_pressed, interact_pressed).effects,
{
    let mut effects: Vec<Effect> = Vec::new();
    if fire_pressed {
        effects = act(world, PaddleAction::Fire);
    }
    if interact_pressed {
        let mut more: Vec<Effect> = act(world, PaddleAction::Interact);
        effects.append(&mut more);
    }
    effects
}

/// One of the particles that show a refill: it starts at the paddle, moved
/// by `jitter`, is white, and flies to the left end of the stats bar
/// within half a second.
pub open spec fn spec_refill_particle(paddle: Point, half_screen: int, jitter: Point) -> BoxParticlesEvent {
    BoxParticlesEvent {
        init_position: Point {
            x: (paddle.x + jitter.x) as i64,
            y: (paddle.y + jitter.y) as i64,
        },
        target_position: Point {
            x: (-BLOCK_GROUP_OFFSET) as i64,
            y: (paddle.y + half_screen + 10_000) as i64,
        },
        z_index: (-5_000) as i64,
        color: spec_white(),
        target_color: spec_white(),
        size: Point { x: 10_000, y: 10_000 },
        target_scale: Scale { x: 1_200, y: 1_200, z: 1_200 },
        duration_millis: 500,
    }
}

/// One of the particles that show a refill of the paddle at `paddle`.
/// `half_screen` is half the height of the view; `jitter` is how far the
/// host moves the start, at random.
pub fn refill_particle(paddle: Point, half_screen: i64, jitter: Point) -> (event: BoxParticlesEvent)
    requires
        spec_can_fly_to_bar(paddle, half_screen as int, jitter),
    ensures
        event == spec_refill_particle(paddle, half_screen as int, jitter),
{
    BoxParticlesEvent {
        init_position: Point { x: paddle.x + jitter.x, y: paddle.y + jitter.y },
        target_position: Point {
            x: -BLOCK_GROUP_OFFSET,
            y: (paddle.y as i128 + half_screen as i128 + 10_000) as i64,
        },
        z_index: -5_000,
        color: white(),
        target_color: white(),
        size: Point { x: 10_000, y: 10_000 },
        target_scale: Scale { x: 1_200, y: 1_200, z: 1_200 },
        duration_millis: 500,
    }
}

/// Whether a paddle that moves at `speed` leaves an exhaust: it does
/// unless the square of its speed, in world units per second, is below
/// ten.
pub open spec fn spec_leaves_exhaust(speed: nat) -> bool {
    speed * speed >= 10_000_000
}

/// What a paddle at height `y` that moves at `speed` asks for in one
/// frame: nothing while it is too slow to leave an exhaust, else the depth
/// for the stats bar, beside the exhaust particle that the host shows.
pub fn spawn_particles(speed: u64, y: i64) -> (depth: Option<UpdateStatsBarDepthEvent>)
    ensures
        depth is Some <==> spec_leaves_exhaust(speed as nat),
        depth matches Some(event) ==> event.depth == spec_depth_readout(y as int),
{
    assert(speed * speed <= u64::MAX * u64::MAX) by (nonlinear_arith);
    let squared: u128 = (speed as u128) * (speed as u128);
    if squared < 10_000_000 {
        return None;
    }
    // also update stats depth
    Some(depth_readout(y))
}

/// The height that the camera moves towards while the paddle is at height
/// `paddle_y`: the paddle's height, but no higher than the top of the
/// world.
pub fn follow_cam(paddle_y: i64) -> (target: i64)
    ensures
        target == (if paddle_y < PADDLE_MAX_HEIGHT {
            paddle_y
        } else {
            PADDLE_MAX_HEIGHT
        }),
{
    if paddle_y < PADDLE_MAX_HEIGHT {
        paddle_y
    } else {
        PADDLE_MAX_HEIGHT
    }
}

} // verus!
