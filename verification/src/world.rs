//! The entities of a session and the part of their state that the rules
//! read and write.

use crate::ball::{
    override_physics, spec_out_of_bounds, spec_override_velocity, Ball, BallView,
    CollectedResources, PreviousVelocity, Velocity,
};
use crate::blocks::{Block, BlockType, HitPoints};
use crate::paddle::{Paddle, PaddleView};
use crate::shop::ShopStats;
use crate::shoppanel::{ShopPanel, ShopPanelView};
use std::collections::HashMap;
use vstd::prelude::*;

verus! {

broadcast use vstd::std_specs::hash::group_hash_axioms;

/// A block of the world: its material and the hit points it has left.
#[derive(Clone, Copy, Debug)]
pub struct BlockEntity {
    pub block: Block,
    pub hit_points: HitPoints,
}

/// The mathematical model of a block.
pub struct BlockView {
    pub block: Block,
    pub hit_points: nat,
}

impl View for BlockEntity {
    type V = BlockView;

    open spec fn view(&self) -> BlockView {
        BlockView { block: self.block, hit_points: self.hit_points@ }
    }
}

/// The paddle and the name it is known by.
#[derive(Clone, Copy, PartialEq, Eq, Debug, Structural)]
pub struct PaddleEntity {
    pub id: u64,
    pub paddle: Paddle,
}

/// The mathematical model of the paddle and its name.
pub struct PaddleEntityView {
    pub id: u64,
    pub paddle: PaddleView,
}

impl View for PaddleEntity {
    type V = PaddleEntityView;

    open spec fn view(&self) -> PaddleEntityView {
        PaddleEntityView { id: self.id, paddle: self.paddle@ }
    }
}

/// A shop zone and the name it is known by.
#[derive(Debug)]
pub struct ShopPanelEntity {
    pub id: u64,
    pub panel: ShopPanel,
}

impl Clone for ShopPanelEntity {
    fn clone(&self) -> (copy: Self)
        ensures
            copy@ == self@,
    {
        ShopPanelEntity { id: self.id, panel: self.panel.clone() }
    }
}

/// The mathematical model of a shop zone and its name.
pub struct ShopPanelEntityView {
    pub id: u64,
    pub panel: ShopPanelView,
}

impl View for ShopPanelEntity {
    type V = ShopPanelEntityView;

    open spec fn view(&self) -> ShopPanelEntityView {
        ShopPanelEntityView { id: self.id, panel: self.panel@ }
    }
}

/// The entities of a session, each kind in a store of its own, known by the
/// names that the host gave them.
pub struct World {
    pub blocks: HashMap<u64, BlockEntity>,
    pub balls: HashMap<u64, Ball>,
    pub paddle: Option<PaddleEntity>,
    pub shop_panels: Vec<ShopPanelEntity>,
    /// Blocks that took a lethal hit, in the order of the hits. They stay in
    /// the world until the start of the next frame.
    pub despawning: Vec<u64>,
    pub shop_stats: ShopStats,
}

/// The mathematical model of the world.
pub struct WorldView {
    pub blocks: Map<u64, BlockView>,
    pub balls: Map<u64, BallView>,
    pub paddle: Option<PaddleEntityView>,
    pub shop_panels: Seq<ShopPanelEntityView>,
    pub despawning: Seq<u64>,
    pub shop_stats: ShopStats,
}

/// The models of the blocks in a store.
pub open spec fn spec_block_views(blocks: Map<u64, BlockEntity>) -> Map<u64, BlockView> {
    Map::new(|id: u64| blocks.contains_key(id), |id: u64| blocks[id]@)
}

/// The models of the balls in a store.
pub open spec fn spec_ball_views(balls: Map<u64, Ball>) -> Map<u64, BallView> {
    Map::new(|id: u64| balls.contains_key(id), |id: u64| balls[id]@)
}

/// The models of the shop zones in a store.
pub open spec fn spec_panel_views(panels: Seq<ShopPanelEntity>) -> Seq<ShopPanelEntityView> {
    Seq::new(panels.len(), |i: int| panels[i]@)
}

/// The model of the paddle, if there is one.
pub open spec fn spec_paddle_view(paddle: Option<PaddleEntity>) -> Option<PaddleEntityView> {
    match paddle {
        Some(entity) => Some(entity@),
        None => None,
    }
}

impl View for World {
    type V = WorldView;

    open spec fn view(&self) -> WorldView {
        WorldView {
            blocks: spec_block_views(self.blocks@),
            balls: spec_ball_views(self.balls@),
            paddle: spec_paddle_view(self.paddle),
            shop_panels: spec_panel_views(self.shop_panels@),
            despawning: self.despawning@,
            shop_stats: self.shop_stats,
        }
    }
}

impl WorldView {
    /// A world without entities.
    pub open spec fn spec_empty(shop_stats: ShopStats) -> WorldView {
        WorldView {
            blocks: Map::empty(),
            balls: Map::empty(),
            paddle: None,
            shop_panels: Seq::empty(),
            despawning: Seq::empty(),
            shop_stats,
        }
    }

    /// Whether `id` names a ball.
    pub open spec fn is_ball(self, id: u64) -> bool {
        self.balls.contains_key(id)
    }

    /// Whether `id` names a block. A ball is never taken for a block.
    pub open spec fn is_block(self, id: u64) -> bool {
        self.blocks.contains_key(id) && !self.balls.contains_key(id)
    }

    /// Whether `id` names the paddle. A ball is never taken for the paddle.
    pub open spec fn is_paddle(self, id: u64) -> bool {
        self.paddle matches Some(entity) && entity.id == id && !self.balls.contains_key(id)
    }

    /// The position of the first shop zone named `id` among the first
    /// `upto` zones, if there is one.
    pub open spec fn panel_index_upto(self, id: u64, upto: nat) -> Option<int>
        decreases upto,
    {
        if upto == 0 || upto > self.shop_panels.len() {
            None
        } else {
            match self.panel_index_upto(id, (upto - 1) as nat) {
                Some(i) => Some(i),
                None => if self.shop_panels[upto - 1].id == id {
                    Some(upto - 1)
                } else {
                    None
                },
            }
        }
    }

    /// The position of the first shop zone named `id`, if there is one.
    pub open spec fn panel_index(self, id: u64) -> Option<int> {
        self.panel_index_upto(id, self.shop_panels.len())
    }

    /// Whether `id` names a shop zone.
    pub open spec fn is_shop_panel(self, id: u64) -> bool {
        self.panel_index(id) is Some
    }

    /// The position of a shop zone that was found lies among the zones.
    pub proof fn panel_found_is_in_range(self, id: u64)
        ensures
            self.panel_index(id) matches Some(i) ==> 0 <= i < self.shop_panels.len()
                && self.shop_panels[i].id == id,
    {
        panel_index_is_the_first_match(self, id, self.shop_panels.len());
    }
}

/// The first shop zone named `id` is named `id`, and no zone before it is.
pub proof fn panel_index_is_the_first_match(world: WorldView, id: u64, upto: nat)
    requires
        upto <= world.shop_panels.len(),
    ensures
        match world.panel_index_upto(id, upto) {
            Some(i) => 0 <= i < upto && world.shop_panels[i].id == id && forall|k: int|
                0 <= k < i ==> (#[trigger] world.shop_panels[k]).id != id,
            None => forall|k: int| 0 <= k < upto ==> (#[trigger] world.shop_panels[k]).id != id,
        },
    decreases upto,
{
    if upto > 0 {
        panel_index_is_the_first_match(world, id, (upto - 1) as nat);
    }
}

impl World {
    /// A world without entities.
    pub fn new(shop_stats: ShopStats) -> (world: World)
        ensures
            world@ == WorldView::spec_empty(shop_stats),
    {
        let world = World {
            blocks: HashMap::new(),
            balls: HashMap::new(),
            paddle: None,
            shop_panels: Vec::new(),
            despawning: Vec::new(),
            shop_stats,
        };
        assert(world@.blocks =~= Map::empty());
        assert(world@.balls =~= Map::empty());
        assert(world@.shop_panels =~= Seq::empty());
        world
    }

    /// Puts an untouched block into the world: it has the hit points of its
    /// material. A block of the same name is replaced.
    pub fn insert_block(&mut self, id: u64, block: Block)
        ensures
            final(self)@ == (WorldView {
                blocks: old(self)@.blocks.insert(
                    id,
                    BlockView { block, hit_points: block.0.spec_max_hitpoints() },
                ),
                ..old(self)@
            }),
    {
        let entity = BlockEntity { block, hit_points: HitPoints::new(block.0.max_hitpoints()) };
        self.blocks.insert(id, entity);
        assert(self@.blocks =~= old(self)@.blocks.insert(
            id,
            BlockView { block, hit_points: block.0.spec_max_hitpoints() },
        ));
    }

    /// Puts a ball into the world, as it leaves the paddle: at rest as far
    /// as the speed rule knows, and with an empty ledger. A ball of the same
    /// name is replaced.
    pub fn insert_ball(&mut self, id: u64)
        ensures
            final(self)@ == (WorldView {
                balls: old(self)@.balls.insert(
                    id,
                    BallView {
                        previous_velocity: crate::ball::spec_zero(),
                        resources: Map::empty(),
                    },
                ),
                ..old(self)@
            }),
    {
        let ball = Ball {
            previous_velocity: PreviousVelocity::zero(),
            resources: CollectedResources::new(),
        };
        self.balls.insert(id, ball);
        assert(self@.balls =~= old(self)@.balls.insert(
            id,
            BallView { previous_velocity: crate::ball::spec_zero(), resources: Map::empty() },
        ));
    }

    /// Takes a ball out of the world. Returns whether there was one.
    pub fn remove_ball(&mut self, id: u64) -> (removed: bool)
        ensures
            removed == old(self)@.balls.contains_key(id),
            final(self)@ == (WorldView { balls: old(self)@.balls.remove(id), ..old(self)@ }),
    {
        let removed: bool = self.balls.remove(&id).is_some();
        assert(self@.balls =~= old(self)@.balls.remove(id));
        removed
    }

    /// Makes `paddle` the paddle of the world, under the name `id`.
    pub fn insert_paddle(&mut self, id: u64, paddle: Paddle)
        ensures
            final(self)@ == (WorldView {
                paddle: Some(PaddleEntityView { id, paddle: paddle@ }),
                ..old(self)@
            }),
    {
        self.paddle = Some(PaddleEntity { id, paddle });
    }

    /// Adds a shop zone behind the ones that are there.
    pub fn insert_shop_panel(&mut self, id: u64, panel: ShopPanel)
        ensures
            final(self)@ == (WorldView {
                shop_panels: old(self)@.shop_panels.push(
                    ShopPanelEntityView { id, panel: panel@ },
                ),
                ..old(self)@
            }),
    {
        self.shop_panels.push(ShopPanelEntity { id, panel });
        assert(self@.shop_panels =~= old(self)@.shop_panels.push(
            ShopPanelEntityView { id, panel: panel@ },
        ));
    }
}

impl World {
    /// Takes the blocks that took a lethal hit out of the world, at the
    /// start of a frame. Returns their names in the order of the hits; a
    /// block that was hit more than once is named more than once.
    pub fn despawn_hack(&mut self) -> (despawned: Vec<u64>)
        ensures
            despawned@ == old(self)@.despawning,
            final(self)@ == (WorldView {
                blocks: old(self)@.blocks.remove_keys(old(self)@.despawning.to_set()),
                despawning: Seq::empty(),
                ..old(self)@
            }),
    {
        let mut i: usize = 0;
        while i < self.despawning.len()
            invariant
                i <= self.despawning@.len(),
                self.despawning@ == old(self)@.despawning,
                self@.blocks == old(self)@.blocks.remove_keys(
                    self.despawning@.take(i as int).to_set(),
                ),
                self@.balls == old(self)@.balls,
                self@.paddle == old(self)@.paddle,
                self@.shop_panels == old(self)@.shop_panels,
                self@.shop_stats == old(self)@.shop_stats,
            decreases self.despawning@.len() - i,
        {
            let id: u64 = self.despawning[i];
            let ghost before = self@.blocks;
            self.blocks.remove(&id);
            proof {
                let done = self.despawning@.take(i as int);
                let next = self.despawning@.take(i + 1);
                assert(next =~= done.push(id));
                assert(next.to_set() =~= done.to_set().insert(id)) by {
                    assert forall|k: u64| next.to_set().contains(k) <==> done.to_set().insert(
                        id,
                    ).contains(k) by {
                        if next.contains(k) {
                            let j = choose|j: int| 0 <= j < next.len() && next[j] == k;
                            if j < done.len() {
                                assert(done[j] == k);
                            }
                        }
                        if done.contains(k) {
                            let j = choose|j: int| 0 <= j < done.len() && done[j] == k;
                            assert(next[j] == k);
                        }
                        if k == id {
                            assert(next[i as int] == k);
                        }
                    }
                }
                assert(self@.blocks =~= before.remove(id));
            }
            i += 1;
        }
        assert(self.despawning@.take(i as int) =~= self.despawning@);
        let mut despawned: Vec<u64> = Vec::new();
        std::mem::swap(&mut despawned, &mut self.despawning);
        despawned
    }
}

impl WorldView {
    /// The world after the speed rule has been applied to the ball `id`,
    /// which is at the height `height` and was left with the velocity
    /// `velocity` by the physics step. A ball that has left the play area
    /// is taken out of the world. Any other ball gets a new baseline.
    pub open spec fn spec_override_physics(self, id: u64, height: int, velocity: Velocity) -> WorldView {
        if !self.balls.contains_key(id) {
            self
        } else if spec_out_of_bounds(height) {
            WorldView { balls: self.balls.remove(id), ..self }
        } else {
            let ball = self.balls[id];
            WorldView {
                balls: self.balls.insert(
                    id,
                    BallView {
                        previous_velocity: PreviousVelocity {
                            linvel: spec_override_velocity(velocity, ball.previous_velocity),
                        },
                        ..ball
                    },
                ),
                ..self
            }
        }
    }
}

impl World {
    /// Applies the speed rule to the ball `id` after the physics step.
    /// `height` is the ball's height and `velocity` the velocity that the
    /// physics step left it with; the velocity that the rule allows is
    /// written back. Returns whether the ball has left the play area: it is
    /// then taken out of the world and the host has to remove it. Where
    /// `id` names no ball nothing happens.
    pub fn override_physics(&mut self, id: u64, height: i64, velocity: &mut Velocity) -> (despawn:
        bool)
        ensures
            final(self)@ == old(self)@.spec_override_physics(id, height as int, *old(velocity)),
            despawn == (old(self)@.balls.contains_key(id) && spec_out_of_bounds(height as int)),
            old(self)@.balls.contains_key(id) && !despawn ==> *final(velocity)
                == spec_override_velocity(
                *old(velocity),
                old(self)@.balls[id].previous_velocity,
            ),
            !old(self)@.balls.contains_key(id) || despawn ==> *final(velocity) == *old(velocity),
    {
        let found: Option<Ball> = match self.balls.get(&id) {
            Some(ball) => Some(*ball),
            None => None,
        };
        match found {
            None => {
                false
            },
            Some(mut ball) => {
                if override_physics(height, velocity, &mut ball.previous_velocity) {
                    self.balls.remove(&id);
                    assert(self@.balls =~= old(self)@.balls.remove(id));
                    true
                } else {
                    self.balls.insert(id, ball);
                    assert(self@.balls =~= old(self)@.spec_override_physics(
                        id,
                        height as int,
                        *old(velocity),
                    ).balls);
                    false
                }
            },
        }
    }
}

} // verus!
