//! Balls: the resources a ball carries and the rule that governs its speed.

use crate::blocks::BlockType;
use crate::resources::{spec_count, ResourceCounts};
use crate::world::{World, WorldView};
use rand::Rng;
use vstd::prelude::*;

verus! {

/// The ledger after one more unit of `block_type` has been added.
pub open spec fn spec_add(counts: Map<BlockType, nat>, block_type: BlockType) -> Map<
    BlockType,
    nat,
> {
    counts.insert(block_type, spec_count(counts, block_type) + 1)
}

/// The ledger `into` after the counts of `from` have been added to it.
/// Every material that either of them has an entry for has one, and its
/// count is the sum of the two counts.
pub open spec fn spec_combine(into: Map<BlockType, nat>, from: Map<BlockType, nat>) -> Map<
    BlockType,
    nat,
> {
    Map::new(
        |t: BlockType| into.contains_key(t) || from.contains_key(t),
        |t: BlockType| spec_count(into, t) + spec_count(from, t),
    )
}

/// Whether the counts of `from` can be added to `into` without a count
/// leaving the machine's 32 bits.
pub open spec fn spec_can_absorb(into: Map<BlockType, nat>, from: Map<BlockType, nat>) -> bool {
    forall|t: BlockType| #[trigger] spec_count(into, t) + spec_count(from, t) <= u32::MAX
}

/// The block materials that a ball or the paddle has collected.
#[derive(Clone, Copy, PartialEq, Eq, Debug, Structural)]
pub struct CollectedResources {
    pub counts: ResourceCounts,
}

impl View for CollectedResources {
    type V = Map<BlockType, nat>;

    open spec fn view(&self) -> Map<BlockType, nat> {
        self.counts@
    }
}

impl CollectedResources {
    /// A ledger without any entry.
    pub fn new() -> (ledger: CollectedResources)
        ensures
            ledger@ == Map::<BlockType, nat>::empty(),
    {
        CollectedResources { counts: ResourceCounts::new() }
    }

    /// Whether one more unit of `block_type` fits.
    pub fn has_room(&self, block_type: BlockType) -> (room: bool)
        ensures
            room == (spec_count(self@, block_type) < u32::MAX),
    {
        self.counts.count(block_type) < u32::MAX
    }

    /// Adds one unit of `block_type`.
    pub fn add(&mut self, block_type: BlockType)
        requires
            spec_count(old(self)@, block_type) < u32::MAX,
        ensures
            final(self)@ == spec_add(old(self)@, block_type),
    {
        let count: u32 = self.counts.count(block_type);
        self.counts.insert(block_type, count + 1);
    }

    /// Removes every entry.
    pub fn clear(&mut self)
        ensures
            final(self)@ == Map::<BlockType, nat>::empty(),
    {
        self.counts.clear();
    }

    /// Whether the counts of `other` can be added to this ledger.
    pub fn can_absorb(&self, other: &CollectedResources) -> (fits: bool)
        ensures
            fits == spec_can_absorb(self@, other@),
    {
        let types: Vec<BlockType> = BlockType::all();
        let mut i: usize = 0;
        while i < types.len()
            invariant
                i <= types@.len(),
                types@ == BlockType::spec_all(),
                forall|t: BlockType| #[trigger] types@[t.spec_index() as int] == t,
                forall|t: BlockType|
                    t.spec_index() < i ==> #[trigger] spec_count(self@, t) + spec_count(other@, t)
                        <= u32::MAX,
            decreases types@.len() - i,
        {
            let t: BlockType = types[i];
            if self.counts.count(t) > u32::MAX - other.counts.count(t) {
                return false;
            }
            i += 1;
        }
        true
    }

    fn absorb_one(&mut self, other: &CollectedResources, block_type: BlockType)
        requires
            spec_count(old(self)@, block_type) + spec_count(other@, block_type) <= u32::MAX,
        ensures
            other@.contains_key(block_type) ==> final(self)@ == old(self)@.insert(
                block_type,
                spec_count(old(self)@, block_type) + other@[block_type],
            ),
            !other@.contains_key(block_type) ==> final(self)@ == old(self)@,
    {
        match other.counts.get(block_type) {
            Some(count) => {
                let held: u32 = self.counts.count(block_type);
                self.counts.insert(block_type, held + count);
            },
            None => {},
        }
    }

    /// Adds the counts of `other` to this ledger, material by material.
    pub fn combine(&mut self, other: &CollectedResources)
        requires
            spec_can_absorb(old(self)@, other@),
        ensures
            final(self)@ == spec_combine(old(self)@, other@),
    {
        let types: Vec<BlockType> = BlockType::all();
        let mut i: usize = 0;
        while i < types.len()
            invariant
                i <= types@.len(),
                types@ == BlockType::spec_all(),
                forall|t: BlockType| #[trigger] types@[t.spec_index() as int] == t,
                spec_can_absorb(old(self)@, other@),
                self@ == spec_combine_first(old(self)@, other@, i as nat),
            decreases types@.len() - i,
        {
            let t: BlockType = types[i];
            assert(spec_count(old(self)@, t) + spec_count(other@, t) <= u32::MAX);
            self.absorb_one(other, t);
            i += 1;
        }
    }
}

/// The ledger `into` after the counts that `from` holds for the first
/// `done` materials have been added to it.
pub open spec fn spec_combine_first(
    into: Map<BlockType, nat>,
    from: Map<BlockType, nat>,
    done: nat,
) -> Map<BlockType, nat> {
    Map::new(
        |t: BlockType| into.contains_key(t) || (t.spec_index() < done && from.contains_key(t)),
        |t: BlockType|
            if t.spec_index() < done {
                spec_count(into, t) + spec_count(from, t)
            } else {
                spec_count(into, t)
            },
    )
}

/// Merging is commutative: it does not matter which of two ledgers is
/// added to which.
pub proof fn combine_is_commutative(a: Map<BlockType, nat>, b: Map<BlockType, nat>)
    ensures
        spec_combine(a, b) == spec_combine(b, a),
{
}

/// Merging is associative: adding `a` to `b` and the result to `c` leaves
/// in `c` what adding `a` and then `b` to `c` leaves there.
pub proof fn combine_is_associative(
    a: Map<BlockType, nat>,
    b: Map<BlockType, nat>,
    c: Map<BlockType, nat>,
)
    ensures
        spec_combine(c, spec_combine(b, a)) == spec_combine(spec_combine(c, a), b),
        forall|t: BlockType|
            spec_count(#[trigger] spec_combine(c, spec_combine(b, a)), t) == spec_count(c, t)
                + spec_count(b, t) + spec_count(a, t),
{
}

/// The count of every material after a merge is the sum of the two counts,
/// and merging an empty ledger changes no count.
pub proof fn combine_adds_counts(into: Map<BlockType, nat>, from: Map<BlockType, nat>)
    ensures
        forall|t: BlockType| #[trigger]
            spec_count(spec_combine(into, from), t) == spec_count(into, t) + spec_count(from, t),
        spec_combine(into, Map::<BlockType, nat>::empty()) == into,
{
}

/// The highest speed a ball may have, in thousandths of a world unit per
/// second.
pub const MAX_VELOCITY: u64 = 500_000;

/// The speed at which a ball leaves the paddle.
pub const LAUNCH_SPEED: u64 = 100_000;

/// A ball that has risen above this height has left the play area.
pub const BALL_CEILING: i64 = 3_000_000;

/// A linear velocity: the way the body moves and how fast. `dx` and `dy`
/// form a vector that points along the movement; its length carries no
/// meaning. `speed` is in thousandths of a world unit per second.
#[derive(Clone, Copy, PartialEq, Eq, Debug, Structural)]
pub struct Velocity {
    pub dx: i64,
    pub dy: i64,
    pub speed: u64,
}

/// The velocity a ball had when its speed was last looked at.
#[derive(Clone, Copy, PartialEq, Eq, Debug, Structural)]
pub struct PreviousVelocity {
    pub linvel: Velocity,
}

impl PreviousVelocity {
    /// The baseline of a ball that has not moved yet.
    pub fn zero() -> (previous: PreviousVelocity)
        ensures
            previous == spec_zero(),
    {
        PreviousVelocity { linvel: Velocity { dx: 0, dy: 0, speed: 0 } }
    }
}

/// The baseline of a ball that has not moved yet.
pub open spec fn spec_zero() -> PreviousVelocity {
    PreviousVelocity { linvel: Velocity { dx: 0, dy: 0, speed: 0 } }
}

/// The speed a ball is given after a collision that left it with the speed
/// `current`, when it had the speed `previous` before: never less than
/// before, and never more than the cap. Where the two rules disagree the
/// cap wins.
pub open spec fn spec_enforced_speed(previous: nat, current: nat) -> nat {
    let kept = if current < previous {
        previous
    } else {
        current
    };
    if kept > MAX_VELOCITY {
        MAX_VELOCITY as nat
    } else {
        kept
    }
}

/// Whether a ball whose velocity is now `velocity` has collided since the
/// baseline `previous` was taken.
pub open spec fn spec_collided(velocity: Velocity, previous: PreviousVelocity) -> bool {
    velocity != previous.linvel
}

/// The velocity a ball in the play area has after the rule has been
/// applied: as it was where the ball has not collided, else turned the way
/// the collision left it and as fast as the rule allows.
pub open spec fn spec_override_velocity(velocity: Velocity, previous: PreviousVelocity) -> Velocity {
    if spec_collided(velocity, previous) {
        Velocity {
            dx: velocity.dx,
            dy: velocity.dy,
            speed: spec_enforced_speed(previous.linvel.speed as nat, velocity.speed as nat) as u64,
        }
    } else {
        velocity
    }
}

/// Whether a ball at height `height` has left the play area.
pub open spec fn spec_out_of_bounds(height: int) -> bool {
    height > BALL_CEILING
}

/// Applies the speed rule to one ball after the physics step. `height` is
/// the ball's height, `velocity` the velocity the physics step left it
/// with, and `previous_velocity` its baseline. Returns whether the ball has
/// left the play area and is to be removed; such a ball is left as it is.
/// Any other ball gets the velocity the rule allows it, which also becomes
/// its new baseline.
pub fn override_physics(
    height: i64,
    velocity: &mut Velocity,
    previous_velocity: &mut PreviousVelocity,
) -> (despawn: bool)
    ensures
        despawn == spec_out_of_bounds(height as int),
        despawn ==> *final(velocity) == *old(velocity) && *final(previous_velocity) == *old(
            previous_velocity,
        ),
        !despawn ==> *final(velocity) == spec_override_velocity(
            *old(velocity),
            *old(previous_velocity),
        ) && final(previous_velocity).linvel == *final(velocity),
{
    if height > BALL_CEILING {
        return true;
    }
    if velocity.dx == previous_velocity.linvel.dx && velocity.dy == previous_velocity.linvel.dy
        && velocity.speed == previous_velocity.linvel.speed {
        return false;
    }
    let mut speed: u64 = velocity.speed;
    if speed < previous_velocity.linvel.speed {
        speed = previous_velocity.linvel.speed;
    }
    if speed > MAX_VELOCITY {
        speed = MAX_VELOCITY;
    }
    velocity.speed = speed;
    previous_velocity.linvel = *velocity;
    false
}

/// The baseline of a ball in the play area after one physics step that
/// left it with the velocity `observed`.
pub open spec fn spec_next_baseline(previous: PreviousVelocity, observed: Velocity) -> PreviousVelocity {
    PreviousVelocity { linvel: spec_override_velocity(observed, previous) }
}

/// The baseline of a ball in the play area after the physics steps that
/// left it with the velocities `observed`, one after the other, the rule
/// applied after each.
pub open spec fn spec_baseline_after(previous: PreviousVelocity, observed: Seq<Velocity>) -> PreviousVelocity
    decreases observed.len(),
{
    if observed.len() == 0 {
        previous
    } else {
        spec_next_baseline(spec_baseline_after(previous, observed.drop_last()), observed.last())
    }
}

/// A ball whose baseline is within the cap stays within the cap, whatever
/// the physics steps do to it.
pub proof fn speed_stays_capped(previous: PreviousVelocity, observed: Seq<Velocity>)
    requires
        previous.linvel.speed <= MAX_VELOCITY,
    ensures
        spec_baseline_after(previous, observed).linvel.speed <= MAX_VELOCITY,
    decreases observed.len(),
{
    if observed.len() > 0 {
        speed_stays_capped(previous, observed.drop_last());
    }
}

/// The speed rule over the life of a ball. A ball starts from the zero
/// baseline. After each physics step and the rule that follows it, the
/// ball's velocity is its new baseline; its speed is within the cap; and
/// where the ball collided in that step, its speed is no less than it was
/// after the step before.
pub proof fn ball_speed_never_drops_and_stays_capped(observed: Seq<Velocity>, step: int)
    requires
        0 <= step < observed.len(),
    ensures
        ({
            let before = spec_baseline_after(spec_zero(), observed.take(step));
            let after = spec_baseline_after(spec_zero(), observed.take(step + 1));
            &&& after.linvel == spec_override_velocity(observed[step], before)
            &&& after.linvel.speed <= MAX_VELOCITY
            &&& before.linvel.speed <= MAX_VELOCITY
            &&& spec_collided(observed[step], before) ==> after.linvel.speed
                >= before.linvel.speed
            &&& !spec_collided(observed[step], before) ==> after == before
        }),
{
    let upto = observed.take(step + 1);
    assert(upto.drop_last() =~= observed.take(step));
    speed_stays_capped(spec_zero(), observed.take(step));
    speed_stays_capped(spec_zero(), upto);
}

/// A ball in flight: the baseline of its speed and what it has collected.
#[derive(Clone, Copy, PartialEq, Eq, Debug, Structural)]
pub struct Ball {
    pub previous_velocity: PreviousVelocity,
    pub resources: CollectedResources,
}

/// The mathematical model of a ball.
pub struct BallView {
    pub previous_velocity: PreviousVelocity,
    pub resources: Map<BlockType, nat>,
}

impl View for Ball {
    type V = BallView;

    open spec fn view(&self) -> BallView {
        BallView { previous_velocity: self.previous_velocity, resources: self.resources@ }
    }
}

/// Radius of a ball, in thousandths of a world unit.
pub const BALL_RADIUS: i64 = 5_000;

/// A ball leaves the paddle within this many degrees of the way the paddle
/// points, to either side.
pub const LAUNCH_SPREAD_DEGREES: u32 = 5;

/// Where a ball starts and how fast. Its direction is the host's to pick,
/// within the launch spread.
#[derive(Clone, Copy, PartialEq, Eq, Debug, Structural)]
pub struct BallSpawn {
    pub x: i64,
    pub y: i64,
    pub speed: u64,
}

/// Puts a ball into the world that leaves a paddle at (`x`, `y`), under the
/// name `id`: the ball starts one radius below the paddle, at launch speed,
/// with the zero baseline and an empty ledger.
pub fn spawn_ball(world: &mut World, id: u64, x: i64, y: i64) -> (spawn: BallSpawn)
    requires
        y - BALL_RADIUS >= i64::MIN,
    ensures
        spawn == (BallSpawn { x, y: (y - BALL_RADIUS) as i64, speed: LAUNCH_SPEED }),
        final(world)@ == (WorldView {
            balls: old(world)@.balls.insert(
                id,
                BallView { previous_velocity: spec_zero(), resources: Map::empty() },
            ),
            ..old(world)@
        }),
{
    world.insert_ball(id);
    BallSpawn { x, y: y - BALL_RADIUS, speed: LAUNCH_SPEED }
}

/// Number of trail particles that a ball sheds in one frame for a material
/// of which it carries `count` units, when the die shows `roll`. Up to ten
/// units shed one particle with a chance of one in ten for each unit; up to
/// fifty units shed two particles, more than fifty three.
pub open spec fn spec_trail_spawns(count: nat, roll: nat) -> nat {
    if count == 0 {
        0
    } else if count <= 10 {
        if roll < count {
            1
        } else {
            0
        }
    } else if count <= 50 {
        2
    } else {
        3
    }
}

/// Number of trail particles that a ball sheds in one frame for a material
/// of which it carries `count` units, when the die shows `roll`.
pub fn trail_spawns(count: u32, roll: u32) -> (num_spawns: u32)
    ensures
        num_spawns == spec_trail_spawns(count as nat, roll as nat),
{
    if count == 0 {
        0
    } else if count <= 10 {
        if roll < count {
            1
        } else {
            0
        }
    } else if count <= 50 {
        2
    } else {
        3
    }
}

/// Trail particles of one material.
#[derive(Clone, Copy, PartialEq, Eq, Debug, Structural)]
pub struct TrailSpawn {
    pub block_type: BlockType,
    pub num_spawns: u32,
}

/// The trail particles of a ball for the first `upto` materials, when the
/// die showed `rolls[i]` for the material at position `i`: an entry for
/// each material that sheds a particle, in the order of declaration.
pub open spec fn spec_spawn_trail(resources: Map<BlockType, nat>, rolls: Seq<u32>, upto: nat) -> Seq<
    TrailSpawn,
>
    decreases upto,
{
    if upto == 0 || upto > BlockType::COUNT {
        Seq::empty()
    } else {
        let before = spec_spawn_trail(resources, rolls, (upto - 1) as nat);
        let block_type = BlockType::spec_from_index((upto - 1) as nat).unwrap();
        let num_spawns = spec_trail_spawns(
            spec_count(resources, block_type),
            rolls[upto - 1] as nat,
        );
        if num_spawns == 0 {
            before
        } else {
            before.push(TrailSpawn { block_type, num_spawns: num_spawns as u32 })
        }
    }
}

/// Rolls a ten-sided die with `rand::Rng::random_range` on the generator
/// of the current thread, `rand::rng()`, over the range from zero up to,
/// not including, ten. All that is taken for granted of the result is that
/// it lies in that range. The generator seeds itself from the operating
/// system when a thread first uses it, and panics where that fails.
#[verifier::external_body]
fn roll_die() -> (roll: u32)
    ensures
        roll < 10,
{
    rand::rng().random_range(0..10)
}

/// The trail particles that a ball with the ledger `resources` sheds in
/// one frame. The die is rolled for each material of which the ball carries
/// up to ten units; the result is what `spec_spawn_trail` gives for the
/// rolls, whatever they were.
pub fn spawn_trail(resources: &CollectedResources) -> (trail: Vec<TrailSpawn>)
    ensures
        exists|rolls: Seq<u32>|
            #![trigger spec_spawn_trail(resources@, rolls, BlockType::COUNT as nat)]
            rolls.len() == BlockType::COUNT && (forall|i: int|
                0 <= i < rolls.len() ==> #[trigger] rolls[i] < 10) && trail@ == spec_spawn_trail(
                resources@,
                rolls,
                BlockType::COUNT as nat,
            ),
{
    let types: Vec<BlockType> = BlockType::all();
    let mut trail: Vec<TrailSpawn> = Vec::new();
    let ghost mut rolls: Seq<u32> = Seq::new(BlockType::COUNT as nat, |i: int| 0u32);
    let mut i: usize = 0;
    while i < types.len()
        invariant
            i <= types@.len(),
            types@ == BlockType::spec_all(),
            types@.len() == BlockType::COUNT,
            rolls.len() == BlockType::COUNT,
            forall|k: int| 0 <= k < rolls.len() ==> #[trigger] rolls[k] < 10,
            trail@ == spec_spawn_trail(resources@, rolls, i as nat),
        decreases types@.len() - i,
    {
        let block_type: BlockType = types[i];
        let count: u32 = resources.counts.count(block_type);
        let roll: u32 = if 1 <= count && count <= 10 {
            roll_die()
        } else {
            0
        };
        proof {
            let updated = rolls.update(i as int, roll);
            lemma_trail_ignores_later_rolls(resources@, rolls, updated, i as nat);
            rolls = updated;
        }
        let num_spawns: u32 = trail_spawns(count, roll);
        if num_spawns != 0 {
            trail.push(TrailSpawn { block_type, num_spawns });
        }
        i += 1;
    }
    trail
}

/// The trail of the first materials depends on the rolls for these
/// materials only.
proof fn lemma_trail_ignores_later_rolls(
    resources: Map<BlockType, nat>,
    a: Seq<u32>,
    b: Seq<u32>,
    upto: nat,
)
    requires
        forall|k: int| 0 <= k < upto ==> a[k] == b[k],
    ensures
        spec_spawn_trail(resources, a, upto) == spec_spawn_trail(resources, b, upto),
    decreases upto,
{
    if upto > 0 && upto <= BlockType::COUNT {
        lemma_trail_ignores_later_rolls(resources, a, b, (upto - 1) as nat);
    }
}

} // verus!
