use deepbreak::ball::{
    override_physics, spawn_ball, spawn_trail, trail_spawns, BallSpawn, CollectedResources,
    PreviousVelocity, Velocity, BALL_CEILING, BALL_RADIUS, LAUNCH_SPEED, MAX_VELOCITY,
};
use deepbreak::blocks::BlockType;
use deepbreak::shop::ShopStats;
use deepbreak::world::World;

fn v(dx: i64, dy: i64, speed: u64) -> Velocity {
    Velocity { dx, dy, speed }
}

#[test]
fn a_ball_that_has_not_collided_is_left_alone() {
    let mut velocity = v(3, -4, 700_000);
    let mut previous = PreviousVelocity { linvel: velocity };
    assert!(!override_physics(0, &mut velocity, &mut previous));
    assert_eq!(velocity, v(3, -4, 700_000));
    assert_eq!(previous.linvel, v(3, -4, 700_000));
}

#[test]
fn a_ball_never_slows_down() {
    let mut velocity = v(3, 4, 80_000);
    let mut previous = PreviousVelocity { linvel: v(0, -1, 100_000) };
    assert!(!override_physics(0, &mut velocity, &mut previous));
    assert_eq!(velocity, v(3, 4, 100_000));
    assert_eq!(previous.linvel, velocity);
}

#[test]
fn a_ball_may_speed_up() {
    let mut velocity = v(-1, 1, 130_000);
    let mut previous = PreviousVelocity { linvel: v(0, -1, 100_000) };
    assert!(!override_physics(0, &mut velocity, &mut previous));
    assert_eq!(velocity, v(-1, 1, 130_000));
    assert_eq!(previous.linvel, velocity);
}

#[test]
fn a_ball_is_held_to_the_highest_speed() {
    assert_eq!(MAX_VELOCITY, 500_000);
    let mut velocity = v(1, 1, 500_001);
    let mut previous = PreviousVelocity { linvel: v(0, -1, 100_000) };
    assert!(!override_physics(0, &mut velocity, &mut previous));
    assert_eq!(velocity, v(1, 1, 500_000));
    assert_eq!(previous.linvel, velocity);
    let mut at_cap = v(1, 2, 500_000);
    assert!(!override_physics(0, &mut at_cap, &mut previous));
    assert_eq!(at_cap, v(1, 2, 500_000));
}

#[test]
fn the_cap_wins_over_the_speed_before() {
    let mut velocity = v(1, 0, 100_000);
    let mut previous = PreviousVelocity { linvel: v(0, 1, 600_000) };
    assert!(!override_physics(0, &mut velocity, &mut previous));
    assert_eq!(velocity, v(1, 0, 500_000));
    assert_eq!(previous.linvel, velocity);
}

#[test]
fn a_change_of_direction_alone_counts_as_a_collision() {
    let mut velocity = v(1, 0, 100_000);
    let mut previous = PreviousVelocity { linvel: v(0, 1, 100_000) };
    assert!(!override_physics(0, &mut velocity, &mut previous));
    assert_eq!(velocity, v(1, 0, 100_000));
    assert_eq!(previous.linvel, v(1, 0, 100_000));
}

#[test]
fn a_ball_above_the_ceiling_is_removed_as_it_is() {
    let mut velocity = v(0, 1, 900_000);
    let mut previous = PreviousVelocity::zero();
    assert!(override_physics(BALL_CEILING + 1, &mut velocity, &mut previous));
    assert_eq!(velocity, v(0, 1, 900_000));
    assert_eq!(previous, PreviousVelocity::zero());
    assert!(!override_physics(BALL_CEILING, &mut velocity, &mut previous));
    assert_eq!(velocity.speed, 500_000);
}

#[test]
fn speed_over_a_series_of_collisions_only_grows_up_to_the_cap() {
    let observed = [
        v(0, -1, 100_000),
        v(0, -1, 100_000),
        v(1, 1, 90_000),
        v(1, 1, 100_000),
        v(-1, 1, 250_000),
        v(-1, -1, 249_999),
        v(2, 1, 1_000_000),
        v(2, -1, 3),
        v(2, -1, 500_000),
    ];
    let expected = [
        100_000u64, 100_000, 100_000, 100_000, 250_000, 250_000, 500_000, 500_000, 500_000,
    ];
    let mut previous = PreviousVelocity::zero();
    let mut last_speed = 0u64;
    for (seen, want) in observed.iter().zip(expected.iter()) {
        let mut velocity = *seen;
        assert!(!override_physics(-100_000, &mut velocity, &mut previous));
        assert_eq!(velocity.speed, *want);
        assert!(velocity.speed >= last_speed);
        assert!(velocity.speed <= MAX_VELOCITY);
        assert_eq!(previous.linvel, velocity);
        last_speed = velocity.speed;
    }
}

#[test]
fn the_zero_baseline_is_at_rest() {
    assert_eq!(PreviousVelocity::zero().linvel, v(0, 0, 0));
}

#[test]
fn a_ball_leaves_below_the_paddle() {
    let mut world = World::new(ShopStats::default());
    let spawn = spawn_ball(&mut world, 17, 12_000, 980_000);
    assert_eq!(spawn, BallSpawn { x: 12_000, y: 975_000, speed: 100_000 });
    assert_eq!(BALL_RADIUS, 5_000);
    assert_eq!(LAUNCH_SPEED, 100_000);
    let ball = world.balls.get(&17).unwrap();
    assert_eq!(ball.previous_velocity, PreviousVelocity::zero());
    assert_eq!(ball.resources, CollectedResources::new());
    assert_eq!(world.balls.len(), 1);
}

#[test]
fn the_world_applies_the_speed_rule_to_its_balls() {
    let mut world = World::new(ShopStats::default());
    world.insert_ball(1);
    let mut launch = v(0, -1, 100_000);
    assert!(!world.override_physics(1, 0, &mut launch));
    assert_eq!(launch, v(0, -1, 100_000));
    assert_eq!(world.balls.get(&1).unwrap().previous_velocity.linvel, launch);
    let mut slowed = v(1, 1, 40_000);
    assert!(!world.override_physics(1, 0, &mut slowed));
    assert_eq!(slowed, v(1, 1, 100_000));
    assert_eq!(world.balls.get(&1).unwrap().previous_velocity.linvel, slowed);
    // a name that is no ball
    let mut stray = v(5, 5, 999_999);
    assert!(!world.override_physics(2, BALL_CEILING + 5, &mut stray));
    assert_eq!(stray, v(5, 5, 999_999));
    assert_eq!(world.balls.len(), 1);
    // out of the play area
    let mut escaping = v(0, 1, 100_000);
    assert!(world.override_physics(1, BALL_CEILING + 1, &mut escaping));
    assert_eq!(escaping, v(0, 1, 100_000));
    assert!(world.balls.is_empty());
}

#[test]
fn trail_grows_with_the_load() {
    assert_eq!(trail_spawns(0, 0), 0);
    assert_eq!(trail_spawns(1, 0), 1);
    assert_eq!(trail_spawns(1, 1), 0);
    assert_eq!(trail_spawns(5, 4), 1);
    assert_eq!(trail_spawns(5, 5), 0);
    assert_eq!(trail_spawns(10, 9), 1);
    assert_eq!(trail_spawns(10, 10), 0);
    assert_eq!(trail_spawns(11, 0), 2);
    assert_eq!(trail_spawns(11, 9), 2);
    assert_eq!(trail_spawns(50, 7), 2);
    assert_eq!(trail_spawns(51, 7), 3);
    assert_eq!(trail_spawns(u32::MAX, u32::MAX), 3);
}

#[test]
fn trail_of_ten_units_never_fails_to_show() {
    let mut ledger = CollectedResources::new();
    ledger.counts.insert(BlockType::Red, 10);
    ledger.counts.insert(BlockType::Blue, 0);
    ledger.counts.insert(BlockType::Pink, 11);
    ledger.counts.insert(BlockType::Orange, 51);
    for _ in 0..500 {
        let trail = spawn_trail(&ledger);
        assert_eq!(trail.len(), 3);
        assert_eq!(trail[0].block_type, BlockType::Pink);
        assert_eq!(trail[0].num_spawns, 2);
        assert_eq!(trail[1].block_type, BlockType::Red);
        assert_eq!(trail[1].num_spawns, 1);
        assert_eq!(trail[2].block_type, BlockType::Orange);
        assert_eq!(trail[2].num_spawns, 3);
    }
}

#[test]
fn trail_of_a_few_units_shows_now_and_then() {
    let mut ledger = CollectedResources::new();
    ledger.counts.insert(BlockType::Purple, 5);
    let mut shown = 0u32;
    let mut hidden = 0u32;
    for _ in 0..2000 {
        let trail = spawn_trail(&ledger);
        if trail.is_empty() {
            hidden += 1;
        } else {
            assert_eq!(trail.len(), 1);
            assert_eq!(trail[0].block_type, BlockType::Purple);
            assert_eq!(trail[0].num_spawns, 1);
            shown += 1;
        }
    }
    assert!(shown > 0);
    assert!(hidden > 0);
}

#[test]
fn an_empty_ledger_leaves_no_trail() {
    assert!(spawn_trail(&CollectedResources::new()).is_empty());
}
