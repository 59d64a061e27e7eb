use deepbreak::ball::CollectedResources;
use deepbreak::blocks::{Block, BlockType};
use deepbreak::paddle::Paddle;
use deepbreak::particles::{Point, Scale};
use deepbreak::physics::{
    collision_fits, collision_groups, deposit_particle, deposit_spawns, on_block_hit,
    on_paddle_hit, process_collision, process_collisions, set_shop_panel, Body, CollisionEvent,
    CollisionGroups, Effect, BALL_GROUP, BLOCK_GROUP, PADDLE_GROUP, PADDLE_SHOP_GROUP, WALL_GROUP,
};
use deepbreak::shop::{ShopItem, ShopStats};
use deepbreak::shoppanel::{ShopPanel, UpdateShopPanelsEvent};
use deepbreak::statsbar::UpdateStatsBarResourcesEvent;
use deepbreak::world::World;

const BLOCK: u64 = 1;
const BALL: u64 = 2;
const PADDLE: u64 = 3;
const ZONE: u64 = 4;
const OTHER: u64 = 99;

fn ledger(entries: &[(BlockType, u32)]) -> CollectedResources {
    let mut ledger = CollectedResources::new();
    for (t, n) in entries {
        ledger.counts.insert(*t, *n);
    }
    ledger
}

fn world_with(block: BlockType) -> World {
    let mut world = World::new(ShopStats::default());
    world.insert_block(BLOCK, Block(block));
    world.insert_ball(BALL);
    world.insert_paddle(PADDLE, Paddle::new());
    world.insert_shop_panel(ZONE, ShopPanel::new(ShopItem::Speed));
    world
}

fn hit_points(world: &World, id: u64) -> u16 {
    world.blocks.get(&id).unwrap().hit_points.remaining()
}

#[test]
fn a_block_of_three_hit_points_breaks_on_the_third_hit() {
    let mut world = world_with(BlockType::Pink);
    assert_eq!(hit_points(&world, BLOCK), 3);
    let hit = CollisionEvent::Started(BALL, BLOCK);

    assert_eq!(process_collision(&mut world, &hit), vec![]);
    assert_eq!(hit_points(&world, BLOCK), 2);
    assert!(world.despawning.is_empty());
    assert!(world.balls.get(&BALL).unwrap().resources.counts.is_empty());

    assert_eq!(process_collision(&mut world, &hit), vec![]);
    assert_eq!(hit_points(&world, BLOCK), 1);
    assert!(world.despawning.is_empty());
    assert!(world.balls.get(&BALL).unwrap().resources.counts.is_empty());

    assert_eq!(
        process_collision(&mut world, &hit),
        vec![Effect::BlockBreak { entity: BLOCK, block_type: BlockType::Pink }]
    );
    assert_eq!(world.despawning, vec![BLOCK]);
    assert_eq!(
        world.balls.get(&BALL).unwrap().resources,
        ledger(&[(BlockType::Pink, 1)])
    );
    assert_eq!(world.despawn_hack(), vec![BLOCK]);
    assert!(world.blocks.is_empty());
    assert!(world.despawning.is_empty());
}

#[test]
fn the_order_of_the_two_bodies_does_not_matter() {
    let mut a = world_with(BlockType::LightBlue);
    let mut b = world_with(BlockType::LightBlue);
    let fx_a = process_collision(&mut a, &CollisionEvent::Started(BLOCK, BALL));
    let fx_b = process_collision(&mut b, &CollisionEvent::Started(BALL, BLOCK));
    assert_eq!(fx_a, fx_b);
    assert_eq!(
        fx_a,
        vec![Effect::BlockBreak { entity: BLOCK, block_type: BlockType::LightBlue }]
    );
    assert_eq!(a.despawning, b.despawning);
    assert_eq!(a.balls.get(&BALL), b.balls.get(&BALL));
    assert_eq!(
        a.balls.get(&BALL).unwrap().resources,
        ledger(&[(BlockType::LightBlue, 1)])
    );
}

#[test]
fn only_a_ball_damages_a_block() {
    let mut world = world_with(BlockType::Pink);
    assert_eq!(process_collision(&mut world, &CollisionEvent::Started(PADDLE, BLOCK)), vec![]);
    assert_eq!(process_collision(&mut world, &CollisionEvent::Started(BLOCK, OTHER)), vec![]);
    assert_eq!(process_collision(&mut world, &CollisionEvent::Started(BLOCK, BLOCK)), vec![]);
    assert_eq!(hit_points(&world, BLOCK), 3);
    assert!(world.despawning.is_empty());
    // the block rule comes first: the paddle is not looked at
    assert!(world.paddle.unwrap().paddle.resources.counts.is_empty());
}

#[test]
fn damage_follows_the_damage_level() {
    let mut world = world_with(BlockType::Blue);
    world.shop_stats.damage_level = 3;
    let hit = CollisionEvent::Started(BALL, BLOCK);
    for left in [17u16, 14, 11, 8, 5, 2] {
        assert_eq!(process_collision(&mut world, &hit), vec![]);
        assert_eq!(hit_points(&world, BLOCK), left);
    }
    assert_eq!(
        process_collision(&mut world, &hit),
        vec![Effect::BlockBreak { entity: BLOCK, block_type: BlockType::Blue }]
    );
    assert_eq!(hit_points(&world, BLOCK), 2);
}

#[test]
fn a_block_that_waits_to_vanish_can_be_hit_again() {
    let mut world = world_with(BlockType::LightBlue);
    world.insert_ball(20);
    let first = process_collision(&mut world, &CollisionEvent::Started(BALL, BLOCK));
    let second = process_collision(&mut world, &CollisionEvent::Started(BLOCK, 20));
    assert_eq!(first, second);
    assert_eq!(world.despawning, vec![BLOCK, BLOCK]);
    assert_eq!(world.balls.get(&20).unwrap().resources, ledger(&[(BlockType::LightBlue, 1)]));
    assert_eq!(world.despawn_hack(), vec![BLOCK, BLOCK]);
    assert!(world.blocks.is_empty());
}

#[test]
fn a_ball_deposits_all_it_carries_on_the_paddle() {
    let mut world = world_with(BlockType::Pink);
    world.balls.get_mut(&BALL).unwrap().resources =
        ledger(&[(BlockType::Red, 5), (BlockType::Blue, 2)]);
    let mut paddle = Paddle::new();
    paddle.resources = ledger(&[(BlockType::Red, 1), (BlockType::Orange, 4)]);
    world.insert_paddle(PADDLE, paddle);

    let effects = process_collision(&mut world, &CollisionEvent::Started(BALL, PADDLE));
    assert_eq!(
        effects,
        vec![
            Effect::Deposit { ball: BALL, block_type: BlockType::Blue, num_spawns: 3 },
            Effect::Deposit { ball: BALL, block_type: BlockType::Red, num_spawns: 3 },
            Effect::StatsBarResources(UpdateStatsBarResourcesEvent),
        ]
    );
    assert_eq!(
        world.paddle.unwrap().paddle.resources,
        ledger(&[(BlockType::Red, 6), (BlockType::Blue, 2), (BlockType::Orange, 4)])
    );
    assert!(world.balls.get(&BALL).unwrap().resources.counts.is_empty());
    assert_eq!(world.paddle.unwrap().paddle.num_balls.0, 3);
}

#[test]
fn a_ball_deposits_on_an_empty_paddle() {
    let mut world = world_with(BlockType::Pink);
    world.balls.get_mut(&BALL).unwrap().resources =
        ledger(&[(BlockType::Red, 5), (BlockType::Blue, 2)]);
    let effects = process_collision(&mut world, &CollisionEvent::Started(PADDLE, BALL));
    assert_eq!(effects.len(), 3);
    assert_eq!(
        world.paddle.unwrap().paddle.resources,
        ledger(&[(BlockType::Red, 5), (BlockType::Blue, 2)])
    );
    assert_eq!(world.balls.get(&BALL).unwrap().resources, CollectedResources::new());
}

#[test]
fn an_empty_ball_still_refreshes_the_bar() {
    let mut world = world_with(BlockType::Pink);
    let effects = process_collision(&mut world, &CollisionEvent::Started(PADDLE, BALL));
    assert_eq!(effects, vec![Effect::StatsBarResources(UpdateStatsBarResourcesEvent)]);
}

#[test]
fn only_a_ball_deposits() {
    let mut world = world_with(BlockType::Pink);
    assert_eq!(process_collision(&mut world, &CollisionEvent::Started(PADDLE, OTHER)), vec![]);
    assert_eq!(process_collision(&mut world, &CollisionEvent::Started(ZONE, PADDLE)), vec![]);
    // the paddle rule comes before the shop rule: the zone stays as it is
    assert!(!world.shop_panels[0].panel.enabled);
}

#[test]
fn deposits_grow_with_the_load() {
    assert_eq!(deposit_spawns(0), 0);
    assert_eq!(deposit_spawns(1), 3);
    assert_eq!(deposit_spawns(10), 3);
    assert_eq!(deposit_spawns(11), 6);
    assert_eq!(deposit_spawns(50), 6);
    assert_eq!(deposit_spawns(51), 9);
    assert_eq!(deposit_spawns(u32::MAX), 9);
    let mut world = world_with(BlockType::Pink);
    world.balls.get_mut(&BALL).unwrap().resources = ledger(&[
        (BlockType::Orange, 51),
        (BlockType::Purple, 0),
        (BlockType::DarkBlue, 11),
    ]);
    let effects = on_paddle_hit(&mut world, BALL);
    assert_eq!(
        effects,
        vec![
            Effect::Deposit { ball: BALL, block_type: BlockType::DarkBlue, num_spawns: 6 },
            Effect::Deposit { ball: BALL, block_type: BlockType::Orange, num_spawns: 9 },
            Effect::StatsBarResources(UpdateStatsBarResourcesEvent),
        ]
    );
    assert_eq!(world.paddle.unwrap().paddle.resources.counts.get(BlockType::Purple), Some(0));
}

#[test]
fn shop_zones_are_entered_and_left() {
    let mut world = world_with(BlockType::Pink);
    let update = vec![Effect::ShopPanels(UpdateShopPanelsEvent)];
    assert_eq!(process_collision(&mut world, &CollisionEvent::Started(OTHER, ZONE)), update);
    assert!(world.shop_panels[0].panel.enabled);
    assert_eq!(process_collision(&mut world, &CollisionEvent::Stopped(ZONE, OTHER)), update);
    assert!(!world.shop_panels[0].panel.enabled);
    assert_eq!(process_collision(&mut world, &CollisionEvent::Started(ZONE, OTHER)), update);
    assert!(world.shop_panels[0].panel.enabled);
    assert_eq!(process_collision(&mut world, &CollisionEvent::Stopped(OTHER, ZONE)), update);
    assert!(!world.shop_panels[0].panel.enabled);
    assert_eq!(world.shop_panels[0].panel.item, ShopItem::Speed);
    assert_eq!(world.shop_panels[0].panel.upgrade, "Speed Upgrade");
}

#[test]
fn the_first_body_that_is_a_zone_decides() {
    let mut world = world_with(BlockType::Pink);
    world.insert_shop_panel(5, ShopPanel::new(ShopItem::Damage));
    process_collision(&mut world, &CollisionEvent::Started(5, ZONE));
    assert!(world.shop_panels[1].panel.enabled);
    assert!(!world.shop_panels[0].panel.enabled);
    process_collision(&mut world, &CollisionEvent::Started(ZONE, 5));
    assert!(world.shop_panels[0].panel.enabled);
    assert_eq!(set_shop_panel(&mut world, 5, false).len(), 1);
    assert!(!world.shop_panels[1].panel.enabled);
    assert_eq!(world.find_shop_panel(5), Some(1));
    assert_eq!(world.find_shop_panel(ZONE), Some(0));
    assert_eq!(world.find_shop_panel(OTHER), None);
}

#[test]
fn contacts_that_end_matter_to_shop_zones_only() {
    let mut world = world_with(BlockType::Pink);
    assert_eq!(process_collision(&mut world, &CollisionEvent::Stopped(BALL, BLOCK)), vec![]);
    assert_eq!(process_collision(&mut world, &CollisionEvent::Stopped(BALL, PADDLE)), vec![]);
    assert_eq!(hit_points(&world, BLOCK), 3);
}

#[test]
fn strangers_do_nothing() {
    let mut world = world_with(BlockType::Pink);
    assert_eq!(process_collision(&mut world, &CollisionEvent::Started(OTHER, 100)), vec![]);
    assert_eq!(process_collision(&mut world, &CollisionEvent::Started(BALL, BALL)), vec![]);
    assert_eq!(process_collision(&mut world, &CollisionEvent::Stopped(OTHER, 100)), vec![]);
}

#[test]
fn a_ball_is_never_taken_for_a_block_or_the_paddle() {
    let mut world = World::new(ShopStats::default());
    world.insert_block(7, Block(BlockType::Pink));
    world.insert_ball(7);
    world.insert_ball(8);
    world.insert_paddle(8, Paddle::new());
    assert!(world.is_ball(7));
    assert!(!world.is_block(7));
    assert!(!world.is_paddle(8));
    assert!(!world.is_paddle(7));
    assert_eq!(process_collision(&mut world, &CollisionEvent::Started(7, 8)), vec![]);
    assert_eq!(hit_points(&world, 7), 3);
}

#[test]
fn a_frame_of_events_is_applied_in_order() {
    let mut world = world_with(BlockType::LightBlue);
    world.insert_block(10, Block(BlockType::Pink));
    let events = vec![
        CollisionEvent::Started(BALL, 10),
        CollisionEvent::Started(BLOCK, BALL),
        CollisionEvent::Started(PADDLE, ZONE),
        CollisionEvent::Started(BALL, PADDLE),
        CollisionEvent::Stopped(BALL, PADDLE),
        CollisionEvent::Started(OTHER, ZONE),
        CollisionEvent::Started(10, BALL),
    ];
    let report = process_collisions(&mut world, &events);
    assert_eq!(report.processed, 7);
    assert_eq!(
        report.effects,
        vec![
            Effect::BlockBreak { entity: BLOCK, block_type: BlockType::LightBlue },
            Effect::Deposit { ball: BALL, block_type: BlockType::LightBlue, num_spawns: 3 },
            Effect::StatsBarResources(UpdateStatsBarResourcesEvent),
            Effect::ShopPanels(UpdateShopPanelsEvent),
        ]
    );
    assert_eq!(hit_points(&world, 10), 1);
    assert_eq!(world.despawning, vec![BLOCK]);
    assert_eq!(world.paddle.unwrap().paddle.resources, ledger(&[(BlockType::LightBlue, 1)]));
    assert!(world.balls.get(&BALL).unwrap().resources.counts.is_empty());
    assert!(world.shop_panels[0].panel.enabled);
}

#[test]
fn no_events_change_nothing() {
    let mut world = world_with(BlockType::Pink);
    let report = process_collisions(&mut world, &vec![]);
    assert_eq!(report.processed, 0);
    assert!(report.effects.is_empty());
    assert_eq!(hit_points(&world, BLOCK), 3);
}

#[test]
fn a_frame_stops_before_a_count_would_overflow() {
    let mut world = world_with(BlockType::LightBlue);
    world.balls.get_mut(&BALL).unwrap().resources = ledger(&[(BlockType::LightBlue, u32::MAX)]);
    let lethal = CollisionEvent::Started(BALL, BLOCK);
    assert!(!collision_fits(&world, &lethal));
    let events = vec![CollisionEvent::Started(OTHER, ZONE), lethal, CollisionEvent::Stopped(ZONE, 0)];
    let report = process_collisions(&mut world, &events);
    assert_eq!(report.processed, 1);
    assert_eq!(report.effects, vec![Effect::ShopPanels(UpdateShopPanelsEvent)]);
    assert!(world.shop_panels[0].panel.enabled);
    assert!(world.despawning.is_empty());

    // the paddle cannot take the load either
    let mut paddle = Paddle::new();
    paddle.resources = ledger(&[(BlockType::LightBlue, 1)]);
    world.insert_paddle(PADDLE, paddle);
    assert!(!collision_fits(&world, &CollisionEvent::Started(PADDLE, BALL)));
    assert!(collision_fits(&world, &CollisionEvent::Started(PADDLE, OTHER)));
    assert!(collision_fits(&world, &CollisionEvent::Stopped(PADDLE, BALL)));
    let report = process_collisions(&mut world, &vec![CollisionEvent::Started(PADDLE, BALL)]);
    assert_eq!(report.processed, 0);
    assert_eq!(world.paddle.unwrap().paddle.resources, ledger(&[(BlockType::LightBlue, 1)]));
}

#[test]
fn a_hit_that_is_not_lethal_always_fits() {
    let mut world = world_with(BlockType::Pink);
    world.balls.get_mut(&BALL).unwrap().resources = ledger(&[(BlockType::Pink, u32::MAX)]);
    let hit = CollisionEvent::Started(BALL, BLOCK);
    assert!(collision_fits(&world, &hit));
    assert_eq!(on_block_hit(&mut world, BLOCK, BALL), vec![]);
    assert!(collision_fits(&world, &hit));
    assert_eq!(on_block_hit(&mut world, BLOCK, BALL), vec![]);
    assert!(!collision_fits(&world, &hit));
}

#[test]
fn vanishing_blocks_leave_the_others() {
    let mut world = world_with(BlockType::LightBlue);
    world.insert_block(10, Block(BlockType::LightBlue));
    world.insert_block(11, Block(BlockType::Red));
    process_collision(&mut world, &CollisionEvent::Started(BALL, 10));
    assert_eq!(world.despawn_hack(), vec![10]);
    assert_eq!(world.blocks.len(), 2);
    assert!(world.blocks.contains_key(&BLOCK));
    assert!(world.blocks.contains_key(&11));
    assert_eq!(world.despawn_hack(), vec![]);
    assert_eq!(world.blocks.len(), 2);
    assert_eq!(world.balls.len(), 1);
}

#[test]
fn bodies_collide_by_their_groups() {
    assert_eq!(
        [BLOCK_GROUP, BALL_GROUP, PADDLE_GROUP, WALL_GROUP, PADDLE_SHOP_GROUP],
        [1, 2, 4, 8, 16]
    );
    assert_eq!(collision_groups(Body::Block), CollisionGroups { memberships: 1, filters: 6 });
    assert_eq!(collision_groups(Body::Ball), CollisionGroups { memberships: 2, filters: 15 });
    assert_eq!(collision_groups(Body::Paddle), CollisionGroups { memberships: 4, filters: 11 });
    assert_eq!(collision_groups(Body::Wall), CollisionGroups { memberships: 8, filters: 6 });
    assert_eq!(collision_groups(Body::ShopZone), CollisionGroups { memberships: 16, filters: 16 });
    assert_eq!(
        collision_groups(Body::PaddleSensor),
        CollisionGroups { memberships: 16, filters: 16 }
    );
}

#[test]
fn deposit_particles_fly_to_the_bar() {
    let p = deposit_particle(
        BlockType::Blue,
        Point { x: 10_000, y: 500_000 },
        360_000,
        Point { x: -4_000, y: 2_500 },
    );
    assert_eq!(p.init_position, Point { x: 6_000, y: 502_500 });
    assert_eq!(p.target_position, Point { x: 600_000, y: 870_000 });
    assert_eq!(p.z_index, 5_000);
    assert_eq!(p.color, BlockType::Blue.bloom_colour());
    assert_eq!(p.target_color, BlockType::Blue.bloom_colour());
    assert_eq!(p.size, Point { x: 4_000, y: 4_000 });
    assert_eq!(p.target_scale, Scale { x: 1_200, y: 1_200, z: 1_200 });
    assert_eq!(p.duration_millis, 500);
}

#[test]
fn collisions_neither_make_nor_destroy_entities() {
    let mut world = world_with(BlockType::LightBlue);
    world.insert_block(10, Block(BlockType::Red));
    world.insert_ball(20);
    let events = vec![
        CollisionEvent::Started(BALL, BLOCK),
        CollisionEvent::Started(10, 20),
        CollisionEvent::Started(20, PADDLE),
        CollisionEvent::Started(ZONE, PADDLE),
        CollisionEvent::Started(ZONE, OTHER),
        CollisionEvent::Stopped(BLOCK, BALL),
    ];
    let report = process_collisions(&mut world, &events);
    assert_eq!(report.processed, events.len());
    assert_eq!(world.blocks.len(), 2);
    assert_eq!(world.blocks.get(&BLOCK).unwrap().block, Block(BlockType::LightBlue));
    assert_eq!(world.blocks.get(&10).unwrap().block, Block(BlockType::Red));
    assert_eq!(hit_points(&world, BLOCK), 1);
    assert_eq!(hit_points(&world, 10), 9);
    assert_eq!(world.balls.len(), 2);
    assert_eq!(world.paddle.unwrap().id, PADDLE);
    assert_eq!(world.paddle.unwrap().paddle.num_balls.0, 3);
    assert_eq!(world.shop_panels.len(), 1);
    assert_eq!(world.shop_panels[0].id, ZONE);
    assert_eq!(world.shop_stats, ShopStats::default());
}
