use deepbreak::blocks::{
    block_break, pick_base_block_type, pick_block_type, spawn_block_at, spawn_blocks, spawn_rows,
    Block, BlockType, Colour, HitPoints, NoiseSamples, BLOCK_COUNT_WIDTH, BLOCK_GROUP_OFFSET,
    BLOCK_SIZE, MAX_ROW, NUM_PARTICLES,
};
use deepbreak::particles::{Point, Scale};

fn quiet() -> NoiseSamples {
    NoiseSamples {
        detail: 0,
        light_blue: 0,
        light_purple: 0,
        red: 0,
        orange: 0,
        purple: 0,
        blue: 0,
    }
}

#[test]
fn materials_are_numbered_in_order() {
    let all = BlockType::all();
    assert_eq!(all.len(), BlockType::COUNT);
    assert_eq!(
        all,
        vec![
            BlockType::Blue,
            BlockType::LightBlue,
            BlockType::DarkBlue,
            BlockType::Purple,
            BlockType::LightPurple,
            BlockType::Pink,
            BlockType::Red,
            BlockType::Orange,
        ]
    );
    for (i, t) in all.iter().enumerate() {
        assert_eq!(t.index(), i);
        assert_eq!(BlockType::from_index(i), Some(*t));
    }
    assert_eq!(BlockType::from_index(8), None);
    assert_eq!(BlockType::from_index(usize::MAX), None);
}

#[test]
fn each_material_has_its_hit_points() {
    assert_eq!(BlockType::Blue.max_hitpoints(), 20);
    assert_eq!(BlockType::DarkBlue.max_hitpoints(), 5);
    assert_eq!(BlockType::LightBlue.max_hitpoints(), 1);
    assert_eq!(BlockType::Purple.max_hitpoints(), 5);
    assert_eq!(BlockType::LightPurple.max_hitpoints(), 6);
    assert_eq!(BlockType::Pink.max_hitpoints(), 3);
    assert_eq!(BlockType::Red.max_hitpoints(), 10);
    assert_eq!(BlockType::Orange.max_hitpoints(), 20);
}

#[test]
fn each_material_has_its_colour() {
    assert_eq!(
        BlockType::Blue.colour(),
        Colour { red: 1450, green: 2900, blue: 7250, alpha: 10_000 }
    );
    assert_eq!(
        BlockType::Orange.colour(),
        Colour { red: 9450, green: 6630, blue: 3330, alpha: 10_000 }
    );
    assert_eq!(
        BlockType::Pink.colour(),
        Colour { red: 7530, green: 1800, blue: 3730, alpha: 10_000 }
    );
}

#[test]
fn particles_glow_a_tenth_brighter() {
    assert_eq!(
        BlockType::Blue.bloom_colour(),
        Colour { red: 1595, green: 3190, blue: 7975, alpha: 10_000 }
    );
    assert_eq!(
        BlockType::Orange.bloom_colour(),
        Colour { red: 10_395, green: 7293, blue: 3663, alpha: 10_000 }
    );
}

#[test]
fn damage_below_the_hit_points_is_subtracted() {
    let mut hp = HitPoints::new(3);
    assert_eq!(hp.damage(1), Ok(2));
    assert_eq!(hp.remaining(), 2);
    assert_eq!(hp.damage(1), Ok(1));
    assert_eq!(hp.remaining(), 1);
}

#[test]
fn damage_that_reaches_zero_is_lethal_and_leaves_the_counter() {
    let mut hp = HitPoints::new(3);
    assert_eq!(hp.damage(3), Err(()));
    assert_eq!(hp.remaining(), 3);
    assert_eq!(hp.damage(u16::MAX), Err(()));
    assert_eq!(hp.remaining(), 3);
    let mut last = HitPoints::new(1);
    assert_eq!(last.damage(1), Err(()));
    assert_eq!(last.remaining(), 1);
}

#[test]
fn damage_of_nothing_changes_nothing() {
    let mut hp = HitPoints::new(4);
    assert_eq!(hp.damage(0), Ok(4));
    let mut none = HitPoints::new(0);
    assert_eq!(none.damage(0), Err(()));
}

#[test]
fn seven_fields_are_sampled() {
    let fields = NoiseSamples::fields();
    assert_eq!(fields.len(), 7);
    assert_eq!(fields[0].seed, 123);
    assert_eq!(fields[0].frequency_hundredths, 40);
    assert!(!fields[0].ridged);
    assert_eq!(fields[2].seed, 123546);
    assert_eq!(fields[2].frequency_hundredths, 8);
    assert_eq!(fields[2].lacunarity_tenths, Some(25));
    assert_eq!(fields[2].octaves, Some(3));
    assert_eq!(fields[5].seed, 361232412);
    assert!(fields[5].ridged);
    assert_eq!(fields[6].seed, 6266123);
    for (i, field) in fields.iter().enumerate() {
        if i != 2 {
            assert_eq!(field.lacunarity_tenths, None);
            assert_eq!(field.octaves, None);
        }
        if i != 0 && i != 2 {
            assert_eq!(field.frequency_hundredths, 4);
        }
    }
}

#[test]
fn samples_are_read_in_the_order_of_the_fields() {
    let s = NoiseSamples::from_values(&vec![1, 2, 3, 4, 5, 6, 7]).unwrap();
    assert_eq!(s.detail, 1);
    assert_eq!(s.light_blue, 2);
    assert_eq!(s.light_purple, 3);
    assert_eq!(s.red, 4);
    assert_eq!(s.orange, 5);
    assert_eq!(s.purple, 6);
    assert_eq!(s.blue, 7);
    assert_eq!(NoiseSamples::from_values(&vec![1, 2, 3]), None);
    assert_eq!(NoiseSamples::from_values(&vec![0; 8]), None);
}

#[test]
fn quiet_cells_follow_the_base_layers() {
    assert_eq!(pick_block_type(0, &quiet()), BlockType::LightBlue);
    assert_eq!(pick_block_type(99, &quiet()), BlockType::LightBlue);
    assert_eq!(pick_block_type(100, &quiet()), BlockType::DarkBlue);
    assert_eq!(pick_block_type(199, &quiet()), BlockType::DarkBlue);
    assert_eq!(pick_block_type(200, &quiet()), BlockType::Blue);
    assert_eq!(pick_block_type(u64::MAX, &quiet()), BlockType::Blue);
}

#[test]
fn the_detail_field_shifts_the_base_layers() {
    assert_eq!(pick_base_block_type(99, 99_999), BlockType::LightBlue);
    assert_eq!(pick_base_block_type(99, 100_000), BlockType::DarkBlue);
    assert_eq!(pick_base_block_type(100, -1), BlockType::LightBlue);
    assert_eq!(pick_base_block_type(199, 100_000), BlockType::Blue);
    assert_eq!(pick_base_block_type(205, -600_000), BlockType::DarkBlue);
    assert_eq!(pick_base_block_type(0, i64::MIN), BlockType::LightBlue);
    assert_eq!(pick_base_block_type(0, i64::MAX), BlockType::Blue);
}

#[test]
fn the_first_field_above_its_cutoff_decides() {
    let loud = NoiseSamples {
        detail: 900_000,
        light_blue: 900_000,
        light_purple: 900_000,
        red: 900_000,
        orange: 900_000,
        purple: 900_000,
        blue: 900_000,
    };
    assert_eq!(pick_block_type(300, &loud), BlockType::Blue);
    let s = NoiseSamples { blue: 650_000, ..loud };
    assert_eq!(pick_block_type(300, &s), BlockType::LightBlue);
    let s = NoiseSamples { light_blue: 0, ..s };
    assert_eq!(pick_block_type(300, &s), BlockType::LightPurple);
    let s = NoiseSamples { light_purple: 0, ..s };
    assert_eq!(pick_block_type(300, &s), BlockType::Red);
    let s = NoiseSamples { red: 0, ..s };
    assert_eq!(pick_block_type(300, &s), BlockType::Orange);
    let s = NoiseSamples { orange: 0, ..s };
    assert_eq!(pick_block_type(300, &s), BlockType::Purple);
    let s = NoiseSamples { purple: 0, ..s };
    assert_eq!(pick_block_type(300, &s), BlockType::Pink);
    let s = NoiseSamples { detail: 650_000, ..s };
    assert_eq!(pick_block_type(300, &s), BlockType::Blue);
}

#[test]
fn cutoffs_have_to_be_exceeded() {
    let at = NoiseSamples { blue: 650_000, ..quiet() };
    assert_eq!(pick_block_type(0, &at), BlockType::LightBlue);
    let above = NoiseSamples { blue: 650_001, ..quiet() };
    assert_eq!(pick_block_type(0, &above), BlockType::Blue);
    let ridge_at = NoiseSamples { purple: 700_000, ..quiet() };
    assert_eq!(pick_block_type(0, &ridge_at), BlockType::LightBlue);
    let ridge_above = NoiseSamples { purple: 700_001, ..quiet() };
    assert_eq!(pick_block_type(0, &ridge_above), BlockType::Purple);
}

#[test]
fn red_and_orange_lie_deep() {
    let red = NoiseSamples { red: 700_000, ..quiet() };
    assert_eq!(pick_block_type(80, &red), BlockType::Pink);
    assert_eq!(pick_block_type(81, &red), BlockType::Red);
    let orange = NoiseSamples { orange: 700_000, ..quiet() };
    assert_eq!(pick_block_type(160, &orange), BlockType::LightPurple);
    assert_eq!(pick_block_type(161, &orange), BlockType::Orange);
}

#[test]
fn the_generator_gives_the_same_material_for_the_same_cell() {
    let s = NoiseSamples {
        detail: 12_345,
        light_blue: -400_000,
        light_purple: 651_000,
        red: 10,
        orange: -3,
        purple: 0,
        blue: 100,
    };
    for row in [0u64, 1, 80, 81, 160, 161, 5000] {
        assert_eq!(pick_block_type(row, &s), pick_block_type(row, &s.clone()));
    }
}

#[test]
fn blocks_stand_on_the_grid() {
    let first = spawn_block_at(0, 0, &quiet());
    assert_eq!(first.column, 0);
    assert_eq!(first.row, 0);
    assert_eq!(first.x, -585_000);
    assert_eq!(first.y, 15_000);
    assert_eq!(first.block, Block(BlockType::LightBlue));
    let other = spawn_block_at(39, 2, &quiet());
    assert_eq!(other.x, 585_000);
    assert_eq!(other.y, -45_000);
    let deep = spawn_block_at(7, 150, &quiet());
    assert_eq!(deep.x, -600_000 + 7 * 30_000 + 15_000);
    assert_eq!(deep.y, 15_000 - 150 * 30_000);
    assert_eq!(deep.block, Block(BlockType::DarkBlue));
    let deepest = spawn_block_at(0, MAX_ROW, &quiet());
    assert_eq!(deepest.y, 15_000 - 300_000_000_000_000 * 30_000);
    assert_eq!(BLOCK_GROUP_OFFSET, (BLOCK_SIZE * 40) / 2);
}

#[test]
fn the_initial_grid_is_square() {
    let samples = vec![quiet(); 1600];
    let blocks = spawn_blocks(&samples).unwrap();
    assert_eq!(blocks.len(), 1600);
    assert_eq!(BLOCK_COUNT_WIDTH, 40);
    for (k, b) in blocks.iter().enumerate() {
        assert_eq!(b.column, (k % 40) as u64);
        assert_eq!(b.row, (k / 40) as u64);
        assert_eq!(*b, spawn_block_at(b.column, b.row, &quiet()));
    }
    assert_eq!(spawn_blocks(&vec![quiet(); 1599]), None);
    assert_eq!(spawn_blocks(&vec![]), None);
}

#[test]
fn rows_are_generated_from_their_own_samples() {
    let mut samples = vec![quiet(); 80];
    samples[41] = NoiseSamples { blue: 999_999, ..quiet() };
    let blocks = spawn_rows(100, 102, &samples).unwrap();
    assert_eq!(blocks.len(), 80);
    assert_eq!(blocks[0].row, 100);
    assert_eq!(blocks[0].column, 0);
    assert_eq!(blocks[0].block, Block(BlockType::DarkBlue));
    assert_eq!(blocks[39].row, 100);
    assert_eq!(blocks[39].column, 39);
    assert_eq!(blocks[40].row, 101);
    assert_eq!(blocks[41].row, 101);
    assert_eq!(blocks[41].column, 1);
    assert_eq!(blocks[41].block, Block(BlockType::Blue));
    assert_eq!(blocks[79].row, 101);
}

#[test]
fn rows_that_do_not_fit_are_refused() {
    assert_eq!(spawn_rows(5, 5, &vec![]), Some(vec![]));
    assert_eq!(spawn_rows(6, 5, &vec![]), None);
    assert_eq!(spawn_rows(0, 1, &vec![quiet(); 39]), None);
    assert_eq!(spawn_rows(0, 1, &vec![quiet(); 41]), None);
    assert_eq!(spawn_rows(MAX_ROW + 1, MAX_ROW + 2, &vec![quiet(); 40]), None);
    assert!(spawn_rows(MAX_ROW, MAX_ROW + 1, &vec![quiet(); 40]).is_some());
    assert_eq!(spawn_rows(0, u64::MAX, &vec![quiet(); 40]), None);
}

#[test]
fn a_breaking_block_throws_ten_particles_in_a_circle() {
    let centre = Point { x: 100_000, y: -200_000 };
    let particles = block_break(BlockType::Red, centre);
    assert_eq!(particles.len(), NUM_PARTICLES);
    let offsets = [
        (15_000, 0),
        (12_135, 8_817),
        (4_635, 14_266),
        (-4_635, 14_266),
        (-12_135, 8_817),
        (-15_000, 0),
        (-12_135, -8_817),
        (-4_635, -14_266),
        (4_635, -14_266),
        (12_135, -8_817),
    ];
    for (p, (dx, dy)) in particles.iter().zip(offsets.iter()) {
        assert_eq!(p.init_position, centre);
        assert_eq!(p.target_position, Point { x: 100_000 + dx, y: -200_000 + dy });
        assert_eq!(p.z_index, -5_000);
        assert_eq!(p.color, Colour { red: 9834, green: 3663, blue: 4180, alpha: 10_000 });
        assert_eq!(p.target_color, Colour { red: 9834, green: 3663, blue: 4180, alpha: 0 });
        assert_eq!(p.size, Point { x: 7_500, y: 7_500 });
        assert_eq!(p.target_scale, Scale { x: 1_000, y: 1_000, z: 1_000 });
        assert_eq!(p.duration_millis, 500);
    }
}
