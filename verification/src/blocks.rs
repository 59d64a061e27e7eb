//! Block materials, hit points and the layout of the block grid.

use crate::particles::{BoxParticlesEvent, Point, Scale};
use vstd::prelude::*;

verus! {

/// Width of a side wall, in thousandths of a world unit.
pub const WALL_WIDTH: i64 = 10_000;

/// Edge length of a block, in thousandths of a world unit.
pub const BLOCK_SIZE: i64 = 30_000;

/// Number of blocks in one row of the grid.
pub const BLOCK_COUNT_WIDTH: u64 = 40;

/// Gap between neighbouring blocks, in thousandths of a world unit.
pub const BLOCK_GAP_SIZE: i64 = 0;

/// Half the width of a full row, in thousandths of a world unit: the
/// distance from the centre line to either side wall.
pub const BLOCK_GROUP_OFFSET: i64 = 600_000;

/// The material a block is made of.
#[derive(Clone, Copy, PartialEq, Eq, Debug, Hash, Structural)]
pub enum BlockType {
    Blue,
    LightBlue,
    DarkBlue,
    Purple,
    LightPurple,
    Pink,
    Red,
    Orange,
}

/// A colour. Each channel and the opacity are in ten-thousandths of full
/// intensity; a channel above full intensity makes the colour glow.
#[derive(Clone, Copy, PartialEq, Eq, Debug, Structural)]
pub struct Colour {
    pub red: u32,
    pub green: u32,
    pub blue: u32,
    pub alpha: u32,
}

/// Full intensity of a colour channel, and full opacity.
pub const FULL_INTENSITY: u32 = 10_000;

impl BlockType {
    /// Number of materials.
    pub const COUNT: usize = 8;

    /// Position of the material in the order of declaration.
    pub open spec fn spec_index(self) -> nat {
        match self {
            BlockType::Blue => 0,
            BlockType::LightBlue => 1,
            BlockType::DarkBlue => 2,
            BlockType::Purple => 3,
            BlockType::LightPurple => 4,
            BlockType::Pink => 5,
            BlockType::Red => 6,
            BlockType::Orange => 7,
        }
    }

    /// The material at a position in the order of declaration.
    pub open spec fn spec_from_index(index: nat) -> Option<BlockType> {
        if index == 0 {
            Some(BlockType::Blue)
        } else if index == 1 {
            Some(BlockType::LightBlue)
        } else if index == 2 {
            Some(BlockType::DarkBlue)
        } else if index == 3 {
            Some(BlockType::Purple)
        } else if index == 4 {
            Some(BlockType::LightPurple)
        } else if index == 5 {
            Some(BlockType::Pink)
        } else if index == 6 {
            Some(BlockType::Red)
        } else if index == 7 {
            Some(BlockType::Orange)
        } else {
            None
        }
    }

    /// Every material, in the order of declaration.
    pub open spec fn spec_all() -> Seq<BlockType> {
        seq![
            BlockType::Blue,
            BlockType::LightBlue,
            BlockType::DarkBlue,
            BlockType::Purple,
            BlockType::LightPurple,
            BlockType::Pink,
            BlockType::Red,
            BlockType::Orange,
        ]
    }

    /// Hit points of an untouched block of this material.
    pub open spec fn spec_max_hitpoints(self) -> nat {
        match self {
            BlockType::Blue => 20,
            BlockType::DarkBlue => 5,
            BlockType::LightBlue => 1,
            BlockType::Purple => 5,
            BlockType::LightPurple => 6,
            BlockType::Pink => 3,
            BlockType::Red => 10,
            BlockType::Orange => 20,
        }
    }

    /// Display colour of the material.
    pub open spec fn spec_colour(self) -> Colour {
        match self {
            BlockType::Blue => Colour { red: 1450, green: 2900, blue: 7250, alpha: 10_000 },
            BlockType::DarkBlue => Colour { red: 980, green: 4430, blue: 6750, alpha: 10_000 },
            BlockType::LightBlue => Colour { red: 2860, green: 6630, blue: 8710, alpha: 10_000 },
            BlockType::Purple => Colour { red: 4590, green: 2240, blue: 7840, alpha: 10_000 },
            BlockType::LightPurple => Colour { red: 6780, green: 2120, blue: 7570, alpha: 10_000 },
            BlockType::Red => Colour { red: 8940, green: 3330, blue: 3800, alpha: 10_000 },
            BlockType::Pink => Colour { red: 7530, green: 1800, blue: 3730, alpha: 10_000 },
            BlockType::Orange => Colour { red: 9450, green: 6630, blue: 3330, alpha: 10_000 },
        }
    }

    /// Position of the material in the order of declaration.
    pub fn index(self) -> (index: usize)
        ensures
            index == self.spec_index(),
            index < BlockType::COUNT,
            BlockType::spec_from_index(index as nat) == Some(self),
    {
        match self {
            BlockType::Blue => 0,
            BlockType::LightBlue => 1,
            BlockType::DarkBlue => 2,
            BlockType::Purple => 3,
            BlockType::LightPurple => 4,
            BlockType::Pink => 5,
            BlockType::Red => 6,
            BlockType::Orange => 7,
        }
    }

    /// The material at a position in the order of declaration, if there is
    /// one.
    pub fn from_index(index: usize) -> (found: Option<BlockType>)
        ensures
            found == BlockType::spec_from_index(index as nat),
            found is Some <==> index < BlockType::COUNT,
            found matches Some(t) ==> t.spec_index() == index,
    {
        if index == 0 {
            Some(BlockType::Blue)
        } else if index == 1 {
            Some(BlockType::LightBlue)
        } else if index == 2 {
            Some(BlockType::DarkBlue)
        } else if index == 3 {
            Some(BlockType::Purple)
        } else if index == 4 {
            Some(BlockType::LightPurple)
        } else if index == 5 {
            Some(BlockType::Pink)
        } else if index == 6 {
            Some(BlockType::Red)
        } else if index == 7 {
            Some(BlockType::Orange)
        } else {
            None
        }
    }

    /// Every material once, in the order of declaration.
    pub fn all() -> (types: Vec<BlockType>)
        ensures
            types@ == BlockType::spec_all(),
            types@.len() == BlockType::COUNT,
            forall|t: BlockType| #[trigger] types@[t.spec_index() as int] == t,
    {
        let mut types: Vec<BlockType> = Vec::new();
        types.push(BlockType::Blue);
        types.push(BlockType::LightBlue);
        types.push(BlockType::DarkBlue);
        types.push(BlockType::Purple);
        types.push(BlockType::LightPurple);
        types.push(BlockType::Pink);
        types.push(BlockType::Red);
        types.push(BlockType::Orange);
        types
    }

    /// Hit points of an untouched block of this material.
    pub fn max_hitpoints(&self) -> (points: u16)
        ensures
            points == self.spec_max_hitpoints(),
            points >= 1,
    {
        match self {
            BlockType::Blue => 20,
            BlockType::DarkBlue => 5,
            BlockType::LightBlue => 1,
            BlockType::Purple => 5,
            BlockType::LightPurple => 6,
            BlockType::Pink => 3,
            BlockType::Red => 10,
            BlockType::Orange => 20,
        }
    }

    /// Display colour of the material.
    pub fn colour(&self) -> (colour: Colour)
        ensures
            colour == self.spec_colour(),
    {
        match self {
            BlockType::Blue => Colour { red: 1450, green: 2900, blue: 7250, alpha: 10_000 },
            BlockType::DarkBlue => Colour { red: 980, green: 4430, blue: 6750, alpha: 10_000 },
            BlockType::LightBlue => Colour { red: 2860, green: 6630, blue: 8710, alpha: 10_000 },
            BlockType::Purple => Colour { red: 4590, green: 2240, blue: 7840, alpha: 10_000 },
            BlockType::LightPurple => Colour { red: 6780, green: 2120, blue: 7570, alpha: 10_000 },
            BlockType::Red => Colour { red: 8940, green: 3330, blue: 3800, alpha: 10_000 },
            BlockType::Pink => Colour { red: 7530, green: 1800, blue: 3730, alpha: 10_000 },
            BlockType::Orange => Colour { red: 9450, green: 6630, blue: 3330, alpha: 10_000 },
        }
    }

    /// The colour in which the particles of the material glow: a tenth
    /// brighter than the display colour in every channel.
    pub open spec fn spec_bloom_colour(self) -> Colour {
        let colour = self.spec_colour();
        Colour {
            red: (colour.red * 11 / 10) as u32,
            green: (colour.green * 11 / 10) as u32,
            blue: (colour.blue * 11 / 10) as u32,
            alpha: FULL_INTENSITY,
        }
    }

    /// The colour in which the particles of the material glow.
    pub fn bloom_colour(&self) -> (colour: Colour)
        ensures
            colour == self.spec_bloom_colour(),
    {
        let colour: Colour = self.colour();
        Colour {
            red: colour.red * 11 / 10,
            green: colour.green * 11 / 10,
            blue: colour.blue * 11 / 10,
            alpha: FULL_INTENSITY,
        }
    }
}

/// A block of the grid, known by its material.
#[derive(Clone, Copy, PartialEq, Eq, Debug, Structural)]
pub struct Block(pub BlockType);

/// Remaining hit points of a block.
#[derive(Clone, Copy, Debug)]
pub struct HitPoints(u16);

impl View for HitPoints {
    type V = nat;

    closed spec fn view(&self) -> nat {
        self.0 as nat
    }
}

impl HitPoints {
    /// Hit points of an untouched block.
    pub fn new(points: u16) -> (hp: HitPoints)
        ensures
            hp@ == points,
    {
        HitPoints(points)
    }

    /// The hit points that are left.
    pub fn remaining(&self) -> (points: u16)
        ensures
            points == self@,
    {
        self.0
    }

    /// Whether a hit of `amount` points destroys the block: it does when the
    /// hit points would reach zero or go below.
    pub open spec fn is_lethal(self, amount: nat) -> bool {
        self@ <= amount
    }

    /// Applies `amount` points of damage. A lethal hit is reported as `Err`
    /// and leaves the counter alone, so that it never underflows. Any other
    /// hit is subtracted and the new value returned.
    pub fn damage(&mut self, amount: u16) -> (result: Result<u16, ()>)
        ensures
            old(self).is_lethal(amount as nat) ==> result is Err && final(self)@ == old(self)@,
            !old(self).is_lethal(amount as nat) ==> result == Ok::<u16, ()>(
                (old(self)@ - amount) as u16,
            ) && final(self)@ == old(self)@ - amount,
    {
        if self.0 <= amount {
            return Err(());
        }
        self.0 -= amount;
        Ok(self.0)
    }
}

/// One of the noise fields the level is drawn from, as the host has to build
/// it. Frequencies are in hundredths and lacunarities in tenths; a setting
/// that is `None` keeps the generator's default.
#[derive(Clone, Copy, PartialEq, Eq, Debug, Structural)]
pub struct NoiseField {
    /// Ridged multifractal noise if set, fractal Brownian motion otherwise.
    pub ridged: bool,
    pub seed: u32,
    pub frequency_hundredths: u32,
    pub lacunarity_tenths: Option<u32>,
    pub octaves: Option<u32>,
}

/// Number of units of a noise sample that make up the value one.
pub const NOISE_UNIT: i64 = 1_000_000;

/// A field has to exceed this value to decide a cell's material.
pub const FIELD_CUTOFF: i64 = 650_000;

/// The ridged field has to exceed this value to decide a cell's material.
pub const RIDGE_CUTOFF: i64 = 700_000;

/// The values of the noise fields at one grid cell, in millionths. Each field
/// is named after the material it stands for in the cascade.
#[derive(Clone, Copy, PartialEq, Eq, Debug, Structural)]
pub struct NoiseSamples {
    /// The fine-grained field: pink veins, and the blend of the base layers.
    pub detail: i64,
    pub light_blue: i64,
    pub light_purple: i64,
    /// Red below row 80, pink above.
    pub red: i64,
    /// Orange below row 160, light purple above.
    pub orange: i64,
    /// The ridged field.
    pub purple: i64,
    pub blue: i64,
}

impl NoiseSamples {
    /// The field to sample for each member, in the order of the members.
    pub open spec fn spec_fields() -> Seq<NoiseField> {
        seq![
            NoiseField {
                ridged: false,
                seed: 123,
                frequency_hundredths: 40,
                lacunarity_tenths: None,
                octaves: None,
            },
            NoiseField {
                ridged: false,
                seed: 12412,
                frequency_hundredths: 4,
                lacunarity_tenths: None,
                octaves: None,
            },
            NoiseField {
                ridged: false,
                seed: 123546,
                frequency_hundredths: 8,
                lacunarity_tenths: Some(25u32),
                octaves: Some(3u32),
            },
            NoiseField {
                ridged: false,
                seed: 1212,
                frequency_hundredths: 4,
                lacunarity_tenths: None,
                octaves: None,
            },
            NoiseField {
                ridged: false,
                seed: 124363,
                frequency_hundredths: 4,
                lacunarity_tenths: None,
                octaves: None,
            },
            NoiseField {
                ridged: true,
                seed: 361232412,
                frequency_hundredths: 4,
                lacunarity_tenths: None,
                octaves: None,
            },
            NoiseField {
                ridged: false,
                seed: 6266123,
                frequency_hundredths: 4,
                lacunarity_tenths: None,
                octaves: None,
            },
        ]
    }

    /// The field to sample for each member, in the order of the members:
    /// detail, light blue, light purple, red, orange, purple, blue.
    pub fn fields() -> (fields: Vec<NoiseField>)
        ensures
            fields@ == NoiseSamples::spec_fields(),
            fields@.len() == 7,
    {
        let mut fields: Vec<NoiseField> = Vec::new();
        fields.push(plain_field(123, 40));
        fields.push(plain_field(12412, 4));
        fields.push(
            NoiseField {
                ridged: false,
                seed: 123546,
                frequency_hundredths: 8,
                lacunarity_tenths: Some(25),
                octaves: Some(3),
            },
        );
        fields.push(plain_field(1212, 4));
        fields.push(plain_field(124363, 4));
        fields.push(
            NoiseField {
                ridged: true,
                seed: 361232412,
                frequency_hundredths: 4,
                lacunarity_tenths: None,
                octaves: None,
            },
        );
        fields.push(plain_field(6266123, 4));
        fields
    }

    /// The samples of one cell from the values of the fields, in the order
    /// of `fields`. `None` unless there are exactly seven values.
    pub fn from_values(values: &Vec<i64>) -> (samples: Option<NoiseSamples>)
        ensures
            samples is Some <==> values@.len() == 7,
            samples matches Some(s) ==> s == (NoiseSamples {
                detail: values@[0],
                light_blue: values@[1],
                light_purple: values@[2],
                red: values@[3],
                orange: values@[4],
                purple: values@[5],
                blue: values@[6],
            }),
    {
        if values.len() != 7 {
            return None;
        }
        Some(
            NoiseSamples {
                detail: values[0],
                light_blue: values[1],
                light_purple: values[2],
                red: values[3],
                orange: values[4],
                purple: values[5],
                blue: values[6],
            },
        )
    }
}

fn plain_field(seed: u32, frequency_hundredths: u32) -> (field: NoiseField)
    ensures
        field == (NoiseField {
            ridged: false,
            seed,
            frequency_hundredths,
            lacunarity_tenths: None,
            octaves: None,
        }),
{
    NoiseField { ridged: false, seed, frequency_hundredths, lacunarity_tenths: None, octaves: None }
}

/// The material of a cell in which no field stands out: light blue near the
/// top, dark blue below row 100 and blue below row 200, the borders shifted
/// by ten times the detail field.
pub open spec fn spec_pick_base_block_type(row: nat, detail: int) -> BlockType {
    let blended = 10 * detail + row * NOISE_UNIT;
    if blended < 100 * NOISE_UNIT {
        BlockType::LightBlue
    } else if blended < 200 * NOISE_UNIT {
        BlockType::DarkBlue
    } else {
        BlockType::Blue
    }
}

/// The material of the cell in row `row` whose fields have the values
/// `samples`: the first field of the cascade that exceeds its cutoff
/// decides; where none does, the base rule does.
pub open spec fn spec_pick_block_type(row: nat, samples: NoiseSamples) -> BlockType {
    if samples.blue > FIELD_CUTOFF {
        BlockType::Blue
    } else if samples.light_blue > FIELD_CUTOFF {
        BlockType::LightBlue
    } else if samples.light_purple > FIELD_CUTOFF {
        BlockType::LightPurple
    } else if samples.red > FIELD_CUTOFF {
        if row > 80 {
            BlockType::Red
        } else {
            BlockType::Pink
        }
    } else if samples.orange > FIELD_CUTOFF {
        if row > 160 {
            BlockType::Orange
        } else {
            BlockType::LightPurple
        }
    } else if samples.purple > RIDGE_CUTOFF {
        BlockType::Purple
    } else if samples.detail > FIELD_CUTOFF {
        BlockType::Pink
    } else {
        spec_pick_base_block_type(row, samples.detail as int)
    }
}

/// The material of a cell in which no field stands out.
pub fn pick_base_block_type(row: u64, detail: i64) -> (block_type: BlockType)
    ensures
        block_type == spec_pick_base_block_type(row as nat, detail as int),
{
    let blended: i128 = 10 * (detail as i128) + (row as i128) * (NOISE_UNIT as i128);
    if blended < 100 * (NOISE_UNIT as i128) {
        BlockType::LightBlue
    } else if blended < 200 * (NOISE_UNIT as i128) {
        BlockType::DarkBlue
    } else {
        BlockType::Blue
    }
}

/// The material of the cell in row `row` whose noise fields have the values
/// `samples`. The result depends on nothing but the two arguments.
pub fn pick_block_type(row: u64, samples: &NoiseSamples) -> (block_type: BlockType)
    ensures
        block_type == spec_pick_block_type(row as nat, *samples),
{
    if samples.blue > FIELD_CUTOFF {
        BlockType::Blue
    } else if samples.light_blue > FIELD_CUTOFF {
        BlockType::LightBlue
    } else if samples.light_purple > FIELD_CUTOFF {
        BlockType::LightPurple
    } else if samples.red > FIELD_CUTOFF {
        if row > 80 {
            BlockType::Red
        } else {
            BlockType::Pink
        }
    } else if samples.orange > FIELD_CUTOFF {
        if row > 160 {
            BlockType::Orange
        } else {
            BlockType::LightPurple
        }
    } else if samples.purple > RIDGE_CUTOFF {
        BlockType::Purple
    } else if samples.detail > FIELD_CUTOFF {
        BlockType::Pink
    } else {
        pick_base_block_type(row, samples.detail)
    }
}

/// The level generator is a function: equal rows and equal samples give
/// equal materials.
pub proof fn pick_block_type_is_deterministic(
    row_a: nat,
    samples_a: NoiseSamples,
    row_b: nat,
    samples_b: NoiseSamples,
)
    requires
        row_a == row_b,
        samples_a == samples_b,
    ensures
        spec_pick_block_type(row_a, samples_a) == spec_pick_block_type(row_b, samples_b),
{
}

/// The deepest row, and the rightmost column, whose position still fits
/// the coordinate range.
pub const MAX_ROW: u64 = 300_000_000_000_000;

/// A block to be placed in the world: its cell, the position of its centre
/// in thousandths of a world unit, and its material.
#[derive(Clone, Copy, PartialEq, Eq, Debug, Structural)]
pub struct BlockSpawn {
    pub column: u64,
    pub row: u64,
    pub x: i64,
    pub y: i64,
    pub block: Block,
}

/// Horizontal centre of the blocks in column `column`.
pub open spec fn spec_block_x(column: nat) -> int {
    -BLOCK_GROUP_OFFSET + column * (BLOCK_SIZE + BLOCK_GAP_SIZE) + BLOCK_SIZE / 2
}

/// Vertical centre of the blocks in row `row`. Rows grow downwards.
pub open spec fn spec_block_y(row: nat) -> int {
    BLOCK_SIZE / 2 - row * (BLOCK_SIZE + BLOCK_GAP_SIZE)
}

/// The block of the cell in column `column` and row `row`.
pub open spec fn spec_spawn_block_at(column: nat, row: nat, samples: NoiseSamples) -> BlockSpawn {
    BlockSpawn {
        column: column as u64,
        row: row as u64,
        x: spec_block_x(column) as i64,
        y: spec_block_y(row) as i64,
        block: Block(spec_pick_block_type(row, samples)),
    }
}

/// The blocks of the rows from `first` on, row by row and from left to
/// right within a row. `samples` holds the noise of the cells in that
/// order.
pub open spec fn spec_spawn_rows(first: nat, samples: Seq<NoiseSamples>) -> Seq<BlockSpawn> {
    Seq::new(
        samples.len(),
        |k: int|
            spec_spawn_block_at(
                (k % BLOCK_COUNT_WIDTH as int) as nat,
                (first + k / BLOCK_COUNT_WIDTH as int) as nat,
                samples[k],
            ),
    )
}

/// Whether `samples` is the noise of exactly the rows from `first` up to
/// `end`, and all of those rows can be placed.
pub open spec fn spec_rows_fit(first: nat, end: nat, samples: Seq<NoiseSamples>) -> bool {
    &&& first <= end
    &&& end <= MAX_ROW + 1
    &&& samples.len() == (end - first) * BLOCK_COUNT_WIDTH
}

/// The block of the cell in column `j` and row `i`, given the noise at the
/// cell.
pub fn spawn_block_at(j: u64, i: u64, samples: &NoiseSamples) -> (spawn: BlockSpawn)
    requires
        j <= MAX_ROW,
        i <= MAX_ROW,
    ensures
        spawn == spec_spawn_block_at(j as nat, i as nat, *samples),
        spawn.x == spec_block_x(j as nat),
        spawn.y == spec_block_y(i as nat),
{
    let block_type: BlockType = pick_block_type(i, samples);
    let step: i64 = BLOCK_SIZE + BLOCK_GAP_SIZE;
    let x: i64 = -BLOCK_GROUP_OFFSET + (j as i64) * step + BLOCK_SIZE / 2;
    let y: i64 = BLOCK_SIZE / 2 - (i as i64) * step;
    BlockSpawn { column: j, row: i, x, y, block: Block(block_type) }
}

/// The blocks of the rows from `first` up to, not including, `end`. `None`
/// where the rows cannot be placed or `samples` is not the noise of just
/// these rows.
pub fn spawn_rows(first: u64, end: u64, samples: &Vec<NoiseSamples>) -> (spawns: Option<
    Vec<BlockSpawn>,
>)
    ensures
        spawns is Some <==> spec_rows_fit(first as nat, end as nat, samples@),
        spawns matches Some(blocks) ==> blocks@ == spec_spawn_rows(first as nat, samples@),
{
    if first > end || end > MAX_ROW + 1 {
        return None;
    }
    let cells: u128 = ((end - first) as u128) * (BLOCK_COUNT_WIDTH as u128);
    if samples.len() as u128 != cells {
        return None;
    }
    let mut blocks: Vec<BlockSpawn> = Vec::new();
    let mut k: usize = 0;
    while k < samples.len()
        invariant
            k <= samples@.len(),
            first <= end <= MAX_ROW + 1,
            samples@.len() == (end - first) * BLOCK_COUNT_WIDTH,
            blocks@.len() == k,
            forall|n: int|
                0 <= n < k ==> blocks@[n] == #[trigger] spec_spawn_rows(first as nat, samples@)[n],
        decreases samples@.len() - k,
    {
        let column: u64 = (k as u64) % BLOCK_COUNT_WIDTH;
        let offset: u64 = (k as u64) / BLOCK_COUNT_WIDTH;
        let row: u64 = first + offset;
        let spawn: BlockSpawn = spawn_block_at(column, row, &samples[k]);
        blocks.push(spawn);
        k += 1;
    }
    Some(blocks)
}

/// The blocks of the initial grid: as many rows as a row has blocks.
pub fn spawn_blocks(samples: &Vec<NoiseSamples>) -> (spawns: Option<Vec<BlockSpawn>>)
    ensures
        spawns is Some <==> samples@.len() == BLOCK_COUNT_WIDTH * BLOCK_COUNT_WIDTH,
        spawns matches Some(blocks) ==> blocks@ == spec_spawn_rows(0, samples@),
{
    spawn_rows(0, BLOCK_COUNT_WIDTH, samples)
}

/// Number of rows kept ready beyond the deepest row in sight.
pub const DEPTH_BUFFER: u64 = 2;

/// The rows from `start` up to, not including, `end`.
#[derive(Clone, Copy, PartialEq, Eq, Debug, Structural)]
pub struct RowRange {
    pub start: u64,
    pub end: u64,
}

impl RowRange {
    /// Number of rows in the range.
    pub open spec fn spec_len(self) -> nat {
        if self.end >= self.start {
            (self.end - self.start) as nat
        } else {
            0
        }
    }

    /// Number of rows in the range.
    pub fn len(&self) -> (rows: u64)
        ensures
            rows == self.spec_len(),
    {
        if self.end >= self.start {
            self.end - self.start
        } else {
            0
        }
    }

    /// Whether the range holds no row.
    pub fn is_empty(&self) -> (empty: bool)
        ensures
            empty == (self.spec_len() == 0),
    {
        self.end <= self.start
    }
}

/// The smallest whole number of `step`s that is at least `distance`, and
/// zero where `distance` is negative.
pub open spec fn spec_steps_to_cover(distance: int, step: int) -> nat {
    if distance <= 0 {
        0
    } else {
        ((distance + step - 1) / step) as nat
    }
}

/// The row that the lower edge of the view at height `y` reaches into.
pub open spec fn spec_viewport_depth(y: int) -> nat {
    spec_steps_to_cover(BLOCK_SIZE / 2 - y, BLOCK_SIZE + BLOCK_GAP_SIZE)
}

/// The row that a ball at height `y` has reached.
pub open spec fn spec_ball_depth(y: int) -> nat {
    spec_steps_to_cover(-y, BLOCK_SIZE + BLOCK_GAP_SIZE)
}

/// The deepest row that any of the balls at the heights `ys` has reached,
/// and zero where there is no ball.
pub open spec fn spec_deepest_ball(ys: Seq<i64>) -> nat
    decreases ys.len(),
{
    if ys.len() == 0 {
        0
    } else {
        let rest = spec_deepest_ball(ys.drop_last());
        let last = spec_ball_depth(ys.last() as int);
        if last > rest {
            last
        } else {
            rest
        }
    }
}

/// The row up to which blocks have to exist: the deepest row in sight or
/// reached by a ball, and the buffer beyond it.
pub open spec fn spec_needed_depth(viewport_y: int, ball_ys: Seq<i64>) -> nat {
    let seen = spec_viewport_depth(viewport_y);
    let reached = spec_deepest_ball(ball_ys);
    (if reached > seen {
        reached
    } else {
        seen
    }) + DEPTH_BUFFER as nat
}

/// The rows that exist before a check: the initial grid where the mark has
/// not been set yet.
pub open spec fn spec_generated_rows(deepest_layer: nat) -> nat {
    if deepest_layer == 0 {
        BLOCK_COUNT_WIDTH as nat
    } else {
        deepest_layer
    }
}

/// The mark after a check: it only ever moves down.
pub open spec fn spec_next_deepest_layer(deepest_layer: nat, needed: nat) -> nat {
    let generated = spec_generated_rows(deepest_layer);
    if needed > generated {
        needed
    } else {
        generated
    }
}

/// The deepest ball is at least as deep as every ball, and is the depth of
/// one of them unless there is none.
pub proof fn deepest_ball_is_the_maximum(ys: Seq<i64>)
    ensures
        forall|i: int| 0 <= i < ys.len() ==> spec_ball_depth(#[trigger] ys[i] as int)
            <= spec_deepest_ball(ys),
        ys.len() == 0 ==> spec_deepest_ball(ys) == 0,
        ys.len() > 0 ==> exists|i: int|
            0 <= i < ys.len() && spec_ball_depth(#[trigger] ys[i] as int) == spec_deepest_ball(ys),
    decreases ys.len(),
{
    if ys.len() > 0 {
        let init = ys.drop_last();
        deepest_ball_is_the_maximum(init);
        assert forall|i: int| 0 <= i < ys.len() implies spec_ball_depth(#[trigger] ys[i] as int)
            <= spec_deepest_ball(ys) by {
            if i < init.len() {
                assert(init[i] == ys[i]);
            }
        }
    }
}

fn steps_to_cover(distance: i128) -> (steps: u64)
    requires
        -0x1_0000_0000_0000_0000 <= distance <= 0x1_0000_0000_0000_0000,
    ensures
        steps == spec_steps_to_cover(distance as int, BLOCK_SIZE + BLOCK_GAP_SIZE),
        steps <= MAX_ROW + 400_000_000_000_000,
{
    if distance <= 0 {
        0
    } else {
        let step: i128 = (BLOCK_SIZE + BLOCK_GAP_SIZE) as i128;
        ((distance + step - 1) / step) as u64
    }
}

/// The row that the lower edge of the view at height `y` reaches into.
pub fn viewport_depth(y: i64) -> (depth: u64)
    ensures
        depth == spec_viewport_depth(y as int),
{
    steps_to_cover((BLOCK_SIZE / 2) as i128 - y as i128)
}

/// The row that a ball at height `y` has reached.
pub fn ball_depth(y: i64) -> (depth: u64)
    ensures
        depth == spec_ball_depth(y as int),
{
    steps_to_cover(-(y as i128))
}

/// Checks whether the view or a ball has come close to the deepest row
/// that exists, and moves the mark `deepest_layer` down where it has.
/// `viewport_y` is the height of the lower edge of the view and `ball_ys`
/// the heights of the balls in flight. Returns the rows to generate now:
/// they start where the rows that exist end, and end at the new mark. A
/// mark of zero stands for the initial grid.
pub fn check_for_new_block_depths(deepest_layer: &mut u64, viewport_y: i64, ball_ys: &Vec<i64>) -> (rows:
    RowRange)
    ensures
        *final(deepest_layer) == spec_next_deepest_layer(
            *old(deepest_layer) as nat,
            spec_needed_depth(viewport_y as int, ball_ys@),
        ),
        rows.start == spec_generated_rows(*old(deepest_layer) as nat),
        rows.end == *final(deepest_layer),
        rows.start <= rows.end,
{
    if *deepest_layer == 0 {
        *deepest_layer = BLOCK_COUNT_WIDTH;
    }
    let start: u64 = *deepest_layer;
    let mut current_depth: u64 = viewport_depth(viewport_y);
    let ghost seen = current_depth;
    let mut i: usize = 0;
    while i < ball_ys.len()
        invariant
            i <= ball_ys@.len(),
            seen == spec_viewport_depth(viewport_y as int),
            current_depth <= MAX_ROW + 400_000_000_000_000,
            current_depth == (if spec_deepest_ball(ball_ys@.take(i as int)) > seen {
                spec_deepest_ball(ball_ys@.take(i as int))
            } else {
                seen as nat
            }),
        decreases ball_ys@.len() - i,
    {
        let depth: u64 = ball_depth(ball_ys[i]);
        proof {
            let next = ball_ys@.take(i + 1);
            assert(next.drop_last() =~= ball_ys@.take(i as int));
        }
        if depth > current_depth {
            current_depth = depth;
        }
        i += 1;
    }
    assert(ball_ys@.take(i as int) =~= ball_ys@);
    current_depth += DEPTH_BUFFER;
    if current_depth > *deepest_layer {
        *deepest_layer = current_depth;
    }
    RowRange { start, end: *deepest_layer }
}

/// A second check with the view and the balls where they were asks for no
/// row and leaves the mark where the first check put it.
pub proof fn depth_expansion_is_idempotent(deepest_layer: nat, viewport_y: int, ball_ys: Seq<i64>)
    ensures
        ({
            let needed = spec_needed_depth(viewport_y, ball_ys);
            let first = spec_next_deepest_layer(deepest_layer, needed);
            &&& spec_generated_rows(first) == first
            &&& spec_next_deepest_layer(first, needed) == first
        }),
{
}

/// The rows that two checks in a row ask for lie end to end, whatever moved
/// in between: none is left out and none is asked for twice. The mark never
/// moves up.
pub proof fn depth_expansion_is_contiguous(
    deepest_layer: nat,
    first_needed: nat,
    second_needed: nat,
)
    ensures
        ({
            let first = spec_next_deepest_layer(deepest_layer, first_needed);
            let second = spec_next_deepest_layer(first, second_needed);
            &&& spec_generated_rows(deepest_layer) <= first
            &&& spec_generated_rows(first) == first
            &&& first <= second
        }),
{
}

/// Number of particles that a breaking block throws off.
pub const NUM_PARTICLES: usize = 10;

/// How far from the centre of a breaking block a particle lands: the points
/// of a circle of half a block's size, evenly spaced and counted from the
/// right against the clock, in thousandths of a world unit.
pub open spec fn spec_break_offset(i: int) -> Point {
    if i == 0 {
        Point { x: 15_000, y: 0 }
    } else if i == 1 {
        Point { x: 12_135, y: 8_817 }
    } else if i == 2 {
        Point { x: 4_635, y: 14_266 }
    } else if i == 3 {
        Point { x: (-4_635) as i64, y: 14_266 }
    } else if i == 4 {
        Point { x: (-12_135) as i64, y: 8_817 }
    } else if i == 5 {
        Point { x: (-15_000) as i64, y: 0 }
    } else if i == 6 {
        Point { x: (-12_135) as i64, y: (-8_817) as i64 }
    } else if i == 7 {
        Point { x: (-4_635) as i64, y: (-14_266) as i64 }
    } else if i == 8 {
        Point { x: 4_635, y: (-14_266) as i64 }
    } else {
        Point { x: 12_135, y: (-8_817) as i64 }
    }
}

/// The `i`th particle of a block of `block_type` that breaks at `centre`.
/// It starts at the centre, glows in the colour of the material and has
/// faded away when it lands, half a second later.
pub open spec fn spec_break_particle(block_type: BlockType, centre: Point, i: int) -> BoxParticlesEvent {
    BoxParticlesEvent {
        init_position: centre,
        target_position: Point {
            x: (centre.x + spec_break_offset(i).x) as i64,
            y: (centre.y + spec_break_offset(i).y) as i64,
        },
        z_index: (-5_000) as i64,
        color: block_type.spec_bloom_colour(),
        target_color: Colour { alpha: 0, ..block_type.spec_bloom_colour() },
        size: Point { x: (BLOCK_SIZE / 4) as i64, y: (BLOCK_SIZE / 4) as i64 },
        target_scale: Scale { x: 1_000, y: 1_000, z: 1_000 },
        duration_millis: 500,
    }
}

/// Whether a block at `centre` is far enough from the ends of the
/// coordinate range for its particles to land.
pub open spec fn spec_can_break_at(centre: Point) -> bool {
    &&& i64::MIN + BLOCK_SIZE <= centre.x <= i64::MAX - BLOCK_SIZE
    &&& i64::MIN + BLOCK_SIZE <= centre.y <= i64::MAX - BLOCK_SIZE
}

fn break_offset(i: usize) -> (offset: Point)
    ensures
        offset == spec_break_offset(i as int),
        -BLOCK_SIZE <= offset.x <= BLOCK_SIZE,
        -BLOCK_SIZE <= offset.y <= BLOCK_SIZE,
{
    if i == 0 {
        Point { x: 15_000, y: 0 }
    } else if i == 1 {
        Point { x: 12_135, y: 8_817 }
    } else if i == 2 {
        Point { x: 4_635, y: 14_266 }
    } else if i == 3 {
        Point { x: -4_635, y: 14_266 }
    } else if i == 4 {
        Point { x: -12_135, y: 8_817 }
    } else if i == 5 {
        Point { x: -15_000, y: 0 }
    } else if i == 6 {
        Point { x: -12_135, y: -8_817 }
    } else if i == 7 {
        Point { x: -4_635, y: -14_266 }
    } else if i == 8 {
        Point { x: 4_635, y: -14_266 }
    } else {
        Point { x: 12_135, y: -8_817 }
    }
}

/// The particles that a block of `block_type` throws off when it breaks at
/// `centre`.
pub fn block_break(block_type: BlockType, centre: Point) -> (particles: Vec<BoxParticlesEvent>)
    requires
        spec_can_break_at(centre),
    ensures
        particles@.len() == NUM_PARTICLES,
        forall|i: int|
            0 <= i < NUM_PARTICLES ==> #[trigger] particles@[i] == spec_break_particle(
                block_type,
                centre,
                i,
            ),
{
    let bloom_color: Colour = block_type.bloom_colour();
    let mut particles: Vec<BoxParticlesEvent> = Vec::new();
    let mut i: usize = 0;
    while i < NUM_PARTICLES
        invariant
            i <= NUM_PARTICLES,
            spec_can_break_at(centre),
            bloom_color == block_type.spec_bloom_colour(),
            particles@.len() == i,
            forall|k: int|
                0 <= k < i ==> #[trigger] particles@[k] == spec_break_particle(
                    block_type,
                    centre,
                    k,
                ),
        decreases NUM_PARTICLES - i,
    {
        let offset: Point = break_offset(i);
        particles.push(
            BoxParticlesEvent {
                init_position: centre,
                target_position: Point { x: centre.x + offset.x, y: centre.y + offset.y },
                z_index: -5_000,
                color: bloom_color,
                target_color: bloom_color.with_alpha(0),
                size: Point { x: BLOCK_SIZE / 4, y: BLOCK_SIZE / 4 },
                target_scale: Scale { x: 1_000, y: 1_000, z: 1_000 },
                duration_millis: 500,
            },
        );
        i += 1;
    }
    particles
}

} // verus!
