use vstd::prelude::*;
use image::GenericImageView;
use crate::components::EnemyKind;

verus! {

// ── The map image ─────────────────────────────────────────────────────

/// A colour without alpha.
#[derive(Clone, Copy, PartialEq, Eq, Structural, Debug)]
pub struct Rgb {
    pub r: u8,
    pub g: u8,
    pub b: u8,
}

/// Mathematical model of a map image: its size and its RGBA pixels in
/// row-major order (row 0 is the top row).
pub struct Grid {
    pub width: int,
    pub height: int,
    pub pixels: Seq<[u8; 4]>,
}

/// A decoded map image. Each pixel stands for one tile of the level.
pub struct LevelImage {
    pub width: u32,
    pub height: u32,
    pub pixels: Vec<[u8; 4]>,
}

impl View for LevelImage {
    type V = Grid;

    open spec fn view(&self) -> Grid {
        Grid { width: self.width as int, height: self.height as int, pixels: self.pixels@ }
    }
}

impl Grid {
    /// The pixel buffer holds exactly one entry per cell.
    pub open spec fn wf(self) -> bool {
        self.width >= 0 && self.height >= 0 && self.pixels.len() == self.width * self.height
    }

    /// Colour of the cell in column `col` and row `row`.
    pub open spec fn rgb(self, col: int, row: int) -> Rgb {
        let p = self.pixels[row * self.width + col];
        Rgb { r: p[0], g: p[1], b: p[2] }
    }

    /// A stacked ground tile: the cell above has the very same colour.
    pub open spec fn covered(self, col: int, row: int) -> bool {
        row > 0 && self.rgb(col, row - 1) == self.rgb(col, row)
    }

    /// What the cell in column `col` and row `row` puts into the level.
    /// A coin directly above a question block is left out: bumping the
    /// block hands out that coin.
    pub open spec fn cell_spawn(self, col: int, row: int) -> Option<Spawn> {
        match palette(self.rgb(col, row)) {
            None => None,
            Some(t) => {
                if t == Tile::Coin && row + 1 < self.height && self.rgb(col, row + 1)
                    == question_block_rgb() {
                    None
                } else {
                    Some(spawn_at(t, col, row, t is Ground && self.covered(col, row)))
                }
            },
        }
    }

    /// Spawns of the first `ncols` cells of row `row`, left to right.
    pub open spec fn row_spawns(self, row: int, ncols: nat) -> Seq<Spawn>
        decreases ncols,
    {
        if ncols == 0 {
            Seq::empty()
        } else {
            let prev = self.row_spawns(row, (ncols - 1) as nat);
            match self.cell_spawn(ncols - 1, row) {
                Some(s) => prev.push(s),
                None => prev,
            }
        }
    }

    /// Spawns of the first `nrows` rows, top to bottom.
    pub open spec fn rows_spawns(self, nrows: nat) -> Seq<Spawn>
        decreases nrows,
    {
        if nrows == 0 {
            Seq::empty()
        } else {
            self.rows_spawns((nrows - 1) as nat) + self.row_spawns(nrows - 1, self.width as nat)
        }
    }

    /// Everything the map puts into the level, in row-major order.
    pub open spec fn layout(self) -> Seq<Spawn> {
        self.rows_spawns(self.height as nat)
    }
}

/// Colour of a question block on the map.
pub open spec fn question_block_rgb() -> Rgb {
    Rgb { r: 127, g: 51, b: 0 }
}

// ── What a map cell stands for ───────────────────────────────────────

/// Solid ground that is drawn with a top sprite, or an inner sprite where
/// the same ground continues above it.
#[derive(Clone, Copy, PartialEq, Eq, Structural, Debug)]
pub enum GroundKind {
    Platform,
    Grass,
    Brick,
    Gray,
}

/// Solid blocks with a single sprite.
#[derive(Clone, Copy, PartialEq, Eq, Structural, Debug)]
pub enum BlockKind {
    PlatformAir,
    PlatformBrick,
    GrassTexture,
    Grass1,
    Grass2,
    Bridge,
}

/// Decoration without physics.
#[derive(Clone, Copy, PartialEq, Eq, Structural, Debug)]
pub enum SceneryKind {
    Cloud,
    Bush,
    Castle,
    CastleBig,
    Hill,
    Fence,
    Tree1,
    Tree2,
    Cloud2,
    GrassSprite,
    Wall,
    Lava,
    Chain,
}

/// Width and height of a collision box, in pixels.
#[derive(Clone, Copy, PartialEq, Eq, Structural, Debug)]
pub struct BoxSize {
    pub w: i64,
    pub h: i64,
}

/// Everything a map cell can stand for.
#[derive(Clone, Copy, PartialEq, Eq, Structural, Debug)]
pub enum Tile {
    Ground(GroundKind),
    Block(BlockKind),
    QuestionBlock,
    Pipe,
    PipeBig,
    MovingPlatform,
    MovingPlatformLong,
    Spring,
    Coin,
    Mushroom,
    Exit,
    Baddie(EnemyKind),
    Cannon(EnemyKind),
    Boss,
    Flower,
    Rose,
    Scenery(SceneryKind),
}

/// The colour key of the map images.
pub open spec fn palette(c: Rgb) -> Option<Tile> {
    match (c.r, c.g, c.b) {
        (0, 0, 0) => Some(Tile::Ground(GroundKind::Platform)),
        (0, 19, 127) => Some(Tile::Ground(GroundKind::Grass)),
        (109, 127, 63) => Some(Tile::Ground(GroundKind::Brick)),
        (48, 48, 48) => Some(Tile::Ground(GroundKind::Gray)),
        (255, 200, 0) => Some(Tile::Block(BlockKind::PlatformAir)),
        (0, 74, 127) => Some(Tile::Block(BlockKind::PlatformBrick)),
        (0, 127, 127) => Some(Tile::Block(BlockKind::GrassTexture)),
        (255, 0, 110) => Some(Tile::Block(BlockKind::Grass1)),
        (165, 255, 127) => Some(Tile::Block(BlockKind::Grass2)),
        (127, 89, 63) => Some(Tile::Block(BlockKind::Bridge)),
        (127, 51, 0) => Some(Tile::QuestionBlock),
        (91, 127, 0) => Some(Tile::Pipe),
        (178, 0, 255) => Some(Tile::PipeBig),
        (255, 0, 0) => Some(Tile::MovingPlatform),
        (82, 127, 63) => Some(Tile::MovingPlatformLong),
        (0, 200, 0) => Some(Tile::Spring),
        (255, 255, 0) => Some(Tile::Coin),
        (0, 127, 70) => Some(Tile::Mushroom),
        (0, 255, 0) => Some(Tile::Exit),
        (128, 128, 128) => Some(Tile::Exit),
        (0, 0, 255) => Some(Tile::Baddie(EnemyKind::Monster)),
        (0, 255, 255) => Some(Tile::Baddie(EnemyKind::Slub)),
        (255, 0, 255) => Some(Tile::Baddie(EnemyKind::Squidge)),
        (255, 106, 0) => Some(Tile::Baddie(EnemyKind::MonsterRed)),
        (76, 255, 0) => Some(Tile::Cannon(EnemyKind::Cannon)),
        (63, 73, 127) => Some(Tile::Cannon(EnemyKind::CannonBig)),
        (255, 127, 182) => Some(Tile::Cannon(EnemyKind::SmallCannon)),
        (200, 0, 0) => Some(Tile::Boss),
        (127, 0, 110) => Some(Tile::Flower),
        (72, 0, 255) => Some(Tile::Rose),
        (87, 0, 127) => Some(Tile::Scenery(SceneryKind::Cloud)),
        (127, 0, 55) => Some(Tile::Scenery(SceneryKind::Bush)),
        (80, 63, 127) => Some(Tile::Scenery(SceneryKind::Castle)),
        (214, 127, 255) => Some(Tile::Scenery(SceneryKind::CastleBig)),
        (255, 233, 127) => Some(Tile::Scenery(SceneryKind::Hill)),
        (64, 64, 64) => Some(Tile::Scenery(SceneryKind::Fence)),
        (182, 255, 0) => Some(Tile::Scenery(SceneryKind::Tree1)),
        (38, 127, 0) => Some(Tile::Scenery(SceneryKind::Tree2)),
        (255, 0, 220) => Some(Tile::Scenery(SceneryKind::Cloud2)),
        (255, 127, 127) => Some(Tile::Scenery(SceneryKind::GrassSprite)),
        (127, 255, 197) => Some(Tile::Scenery(SceneryKind::Wall)),
        (234, 106, 68) => Some(Tile::Scenery(SceneryKind::Lava)),
        (127, 116, 63) => Some(Tile::Scenery(SceneryKind::Chain)),
        _ => None,
    }
}

/// Looks a map colour up in the colour key.
pub fn classify(c: Rgb) -> (res: Option<Tile>)
    ensures
        res == palette(c),
{
    match (c.r, c.g, c.b) {
        (0, 0, 0) => Some(Tile::Ground(GroundKind::Platform)),
        (0, 19, 127) => Some(Tile::Ground(GroundKind::Grass)),
        (109, 127, 63) => Some(Tile::Ground(GroundKind::Brick)),
        (48, 48, 48) => Some(Tile::Ground(GroundKind::Gray)),
        (255, 200, 0) => Some(Tile::Block(BlockKind::PlatformAir)),
        (0, 74, 127) => Some(Tile::Block(BlockKind::PlatformBrick)),
        (0, 127, 127) => Some(Tile::Block(BlockKind::GrassTexture)),
        (255, 0, 110) => Some(Tile::Block(BlockKind::Grass1)),
        (165, 255, 127) => Some(Tile::Block(BlockKind::Grass2)),
        (127, 89, 63) => Some(Tile::Block(BlockKind::Bridge)),
        (127, 51, 0) => Some(Tile::QuestionBlock),
        (91, 127, 0) => Some(Tile::Pipe),
        (178, 0, 255) => Some(Tile::PipeBig),
        (255, 0, 0) => Some(Tile::MovingPlatform),
        (82, 127, 63) => Some(Tile::MovingPlatformLong),
        (0, 200, 0) => Some(Tile::Spring),
        (255, 255, 0) => Some(Tile::Coin),
        (0, 127, 70) => Some(Tile::Mushroom),
        (0, 255, 0) => Some(Tile::Exit),
        (128, 128, 128) => Some(Tile::Exit),
        (0, 0, 255) => Some(Tile::Baddie(EnemyKind::Monster)),
        (0, 255, 255) => Some(Tile::Baddie(EnemyKind::Slub)),
        (255, 0, 255) => Some(Tile::Baddie(EnemyKind::Squidge)),
        (255, 106, 0) => Some(Tile::Baddie(EnemyKind::MonsterRed)),
        (76, 255, 0) => Some(Tile::Cannon(EnemyKind::Cannon)),
        (63, 73, 127) => Some(Tile::Cannon(EnemyKind::CannonBig)),
        (255, 127, 182) => Some(Tile::Cannon(EnemyKind::SmallCannon)),
        (200, 0, 0) => Some(Tile::Boss),
        (127, 0, 110) => Some(Tile::Flower),
        (72, 0, 255) => Some(Tile::Rose),
        (87, 0, 127) => Some(Tile::Scenery(SceneryKind::Cloud)),
        (127, 0, 55) => Some(Tile::Scenery(SceneryKind::Bush)),
        (80, 63, 127) => Some(Tile::Scenery(SceneryKind::Castle)),
        (214, 127, 255) => Some(Tile::Scenery(SceneryKind::CastleBig)),
        (255, 233, 127) => Some(Tile::Scenery(SceneryKind::Hill)),
        (64, 64, 64) => Some(Tile::Scenery(SceneryKind::Fence)),
        (182, 255, 0) => Some(Tile::Scenery(SceneryKind::Tree1)),
        (38, 127, 0) => Some(Tile::Scenery(SceneryKind::Tree2)),
        (255, 0, 220) => Some(Tile::Scenery(SceneryKind::Cloud2)),
        (255, 127, 127) => Some(Tile::Scenery(SceneryKind::GrassSprite)),
        (127, 255, 197) => Some(Tile::Scenery(SceneryKind::Wall)),
        (234, 106, 68) => Some(Tile::Scenery(SceneryKind::Lava)),
        (127, 116, 63) => Some(Tile::Scenery(SceneryKind::Chain)),
        _ => None,
    }
}

// ── Where a tile is placed ───────────────────────────────────────────

/// One entity that the map puts into the level.
///
/// Positions are entity centres in hundredths of a pixel; x grows to the
/// right, y grows upwards, and map row 0 lies just below y = 0.
#[derive(Clone, Copy, PartialEq, Eq, Debug)]
pub struct Spawn {
    pub tile: Tile,
    /// A ground tile with the same ground directly above it.
    pub covered: bool,
    pub col: u32,
    pub row: u32,
    pub x: i64,
    pub y: i64,
    /// Drawing depth in tenths.
    pub z_tenths: i64,
    /// Collision box (width, height) in pixels, where the entity has one.
    pub collider: Option<BoxSize>,
    /// Where the entity rests: the fully emerged height of pipe dwellers,
    /// the spawn height of everything else.
    pub rest_y: i64,
}

/// Hundredths of a pixel from the left edge to the centre of column `col`.
pub open spec fn tile_cx(col: int) -> int {
    col * 3200 + 1600
}

/// Hundredths of a pixel from y = 0 to the centre of row `row` (negative).
pub open spec fn tile_cy(row: int) -> int {
    -(row * 3200 + 1600)
}

/// Height of the ground surface that tall scenery and the exit stand on.
pub open spec fn ground_surface() -> int {
    -(13 * 3200)
}

/// Spawn with the entity resting where it is placed.
pub open spec fn spawn_rec(
    t: Tile,
    col: int,
    row: int,
    covered: bool,
    x: int,
    y: int,
    z: int,
    collider: Option<BoxSize>,
) -> Spawn {
    Spawn {
        tile: t,
        covered,
        col: col as u32,
        row: row as u32,
        x: x as i64,
        y: y as i64,
        z_tenths: z as i64,
        collider,
        rest_y: y as i64,
    }
}

/// Emerged height of a cannon in its pipe.
pub open spec fn cannon_rest(k: EnemyKind, row: int) -> int {
    match k {
        EnemyKind::CannonBig => -(row * 2450 + 400),
        EnemyKind::SmallCannon => tile_cy(row) + 200,
        _ => -(row * 2930 + 400),
    }
}

/// Collision box of a cannon.
pub open spec fn cannon_box(k: EnemyKind) -> BoxSize {
    match k {
        EnemyKind::CannonBig => BoxSize { w: 48, h: 56 },
        _ => BoxSize { w: 28, h: 42 },
    }
}

/// Offset of a walking enemy from its cell centre.
pub open spec fn baddie_offset(k: EnemyKind) -> (int, int) {
    match k {
        EnemyKind::Monster => (200, 400),
        EnemyKind::MonsterRed => (200, 400),
        EnemyKind::Slub => (100, 200),
        _ => (0, 0),
    }
}

/// Where scenery is drawn: its height and depth.
pub open spec fn scenery_place(k: SceneryKind, row: int) -> (int, int) {
    match k {
        SceneryKind::Cloud => (tile_cy(row), 10),
        SceneryKind::Bush => (tile_cy(row), 10),
        SceneryKind::Castle => (ground_surface() + 8000, 5),
        SceneryKind::CastleBig => (ground_surface() + 17600, 5),
        SceneryKind::Hill => (ground_surface() + 3500, 5),
        SceneryKind::Fence => (tile_cy(row), 15),
        SceneryKind::Tree1 => (ground_surface() + 4600, 5),
        SceneryKind::Tree2 => (ground_surface() + 3000, 5),
        SceneryKind::Cloud2 => (tile_cy(row), 5),
        SceneryKind::GrassSprite => (tile_cy(row), 15),
        SceneryKind::Wall => (-(row * 1900), 5),
        SceneryKind::Lava => (tile_cy(row), 15),
        SceneryKind::Chain => (tile_cy(row), 15),
    }
}

/// The entity that tile `t` in column `col` and row `row` becomes.
pub open spec fn spawn_at(t: Tile, col: int, row: int, covered: bool) -> Spawn {
    let wx = tile_cx(col);
    let wy = tile_cy(row);
    match t {
        Tile::Ground(_) => spawn_rec(t, col, row, covered, wx, wy, 0, Some(BoxSize { w: 32, h: 32 })),
        Tile::Block(_) => spawn_rec(t, col, row, covered, wx, wy, 0, Some(BoxSize { w: 32, h: 32 })),
        Tile::QuestionBlock => spawn_rec(t, col, row, covered, wx, wy, 10, Some(BoxSize { w: 32, h: 32 })),
        Tile::Pipe => spawn_rec(
            t,
            col,
            row,
            covered,
            col * 3200 + 3200,
            -(row * 3200) + 1600,
            10,
            Some(BoxSize { w: 64, h: 96 }),
        ),
        Tile::PipeBig => spawn_rec(
            t,
            col,
            row,
            covered,
            col * 3200 + 3200,
            -(row * 3200) + 3200,
            10,
            Some(BoxSize { w: 64, h: 128 }),
        ),
        Tile::MovingPlatform => spawn_rec(t, col, row, covered, wx, wy, 10, Some(BoxSize { w: 64, h: 16 })),
        Tile::MovingPlatformLong => spawn_rec(t, col, row, covered, wx, wy, 10, Some(BoxSize { w: 128, h: 16 })),
        Tile::Spring => spawn_rec(t, col, row, covered, wx, wy, 10, Some(BoxSize { w: 32, h: 24 })),
        Tile::Coin => spawn_rec(t, col, row, covered, wx + 400, wy, 20, Some(BoxSize { w: 16, h: 28 })),
        Tile::Mushroom => spawn_rec(t, col, row, covered, wx, wy, 20, Some(BoxSize { w: 28, h: 28 })),
        Tile::Exit => spawn_rec(
            t,
            col,
            row,
            covered,
            wx,
            ground_surface() + 16800,
            20,
            Some(BoxSize { w: 32, h: 128 }),
        ),
        Tile::Baddie(k) => spawn_rec(
            t,
            col,
            row,
            covered,
            wx + baddie_offset(k).0,
            wy + baddie_offset(k).1,
            20,
            Some(BoxSize { w: 28, h: 28 }),
        ),
        Tile::Cannon(k) => Spawn {
            tile: t,
            covered,
            col: col as u32,
            row: row as u32,
            x: wx as i64,
            y: (cannon_rest(k, row) - cannon_box(k).h * 100) as i64,
            z_tenths: 20,
            collider: Some(cannon_box(k)),
            rest_y: cannon_rest(k, row) as i64,
        },
        Tile::Boss => spawn_rec(
            t,
            col,
            row,
            covered,
            wx,
            -(row * 3200) - 3100,
            20,
            Some(BoxSize { w: 60, h: 60 }),
        ),
        Tile::Flower => Spawn {
            tile: t,
            covered,
            col: col as u32,
            row: row as u32,
            x: (col * 3250 + 1600) as i64,
            y: (wy + 3200 - 4800) as i64,
            z_tenths: 5,
            collider: Some(BoxSize { w: 28, h: 48 }),
            rest_y: (wy + 3200) as i64,
        },
        Tile::Rose => Spawn {
            tile: t,
            covered,
            col: col as u32,
            row: row as u32,
            x: (col * 3223 + 1600) as i64,
            y: (wy + 3200 - 4800) as i64,
            z_tenths: 5,
            collider: Some(BoxSize { w: 28, h: 48 }),
            rest_y: (wy + 3200) as i64,
        },
        Tile::Scenery(k) => spawn_rec(
            t,
            col,
            row,
            covered,
            wx,
            scenery_place(k, row).0,
            scenery_place(k, row).1,
            None,
        ),
    }
}


/// Spawn with the entity resting where it is placed.
fn make_spawn(
    t: Tile,
    col: u32,
    row: u32,
    covered: bool,
    x: i64,
    y: i64,
    z: i64,
    collider: Option<BoxSize>,
) -> (res: Spawn)
    ensures
        res == spawn_rec(t, col as int, row as int, covered, x as int, y as int, z as int, collider),
{
    Spawn { tile: t, covered, col, row, x, y, z_tenths: z, collider, rest_y: y }
}

/// Places tile `t` of column `col` and row `row` in the level.
pub fn place(t: Tile, col: u32, row: u32, covered: bool) -> (res: Spawn)
    ensures
        res == spawn_at(t, col as int, row as int, covered),
        res.collider == collider_of(t),
        res.z_tenths == depth_of(t),
{
    let c = col as i64;
    let r = row as i64;
    let wx = c * 3200 + 1600;
    let wy = -(r * 3200 + 1600);
    let ground = -(13 * 3200i64);
    match t {
        Tile::Ground(_) => make_spawn(t, col, row, covered, wx, wy, 0, Some(BoxSize { w: 32, h: 32 })),
        Tile::Block(_) => make_spawn(t, col, row, covered, wx, wy, 0, Some(BoxSize { w: 32, h: 32 })),
        Tile::QuestionBlock => make_spawn(t, col, row, covered, wx, wy, 10, Some(BoxSize { w: 32, h: 32 })),
        Tile::Pipe => make_spawn(
            t,
            col,
            row,
            covered,
            c * 3200 + 3200,
            -(r * 3200) + 1600,
            10,
            Some(BoxSize { w: 64, h: 96 }),
        ),
        Tile::PipeBig => make_spawn(
            t,
            col,
            row,
            covered,
            c * 3200 + 3200,
            -(r * 3200) + 3200,
            10,
            Some(BoxSize { w: 64, h: 128 }),
        ),
        Tile::MovingPlatform => make_spawn(t, col, row, covered, wx, wy, 10, Some(BoxSize { w: 64, h: 16 })),
        Tile::MovingPlatformLong => make_spawn(t, col, row, covered, wx, wy, 10, Some(BoxSize { w: 128, h: 16 })),
        Tile::Spring => make_spawn(t, col, row, covered, wx, wy, 10, Some(BoxSize { w: 32, h: 24 })),
        Tile::Coin => make_spawn(t, col, row, covered, wx + 400, wy, 20, Some(BoxSize { w: 16, h: 28 })),
        Tile::Mushroom => make_spawn(t, col, row, covered, wx, wy, 20, Some(BoxSize { w: 28, h: 28 })),
        Tile::Exit => make_spawn(t, col, row, covered, wx, ground + 16800, 20, Some(BoxSize { w: 32, h: 128 })),
        Tile::Baddie(k) => {
            let (dx, dy): (i64, i64) = match k {
                EnemyKind::Monster => (200, 400),
                EnemyKind::MonsterRed => (200, 400),
                EnemyKind::Slub => (100, 200),
                _ => (0, 0),
            };
            make_spawn(t, col, row, covered, wx + dx, wy + dy, 20, Some(BoxSize { w: 28, h: 28 }))
        },
        Tile::Cannon(k) => {
            let rest: i64 = match k {
                EnemyKind::CannonBig => -(r * 2450 + 400),
                EnemyKind::SmallCannon => wy + 200,
                _ => -(r * 2930 + 400),
            };
            let size = match k {
                EnemyKind::CannonBig => BoxSize { w: 48, h: 56 },
                _ => BoxSize { w: 28, h: 42 },
            };
            Spawn {
                tile: t,
                covered,
                col,
                row,
                x: wx,
                y: rest - size.h * 100,
                z_tenths: 20,
                collider: Some(size),
                rest_y: rest,
            }
        },
        Tile::Boss => make_spawn(t, col, row, covered, wx, -(r * 3200) - 3100, 20, Some(BoxSize { w: 60, h: 60 })),
        Tile::Flower => Spawn {
            tile: t,
            covered,
            col,
            row,
            x: c * 3250 + 1600,
            y: wy + 3200 - 4800,
            z_tenths: 5,
            collider: Some(BoxSize { w: 28, h: 48 }),
            rest_y: wy + 3200,
        },
        Tile::Rose => Spawn {
            tile: t,
            covered,
            col,
            row,
            x: c * 3223 + 1600,
            y: wy + 3200 - 4800,
            z_tenths: 5,
            collider: Some(BoxSize { w: 28, h: 48 }),
            rest_y: wy + 3200,
        },
        Tile::Scenery(k) => {
            let (y, z): (i64, i64) = match k {
                SceneryKind::Cloud => (wy, 10),
                SceneryKind::Bush => (wy, 10),
                SceneryKind::Castle => (ground + 8000, 5),
                SceneryKind::CastleBig => (ground + 17600, 5),
                SceneryKind::Hill => (ground + 3500, 5),
                SceneryKind::Fence => (wy, 15),
                SceneryKind::Tree1 => (ground + 4600, 5),
                SceneryKind::Tree2 => (ground + 3000, 5),
                SceneryKind::Cloud2 => (wy, 5),
                SceneryKind::GrassSprite => (wy, 15),
                SceneryKind::Wall => (-(r * 1900), 5),
                SceneryKind::Lava => (wy, 15),
                SceneryKind::Chain => (wy, 15),
            };
            make_spawn(t, col, row, covered, wx, y, z, None)
        },
    }
}


// ── Reading the map ──────────────────────────────────────────────────

/// Cells of a `width` by `height` grid are numbered row by row.
proof fn lemma_cell_index(col: int, row: int, width: int, height: int)
    by (nonlinear_arith)
    requires
        0 <= col < width,
        0 <= row < height,
    ensures
        0 <= row * width <= row * width + col < width * height,
{
}

impl LevelImage {
    /// Builds a map image from its size and its pixels in row-major order;
    /// `None` where the pixel count is not `width * height`.
    pub fn new(width: u32, height: u32, pixels: Vec<[u8; 4]>) -> (res: Option<LevelImage>)
        ensures
            match res {
                Some(img) => {
                    &&& pixels@.len() == width * height
                    &&& img.width == width
                    &&& img.height == height
                    &&& img.pixels@ == pixels@
                },
                None => pixels@.len() != width * height,
            },
    {
        assert(width as int * height as int <= u64::MAX) by (nonlinear_arith)
            requires
                width <= u32::MAX,
                height <= u32::MAX,
        ;
        let n = width as u64 * height as u64;
        if pixels.len() as u64 == n {
            Some(LevelImage { width, height, pixels })
        } else {
            None
        }
    }

    /// Colour of the cell in column `col` and row `row`.
    pub fn pixel_rgb(&self, col: u32, row: u32) -> (res: Rgb)
        requires
            self@.wf(),
            col < self.width,
            row < self.height,
        ensures
            res == self@.rgb(col as int, row as int),
    {
        let len = self.pixels.len();
        proof {
            lemma_cell_index(col as int, row as int, self.width as int, self.height as int);
        }
        assert(row * self.width + col < len);
        let i = row as usize * self.width as usize + col as usize;
        let p = self.pixels[i];
        Rgb { r: p[0], g: p[1], b: p[2] }
    }

    /// What the cell in column `col` and row `row` puts into the level.
    pub fn cell_spawn(&self, col: u32, row: u32) -> (res: Option<Spawn>)
        requires
            self@.wf(),
            col < self.width,
            row < self.height,
        ensures
            res == self@.cell_spawn(col as int, row as int),
    {
        let c = self.pixel_rgb(col, row);
        match classify(c) {
            None => None,
            Some(t) => {
                if matches!(t, Tile::Coin) && row + 1 < self.height && self.pixel_rgb(col, row + 1)
                    == (Rgb { r: 127, g: 51, b: 0 }) {
                    None
                } else {
                    let covered = matches!(t, Tile::Ground(_)) && row > 0 && self.pixel_rgb(
                        col,
                        row - 1,
                    ) == c;
                    Some(place(t, col, row, covered))
                }
            },
        }
    }
}

/// Everything the map puts into the level, in row-major order.
pub fn level_layout(img: &LevelImage) -> (res: Vec<Spawn>)
    requires
        img@.wf(),
    ensures
        res@ == img@.layout(),
{
    let mut out: Vec<Spawn> = Vec::new();
    let mut row: u32 = 0;
    while row < img.height
        invariant
            img@.wf(),
            row <= img.height,
            out@ == img@.rows_spawns(row as nat),
        decreases img.height - row,
    {
        let ghost before = out@;
        let mut col: u32 = 0;
        while col < img.width
            invariant
                img@.wf(),
                row < img.height,
                col <= img.width,
                out@ == before + img@.row_spawns(row as int, col as nat),
            decreases img.width - col,
        {
            let cell = img.cell_spawn(col, row);
            let ghost prev = img@.row_spawns(row as int, col as nat);
            match cell {
                Some(s) => {
                    out.push(s);
                    assert(out@ =~= before + prev.push(s));
                },
                None => {},
            }
            col = col + 1;
        }
        row = row + 1;
    }
    out
}


// ── Decoding the map ─────────────────────────────────────────────────

/// The decoder's error, carried through unchanged.
#[verifier::external_type_specification]
#[verifier::external_body]
pub struct ExImageError(image::ImageError);

/// What the image decoder yields for the encoded bytes: width, height and
/// the RGBA value of every pixel in row-major order; `None` where the bytes
/// are not an image it can decode.
pub uninterp spec fn decoded_image(bytes: Seq<u8>) -> Option<(u32, u32, Seq<[u8; 4]>)>;

/// Decodes an encoded image with `image::load_from_memory`, then reads its
/// size with `GenericImageView::dimensions` and its pixels through
/// `GenericImageView::pixels`, which visits the rows top to bottom and each
/// row left to right and yields `get_pixel` of every cell.
///
/// Trusted: the result is the decoder's, named `decoded_image` of the bytes
/// (decoding depends on the bytes alone). Nothing is claimed of how many
/// pixels come back; `decode_level` checks that.
#[verifier::external_body]
fn load_rgba(bytes: &[u8]) -> (res: Result<(u32, u32, Vec<[u8; 4]>), image::ImageError>)
    ensures
        match res {
            Ok((w, h, px)) => decoded_image(bytes@) == Some((w, h, px@)),
            Err(_) => decoded_image(bytes@) is None,
        },
{
    match image::load_from_memory(bytes) {
        Ok(img) => {
            let (w, h) = img.dimensions();
            let px: Vec<[u8; 4]> = img.pixels().map(|(_, _, p)| p.0).collect();
            Ok((w, h, px))
        },
        Err(e) => Err(e),
    }
}

/// Why a map could not be read.
#[derive(Clone, Copy, PartialEq, Eq, Structural, Debug)]
pub enum LevelError {
    /// The bytes are not an image that the decoder accepts.
    InvalidImage,
    /// The decoder handed back a pixel count other than width times height.
    PixelCountMismatch,
}

/// Model of a decoded map.
pub open spec fn grid_of(w: u32, h: u32, px: Seq<[u8; 4]>) -> Grid {
    Grid { width: w as int, height: h as int, pixels: px }
}

/// Decodes a map image.
pub fn decode_level(bytes: &[u8]) -> (res: Result<LevelImage, LevelError>)
    ensures
        match decoded_image(bytes@) {
            None => res == Err::<LevelImage, LevelError>(LevelError::InvalidImage),
            Some((w, h, px)) => if px.len() == w * h {
                res matches Ok(img) && img@ == grid_of(w, h, px)
            } else {
                res == Err::<LevelImage, LevelError>(LevelError::PixelCountMismatch)
            },
        },
{
    match load_rgba(bytes) {
        Err(_) => Err(LevelError::InvalidImage),
        Ok((w, h, px)) => match LevelImage::new(w, h, px) {
            Some(img) => Ok(img),
            None => Err(LevelError::PixelCountMismatch),
        },
    }
}

/// A level ready to be populated.
pub struct LevelLayout {
    /// Width of the level in pixels: one tile per map column.
    pub width_px: u64,
    /// Everything the map puts into the level, in row-major order.
    pub spawns: Vec<Spawn>,
}

/// Decodes a map image and lays the level out.
pub fn build_level(bytes: &[u8]) -> (res: Result<LevelLayout, LevelError>)
    ensures
        match decoded_image(bytes@) {
            None => res is Err && res->Err_0 == LevelError::InvalidImage,
            Some((w, h, px)) => if px.len() == w * h {
                &&& res is Ok
                &&& res->Ok_0.width_px == w * 32
                &&& res->Ok_0.spawns@ == grid_of(w, h, px).layout()
            } else {
                res is Err && res->Err_0 == LevelError::PixelCountMismatch
            },
        },
{
    let img = match decode_level(bytes) {
        Ok(img) => img,
        Err(e) => return Err(e),
    };
    let spawns = level_layout(&img);
    Ok(LevelLayout { width_px: img.width as u64 * 32, spawns })
}

/// Which of the four map images a level number plays: levels past the
/// third all play the fourth.
pub fn level_asset_number(level: u32) -> (res: u32)
    ensures
        res == (if 1 <= level <= 3 { level } else { 4 }),
{
    match level {
        1 => 1,
        2 => 2,
        3 => 3,
        _ => 4,
    }
}

/// The two scrolling backgrounds.
#[derive(Clone, Copy, PartialEq, Eq, Structural, Debug)]
pub enum Backdrop {
    /// The castle background, for levels from the fifth on.
    Castle,
    /// The overworld background.
    Overworld,
}

/// Background of a level.
pub fn backdrop_for_level(level: u32) -> (res: Backdrop)
    ensures
        res == (if level >= 5 { Backdrop::Castle } else { Backdrop::Overworld }),
{
    if level >= 5 {
        Backdrop::Castle
    } else {
        Backdrop::Overworld
    }
}


// ── Properties of the layout ─────────────────────────────────────────

/// `s` is what the map cell at its own column and row stands for.
pub open spec fn from_own_cell(g: Grid, s: Spawn) -> bool {
    &&& 0 <= s.col < g.width
    &&& 0 <= s.row < g.height
    &&& g.cell_spawn(s.col as int, s.row as int) == Some(s)
}

proof fn lemma_spawn_at_keeps_cell(t: Tile, col: int, row: int, covered: bool)
    requires
        0 <= col <= u32::MAX,
        0 <= row <= u32::MAX,
    ensures
        spawn_at(t, col, row, covered).tile == t,
        spawn_at(t, col, row, covered).col == col,
        spawn_at(t, col, row, covered).row == row,
{
}

proof fn lemma_row_from_cells(g: Grid, row: int, ncols: nat)
    requires
        g.wf(),
        g.width <= u32::MAX,
        g.height <= u32::MAX,
        0 <= row < g.height,
        ncols <= g.width,
    ensures
        forall|i: int|
            0 <= i < g.row_spawns(row, ncols).len() ==> from_own_cell(
                g,
                #[trigger] g.row_spawns(row, ncols)[i],
            ),
    decreases ncols,
{
    if ncols > 0 {
        lemma_row_from_cells(g, row, (ncols - 1) as nat);
        let col = ncols - 1;
        match palette(g.rgb(col, row)) {
            None => {},
            Some(t) => {
                lemma_spawn_at_keeps_cell(t, col, row, t is Ground && g.covered(col, row));
            },
        }
        let prev = g.row_spawns(row, (ncols - 1) as nat);
        match g.cell_spawn(col, row) {
            Some(sp) => {
                assert(sp.col == col && sp.row == row);
                assert(from_own_cell(g, sp));
                assert forall|i: int|
                    0 <= i < prev.push(sp).len() implies from_own_cell(
                    g,
                    #[trigger] prev.push(sp)[i],
                ) by {
                    if i < prev.len() {
                        assert(prev.push(sp)[i] == prev[i]);
                    }
                }
            },
            None => {},
        }
    }
}

proof fn lemma_rows_from_cells(g: Grid, nrows: nat)
    requires
        g.wf(),
        g.width <= u32::MAX,
        g.height <= u32::MAX,
        nrows <= g.height,
    ensures
        forall|i: int|
            0 <= i < g.rows_spawns(nrows).len() ==> from_own_cell(
                g,
                #[trigger] g.rows_spawns(nrows)[i],
            ),
    decreases nrows,
{
    if nrows > 0 {
        lemma_rows_from_cells(g, (nrows - 1) as nat);
        lemma_row_from_cells(g, nrows - 1, g.width as nat);
        let a = g.rows_spawns((nrows - 1) as nat);
        let b = g.row_spawns(nrows - 1, g.width as nat);
        assert forall|i: int| 0 <= i < (a + b).len() implies from_own_cell(g, #[trigger] (a + b)[i]) by {
            if i < a.len() {
                assert((a + b)[i] == a[i]);
            } else {
                assert((a + b)[i] == b[i - a.len()]);
            }
        }
    }
}

/// Every entity of a level comes from its own map cell: its column and row
/// lie in the map, that cell yields exactly this entity, and the cell's
/// colour is the one the colour key gives for its tile.
pub proof fn lemma_spawns_come_from_their_cells(g: Grid, i: int)
    requires
        g.wf(),
        g.width <= u32::MAX,
        g.height <= u32::MAX,
        0 <= i < g.layout().len(),
    ensures
        from_own_cell(g, g.layout()[i]),
        palette(g.rgb(g.layout()[i].col as int, g.layout()[i].row as int)) == Some(
            g.layout()[i].tile,
        ),
{
    lemma_rows_from_cells(g, g.height as nat);
    let s = g.layout()[i];
    assert(from_own_cell(g, s));
    match palette(g.rgb(s.col as int, s.row as int)) {
        None => {},
        Some(t) => {
            let cov = t is Ground && g.covered(s.col as int, s.row as int);
            lemma_spawn_at_keeps_cell(t, s.col as int, s.row as int, cov);
        },
    }
}

/// A coin drawn directly above a question block never becomes an entity:
/// the block hands that coin out when bumped.
pub proof fn lemma_no_coin_above_question_block(g: Grid, i: int)
    requires
        g.wf(),
        g.width <= u32::MAX,
        g.height <= u32::MAX,
        0 <= i < g.layout().len(),
        g.layout()[i].tile == Tile::Coin,
    ensures
        !(g.layout()[i].row + 1 < g.height && g.rgb(
            g.layout()[i].col as int,
            g.layout()[i].row + 1,
        ) == question_block_rgb()),
{
    lemma_spawns_come_from_their_cells(g, i);
}


/// `a` comes before `b` in reading order: an earlier row, or the same row
/// and an earlier column.
pub open spec fn reads_before(a: Spawn, b: Spawn) -> bool {
    a.row < b.row || (a.row == b.row && a.col < b.col)
}

proof fn lemma_row_order(g: Grid, row: int, ncols: nat)
    requires
        g.wf(),
        g.width <= u32::MAX,
        g.height <= u32::MAX,
        0 <= row < g.height,
        ncols <= g.width,
    ensures
        forall|i: int|
            0 <= i < g.row_spawns(row, ncols).len() ==> (#[trigger] g.row_spawns(row, ncols)[i]).row
                == row && g.row_spawns(row, ncols)[i].col < ncols,
        forall|i: int, j: int|
            0 <= i < j < g.row_spawns(row, ncols).len() ==> reads_before(
                #[trigger] g.row_spawns(row, ncols)[i],
                #[trigger] g.row_spawns(row, ncols)[j],
            ),
    decreases ncols,
{
    if ncols > 0 {
        lemma_row_order(g, row, (ncols - 1) as nat);
        lemma_row_from_cells(g, row, ncols);
        let col = ncols - 1;
        let prev = g.row_spawns(row, (ncols - 1) as nat);
        match g.cell_spawn(col, row) {
            Some(sp) => {
                let cur = prev.push(sp);
                assert(from_own_cell(g, cur[cur.len() - 1]));
                assert(sp.col == col && sp.row == row) by {
                    match palette(g.rgb(col, row)) {
                        None => {},
                        Some(t) => {
                            lemma_spawn_at_keeps_cell(t, col, row, t is Ground && g.covered(col, row));
                        },
                    }
                }
                assert forall|i: int| 0 <= i < cur.len() implies (#[trigger] cur[i]).row == row
                    && cur[i].col < ncols by {
                    if i < prev.len() {
                        assert(cur[i] == prev[i]);
                    }
                }
                assert forall|i: int, j: int| 0 <= i < j < cur.len() implies reads_before(
                    #[trigger] cur[i],
                    #[trigger] cur[j],
                ) by {
                    assert(cur[i] == prev[i]);
                    if j < prev.len() {
                        assert(cur[j] == prev[j]);
                    }
                }
            },
            None => {},
        }
    }
}

proof fn lemma_rows_order(g: Grid, nrows: nat)
    requires
        g.wf(),
        g.width <= u32::MAX,
        g.height <= u32::MAX,
        nrows <= g.height,
    ensures
        forall|i: int|
            0 <= i < g.rows_spawns(nrows).len() ==> (#[trigger] g.rows_spawns(nrows)[i]).row
                < nrows,
        forall|i: int, j: int|
            0 <= i < j < g.rows_spawns(nrows).len() ==> reads_before(
                #[trigger] g.rows_spawns(nrows)[i],
                #[trigger] g.rows_spawns(nrows)[j],
            ),
    decreases nrows,
{
    if nrows > 0 {
        lemma_rows_order(g, (nrows - 1) as nat);
        lemma_row_order(g, nrows - 1, g.width as nat);
        let a = g.rows_spawns((nrows - 1) as nat);
        let b = g.row_spawns(nrows - 1, g.width as nat);
        let c = a + b;
        assert forall|i: int| 0 <= i < c.len() implies (#[trigger] c[i]).row < nrows by {
            if i < a.len() {
                assert(c[i] == a[i]);
            } else {
                assert(c[i] == b[i - a.len()]);
            }
        }
        assert forall|i: int, j: int| 0 <= i < j < c.len() implies reads_before(
            #[trigger] c[i],
            #[trigger] c[j],
        ) by {
            if j < a.len() {
                assert(c[i] == a[i]);
                assert(c[j] == a[j]);
            } else if i < a.len() {
                assert(c[i] == a[i]);
                assert(c[j] == b[j - a.len()]);
            } else {
                assert(c[i] == b[i - a.len()]);
                assert(c[j] == b[j - a.len()]);
            }
        }
    }
}

/// The layout lists entities in reading order, row by row from the top and
/// left to right within a row; hence no map cell yields two entities.
pub proof fn lemma_layout_in_reading_order(g: Grid, i: int, j: int)
    requires
        g.wf(),
        g.width <= u32::MAX,
        g.height <= u32::MAX,
        0 <= i < j < g.layout().len(),
    ensures
        reads_before(g.layout()[i], g.layout()[j]),
{
    lemma_rows_order(g, g.height as nat);
}

proof fn lemma_row_complete(g: Grid, row: int, ncols: nat, col: int)
    requires
        g.wf(),
        0 <= row < g.height,
        ncols <= g.width,
        0 <= col < ncols,
        g.cell_spawn(col, row) is Some,
    ensures
        g.row_spawns(row, ncols).contains(g.cell_spawn(col, row).unwrap()),
    decreases ncols,
{
    let prev = g.row_spawns(row, (ncols - 1) as nat);
    if col < ncols - 1 {
        lemma_row_complete(g, row, (ncols - 1) as nat, col);
        let k = choose|k: int| 0 <= k < prev.len() && prev[k] == g.cell_spawn(col, row).unwrap();
        match g.cell_spawn(ncols - 1, row) {
            Some(sp) => {
                assert(prev.push(sp)[k] == prev[k]);
            },
            None => {},
        }
    } else {
        let sp = g.cell_spawn(col, row).unwrap();
        assert(prev.push(sp)[prev.len() as int] == sp);
    }
}

proof fn lemma_rows_complete(g: Grid, nrows: nat, col: int, row: int)
    requires
        g.wf(),
        nrows <= g.height,
        0 <= col < g.width,
        0 <= row < nrows,
        g.cell_spawn(col, row) is Some,
    ensures
        g.rows_spawns(nrows).contains(g.cell_spawn(col, row).unwrap()),
    decreases nrows,
{
    let sp = g.cell_spawn(col, row).unwrap();
    let a = g.rows_spawns((nrows - 1) as nat);
    let b = g.row_spawns(nrows - 1, g.width as nat);
    if row < nrows - 1 {
        lemma_rows_complete(g, (nrows - 1) as nat, col, row);
        let k = choose|k: int| 0 <= k < a.len() && a[k] == sp;
        assert((a + b)[k] == sp);
    } else {
        lemma_row_complete(g, row, g.width as nat, col);
        let k = choose|k: int| 0 <= k < b.len() && b[k] == sp;
        assert((a + b)[a.len() + k] == sp);
    }
}

/// Nothing on the map is lost: every cell that yields an entity has that
/// entity in the layout.
pub proof fn lemma_layout_complete(g: Grid, col: int, row: int)
    requires
        g.wf(),
        0 <= col < g.width,
        0 <= row < g.height,
        g.cell_spawn(col, row) is Some,
    ensures
        g.layout().contains(g.cell_spawn(col, row).unwrap()),
{
    lemma_rows_complete(g, g.height as nat, col, row);
}


// ── The colour key and the placement table, stated tile by tile ─────

/// The colour that draws tile `t` on a map (the exit also has a second,
/// grey colour); `None` for tiles that no colour draws.
pub open spec fn map_colour(t: Tile) -> Option<Rgb> {
    match t {
        Tile::Ground(GroundKind::Platform) => Some(Rgb { r: 0, g: 0, b: 0 }),
        Tile::Ground(GroundKind::Grass) => Some(Rgb { r: 0, g: 19, b: 127 }),
        Tile::Ground(GroundKind::Brick) => Some(Rgb { r: 109, g: 127, b: 63 }),
        Tile::Ground(GroundKind::Gray) => Some(Rgb { r: 48, g: 48, b: 48 }),
        Tile::Block(BlockKind::PlatformAir) => Some(Rgb { r: 255, g: 200, b: 0 }),
        Tile::Block(BlockKind::PlatformBrick) => Some(Rgb { r: 0, g: 74, b: 127 }),
        Tile::Block(BlockKind::GrassTexture) => Some(Rgb { r: 0, g: 127, b: 127 }),
        Tile::Block(BlockKind::Grass1) => Some(Rgb { r: 255, g: 0, b: 110 }),
        Tile::Block(BlockKind::Grass2) => Some(Rgb { r: 165, g: 255, b: 127 }),
        Tile::Block(BlockKind::Bridge) => Some(Rgb { r: 127, g: 89, b: 63 }),
        Tile::QuestionBlock => Some(Rgb { r: 127, g: 51, b: 0 }),
        Tile::Pipe => Some(Rgb { r: 91, g: 127, b: 0 }),
        Tile::PipeBig => Some(Rgb { r: 178, g: 0, b: 255 }),
        Tile::MovingPlatform => Some(Rgb { r: 255, g: 0, b: 0 }),
        Tile::MovingPlatformLong => Some(Rgb { r: 82, g: 127, b: 63 }),
        Tile::Spring => Some(Rgb { r: 0, g: 200, b: 0 }),
        Tile::Coin => Some(Rgb { r: 255, g: 255, b: 0 }),
        Tile::Mushroom => Some(Rgb { r: 0, g: 127, b: 70 }),
        Tile::Exit => Some(Rgb { r: 0, g: 255, b: 0 }),
        Tile::Baddie(EnemyKind::Monster) => Some(Rgb { r: 0, g: 0, b: 255 }),
        Tile::Baddie(EnemyKind::Slub) => Some(Rgb { r: 0, g: 255, b: 255 }),
        Tile::Baddie(EnemyKind::Squidge) => Some(Rgb { r: 255, g: 0, b: 255 }),
        Tile::Baddie(EnemyKind::MonsterRed) => Some(Rgb { r: 255, g: 106, b: 0 }),
        Tile::Baddie(_) => None,
        Tile::Cannon(EnemyKind::Cannon) => Some(Rgb { r: 76, g: 255, b: 0 }),
        Tile::Cannon(EnemyKind::CannonBig) => Some(Rgb { r: 63, g: 73, b: 127 }),
        Tile::Cannon(EnemyKind::SmallCannon) => Some(Rgb { r: 255, g: 127, b: 182 }),
        Tile::Cannon(_) => None,
        Tile::Boss => Some(Rgb { r: 200, g: 0, b: 0 }),
        Tile::Flower => Some(Rgb { r: 127, g: 0, b: 110 }),
        Tile::Rose => Some(Rgb { r: 72, g: 0, b: 255 }),
        Tile::Scenery(SceneryKind::Cloud) => Some(Rgb { r: 87, g: 0, b: 127 }),
        Tile::Scenery(SceneryKind::Bush) => Some(Rgb { r: 127, g: 0, b: 55 }),
        Tile::Scenery(SceneryKind::Castle) => Some(Rgb { r: 80, g: 63, b: 127 }),
        Tile::Scenery(SceneryKind::CastleBig) => Some(Rgb { r: 214, g: 127, b: 255 }),
        Tile::Scenery(SceneryKind::Hill) => Some(Rgb { r: 255, g: 233, b: 127 }),
        Tile::Scenery(SceneryKind::Fence) => Some(Rgb { r: 64, g: 64, b: 64 }),
        Tile::Scenery(SceneryKind::Tree1) => Some(Rgb { r: 182, g: 255, b: 0 }),
        Tile::Scenery(SceneryKind::Tree2) => Some(Rgb { r: 38, g: 127, b: 0 }),
        Tile::Scenery(SceneryKind::Cloud2) => Some(Rgb { r: 255, g: 0, b: 220 }),
        Tile::Scenery(SceneryKind::GrassSprite) => Some(Rgb { r: 255, g: 127, b: 127 }),
        Tile::Scenery(SceneryKind::Wall) => Some(Rgb { r: 127, g: 255, b: 197 }),
        Tile::Scenery(SceneryKind::Lava) => Some(Rgb { r: 234, g: 106, b: 68 }),
        Tile::Scenery(SceneryKind::Chain) => Some(Rgb { r: 127, g: 116, b: 63 }),
    }
}

/// The colour key reads every tile's map colour back as that tile, and the
/// grey exit colour as the exit.
pub proof fn lemma_colour_key_reads_back(t: Tile)
    ensures
        map_colour(t) matches Some(c) ==> palette(c) == Some(t),
        palette(Rgb { r: 128, g: 128, b: 128 }) == Some(Tile::Exit),
{
}

/// The colour key knows no other colours: a colour that stands for a tile
/// is that tile's map colour (or the grey exit colour).
pub proof fn lemma_colour_key_has_nothing_else(c: Rgb)
    ensures
        palette(c) matches Some(t) ==> map_colour(t) == Some(c) || (t == Tile::Exit && c == Rgb {
            r: 128,
            g: 128,
            b: 128,
        }),
{
}

/// Collision box of each kind of entity, in pixels: one tile is 32.
pub open spec fn collider_of(t: Tile) -> Option<BoxSize> {
    match t {
        Tile::Ground(_) => Some(BoxSize { w: (32) as i64, h: (32) as i64 }),
        Tile::Block(_) => Some(BoxSize { w: (32) as i64, h: (32) as i64 }),
        Tile::QuestionBlock => Some(BoxSize { w: (32) as i64, h: (32) as i64 }),
        Tile::Pipe => Some(BoxSize { w: (2 * 32) as i64, h: (3 * 32) as i64 }),
        Tile::PipeBig => Some(BoxSize { w: (2 * 32) as i64, h: (4 * 32) as i64 }),
        Tile::MovingPlatform => Some(BoxSize { w: (2 * 32) as i64, h: (32int / 2) as i64 }),
        Tile::MovingPlatformLong => Some(BoxSize { w: (4 * 32) as i64, h: (32int / 2) as i64 }),
        Tile::Spring => Some(BoxSize { w: (32) as i64, h: (32int * 3 / 4) as i64 }),
        Tile::Coin => Some(BoxSize { w: (16) as i64, h: (28) as i64 }),
        Tile::Mushroom => Some(BoxSize { w: (28) as i64, h: (28) as i64 }),
        Tile::Exit => Some(BoxSize { w: (32) as i64, h: (4 * 32) as i64 }),
        Tile::Baddie(_) => Some(BoxSize { w: (28) as i64, h: (28) as i64 }),
        Tile::Cannon(EnemyKind::CannonBig) => Some(BoxSize { w: (48) as i64, h: (56) as i64 }),
        Tile::Cannon(_) => Some(BoxSize { w: (28) as i64, h: (42) as i64 }),
        Tile::Boss => Some(BoxSize { w: (60) as i64, h: (60) as i64 }),
        Tile::Flower => Some(BoxSize { w: (28) as i64, h: (48) as i64 }),
        Tile::Rose => Some(BoxSize { w: (28) as i64, h: (48) as i64 }),
        Tile::Scenery(_) => None,
    }
}

/// Drawing depth of each kind of entity, in tenths.
pub open spec fn depth_of(t: Tile) -> int {
    match t {
        Tile::Ground(_) | Tile::Block(_) => 0,
        Tile::QuestionBlock | Tile::Pipe | Tile::PipeBig | Tile::MovingPlatform
        | Tile::MovingPlatformLong | Tile::Spring => 10,
        Tile::Coin | Tile::Mushroom | Tile::Exit | Tile::Baddie(_) | Tile::Cannon(_) | Tile::Boss => 20,
        Tile::Flower | Tile::Rose => 5,
        Tile::Scenery(SceneryKind::Cloud) | Tile::Scenery(SceneryKind::Bush) => 10,
        Tile::Scenery(SceneryKind::Fence) | Tile::Scenery(SceneryKind::GrassSprite)
        | Tile::Scenery(SceneryKind::Lava) | Tile::Scenery(SceneryKind::Chain) => 15,
        Tile::Scenery(_) => 5,
    }
}

/// Horizontal shift of an entity from the centre of its column, in
/// hundredths of a pixel, for entities laid out on the tile grid.
pub open spec fn x_shift(t: Tile) -> int {
    match t {
        Tile::Coin => 400,
        Tile::Baddie(EnemyKind::Monster) | Tile::Baddie(EnemyKind::MonsterRed) => 200,
        Tile::Baddie(EnemyKind::Slub) => 100,
        Tile::Pipe | Tile::PipeBig => 1600,
        _ => 0,
    }
}

/// How every tile is placed: it keeps its tile, cell and stacking; its
/// collision box and depth are those of its kind; it sits at the centre of
/// its column shifted by its kind's shift (plants, which are spaced
/// slightly wider, excepted); and it rests where it is placed, except pipe
/// dwellers, which start below their resting height: a cannon by its own
/// height, a plant by 48 pixels.
pub proof fn lemma_placement(t: Tile, col: int, row: int, covered: bool)
    requires
        0 <= col <= u32::MAX,
        0 <= row <= u32::MAX,
    ensures
        ({
            let s = spawn_at(t, col, row, covered);
            &&& s.tile == t
            &&& s.col == col
            &&& s.row == row
            &&& s.covered == covered
            &&& s.collider == collider_of(t)
            &&& s.z_tenths == depth_of(t)
            &&& (t != Tile::Flower && t != Tile::Rose) ==> s.x == col * 3200 + 1600 + x_shift(t)
            &&& t == Tile::Flower ==> s.x == col * 3250 + 1600
            &&& t == Tile::Rose ==> s.x == col * 3223 + 1600
            &&& t is Cannon ==> s.y == s.rest_y - collider_of(t).unwrap().h * 100
            &&& (t == Tile::Flower || t == Tile::Rose) ==> s.y == s.rest_y - 4800
            &&& !(t is Cannon || t == Tile::Flower || t == Tile::Rose) ==> s.y == s.rest_y
        }),
{
}

/// Which cells put something into the level: a cell whose colour is in the
/// colour key yields an entity of that tile, except that a coin directly
/// above a question block yields nothing; other colours yield nothing. A
/// ground tile counts as stacked exactly when the cell above has the same
/// colour.
pub proof fn lemma_cell_rule(g: Grid, col: int, row: int)
    requires
        g.wf(),
        g.width <= u32::MAX,
        g.height <= u32::MAX,
        0 <= col < g.width,
        0 <= row < g.height,
    ensures
        g.cell_spawn(col, row) is Some <==> (palette(g.rgb(col, row)) is Some && !(palette(
            g.rgb(col, row),
        ) == Some(Tile::Coin) && row + 1 < g.height && g.rgb(col, row + 1) == Rgb {
            r: 127,
            g: 51,
            b: 0,
        })),
        g.cell_spawn(col, row) matches Some(s) ==> {
            &&& palette(g.rgb(col, row)) == Some(s.tile)
            &&& s.col == col
            &&& s.row == row
            &&& s.covered == (s.tile is Ground && row > 0 && g.rgb(col, row - 1) == g.rgb(col, row))
        },
{
    match palette(g.rgb(col, row)) {
        None => {},
        Some(t) => {
            let cov = t is Ground && g.covered(col, row);
            lemma_placement(t, col, row, cov);
        },
    }
}


/// Height, in pixels, that tall scenery and the exit reach above the ground
/// surface at their centre.
pub open spec fn height_above_ground(t: Tile) -> Option<int> {
    match t {
        Tile::Exit => Some(168),
        Tile::Scenery(SceneryKind::Castle) => Some(80),
        Tile::Scenery(SceneryKind::CastleBig) => Some(176),
        Tile::Scenery(SceneryKind::Hill) => Some(35),
        Tile::Scenery(SceneryKind::Tree1) => Some(46),
        Tile::Scenery(SceneryKind::Tree2) => Some(30),
        _ => None,
    }
}

/// Vertical shift of a walking enemy above the centre of its cell, in
/// hundredths of a pixel.
pub open spec fn y_shift(t: Tile) -> int {
    match t {
        Tile::Baddie(EnemyKind::Monster) | Tile::Baddie(EnemyKind::MonsterRed) => 400,
        Tile::Baddie(EnemyKind::Slub) => 200,
        _ => 0,
    }
}

/// Where every tile rests, in hundredths of a pixel (map row `row` spans
/// from `-row * 3200` down to `-(row + 1) * 3200`; the ground surface lies
/// at the bottom of row 12):
/// - pipes stand with their bottom edge on the bottom of their cell;
/// - the exit and tall scenery stand on the ground surface, centred the
///   given height above it;
/// - the boss sits 31 pixels below the top of its cell;
/// - a plant rests one tile above the centre of its cell;
/// - cannons rest at their own heights: the small one 2 pixels above the
///   centre of its cell, the others on a row pitch of 29.3 (big: 24.5)
///   pixels, 4 pixels below the top;
/// - the wall follows a row pitch of 19 pixels;
/// - everything else rests at the centre of its cell, walkers shifted up.
pub proof fn lemma_resting_heights(t: Tile, col: int, row: int, covered: bool)
    requires
        0 <= col <= u32::MAX,
        0 <= row <= u32::MAX,
    ensures
        ({
            let s = spawn_at(t, col, row, covered);
            let cell_top = -(row * 3200);
            let cell_bottom = -((row + 1) * 3200);
            let ground = -(13 * 3200);
            &&& (t == Tile::Pipe || t == Tile::PipeBig) ==> s.rest_y - collider_of(t).unwrap().h * 50
                == cell_bottom
            &&& height_above_ground(t) matches Some(h) ==> s.rest_y == ground + h * 100
            &&& t == Tile::Boss ==> s.rest_y == cell_top - 3100
            &&& (t == Tile::Flower || t == Tile::Rose) ==> s.rest_y == cell_top - 1600 + 3200
            &&& t == Tile::Cannon(EnemyKind::SmallCannon) ==> s.rest_y == cell_top - 1600 + 200
            &&& t == Tile::Cannon(EnemyKind::Cannon) ==> s.rest_y == -(row * 2930) - 400
            &&& t == Tile::Cannon(EnemyKind::CannonBig) ==> s.rest_y == -(row * 2450) - 400
            &&& t == Tile::Scenery(SceneryKind::Wall) ==> s.rest_y == -(row * 1900)
            &&& (match t {
                Tile::Pipe | Tile::PipeBig | Tile::Boss | Tile::Flower | Tile::Rose | Tile::Cannon(_)
                | Tile::Scenery(SceneryKind::Wall) => true,
                _ => height_above_ground(t) is Some,
            } || s.rest_y == cell_top - 1600 + y_shift(t))
        }),
{
}

/// The colour of the cell in column `col` and row `row` is the pixel at
/// position `row * width + col` of the row-major pixel list; in particular
/// the next cell of a row is the next pixel, and the first cell of a row
/// follows the last cell of the row above.
pub proof fn lemma_cells_are_row_major(g: Grid, col: int, row: int)
    requires
        g.wf(),
        0 <= col < g.width,
        0 <= row < g.height,
    ensures
        g.rgb(col, row) == (Rgb {
            r: g.pixels[row * g.width + col][0],
            g: g.pixels[row * g.width + col][1],
            b: g.pixels[row * g.width + col][2],
        }),
        col + 1 < g.width ==> g.rgb(col + 1, row) == (Rgb {
            r: g.pixels[row * g.width + col + 1][0],
            g: g.pixels[row * g.width + col + 1][1],
            b: g.pixels[row * g.width + col + 1][2],
        }),
        col == g.width - 1 && row + 1 < g.height ==> g.rgb(0, row + 1) == (Rgb {
            r: g.pixels[row * g.width + col + 1][0],
            g: g.pixels[row * g.width + col + 1][1],
            b: g.pixels[row * g.width + col + 1][2],
        }),
{
    assert((row + 1) * g.width == row * g.width + g.width) by (nonlinear_arith);
}


/// The model of a decoded map keeps its width, height and pixels as they are.
pub proof fn lemma_grid_of(w: u32, h: u32, px: Seq<[u8; 4]>)
    ensures
        grid_of(w, h, px).width == w,
        grid_of(w, h, px).height == h,
        grid_of(w, h, px).pixels == px,
        px.len() == w * h ==> grid_of(w, h, px).wf(),
{
}

} // verus!
