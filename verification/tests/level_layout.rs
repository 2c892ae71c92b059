use rusty_mario::components::EnemyKind;
use rusty_mario::level::{
    backdrop_for_level, build_level, classify, decode_level, level_asset_number, level_layout, place,
    Backdrop, BlockKind, BoxSize, GroundKind, LevelError, LevelImage, Rgb, SceneryKind, Tile,
};

fn encode_png(width: u32, height: u32, pixels: &[[u8; 3]]) -> Vec<u8> {
    let mut raw: Vec<u8> = Vec::new();
    for p in pixels {
        raw.extend_from_slice(p);
    }
    let img: image::ImageBuffer<image::Rgb<u8>, Vec<u8>> =
        image::ImageBuffer::from_raw(width, height, raw).unwrap();
    let mut out = std::io::Cursor::new(Vec::new());
    img.write_to(&mut out, image::ImageFormat::Png).unwrap();
    out.into_inner()
}

const COIN: [u8; 3] = [255, 255, 0];
const GROUND: [u8; 3] = [0, 0, 0];
const QBLOCK: [u8; 3] = [127, 51, 0];
const EMPTY: [u8; 3] = [255, 255, 255];

fn sample_map() -> Vec<u8> {
    encode_png(
        3,
        3,
        &[COIN, COIN, GROUND, QBLOCK, EMPTY, GROUND, GROUND, GROUND, GROUND],
    )
}

#[test]
fn build_level_lays_out_a_png_map_row_by_row() {
    let level = build_level(&sample_map()).unwrap();
    assert_eq!(level.width_px, 96);
    let s = &level.spawns;
    assert_eq!(s.len(), 7);
    let cells: Vec<(u32, u32)> = s.iter().map(|x| (x.col, x.row)).collect();
    assert_eq!(cells, vec![(1, 0), (2, 0), (0, 1), (2, 1), (0, 2), (1, 2), (2, 2)]);

    assert_eq!(s[0].tile, Tile::Coin);
    assert_eq!((s[0].x, s[0].y, s[0].z_tenths), (5200, -1600, 20));
    assert_eq!(s[0].collider, Some(BoxSize { w: 16, h: 28 }));

    assert_eq!(s[1].tile, Tile::Ground(GroundKind::Platform));
    assert!(!s[1].covered);
    assert_eq!((s[1].x, s[1].y, s[1].z_tenths), (8000, -1600, 0));

    assert_eq!(s[2].tile, Tile::QuestionBlock);
    assert_eq!((s[2].x, s[2].y, s[2].z_tenths), (1600, -4800, 10));

    assert!(s[3].covered);
    assert_eq!(s[3].y, -4800);

    assert!(!s[4].covered);
    assert!(!s[5].covered);
    assert!(s[6].covered);
    assert_eq!(s[6].y, -8000);
}

#[test]
fn coin_over_question_block_is_not_spawned() {
    let level = build_level(&sample_map()).unwrap();
    assert!(level.spawns.iter().all(|s| !(s.col == 0 && s.row == 0)));
}

#[test]
fn decode_level_reads_pixels_in_row_major_order() {
    let img = decode_level(&encode_png(2, 1, &[[1, 2, 3], [4, 5, 6]])).unwrap();
    assert_eq!((img.width, img.height), (2, 1));
    assert_eq!(img.pixel_rgb(1, 0), Rgb { r: 4, g: 5, b: 6 });
    assert_eq!(img.pixel_rgb(0, 0), Rgb { r: 1, g: 2, b: 3 });
}

#[test]
fn invalid_bytes_are_rejected() {
    assert_eq!(build_level(&[1, 2, 3, 4]).err(), Some(LevelError::InvalidImage));
    assert_eq!(decode_level(&[]).err(), Some(LevelError::InvalidImage));
}

#[test]
fn level_image_checks_pixel_count() {
    assert!(LevelImage::new(2, 2, vec![[0, 0, 0, 255]; 3]).is_none());
    let img = LevelImage::new(2, 1, vec![[0, 0, 255, 255], [200, 0, 0, 255]]).unwrap();
    let spawns = level_layout(&img);
    assert_eq!(spawns.len(), 2);
    assert_eq!(spawns[0].tile, Tile::Baddie(EnemyKind::Monster));
    assert_eq!((spawns[0].x, spawns[0].y), (1800, -1200));
    assert_eq!(spawns[1].tile, Tile::Boss);
    assert_eq!((spawns[1].x, spawns[1].y), (4800, -3100));
}

#[test]
fn unknown_colours_spawn_nothing() {
    let img = LevelImage::new(1, 1, vec![[1, 1, 1, 255]]).unwrap();
    assert!(level_layout(&img).is_empty());
    let empty = LevelImage::new(0, 0, vec![]).unwrap();
    assert!(level_layout(&empty).is_empty());
}

#[test]
fn colour_key() {
    assert_eq!(classify(Rgb { r: 0, g: 255, b: 0 }), Some(Tile::Exit));
    assert_eq!(classify(Rgb { r: 128, g: 128, b: 128 }), Some(Tile::Exit));
    assert_eq!(classify(Rgb { r: 0, g: 19, b: 127 }), Some(Tile::Ground(GroundKind::Grass)));
    assert_eq!(classify(Rgb { r: 127, g: 89, b: 63 }), Some(Tile::Block(BlockKind::Bridge)));
    assert_eq!(classify(Rgb { r: 63, g: 73, b: 127 }), Some(Tile::Cannon(EnemyKind::CannonBig)));
    assert_eq!(classify(Rgb { r: 127, g: 116, b: 63 }), Some(Tile::Scenery(SceneryKind::Chain)));
    assert_eq!(classify(Rgb { r: 255, g: 255, b: 255 }), None);
}

#[test]
fn pipes_and_pipe_dwellers_are_placed_exactly() {
    let big = place(Tile::Cannon(EnemyKind::CannonBig), 1, 10, false);
    assert_eq!((big.x, big.y, big.rest_y), (4800, -30500, -24900));
    assert_eq!(big.collider, Some(BoxSize { w: 48, h: 56 }));

    let cannon = place(Tile::Cannon(EnemyKind::Cannon), 0, 3, false);
    assert_eq!((cannon.rest_y, cannon.y), (-9190, -13390));

    let small = place(Tile::Cannon(EnemyKind::SmallCannon), 0, 0, false);
    assert_eq!((small.rest_y, small.y), (-1400, -5600));

    let flower = place(Tile::Flower, 2, 5, false);
    assert_eq!((flower.x, flower.y, flower.rest_y, flower.z_tenths), (8100, -19200, -14400, 5));

    let rose = place(Tile::Rose, 2, 5, false);
    assert_eq!(rose.x, 8046);

    let pipe = place(Tile::Pipe, 4, 12, false);
    assert_eq!((pipe.x, pipe.y), (16000, -36800));
    let pipe_big = place(Tile::PipeBig, 4, 12, false);
    assert_eq!((pipe_big.x, pipe_big.y), (16000, -35200));
}

#[test]
fn scenery_and_exit_stand_on_the_ground_line() {
    let exit = place(Tile::Exit, 7, 2, false);
    assert_eq!((exit.x, exit.y), (24000, -24800));
    let castle = place(Tile::Scenery(SceneryKind::Castle), 0, 9, false);
    assert_eq!((castle.y, castle.z_tenths, castle.collider), (-33600, 5, None));
    let wall = place(Tile::Scenery(SceneryKind::Wall), 0, 10, false);
    assert_eq!(wall.y, -19000);
    let coin = place(Tile::Coin, 0, 0, false);
    assert_eq!(coin.rest_y, coin.y);
}

#[test]
fn level_numbers_pick_maps_and_backgrounds() {
    assert_eq!(level_asset_number(1), 1);
    assert_eq!(level_asset_number(3), 3);
    assert_eq!(level_asset_number(0), 4);
    assert_eq!(level_asset_number(9), 4);
    assert_eq!(backdrop_for_level(4), Backdrop::Overworld);
    assert_eq!(backdrop_for_level(5), Backdrop::Castle);
}
