use bracket_noise::prelude::{FastNoise, NoiseType};
use voxel_render::{
    is_outside_world, texel_offset, Bloc, Color, Position, WorldData, CELL_COUNT, WORLD_SIZE,
};

fn pos(x: i32, y: i32, z: i32) -> Position {
    Position { x, y, z }
}

fn bloc(r: u8, g: u8, b: u8, a: u8) -> Bloc {
    Bloc { color: Color { r, g, b, a } }
}

const EMPTY: Bloc = Bloc { color: Color { r: 0, g: 0, b: 0, a: 0 } };

#[test]
fn new_world_is_empty_and_not_uploaded() {
    let w = WorldData::new();
    assert_eq!(w.get_bloc(pos(0, 0, 0)), Some(EMPTY));
    assert_eq!(w.get_bloc(pos(255, 255, 255)), Some(EMPTY));
    assert_eq!(w.texture().data().len(), 4 * CELL_COUNT);
    assert!(w.texture().data().iter().all(|b| *b == 0));
    assert!(w.texture().needs_upload());
    assert_eq!(w.texture().texture_id(), 0);
}

#[test]
fn out_of_range_writes_change_nothing() {
    let mut w = WorldData::new();
    w.change_bloc_without_regen(pos(1, 1, 1), bloc(9, 8, 7, 6));
    let before = w.texture().data().to_vec();
    for p in [pos(-1, 0, 0), pos(0, -1, 0), pos(0, 0, -1), pos(256, 0, 0), pos(0, 256, 0), pos(0, 0, 256), pos(i32::MIN, i32::MAX, 3)] {
        w.change_bloc_without_regen(p, bloc(255, 255, 255, 255));
        assert_eq!(w.get_bloc(p), None);
    }
    assert_eq!(w.texture().data(), &before[..]);
    assert_eq!(w.get_bloc(pos(1, 1, 1)), Some(bloc(9, 8, 7, 6)));
}

#[test]
fn write_then_read_gives_the_cell_and_its_bytes() {
    let mut w = WorldData::new();
    let p = pos(3, 4, 5);
    let v = bloc(10, 20, 30, 40);
    w.change_bloc_without_regen(p, v);
    assert_eq!(w.get_bloc(p), Some(v));
    assert_eq!(w.texture().color_at(p), v.color);
    let o = texel_offset(p);
    assert_eq!(&w.texture().data()[o..o + 4], &[10, 20, 30, 40]);
    assert_eq!(w.get_bloc(pos(4, 4, 5)), Some(EMPTY));
    assert_eq!(w.get_bloc(pos(3, 5, 5)), Some(EMPTY));
    assert!(w.texture().needs_upload());
}

#[test]
fn offsets_follow_x_then_y_then_z() {
    assert_eq!(texel_offset(pos(0, 0, 0)), 0);
    assert_eq!(texel_offset(pos(1, 0, 0)), 4);
    assert_eq!(texel_offset(pos(0, 1, 0)), 4 * 256);
    assert_eq!(texel_offset(pos(0, 0, 1)), 4 * 256 * 256);
    assert_eq!(texel_offset(pos(1, 2, 3)), 4 * (1 + 256 * 2 + 256 * 256 * 3));
    assert_eq!(texel_offset(pos(255, 255, 255)), 4 * (CELL_COUNT - 1));
}

#[test]
fn last_cell_round_trips() {
    let mut w = WorldData::new();
    let p = pos(255, 255, 255);
    w.change_bloc_without_regen(p, bloc(1, 2, 3, 4));
    let d = w.texture().data();
    assert_eq!(&d[d.len() - 4..], &[1, 2, 3, 4]);
    assert_eq!(w.get_bloc(p), Some(bloc(1, 2, 3, 4)));
}

#[test]
fn border_predicate() {
    let w = WorldData::new();
    assert!(w.is_board(pos(0, 100, 100)));
    assert!(w.is_board(pos(100, 0, 100)));
    assert!(w.is_board(pos(100, 100, 0)));
    assert!(w.is_board(pos(255, 100, 100)));
    assert!(w.is_board(pos(100, 255, 100)));
    assert!(w.is_board(pos(100, 100, 255)));
    assert!(!w.is_board(pos(1, 1, 1)));
    assert!(!w.is_board(pos(254, 254, 254)));
    assert!(!w.is_board(pos(128, 128, 128)));
}

#[test]
fn outside_world_predicate() {
    assert!(!is_outside_world(pos(0, 0, 0)));
    assert!(!is_outside_world(pos(255, 255, 255)));
    assert!(is_outside_world(pos(256, 0, 0)));
    assert!(is_outside_world(pos(0, -1, 0)));
    assert!(WorldData::is_outside_world(pos(0, 0, 300)));
}

#[test]
fn bottle_leaves_its_opening_empty() {
    let mut w = WorldData::new();
    w.generate_bottle();
    let blue = bloc(0, 0, 255, 255);
    assert_eq!(w.get_bloc(pos(128, 255, 128)), Some(EMPTY));
    assert_eq!(w.get_bloc(pos(0, 128, 128)), Some(blue));
    assert_eq!(w.get_bloc(pos(128, 0, 128)), Some(blue));
    assert_eq!(w.get_bloc(pos(0, 255, 0)), Some(blue));
    assert_eq!(w.get_bloc(pos(128, 128, 128)), Some(EMPTY));
    // (128 + 84, 128): distance squared 84^2 < 85^2 is open, 85^2 is not.
    assert_eq!(w.get_bloc(pos(212, 255, 128)), Some(EMPTY));
    assert_eq!(w.get_bloc(pos(213, 255, 128)), Some(blue));
}

fn noise_heights(seed: u64) -> Vec<usize> {
    let mut noise = FastNoise::seeded(seed);
    noise.set_frequency(0.007);
    noise.set_noise_type(NoiseType::PerlinFractal);
    noise.set_fractal_octaves(8);
    let frequency = 0.37;
    let mut heights = vec![0usize; WORLD_SIZE * WORLD_SIZE];
    for z in 0..WORLD_SIZE {
        for x in 0..WORLD_SIZE {
            let n = noise.get_noise3d(x as f32 * frequency, 0.0, z as f32 * frequency);
            heights[x + WORLD_SIZE * z] =
                ((0.5 * (n + 1.0)) * (WORLD_SIZE - 1) as f32 - (WORLD_SIZE / 4) as f32) as usize;
        }
    }
    heights
}

#[test]
fn ground_from_same_seed_is_identical() {
    let h1 = noise_heights(1234);
    let h2 = noise_heights(1234);
    assert_eq!(h1, h2);
    let mut a = WorldData::new();
    let mut b = WorldData::new();
    a.generate_ground(&h1);
    b.generate_ground(&h2);
    assert!(a.texture().data() == b.texture().data());
}

#[test]
fn ground_fills_columns_under_their_height() {
    let mut heights = vec![0usize; WORLD_SIZE * WORLD_SIZE];
    heights[5 + WORLD_SIZE * 7] = 10;
    heights[0 + WORLD_SIZE * 7] = 10;
    heights[9 + WORLD_SIZE * 9] = 1000;
    let mut w = WorldData::new();
    w.generate_ground(&heights);
    assert_eq!(w.get_bloc(pos(5, 0, 7)), Some(EMPTY));
    assert_eq!(w.get_bloc(pos(5, 1, 7)), Some(bloc(5, 1, 7, 255)));
    assert_eq!(w.get_bloc(pos(5, 9, 7)), Some(bloc(5, 9, 7, 255)));
    assert_eq!(w.get_bloc(pos(5, 10, 7)), Some(EMPTY));
    assert_eq!(w.get_bloc(pos(0, 5, 7)), Some(EMPTY));
    assert_eq!(w.get_bloc(pos(6, 5, 7)), Some(EMPTY));
    assert_eq!(w.get_bloc(pos(9, 254, 9)), Some(bloc(9, 254, 9, 255)));
    assert_eq!(w.get_bloc(pos(9, 255, 9)), Some(EMPTY));
}

#[test]
fn scattered_cells_and_plane() {
    let mut w = WorldData::new();
    let scattered = vec![pos(1, 2, 3), pos(300, 0, 0), pos(4, 98, 4), pos(-5, 1, 1)];
    w.generate_random(&scattered);
    let red = bloc(255, 0, 0, 255);
    let green = bloc(0, 255, 0, 255);
    assert_eq!(w.get_bloc(pos(1, 2, 3)), Some(red));
    assert_eq!(w.get_bloc(pos(4, 98, 4)), Some(green));
    assert_eq!(w.get_bloc(pos(0, 98, 0)), Some(green));
    assert_eq!(w.get_bloc(pos(255, 98, 255)), Some(green));
    assert_eq!(w.get_bloc(pos(2, 2, 2)), Some(EMPTY));
    assert_eq!(w.get_bloc(pos(4, 97, 4)), Some(EMPTY));
}

#[test]
fn upload_bookkeeping() {
    let mut w = WorldData::new();
    w.set_texture_id(17);
    w.mark_uploaded();
    assert!(!w.texture().needs_upload());
    assert_eq!(w.texture().texture_id(), 17);
    w.change_bloc_without_regen(pos(300, 0, 0), bloc(1, 1, 1, 1));
    assert!(!w.texture().needs_upload());
    w.change_bloc_without_regen(pos(2, 0, 0), bloc(1, 1, 1, 1));
    assert!(w.texture().needs_upload());
    assert_eq!(w.texture().texture_id(), 17);
}
