use vstd::prelude::*;
use vstd::arithmetic::div_mod::{lemma_fundamental_div_mod, lemma_fundamental_div_mod_converse};

verus! {

/// Side length of the cubic volume.
pub const WORLD_SIZE: usize = 256;

/// Number of cells in the volume.
pub const CELL_COUNT: usize = WORLD_SIZE * WORLD_SIZE * WORLD_SIZE;

/// Bytes that one cell takes in the packed buffer (red, green, blue, alpha).
pub const BYTES_PER_CELL: usize = 4;

/// A coordinate in the volume's grid; components may lie outside it.
#[derive(Clone, Copy, Debug, PartialEq, Eq, Structural)]
pub struct Position {
    pub x: i32,
    pub y: i32,
    pub z: i32,
}

/// An 8-bit-per-channel colour.
#[derive(Clone, Copy, Debug, PartialEq, Eq, Structural)]
pub struct Color {
    pub r: u8,
    pub g: u8,
    pub b: u8,
    pub a: u8,
}

/// One cell of the volume.
#[derive(Clone, Copy, Debug, PartialEq, Eq, Structural)]
pub struct Bloc {
    pub color: Color,
}

pub open spec fn rgba(r: u8, g: u8, b: u8, a: u8) -> Bloc {
    Bloc { color: Color { r, g, b, a } }
}

pub open spec fn empty_bloc() -> Bloc {
    rgba(0, 0, 0, 0)
}

pub open spec fn in_range(c: int) -> bool {
    0 <= c < WORLD_SIZE
}

pub open spec fn in_world(p: Position) -> bool {
    in_range(p.x as int) && in_range(p.y as int) && in_range(p.z as int)
}

/// Flat index of a cell: x varies fastest, then y, then z.
pub open spec fn cell_index(x: int, y: int, z: int) -> int {
    x + WORLD_SIZE * y + WORLD_SIZE * WORLD_SIZE * z
}

pub open spec fn index_of(p: Position) -> int {
    cell_index(p.x as int, p.y as int, p.z as int)
}

/// Offset of a cell's first byte in the packed buffer.
pub open spec fn byte_offset(p: Position) -> int {
    BYTES_PER_CELL * index_of(p)
}

/// A cell lies on the border when one of its coordinates is 0 or the last one.
pub open spec fn on_border(x: int, y: int, z: int) -> bool {
    x == 0 || y == 0 || z == 0 || x == WORLD_SIZE - 1 || y == WORLD_SIZE - 1 || z
        == WORLD_SIZE - 1
}

/// The colour held by the four bytes of cell `i` in a packed buffer.
pub open spec fn texel(bytes: Seq<u8>, i: int) -> Color {
    Color {
        r: bytes[4 * i],
        g: bytes[4 * i + 1],
        b: bytes[4 * i + 2],
        a: bytes[4 * i + 3],
    }
}

/// A packed buffer with the colour `c` written at cell `i`.
pub open spec fn write_texel(bytes: Seq<u8>, i: int, c: Color) -> Seq<u8> {
    bytes.update(4 * i, c.r).update(4 * i + 1, c.g).update(4 * i + 2, c.b).update(4 * i + 3, c.a)
}

/// The packed buffer mirrors the cells: cell `i` is stored at bytes `4i .. 4i + 4`.
pub open spec fn packed_matches(cells: Seq<Bloc>, bytes: Seq<u8>) -> bool {
    &&& cells.len() == CELL_COUNT
    &&& bytes.len() == BYTES_PER_CELL * CELL_COUNT
    &&& forall|i: int| 0 <= i < CELL_COUNT ==> #[trigger] texel(bytes, i) == cells[i].color
}

pub fn is_outside_world(position: Position) -> (r: bool)
    ensures
        r == !in_world(position),
{
    position.x < 0 || position.y < 0 || position.z < 0 || position.x >= WORLD_SIZE as i32
        || position.y >= WORLD_SIZE as i32 || position.z >= WORLD_SIZE as i32
}

/// Offset of the cell at `pos` in the packed buffer.
pub fn texel_offset(pos: Position) -> (r: usize)
    requires
        in_world(pos),
    ensures
        r == byte_offset(pos),
        r + 3 < BYTES_PER_CELL * CELL_COUNT,
{
    BYTES_PER_CELL * (pos.x as usize + WORLD_SIZE * pos.y as usize + WORLD_SIZE * WORLD_SIZE
        * pos.z as usize)
}

/// The packed RGBA buffer of the volume and the handle of the 3D texture it is uploaded to.
pub struct WorldDataTexture {
    texture_id: u32,
    buffer: Vec<u8>,
    stale: bool,
}

impl WorldDataTexture {
    pub closed spec fn id(&self) -> u32 {
        self.texture_id
    }

    pub closed spec fn bytes(&self) -> Seq<u8> {
        self.buffer@
    }

    /// True when the buffer changed since it was last uploaded.
    pub closed spec fn is_stale(&self) -> bool {
        self.stale
    }

    /// A zeroed buffer for the whole volume, not uploaded yet.
    pub fn new() -> (r: Self)
        ensures
            r.id() == 0,
            r.bytes() == Seq::new((BYTES_PER_CELL * CELL_COUNT) as nat, |i: int| 0u8),
            r.is_stale(),
    {
        let buffer = vec![0u8; BYTES_PER_CELL * CELL_COUNT];
        assert(buffer@ =~= Seq::new((BYTES_PER_CELL * CELL_COUNT) as nat, |i: int| 0u8));
        WorldDataTexture { texture_id: 0, buffer, stale: true }
    }

    /// Writes the colour of `bloc` into the four bytes of the cell at `pos`.
    pub fn change_id(&mut self, pos: Position, bloc: Bloc)
        requires
            in_world(pos),
            old(self).bytes().len() == BYTES_PER_CELL * CELL_COUNT,
        ensures
            final(self).bytes() == write_texel(old(self).bytes(), index_of(pos), bloc.color),
            final(self).id() == old(self).id(),
            final(self).is_stale(),
    {
        let o = texel_offset(pos);
        self.buffer.set(o, bloc.color.r);
        self.buffer.set(o + 1, bloc.color.g);
        self.buffer.set(o + 2, bloc.color.b);
        self.buffer.set(o + 3, bloc.color.a);
        self.stale = true;
    }

    /// Reads the colour stored for the cell at `pos`.
    pub fn color_at(&self, pos: Position) -> (r: Color)
        requires
            in_world(pos),
            self.bytes().len() == BYTES_PER_CELL * CELL_COUNT,
        ensures
            r == texel(self.bytes(), index_of(pos)),
    {
        let o = texel_offset(pos);
        Color { r: self.buffer[o], g: self.buffer[o + 1], b: self.buffer[o + 2], a: self.buffer[o + 3] }
    }

    /// The packed bytes, in the layout the 3D texture expects.
    pub fn data(&self) -> (r: &[u8])
        ensures
            r@ == self.bytes(),
    {
        self.buffer.as_slice()
    }

    pub fn texture_id(&self) -> (r: u32)
        ensures
            r == self.id(),
    {
        self.texture_id
    }

    /// Attaches the handle of the 3D texture that the buffer is uploaded to.
    pub fn set_texture_id(&mut self, id: u32)
        ensures
            final(self).id() == id,
            final(self).bytes() == old(self).bytes(),
            final(self).is_stale() == old(self).is_stale(),
    {
        self.texture_id = id;
    }

    pub fn needs_upload(&self) -> (r: bool)
        ensures
            r == self.is_stale(),
    {
        self.stale
    }

    /// Records that the whole buffer has been uploaded to the texture.
    pub fn mark_uploaded(&mut self)
        ensures
            final(self).bytes() == old(self).bytes(),
            final(self).id() == old(self).id(),
            !final(self).is_stale(),
    {
        self.stale = false;
    }
}

/// Column of the cell with flat index `i`.
pub open spec fn x_of(i: int) -> int {
    i % (WORLD_SIZE as int)
}

/// Row of the cell with flat index `i`.
pub open spec fn y_of(i: int) -> int {
    (i / (WORLD_SIZE as int)) % (WORLD_SIZE as int)
}

/// Layer of the cell with flat index `i`.
pub open spec fn z_of(i: int) -> int {
    i / (WORLD_SIZE * WORLD_SIZE) as int
}

/// Every flat index names exactly one in-range cell.
pub proof fn lemma_decode(i: int)
    requires
        0 <= i < CELL_COUNT,
    ensures
        in_range(x_of(i)),
        in_range(y_of(i)),
        in_range(z_of(i)),
        i == cell_index(x_of(i), y_of(i), z_of(i)),
{
    let n = WORLD_SIZE as int;
    lemma_fundamental_div_mod(i, n);
    let q = i / n;
    lemma_fundamental_div_mod(q, n);
    lemma_fundamental_div_mod(i, n * n);
    assert(0 <= q < n * n) by (nonlinear_arith)
        requires
            i == n * q + i % n,
            0 <= i % n < n,
            0 <= i < n * n * n,
            n == 256,
    ;
    assert(q / n == i / (n * n)) by (nonlinear_arith)
        requires
            i == n * q + i % n,
            0 <= i % n < n,
            q == n * (q / n) + q % n,
            0 <= q % n < n,
            i == (n * n) * (i / (n * n)) + i % (n * n),
            0 <= i % (n * n) < n * n,
            n == 256,
    ;
    assert(0 <= q / n < n) by (nonlinear_arith)
        requires
            q == n * (q / n) + q % n,
            0 <= q % n < n,
            0 <= q < n * n,
            n == 256,
    ;
}

/// The coordinates of an in-range cell are recovered from its flat index.
pub proof fn lemma_encode(x: int, y: int, z: int)
    requires
        in_range(x),
        in_range(y),
        in_range(z),
    ensures
        0 <= cell_index(x, y, z) < CELL_COUNT,
        x_of(cell_index(x, y, z)) == x,
        y_of(cell_index(x, y, z)) == y,
        z_of(cell_index(x, y, z)) == z,
{
    let n = WORLD_SIZE as int;
    let i = cell_index(x, y, z);
    lemma_fundamental_div_mod_converse(i, n, y + n * z, x);
    lemma_fundamental_div_mod_converse(y + n * z, n, z, y);
    lemma_fundamental_div_mod_converse(i, n * n, z, x + n * y);
}

/// Two in-range positions with the same flat index are the same position.
pub proof fn lemma_index_injective(p: Position, q: Position)
    requires
        in_world(p),
        in_world(q),
        index_of(p) == index_of(q),
    ensures
        p == q,
{
    lemma_encode(p.x as int, p.y as int, p.z as int);
    lemma_encode(q.x as int, q.y as int, q.z as int);
}

/// Inside the circular opening at the top of the bottle.
pub open spec fn bottle_opening(x: int, z: int) -> bool {
    let c = (WORLD_SIZE / 2) as int;
    let r = (WORLD_SIZE / 3) as int;
    (x - c) * (x - c) + (z - c) * (z - c) < r * r
}

/// The shell of the bottle: every border cell but those of the opening in the top face.
pub open spec fn bottle_wall(x: int, y: int, z: int) -> bool {
    on_border(x, y, z) && !(y == WORLD_SIZE - 1 && bottle_opening(x, z))
}

pub open spec fn bottle_bloc() -> Bloc {
    rgba(0, 0, 255, 255)
}

/// Column height of the ground at (x, z) in a height map laid out x fastest.
pub open spec fn height_at(heights: Seq<usize>, x: int, z: int) -> int {
    heights[x + WORLD_SIZE * z] as int
}

/// The ground fills every non-border cell under its column's height.
pub open spec fn ground_fill(heights: Seq<usize>, x: int, y: int, z: int) -> bool {
    y < height_at(heights, x, z) && !on_border(x, y, z)
}

/// A ground cell is coloured by its own coordinates.
pub open spec fn ground_bloc(x: int, y: int, z: int) -> Bloc {
    rgba(x as u8, y as u8, z as u8, 255)
}

/// Height of the plane that the scattered generator fills.
pub const PLANE_HEIGHT: i32 = 98;

pub open spec fn scattered_bloc() -> Bloc {
    rgba(255, 0, 0, 255)
}

pub open spec fn plane_bloc() -> Bloc {
    rgba(0, 255, 0, 255)
}

/// The cell at (x, y, z) after the scattered generator ran on `cells`.
pub open spec fn scattered_cell(cells: Seq<Bloc>, scattered: Seq<Position>, x: int, y: int, z: int) -> Bloc {
    if y == PLANE_HEIGHT {
        plane_bloc()
    } else if scattered.contains(Position { x: x as i32, y: y as i32, z: z as i32 }) {
        scattered_bloc()
    } else {
        cells[cell_index(x, y, z)]
    }
}

/// The dense grid of cells together with its packed GPU-side mirror.
pub struct WorldData {
    blocs: Vec<Bloc>,
    world_data_texture: WorldDataTexture,
}

impl WorldData {
    pub closed spec fn cells(&self) -> Seq<Bloc> {
        self.blocs@
    }

    pub closed spec fn texture_state(&self) -> WorldDataTexture {
        self.world_data_texture
    }

    /// The cell at an in-range position.
    pub open spec fn cell(&self, p: Position) -> Bloc {
        self.cells()[index_of(p)]
    }

    /// The packed buffer always mirrors the cells.
    pub open spec fn wf(&self) -> bool {
        packed_matches(self.cells(), self.texture_state().bytes())
    }

    /// An empty volume: every cell transparent black.
    pub fn new() -> (r: Self)
        ensures
            r.wf(),
            r.cells() == Seq::new(CELL_COUNT as nat, |i: int| empty_bloc()),
            r.texture_state().id() == 0,
            r.texture_state().is_stale(),
    {
        let blocs = vec![Bloc { color: Color { r: 0, g: 0, b: 0, a: 0 } }; CELL_COUNT];
        let world_data_texture = WorldDataTexture::new();
        assert(blocs@ =~= Seq::new(CELL_COUNT as nat, |i: int| empty_bloc()));
        let r = WorldData { blocs, world_data_texture };
        assert forall|i: int| 0 <= i < CELL_COUNT implies #[trigger] texel(
            r.texture_state().bytes(),
            i,
        ) == r.cells()[i].color by {
            assert(4 * i + 3 < BYTES_PER_CELL * CELL_COUNT);
        }
        r
    }

    /// The cell at `pos`, or `None` when `pos` lies outside the volume.
    pub fn get_bloc(&self, pos: Position) -> (r: Option<Bloc>)
        requires
            self.wf(),
        ensures
            r == (if in_world(pos) {
                Some(self.cell(pos))
            } else {
                None
            }),
    {
        if is_outside_world(pos) {
            None
        } else {
            let i = pos.x as usize + WORLD_SIZE * pos.y as usize + WORLD_SIZE * WORLD_SIZE
                * pos.z as usize;
            Some(self.blocs[i])
        }
    }

    /// Writes one cell and its packed bytes; a position outside the volume changes nothing.
    pub fn change_bloc_without_regen(&mut self, pos: Position, bloc: Bloc)
        requires
            old(self).wf(),
        ensures
            final(self).wf(),
            in_world(pos) ==> final(self).cells() == old(self).cells().update(index_of(pos), bloc),
            in_world(pos) ==> final(self).texture_state().is_stale(),
            !in_world(pos) ==> *final(self) == *old(self),
            final(self).texture_state().id() == old(self).texture_state().id(),
    {
        if is_outside_world(pos) {
            return ;
        }
        let ghost k = index_of(pos);
        let ghost old_bytes = self.world_data_texture.bytes();
        let i = pos.x as usize + WORLD_SIZE * pos.y as usize + WORLD_SIZE * WORLD_SIZE
            * pos.z as usize;
        self.blocs.set(i, bloc);
        self.world_data_texture.change_id(pos, bloc);
        assert forall|j: int| 0 <= j < CELL_COUNT implies #[trigger] texel(
            self.texture_state().bytes(),
            j,
        ) == self.cells()[j].color by {
            if j != k {
                assert(texel(self.texture_state().bytes(), j) == texel(old_bytes, j));
            }
        }
    }

    /// Whether the bottle's shell holds (x, y, z); the coordinates must be in range.
    fn in_bottle_wall(&self, x: i32, y: i32, z: i32) -> (r: bool)
        requires
            in_range(x as int),
            in_range(y as int),
            in_range(z as int),
        ensures
            r == bottle_wall(x as int, y as int, z as int),
    {
        if !self.is_board(Position { x, y, z }) {
            return false;
        }
        let c = WORLD_SIZE as i32 / 2;
        let radius = WORLD_SIZE as i32 / 3;
        let dx = x - c;
        let dz = z - c;
        assert(dx * dx <= 128 * 128 && dz * dz <= 128 * 128) by (nonlinear_arith)
            requires
                -128 <= dx <= 128,
                -128 <= dz <= 128,
        ;
        assert(0 <= dx * dx && 0 <= dz * dz) by (nonlinear_arith);
        !(y == WORLD_SIZE as i32 - 1 && dx * dx + dz * dz < radius * radius)
    }

    /// Carves a hollow bottle: every border cell is set, but for a round opening in the top
    /// face; other cells keep their value.
    pub fn generate_bottle(&mut self)
        requires
            old(self).wf(),
        ensures
            final(self).wf(),
            final(self).texture_state().id() == old(self).texture_state().id(),
            forall|x: int, y: int, z: int|
                in_range(x) && in_range(y) && in_range(z) ==> #[trigger] final(self).cells()[cell_index(
                    x,
                    y,
                    z,
                )] == if bottle_wall(x, y, z) {
                    bottle_bloc()
                } else {
                    old(self).cells()[cell_index(x, y, z)]
                },
    {
        let ghost old_cells = self.cells();
        let ghost id = self.texture_state().id();
        let mut i: usize = 0;
        while i < CELL_COUNT
            invariant
                0 <= i <= CELL_COUNT,
                self.wf(),
                self.texture_state().id() == id,
                old_cells.len() == CELL_COUNT,
                forall|j: int|
                    0 <= j < i ==> #[trigger] self.cells()[j] == if bottle_wall(
                        x_of(j),
                        y_of(j),
                        z_of(j),
                    ) {
                        bottle_bloc()
                    } else {
                        old_cells[j]
                    },
                forall|j: int| i <= j < CELL_COUNT ==> #[trigger] self.cells()[j] == old_cells[j],
            decreases CELL_COUNT - i,
        {
            proof {
                lemma_decode(i as int);
            }
            let x = (i % WORLD_SIZE) as i32;
            let y = ((i / WORLD_SIZE) % WORLD_SIZE) as i32;
            let z = (i / (WORLD_SIZE * WORLD_SIZE)) as i32;
            if self.in_bottle_wall(x, y, z) {
                self.change_bloc_without_regen(
                    Position { x, y, z },
                    Bloc { color: Color { r: 0, g: 0, b: 255, a: 255 } },
                );
            }
            i += 1;
        }
        assert forall|x: int, y: int, z: int|
            in_range(x) && in_range(y) && in_range(z) implies #[trigger] self.cells()[cell_index(
                x,
                y,
                z,
            )] == if bottle_wall(x, y, z) {
                bottle_bloc()
            } else {
                old_cells[cell_index(x, y, z)]
            } by {
            lemma_encode(x, y, z);
        }
    }

    /// Builds a ground from a height map of `WORLD_SIZE * WORLD_SIZE` columns, indexed
    /// `x + WORLD_SIZE * z`: every non-border cell under its column's height takes the colour
    /// of its coordinates; other cells keep their value.
    pub fn generate_ground(&mut self, heights: &Vec<usize>)
        requires
            old(self).wf(),
            heights.len() == WORLD_SIZE * WORLD_SIZE,
        ensures
            final(self).wf(),
            final(self).texture_state().id() == old(self).texture_state().id(),
            forall|x: int, y: int, z: int|
                in_range(x) && in_range(y) && in_range(z) ==> #[trigger] final(self).cells()[cell_index(
                    x,
                    y,
                    z,
                )] == if ground_fill(heights@, x, y, z) {
                    ground_bloc(x, y, z)
                } else {
                    old(self).cells()[cell_index(x, y, z)]
                },
    {
        let ghost old_cells = self.cells();
        let ghost id = self.texture_state().id();
        let mut i: usize = 0;
        while i < CELL_COUNT
            invariant
                0 <= i <= CELL_COUNT,
                self.wf(),
                self.texture_state().id() == id,
                old_cells.len() == CELL_COUNT,
                heights.len() == WORLD_SIZE * WORLD_SIZE,
                forall|j: int|
                    0 <= j < i ==> #[trigger] self.cells()[j] == if ground_fill(
                        heights@,
                        x_of(j),
                        y_of(j),
                        z_of(j),
                    ) {
                        ground_bloc(x_of(j), y_of(j), z_of(j))
                    } else {
                        old_cells[j]
                    },
                forall|j: int| i <= j < CELL_COUNT ==> #[trigger] self.cells()[j] == old_cells[j],
            decreases CELL_COUNT - i,
        {
            proof {
                lemma_decode(i as int);
            }
            let xu = i % WORLD_SIZE;
            let yu = (i / WORLD_SIZE) % WORLD_SIZE;
            let zu = i / (WORLD_SIZE * WORLD_SIZE);
            let pos = Position { x: xu as i32, y: yu as i32, z: zu as i32 };
            if yu < heights[xu + WORLD_SIZE * zu] && !self.is_board(pos) {
                self.change_bloc_without_regen(
                    pos,
                    Bloc { color: Color { r: xu as u8, g: yu as u8, b: zu as u8, a: 255 } },
                );
            }
            i += 1;
        }
        assert forall|x: int, y: int, z: int|
            in_range(x) && in_range(y) && in_range(z) implies #[trigger] self.cells()[cell_index(
                x,
                y,
                z,
            )] == if ground_fill(heights@, x, y, z) {
                ground_bloc(x, y, z)
            } else {
                old_cells[cell_index(x, y, z)]
            } by {
            lemma_encode(x, y, z);
        }
    }

    /// Sets each listed position that lies in the volume to red, then the whole plane
    /// `y == PLANE_HEIGHT` to green; other cells keep their value.
    pub fn generate_random(&mut self, scattered: &Vec<Position>)
        requires
            old(self).wf(),
        ensures
            final(self).wf(),
            final(self).texture_state().id() == old(self).texture_state().id(),
            forall|x: int, y: int, z: int|
                in_range(x) && in_range(y) && in_range(z) ==> #[trigger] final(self).cells()[cell_index(
                    x,
                    y,
                    z,
                )] == scattered_cell(old(self).cells(), scattered@, x, y, z),
    {
        let ghost old_cells = self.cells();
        let ghost id = self.texture_state().id();
        let mut k: usize = 0;
        while k < scattered.len()
            invariant
                0 <= k <= scattered.len(),
                self.wf(),
                self.texture_state().id() == id,
                old_cells.len() == CELL_COUNT,
                forall|p: Position|
                    in_world(p) ==> #[trigger] self.cells()[index_of(p)] == if scattered@.take(
                        k as int,
                    ).contains(p) {
                        scattered_bloc()
                    } else {
                        old_cells[index_of(p)]
                    },
            decreases scattered.len() - k,
        {
            let s = scattered[k];
            let ghost before = self.cells();
            self.change_bloc_without_regen(s, Bloc { color: Color { r: 255, g: 0, b: 0, a: 255 } });
            assert(scattered@.take(k + 1) =~= scattered@.take(k as int).push(s));
            assert forall|p: Position| in_world(p) implies #[trigger] self.cells()[index_of(p)]
                == if scattered@.take(k + 1).contains(p) {
                scattered_bloc()
            } else {
                old_cells[index_of(p)]
            } by {
                let t0 = scattered@.take(k as int);
                let t1 = scattered@.take(k + 1);
                if in_world(s) && index_of(p) == index_of(s) {
                    lemma_index_injective(p, s);
                }
                if p == s {
                    assert(t1[k as int] == p);
                } else {
                    if t0.contains(p) {
                        let w = choose|w: int| 0 <= w < t0.len() && t0[w] == p;
                        assert(t1[w] == p);
                    }
                    if t1.contains(p) {
                        let w = choose|w: int| 0 <= w < t1.len() && t1[w] == p;
                        assert(t0[w] == p);
                    }
                    assert(t1.contains(p) == t0.contains(p));
                }
            }
            k += 1;
        }
        assert(scattered@.take(scattered.len() as int) =~= scattered@);
        let ghost mid = self.cells();
        let mut i: usize = 0;
        while i < WORLD_SIZE * WORLD_SIZE
            invariant
                0 <= i <= WORLD_SIZE * WORLD_SIZE,
                self.wf(),
                self.texture_state().id() == id,
                mid.len() == CELL_COUNT,
                forall|p: Position|
                    in_world(p) ==> #[trigger] self.cells()[index_of(p)] == if p.y == PLANE_HEIGHT
                        && p.x + WORLD_SIZE * p.z < i {
                        plane_bloc()
                    } else {
                        mid[index_of(p)]
                    },
            decreases WORLD_SIZE * WORLD_SIZE - i,
        {
            let x = (i % WORLD_SIZE) as i32;
            let z = (i / WORLD_SIZE) as i32;
            let q = Position { x, y: PLANE_HEIGHT, z };
            assert(i == x + WORLD_SIZE * z && 0 <= x < WORLD_SIZE && 0 <= z < WORLD_SIZE) by {
                lemma_fundamental_div_mod(i as int, WORLD_SIZE as int);
            }
            self.change_bloc_without_regen(q, Bloc { color: Color { r: 0, g: 255, b: 0, a: 255 } });
            assert forall|p: Position| in_world(p) implies #[trigger] self.cells()[index_of(p)]
                == if p.y == PLANE_HEIGHT && p.x + WORLD_SIZE * p.z < i + 1 {
                plane_bloc()
            } else {
                mid[index_of(p)]
            } by {
                if index_of(p) == index_of(q) {
                    lemma_index_injective(p, q);
                }
                lemma_encode(p.x as int, p.y as int, p.z as int);
                lemma_encode(q.x as int, q.y as int, q.z as int);
            }
            i += 1;
        }
        assert forall|x: int, y: int, z: int|
            in_range(x) && in_range(y) && in_range(z) implies #[trigger] self.cells()[cell_index(
                x,
                y,
                z,
            )] == scattered_cell(old_cells, scattered@, x, y, z) by {
            let p = Position { x: x as i32, y: y as i32, z: z as i32 };
            assert(in_world(p) && index_of(p) == cell_index(x, y, z));
            lemma_encode(x, y, z);
        }
    }

    /// Whether `pos` lies on the border of the volume.
    pub fn is_board(&self, pos: Position) -> (r: bool)
        ensures
            r == on_border(pos.x as int, pos.y as int, pos.z as int),
    {
        pos.x == 0 || pos.y == 0 || pos.z == 0 || pos.x == WORLD_SIZE as i32 - 1 || pos.y
            == WORLD_SIZE as i32 - 1 || pos.z == WORLD_SIZE as i32 - 1
    }

    pub fn is_outside_world(position: Position) -> (r: bool)
        ensures
            r == !in_world(position),
    {
        is_outside_world(position)
    }

    pub fn texture(&self) -> (r: &WorldDataTexture)
        ensures
            *r == self.texture_state(),
    {
        &self.world_data_texture
    }

    /// Attaches the handle of the 3D texture that mirrors the volume.
    pub fn set_texture_id(&mut self, id: u32)
        requires
            old(self).wf(),
        ensures
            final(self).wf(),
            final(self).cells() == old(self).cells(),
            final(self).texture_state().id() == id,
    {
        self.world_data_texture.set_texture_id(id);
    }

    /// Records that the packed buffer has been uploaded whole to the 3D texture.
    pub fn mark_uploaded(&mut self)
        requires
            old(self).wf(),
        ensures
            final(self).wf(),
            final(self).cells() == old(self).cells(),
            final(self).texture_state().id() == old(self).texture_state().id(),
            !final(self).texture_state().is_stale(),
    {
        self.world_data_texture.mark_uploaded();
    }
}

/// Writing a cell and reading it back gives exactly what was written: the grid holds the new
/// cell, and the four packed bytes at the cell's offset decode to its colour in RGBA order.
pub proof fn lemma_set_then_get(before: WorldData, after: WorldData, p: Position, b: Bloc)
    requires
        before.wf(),
        after.wf(),
        in_world(p),
        after.cells() == before.cells().update(index_of(p), b),
    ensures
        after.cell(p) == b,
        texel(after.texture_state().bytes(), index_of(p)) == b.color,
        forall|q: Position| in_world(q) && q != p ==> #[trigger] after.cell(q) == before.cell(q),
{
    lemma_encode(p.x as int, p.y as int, p.z as int);
    assert forall|q: Position| in_world(q) && q != p implies #[trigger] after.cell(q)
        == before.cell(q) by {
        lemma_encode(q.x as int, q.y as int, q.z as int);
        if index_of(q) == index_of(p) {
            lemma_index_injective(p, q);
        }
    }
}

/// The byte offset of an in-range cell is `4 * (x + N*y + N*N*z)`, its four bytes lie inside
/// the packed buffer, and decoding them after a write gives back the written colour.
pub proof fn lemma_offset_round_trip(bytes: Seq<u8>, p: Position, c: Color)
    requires
        in_world(p),
        bytes.len() == BYTES_PER_CELL * CELL_COUNT,
    ensures
        byte_offset(p) == 4 * (p.x + WORLD_SIZE * p.y + WORLD_SIZE * WORLD_SIZE * p.z),
        0 <= byte_offset(p),
        byte_offset(p) + 4 <= bytes.len(),
        texel(write_texel(bytes, index_of(p), c), index_of(p)) == c,
        write_texel(bytes, index_of(p), c).len() == bytes.len(),
{
    lemma_encode(p.x as int, p.y as int, p.z as int);
}

/// No strictly interior cell is on the border.
pub proof fn lemma_interior_not_border(x: int, y: int, z: int)
    requires
        0 < x < WORLD_SIZE - 1,
        0 < y < WORLD_SIZE - 1,
        0 < z < WORLD_SIZE - 1,
    ensures
        !on_border(x, y, z),
{
}

} // verus!
