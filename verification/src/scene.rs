//! Initial scene contents: a row of pickable cubes over a pickable ground
//! plane, and the colourful test-pattern texture the cubes can be shown with.

use vstd::prelude::*;
use crate::world::DragState;
use crate::world::Entity;
use crate::world::World;

verus! {

/// How many cubes the scene starts with.
pub const CUBE_COUNT: usize = 5;

/// Distance between neighbouring cubes along x, in fixed-point world units.
pub const CUBE_SPACING: i64 = 200_000;

/// Height of the cube row above the ground plane.
pub const CUBE_HEIGHT: i64 = 100_000;

/// The edge length of the square test-pattern texture, in texels.
pub const TEXTURE_SIZE: usize = 8;

/// The cube standing at offset `x` from the centre of the row (`x` runs from
/// -2 to 2): spaced along the x axis, raised above the ground, and pushed
/// slightly in depth so the row is not exactly coplanar.
pub open spec fn initial_cube(x: int) -> Entity {
    Entity {
        pos_x: (x * CUBE_SPACING) as i64,
        pos_y: CUBE_HEIGHT,
        pos_z: (500 + x * 100) as i64,
        rot: 0,
        pickable: true,
        spin: Option::None,
    }
}

/// The ground plane: a pickable entity resting at the origin.
pub open spec fn initial_ground() -> Entity {
    Entity { pos_x: 0, pos_y: 0, pos_z: 0, rot: 0, pickable: true, spin: Option::None }
}

/// Builds the starting scene: five cubes in a row, then the ground plane,
/// every one of them pickable, none spinning, no drag in progress.
pub fn setup_scene() -> (w: World)
    ensures
        w.ents@.len() == CUBE_COUNT + 1,
        forall|i: int| 0 <= i < CUBE_COUNT ==> w.ents@[i] == initial_cube(i - 2),
        w.ents@[CUBE_COUNT as int] == initial_ground(),
        w.drag == DragState::Idle,
        w.wf(),
{
    let mut w = World::new();
    let mut i: usize = 0;
    while i < CUBE_COUNT
        invariant
            w.wf(),
            w.drag == DragState::Idle,
            i <= CUBE_COUNT,
            w.ents@.len() == i,
            forall|k: int| 0 <= k < i ==> w.ents@[k] == initial_cube(k - 2),
        decreases CUBE_COUNT - i,
    {
        let x: i64 = (i as i64) - 2;
        let cube = Entity {
            pos_x: x * CUBE_SPACING,
            pos_y: CUBE_HEIGHT,
            pos_z: 500 + x * 100,
            rot: 0,
            pickable: true,
            spin: Option::None,
        };
        w.add_entity(cube);
        i = i + 1;
    }
    w.add_entity(
        Entity { pos_x: 0, pos_y: 0, pos_z: 0, rot: 0, pickable: true, spin: Option::None },
    );
    w
}

/// The eight-colour palette the test pattern cycles through, four bytes
/// (RGBA) per colour.
pub open spec fn texture_palette() -> Seq<u8> {
    seq![
        255u8, 102, 159, 255, 255, 159, 102, 255, 236, 255, 102, 255, 121, 255, 102, 255, 102,
        255, 198, 255, 102, 198, 255, 255, 121, 102, 255, 255, 236, 102, 255, 255,
    ]
}

/// Builds the palette as bytes.
fn build_palette() -> (p: Vec<u8>)
    ensures
        p@ == texture_palette(),
{
    let values: [u8; 32] = [
        255u8, 102, 159, 255, 255, 159, 102, 255, 236, 255, 102, 255, 121, 255, 102, 255, 102,
        255, 198, 255, 102, 198, 255, 255, 121, 102, 255, 255, 236, 102, 255, 255,
    ];
    let mut p: Vec<u8> = Vec::new();
    let mut i: usize = 0;
    while i < 32
        invariant
            i <= 32,
            p@.len() == i,
            values@.len() == 32,
            forall|k: int| 0 <= k < i ==> p@[k] == values@[k],
            forall|k: int| 0 <= k < 32 ==> values@[k] == texture_palette()[k],
        decreases 32 - i,
    {
        p.push(values[i]);
        i = i + 1;
    }
    proof {
        assert(p@ =~= texture_palette());
    }
    p
}

/// The texel bytes of the colourful test pattern: eight rows of the palette,
/// each row rotated right by one colour (four bytes) relative to the row
/// above it.
pub fn uv_debug_texture_data() -> (d: Vec<u8>)
    ensures
        d@.len() == TEXTURE_SIZE * TEXTURE_SIZE * 4,
        forall|y: int, j: int|
            0 <= y < TEXTURE_SIZE && 0 <= j < TEXTURE_SIZE * 4 ==> #[trigger] d@[y * (TEXTURE_SIZE
                * 4) + j] == texture_palette()[(j + 28 * y) % 32],
{
    let pal = build_palette();
    let mut d: Vec<u8> = Vec::new();
    let mut y: usize = 0;
    while y < TEXTURE_SIZE
        invariant
            pal@ == texture_palette(),
            pal@.len() == 32,
            y <= TEXTURE_SIZE,
            d@.len() == y * 32,
            forall|y2: int, j2: int|
                0 <= y2 < y && 0 <= j2 < 32 ==> #[trigger] d@[y2 * 32 + j2]
                    == texture_palette()[(j2 + 28 * y2) % 32],
        decreases TEXTURE_SIZE - y,
    {
        let mut j: usize = 0;
        while j < 32
            invariant
                pal@ == texture_palette(),
                pal@.len() == 32,
                y < TEXTURE_SIZE,
                j <= 32,
                d@.len() == y * 32 + j,
                forall|y2: int, j2: int|
                    0 <= y2 < y && 0 <= j2 < 32 ==> #[trigger] d@[y2 * 32 + j2]
                        == texture_palette()[(j2 + 28 * y2) % 32],
                forall|j2: int|
                    0 <= j2 < j ==> #[trigger] d@[y * 32 + j2] == texture_palette()[(j2 + 28 * (
                    y as int)) % 32],
            decreases 32 - j,
        {
            let idx: usize = (j + 28 * y) % 32;
            d.push(pal[idx]);
            j = j + 1;
        }
        y = y + 1;
    }
    d
}

} // verus!
