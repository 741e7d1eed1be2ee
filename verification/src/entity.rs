use vstd::prelude::*;

verus! {

/// Coordinates are bounded so that positions in half-cells fit the
/// machine's integers with room to spare.
pub const CELL_BOUND: i64 = 1000000000000000000;

/// Which horizontal axis a wall side's plane is rotated about: sides facing
/// along x rotate about the y axis and sides facing along y about the x
/// axis.
#[derive(Clone, Copy, PartialEq, Eq, Structural, Debug)]
pub enum Axis {
    X,
    Y,
}

/// One colored wall side to build: a unit square panel standing at
/// mid-wall height.  Positions are in half-cells, so a panel centered on a
/// cell edge keeps integral coordinates; its half-extent is one half-cell
/// each way.
#[derive(Clone, Copy, PartialEq, Eq, Structural, Debug)]
pub struct WallSide {
    /// The panel center's x coordinate, in half-cells.
    pub x2: i64,
    /// The panel center's y coordinate, in half-cells.
    pub y2: i64,
    pub axis: Axis,
    /// Index into the color palette.
    pub color: u32,
}

/// Every cell coordinate, colored or wall, lies strictly within the bound.
pub open spec fn cells_bounded(colors: Seq<((i64, i64), u32)>, walls: Seq<(i64, i64)>) -> bool {
    &&& forall|k: int|
        0 <= k < colors.len() ==> -CELL_BOUND < #[trigger] colors[k].0.0 < CELL_BOUND
            && -CELL_BOUND < colors[k].0.1 < CELL_BOUND
    &&& forall|k: int|
        0 <= k < walls.len() ==> -CELL_BOUND < #[trigger] walls[k].0 < CELL_BOUND && -CELL_BOUND
            < walls[k].1 < CELL_BOUND
}

/// The wall sides one colored cell contributes: one unit panel toward each
/// of its four neighbors that is a wall, checked in the order left, right,
/// below, above.
pub open spec fn sides_of_cell(pos: (i64, i64), color: u32, walls: Seq<(i64, i64)>) -> Seq<
    WallSide,
> {
    let x = pos.0;
    let y = pos.1;
    (if walls.contains((((x - 1) as i64), y)) {
        seq![WallSide { x2: (2 * x) as i64, y2: (2 * y + 1) as i64, axis: Axis::Y, color }]
    } else {
        Seq::empty()
    }) + (if walls.contains((((x + 1) as i64), y)) {
        seq![WallSide { x2: (2 * x + 2) as i64, y2: (2 * y + 1) as i64, axis: Axis::Y, color }]
    } else {
        Seq::empty()
    }) + (if walls.contains((x, ((y - 1) as i64))) {
        seq![WallSide { x2: (2 * x + 1) as i64, y2: (2 * y) as i64, axis: Axis::X, color }]
    } else {
        Seq::empty()
    }) + (if walls.contains((x, ((y + 1) as i64))) {
        seq![WallSide { x2: (2 * x + 1) as i64, y2: (2 * y + 2) as i64, axis: Axis::X, color }]
    } else {
        Seq::empty()
    })
}

/// The wall sides all colored cells contribute, in the colored cells'
/// order.
pub open spec fn colored_wall_sides(
    colors: Seq<((i64, i64), u32)>,
    walls: Seq<(i64, i64)>,
) -> Seq<WallSide>
    decreases colors.len(),
{
    if colors.len() == 0 {
        Seq::empty()
    } else {
        colored_wall_sides(colors.drop_last(), walls) + sides_of_cell(
            colors.last().0,
            colors.last().1,
            walls,
        )
    }
}

/// Whether the wall set contains the cell `(x, y)`.
fn contains_cell(walls: &Vec<(i64, i64)>, x: i64, y: i64) -> (r: bool)
    ensures
        r == walls@.contains((x, y)),
{
    let mut i: usize = 0;
    while i < walls.len()
        invariant
            i <= walls@.len(),
            forall|k: int| 0 <= k < i ==> walls@[k] != (x, y),
        decreases walls@.len() - i,
    {
        if walls[i].0 == x && walls[i].1 == y {
            assert(walls@[i as int] == (x, y));
            return true;
        }
        i = i + 1;
    }
    false
}

/// Builds the colored wall-side panels of a maze level: for every colored
/// cell, a panel on each edge it shares with a wall cell.  The caller
/// hands in the maze's wall cells and the colored cells with their palette
/// indices; the panels come back in cell order, ready to be turned into
/// static drawables and physics bodies.
pub fn create_maze_walls_w(
    colors: &Vec<((i64, i64), u32)>,
    walls: &Vec<(i64, i64)>,
) -> (sides: Vec<WallSide>)
    requires
        cells_bounded(colors@, walls@),
    ensures
        sides@ == colored_wall_sides(colors@, walls@),
{
    let mut sides: Vec<WallSide> = Vec::new();
    let mut i: usize = 0;
    while i < colors.len()
        invariant
            i <= colors@.len(),
            cells_bounded(colors@, walls@),
            sides@ == colored_wall_sides(colors@.take(i as int), walls@),
        decreases colors@.len() - i,
    {
        let (pos, color) = colors[i];
        let (x, y) = pos;
        let ghost before = sides@;
        if contains_cell(walls, x - 1, y) {
            sides.push(WallSide { x2: 2 * x, y2: 2 * y + 1, axis: Axis::Y, color });
        }
        if contains_cell(walls, x + 1, y) {
            sides.push(WallSide { x2: 2 * x + 2, y2: 2 * y + 1, axis: Axis::Y, color });
        }
        if contains_cell(walls, x, y - 1) {
            sides.push(WallSide { x2: 2 * x + 1, y2: 2 * y, axis: Axis::X, color });
        }
        if contains_cell(walls, x, y + 1) {
            sides.push(WallSide { x2: 2 * x + 1, y2: 2 * y + 2, axis: Axis::X, color });
        }
        proof {
            assert(sides@ =~= before + sides_of_cell(pos, color, walls@));
            assert(colors@.take(i + 1).drop_last() =~= colors@.take(i as int));
            assert(colors@.take(i + 1).last() == colors@[i as int]);
        }
        i = i + 1;
    }
    proof {
        assert(colors@.take(colors@.len() as int) =~= colors@);
    }
    sides
}

} // verus!
