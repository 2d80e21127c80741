//! The map of what has been discovered so far.
//!
//! The map only ever grows: a cell that is known stays known and keeps the tile
//! that was seen there first.

use vstd::prelude::*;
use crate::camera::{in_viewport, is_visible, screen_position, Camera, CameraView};
use crate::draw::{lemma_ops_of_push, ops_of, DrawCommand, DrawOp, TextureKey};
use crate::textures::Drawable;
use crate::tile::{Tile, WeatherType};

verus! {

/// Why a patch was turned away.
#[derive(Clone, Copy, Debug, PartialEq, Eq, Structural)]
pub enum PatchError {
    /// The patch is not made of three rows of three cells.
    Shape,
}

/// What a map is, to contracts.
pub struct MapView {
    /// The cells by row and column; `None` where nothing was seen yet.
    pub grid: Seq<Seq<Option<Tile>>>,
    /// The number of rows, and of columns.
    pub size: nat,
    /// Row and column of the robot as last reported.
    pub position: (usize, usize),
    /// The weather as last reported.
    pub weather: WeatherType,
}

/// The rows of a patch or of a grid as sequences.
pub open spec fn rows_of(v: Vec<Vec<Option<Tile>>>) -> Seq<Seq<Option<Tile>>> {
    Seq::new(v.len() as nat, |i: int| v[i]@)
}

/// A grid of `size` rows of `size` cells.
pub open spec fn is_square(grid: Seq<Seq<Option<Tile>>>, size: nat) -> bool {
    &&& grid.len() == size
    &&& forall|r: int| 0 <= r < size ==> (#[trigger] grid[r]).len() == size
}

/// The grid of `size` rows of `size` cells in which nothing is known.
pub open spec fn unknown_grid(size: nat) -> Seq<Seq<Option<Tile>>> {
    Seq::new(size, |r: int| Seq::new(size, |c: int| None))
}

/// A patch of three rows of three cells.
pub open spec fn is_patch(patch: Seq<Seq<Option<Tile>>>) -> bool {
    &&& patch.len() == 3
    &&& forall|i: int| 0 <= i < 3 ==> (#[trigger] patch[i]).len() == 3
}

/// The map at the start: nothing is known, the robot stands at row 1 and column 1,
/// and it rains.
pub open spec fn initial_map(size: nat) -> MapView {
    MapView {
        grid: unknown_grid(size),
        size,
        position: (1usize, 1usize),
        weather: WeatherType::Rainy,
    }
}

/// What a patch around `position` reports of the cell at `row` and `col`:
/// the patch's cell for it where the cell is the robot's or next to it, nothing elsewhere.
pub open spec fn observed(
    patch: Seq<Seq<Option<Tile>>>,
    position: (usize, usize),
    row: int,
    col: int,
) -> Option<Tile> {
    if position.0 - 1 <= row <= position.0 + 1 && position.1 - 1 <= col <= position.1 + 1 {
        patch[row - position.0 + 1][col - position.1 + 1]
    } else {
        None
    }
}

/// A cell after an observation: what was known stays, what was unknown takes the observation.
pub open spec fn merged_cell(known: Option<Tile>, seen: Option<Tile>) -> Option<Tile> {
    if known is Some {
        known
    } else {
        seen
    }
}

/// The grid after a patch around `position` was merged into it.
pub open spec fn merge(
    grid: Seq<Seq<Option<Tile>>>,
    position: (usize, usize),
    patch: Seq<Seq<Option<Tile>>>,
) -> Seq<Seq<Option<Tile>>> {
    Seq::new(
        grid.len(),
        |r: int|
            Seq::new(
                grid[r].len(),
                |c: int| merged_cell(grid[r][c], observed(patch, position, r, c)),
            ),
    )
}

/// The grid after an update with a patch around `position`: the patch is merged
/// where it is made of three rows of three cells, and changes nothing where it is not.
pub open spec fn updated(
    grid: Seq<Seq<Option<Tile>>>,
    position: (usize, usize),
    patch: Seq<Seq<Option<Tile>>>,
) -> Seq<Seq<Option<Tile>>> {
    if is_patch(patch) {
        merge(grid, position, patch)
    } else {
        grid
    }
}

/// Whether the `k`-th cell of the patch, counted row by row, is a gap: it stands for
/// a cell of the grid that is still unknown, and holds no tile for it.
pub open spec fn is_gap(
    grid: Seq<Seq<Option<Tile>>>,
    position: (usize, usize),
    patch: Seq<Seq<Option<Tile>>>,
    k: int,
) -> bool {
    let row = position.0 + k / 3 - 1;
    let col = position.1 + k % 3 - 1;
    &&& 0 <= row < grid.len()
    &&& 0 <= col < grid[row].len()
    &&& grid[row][col] is None
    &&& patch[k / 3][k % 3] is None
}

/// The number of gaps among the first `k` cells of the patch.
pub open spec fn gaps(
    grid: Seq<Seq<Option<Tile>>>,
    position: (usize, usize),
    patch: Seq<Seq<Option<Tile>>>,
    k: nat,
) -> nat
    decreases k,
{
    if k == 0 {
        0
    } else {
        let before = gaps(grid, position, patch, (k - 1) as nat);
        if is_gap(grid, position, patch, k - 1) {
            before + 1
        } else {
            before
        }
    }
}

/// What an update with a patch around `position` answers: the number of gaps
/// where the patch is made of three rows of three cells, an error where it is not.
pub open spec fn update_result(
    grid: Seq<Seq<Option<Tile>>>,
    position: (usize, usize),
    patch: Seq<Seq<Option<Tile>>>,
) -> Result<usize, PatchError> {
    if is_patch(patch) {
        Ok(gaps(grid, position, patch, 9) as usize)
    } else {
        Err(PatchError::Shape)
    }
}

/// Whether `view` is made of three rows of three cells.
pub fn has_patch_shape(view: &Vec<Vec<Option<Tile>>>) -> (ok: bool)
    ensures
        ok == is_patch(rows_of(*view)),
{
    if view.len() != 3 {
        return false;
    }
    let ok = view[0].len() == 3 && view[1].len() == 3 && view[2].len() == 3;
    proof {
        let p = rows_of(*view);
        if ok {
            assert forall|i: int| 0 <= i < 3 implies (#[trigger] p[i]).len() == 3 by {
                assert(i == 0 || i == 1 || i == 2);
            }
        } else {
            assert(p[0].len() != 3 || p[1].len() != 3 || p[2].len() != 3);
        }
    }
    ok
}

/// Whether the cell that lies `offset - 1` steps after `center` is one of the
/// `size` cells of an axis: offset 0 is the cell before `center`, 1 the cell at
/// it, 2 the cell after it.
pub fn offset_is_valid(center: usize, offset: usize, size: usize) -> (ok: bool)
    ensures
        ok == (0 <= center + offset - 1 < size),
    no_unwind
{
    if offset == 0 {
        center >= 1 && center - 1 < size
    } else if center < size && offset - 1 < size - center {
        true
    } else {
        false
    }
}

/// Merges `view`, a patch around `position`, into `grid`, and counts the gaps.
///
/// Of the three rows and of the three columns of the patch, those that would lie
/// outside the world are found first; only cells in a row and a column that both
/// lie inside are looked at.
fn merge_patch(
    grid: &mut Vec<Vec<Option<Tile>>>,
    size: usize,
    position: (usize, usize),
    view: &Vec<Vec<Option<Tile>>>,
) -> (skipped: usize)
    requires
        is_square(rows_of(*old(grid)), size as nat),
        is_patch(rows_of(*view)),
    ensures
        rows_of(*final(grid)) == merge(rows_of(*old(grid)), position, rows_of(*view)),
        is_square(rows_of(*final(grid)), size as nat),
        skipped == gaps(rows_of(*old(grid)), position, rows_of(*view), 9),
    no_unwind
{
    let c_row = position.0;
    let c_col = position.1;
    let ghost before = rows_of(*grid);
    let ghost patch = rows_of(*view);
    let mut skipped: usize = 0;
    let mut i: usize = 0;
    while i < 3
        invariant
            i <= 3,
            is_patch(patch),
            patch == rows_of(*view),
            is_square(before, size as nat),
            is_square(rows_of(*grid), size as nat),
            position == (c_row, c_col),
            skipped <= 3 * i,
            skipped == gaps(before, position, patch, (3 * i) as nat),
            forall|r: int, c: int|
                0 <= r < size && 0 <= c < size ==> #[trigger] rows_of(*grid)[r][c] == (if r
                    < c_row + i - 1 {
                    merged_cell(before[r][c], observed(patch, position, r, c))
                } else {
                    before[r][c]
                }),
        decreases 3 - i,
    {
        let row_valid = offset_is_valid(c_row, i, size);
        let mut j: usize = 0;
        while j < 3
            invariant
                i < 3,
                j <= 3,
                is_patch(patch),
                patch == rows_of(*view),
                is_square(before, size as nat),
                is_square(rows_of(*grid), size as nat),
                position == (c_row, c_col),
                row_valid == (0 <= c_row + i - 1 < size),
                skipped <= 3 * i + j,
                skipped == gaps(before, position, patch, (3 * i + j) as nat),
                forall|r: int, c: int|
                    0 <= r < size && 0 <= c < size ==> #[trigger] rows_of(*grid)[r][c] == (if r
                        < c_row + i - 1 || (r == c_row + i - 1 && c < c_col + j - 1) {
                        merged_cell(before[r][c], observed(patch, position, r, c))
                    } else {
                        before[r][c]
                    }),
            decreases 3 - j,
        {
            let ghost k = (3 * i + j) as int;
            assert(k / 3 == i && k % 3 == j);
            assert(gaps(before, position, patch, (k + 1) as nat) == gaps(
                before,
                position,
                patch,
                k as nat,
            ) + (if is_gap(before, position, patch, k) {
                1nat
            } else {
                0nat
            }));
            if row_valid && offset_is_valid(c_col, j, size) {
                let r = c_row + i - 1;
                let c = c_col + j - 1;
                assert(rows_of(*grid)[r as int].len() == size);
                assert(rows_of(*grid)[r as int][c as int] == before[r as int][c as int]);
                assert(patch[i as int][j as int] == view[i as int][j as int]);
                assert(observed(patch, position, r as int, c as int) == view[i as int][j as int]);
                if let None = grid[r][c] {
                    match view[i][j] {
                        Some(tile) => {
                            let ghost earlier = rows_of(*grid);
                            grid[r][c] = Some(tile);
                            assert(rows_of(*grid) =~~= earlier.update(
                                r as int,
                                earlier[r as int].update(c as int, Some(tile)),
                            ));
                        },
                        None => {
                            skipped = skipped + 1;
                        },
                    }
                }
            }
            j = j + 1;
        }
        i = i + 1;
    }
    proof {
        assert(rows_of(*grid) =~~= merge(before, position, patch)) by {
            assert forall|r: int, c: int| 0 <= r < size && 0 <= c < size implies rows_of(
                *grid,
            )[r][c] == merged_cell(before[r][c], observed(patch, position, r, c)) by {
                if r >= c_row + 2 {
                    assert(observed(patch, position, r, c) is None);
                }
            }
        }
    }
    skipped
}

/// What is drawn for one cell: nothing where the cell is unknown or its place is
/// not shown; else its terrain, over it its content, and over both the robot's
/// marker where the robot stands on the cell.
pub open spec fn cell_ops(
    tile: Option<Tile>,
    is_robot: bool,
    place: (int, int),
    scale: int,
    style: usize,
) -> Seq<DrawOp> {
    if tile is Some && in_viewport(place.0, place.1) {
        let terrain = DrawOp::Sprite {
            texture: TextureKey::Tileset(style),
            region: Some(tile->0.tile_type.region()),
            x: place.0,
            y: place.1,
            scale,
        };
        let content = DrawOp::Sprite {
            texture: TextureKey::Contentset(style),
            region: Some(tile->0.content.region()),
            x: place.0,
            y: place.1,
            scale,
        };
        let robot = DrawOp::Sprite {
            texture: TextureKey::Robot,
            region: None,
            x: place.0,
            y: place.1,
            scale,
        };
        if is_robot {
            seq![terrain, content, robot]
        } else {
            seq![terrain, content]
        }
    } else {
        Seq::empty()
    }
}

/// What is drawn for the cell at `row` and `col` of a map seen through a camera.
pub open spec fn cell_ops_at(
    map: MapView,
    camera: CameraView,
    style: usize,
    row: int,
    col: int,
) -> Seq<DrawOp> {
    cell_ops(
        map.grid[row][col],
        map.position.0 == row && map.position.1 == col,
        screen_position(camera, row, col),
        camera.scale,
        style,
    )
}

/// What is drawn for the first `cols` cells of row `row`, from left to right.
pub open spec fn row_ops(
    map: MapView,
    camera: CameraView,
    style: usize,
    row: int,
    cols: nat,
) -> Seq<DrawOp>
    decreases cols,
{
    if cols == 0 {
        Seq::empty()
    } else {
        row_ops(map, camera, style, row, (cols - 1) as nat) + cell_ops_at(
            map,
            camera,
            style,
            row,
            cols - 1,
        )
    }
}

/// What is drawn for the first `rows` rows, from the top down.
pub open spec fn rows_ops(map: MapView, camera: CameraView, style: usize, rows: nat) -> Seq<DrawOp>
    decreases rows,
{
    if rows == 0 {
        Seq::empty()
    } else {
        rows_ops(map, camera, style, (rows - 1) as nat) + row_ops(
            map,
            camera,
            style,
            rows - 1,
            map.size,
        )
    }
}

/// What is drawn for a map: its cells row by row, then the weather.
pub open spec fn map_ops(map: MapView, camera: CameraView, style: usize) -> Seq<DrawOp> {
    rows_ops(map, camera, style, map.size).push(DrawOp::Weather { weather: map.weather })
}

/// The map of the world as far as it was seen, with the robot's place and the weather.
pub struct VisMap {
    discovered_map: Vec<Vec<Option<Tile>>>,
    weather: WeatherType,
    world_size: usize,
    robot_position: (usize, usize),
}

impl View for VisMap {
    type V = MapView;

    closed spec fn view(&self) -> MapView {
        MapView {
            grid: rows_of(self.discovered_map),
            size: self.world_size as nat,
            position: self.robot_position,
            weather: self.weather,
        }
    }
}

impl VisMap {
    #[verifier::type_invariant]
    spec fn well_formed(&self) -> bool {
        is_square(rows_of(self.discovered_map), self.world_size as nat)
    }

    /// A map of `size` rows of `size` cells, none of them known, with the robot
    /// at row 1 and column 1 under rain.
    pub fn new(size: usize) -> (m: VisMap)
        ensures
            m@ == initial_map(size as nat),
    {
        let mut new_mappa: Vec<Vec<Option<Tile>>> = Vec::new();
        let mut r: usize = 0;
        while r < size
            invariant
                r <= size,
                new_mappa.len() == r,
                forall|i: int| 0 <= i < r ==> #[trigger] new_mappa[i]@ == Seq::new(
                    size as nat,
                    |c: int| None::<Tile>,
                ),
            decreases size - r,
        {
            let mut row: Vec<Option<Tile>> = Vec::new();
            let mut c: usize = 0;
            while c < size
                invariant
                    c <= size,
                    row.len() == c,
                    forall|j: int| 0 <= j < c ==> #[trigger] row[j] == None::<Tile>,
                decreases size - c,
            {
                row.push(None);
                c = c + 1;
            }
            assert(row@ =~= Seq::new(size as nat, |c: int| None::<Tile>));
            new_mappa.push(row);
            r = r + 1;
        }
        assert(rows_of(new_mappa) =~= unknown_grid(size as nat));
        VisMap {
            weather: WeatherType::Rainy,
            discovered_map: new_mappa,
            robot_position: (1, 1),
            world_size: size,
        }
    }

    /// The number of rows, and of columns, of the world.
    pub fn world_size(&self) -> (size: usize)
        ensures
            size == self@.size,
            is_square(self@.grid, self@.size),
    {
        proof {
            use_type_invariant(self);
        }
        self.world_size
    }

    /// Row and column of the robot as last reported.
    pub fn robot_position(&self) -> (position: (usize, usize))
        ensures
            position == self@.position,
    {
        self.robot_position
    }

    /// The weather as last reported.
    pub fn weather(&self) -> (weather: WeatherType)
        ensures
            weather == self@.weather,
    {
        self.weather
    }

    /// The tile known at `row` and `col`; `None` where nothing was seen yet, and
    /// outside the world.
    pub fn tile_at(&self, row: usize, col: usize) -> (tile: Option<Tile>)
        ensures
            row < self@.size && col < self@.size ==> tile == self@.grid[row as int][col as int],
            !(row < self@.size && col < self@.size) ==> tile is None,
    {
        proof {
            use_type_invariant(self);
        }
        if row < self.world_size && col < self.world_size {
            assert(rows_of(self.discovered_map)[row as int].len() == self.world_size);
            self.discovered_map[row][col]
        } else {
            None
        }
    }

    /// Merges a patch of three by three cells around the robot's position into the map.
    ///
    /// A cell that is already known keeps its tile; an unknown cell takes the tile
    /// that the patch holds for it. Cells of the patch that would lie outside the
    /// world are left aside. The result counts the gaps: cells that stay unknown
    /// because the patch holds no tile for them. A patch of another shape is
    /// turned away and changes nothing.
    pub fn update_map(&mut self, view: Vec<Vec<Option<Tile>>>) -> (r: Result<usize, PatchError>)
        ensures
            is_square(final(self)@.grid, final(self)@.size),
            final(self)@.size == old(self)@.size,
            final(self)@.position == old(self)@.position,
            final(self)@.weather == old(self)@.weather,
            final(self)@.grid == updated(old(self)@.grid, old(self)@.position, rows_of(view)),
            r == update_result(old(self)@.grid, old(self)@.position, rows_of(view)),
    {
        proof {
            use_type_invariant(&*self);
        }
        if !has_patch_shape(&view) {
            return Err(PatchError::Shape);
        }
        let skipped = merge_patch(
            &mut self.discovered_map,
            self.world_size,
            self.robot_position,
            &view,
        );
        Ok(skipped)
    }

    /// The commands that draw the map as `camera` sees it in the tiles of `style`:
    /// the known cells that are shown, row by row, then the weather.
    pub fn new_draw(&self, camera: &Camera, style: usize) -> (commands: Vec<DrawCommand>)
        ensures
            ops_of(commands@) == map_ops(self@, camera@, style),
    {
        proof {
            use_type_invariant(self);
        }
        let scale = camera.scale();
        let size = self.world_size;
        let mut commands: Vec<DrawCommand> = Vec::new();
        assert(ops_of(commands@) =~= rows_ops(self@, camera@, style, 0));
        let mut row: usize = 0;
        while row < size
            invariant
                row <= size,
                size == self.world_size,
                size == self@.size,
                scale == camera@.scale,
                is_square(self@.grid, size as nat),
                ops_of(commands@) == rows_ops(self@, camera@, style, row as nat),
            decreases size - row,
        {
            let ghost done = ops_of(commands@);
            let mut col: usize = 0;
            assert(ops_of(commands@) =~= done + row_ops(self@, camera@, style, row as int, 0));
            while col < size
                invariant
                    row < size,
                    col <= size,
                    size == self.world_size,
                    size == self@.size,
                    scale == camera@.scale,
                    is_square(self@.grid, size as nat),
                    ops_of(commands@) == done + row_ops(
                        self@,
                        camera@,
                        style,
                        row as int,
                        col as nat,
                    ),
                decreases size - col,
            {
                let ghost earlier = ops_of(commands@);
                let ghost cell = cell_ops_at(self@, camera@, style, row as int, col as int);
                assert(self@.grid[row as int].len() == size);
                assert(self@.grid[row as int][col as int] == self.discovered_map[row as int][col as int]);
                let place = camera.world_to_screen(row, col);
                if let Some(tile) = self.discovered_map[row][col] {
                    if is_visible(place.0, place.1) {
                        let x = place.0 as i64;
                        let y = place.1 as i64;
                        let terrain = DrawCommand::Sprite {
                            texture: TextureKey::Tileset(style),
                            region: Some(tile.tile_type.draw()),
                            x,
                            y,
                            scale,
                        };
                        proof {
                            lemma_ops_of_push(commands@, terrain);
                        }
                        commands.push(terrain);
                        let content = DrawCommand::Sprite {
                            texture: TextureKey::Contentset(style),
                            region: Some(tile.content.draw()),
                            x,
                            y,
                            scale,
                        };
                        proof {
                            lemma_ops_of_push(commands@, content);
                        }
                        commands.push(content);
                        if col == self.robot_position.1 && row == self.robot_position.0 {
                            let robot = DrawCommand::Sprite {
                                texture: TextureKey::Robot,
                                region: None,
                                x,
                                y,
                                scale,
                            };
                            proof {
                                lemma_ops_of_push(commands@, robot);
                            }
                            commands.push(robot);
                        }
                    }
                }
                assert(ops_of(commands@) =~= earlier + cell);
                assert(earlier + cell =~= done + row_ops(
                    self@,
                    camera@,
                    style,
                    row as int,
                    (col + 1) as nat,
                ));
                col = col + 1;
            }
            row = row + 1;
        }
        let weather = DrawCommand::Weather { weather: self.weather };
        proof {
            lemma_ops_of_push(commands@, weather);
        }
        commands.push(weather);
        commands
    }

    /// Moves the robot to `new_pos`, whatever it is.
    pub fn update_robot_pos(&mut self, new_pos: (usize, usize))
        ensures
            final(self)@.position == new_pos,
            final(self)@.grid == old(self)@.grid,
            final(self)@.size == old(self)@.size,
            final(self)@.weather == old(self)@.weather,
    {
        proof {
            use_type_invariant(&*self);
        }
        self.robot_position = new_pos;
    }

    /// Replaces the weather.
    pub fn update_weather(&mut self, weather_type: WeatherType)
        ensures
            final(self)@.weather == weather_type,
            final(self)@.grid == old(self)@.grid,
            final(self)@.size == old(self)@.size,
            final(self)@.position == old(self)@.position,
    {
        proof {
            use_type_invariant(&*self);
        }
        self.weather = weather_type;
    }
}

/// One observation: where the robot stood, and the patch that it saw there.
pub struct Observation {
    pub position: (usize, usize),
    pub patch: Seq<Seq<Option<Tile>>>,
}

/// The grid after the updates with `steps`, one after the other.
pub open spec fn updated_by_all(grid: Seq<Seq<Option<Tile>>>, steps: Seq<Observation>) -> Seq<
    Seq<Option<Tile>>,
>
    decreases steps.len(),
{
    if steps.len() == 0 {
        grid
    } else {
        updated(
            updated_by_all(grid, steps.drop_last()),
            steps.last().position,
            steps.last().patch,
        )
    }
}

/// Whether two grids have as many rows, and in each row as many cells.
pub open spec fn same_shape(a: Seq<Seq<Option<Tile>>>, b: Seq<Seq<Option<Tile>>>) -> bool {
    &&& a.len() == b.len()
    &&& forall|r: int| 0 <= r < a.len() ==> (#[trigger] a[r]).len() == b[r].len()
}

/// Updates never change the shape of the grid.
pub proof fn lemma_updates_keep_shape(grid: Seq<Seq<Option<Tile>>>, steps: Seq<Observation>)
    ensures
        same_shape(updated_by_all(grid, steps), grid),
    decreases steps.len(),
{
    if steps.len() > 0 {
        lemma_updates_keep_shape(grid, steps.drop_last());
    }
}

/// Discovery only grows: a cell that is known after the first `j` of a sequence
/// of updates holds the same tile after the first `k`, for every later `k`.
pub proof fn lemma_discovery_is_monotonic(
    grid: Seq<Seq<Option<Tile>>>,
    steps: Seq<Observation>,
    j: int,
    k: int,
    row: int,
    col: int,
)
    requires
        0 <= j <= k <= steps.len(),
        0 <= row < grid.len(),
        0 <= col < grid[row].len(),
        updated_by_all(grid, steps.take(j))[row][col] is Some,
    ensures
        updated_by_all(grid, steps.take(k))[row][col] == updated_by_all(grid, steps.take(j))[row][col],
    decreases k - j,
{
    if j < k {
        lemma_discovery_is_monotonic(grid, steps, j, k - 1, row, col);
        lemma_updates_keep_shape(grid, steps.take(k - 1));
        assert(steps.take(k).drop_last() =~= steps.take(k - 1));
    }
}

/// Seeing the same patch from the same place once more changes nothing.
pub proof fn lemma_update_is_idempotent(
    grid: Seq<Seq<Option<Tile>>>,
    position: (usize, usize),
    patch: Seq<Seq<Option<Tile>>>,
)
    ensures
        updated(updated(grid, position, patch), position, patch) == updated(grid, position, patch),
{
    let once = updated(grid, position, patch);
    assert(updated(once, position, patch) =~~= once);
}

/// Whether a patch holds a tile in each of its nine cells.
pub open spec fn is_full_patch(patch: Seq<Seq<Option<Tile>>>) -> bool {
    &&& is_patch(patch)
    &&& forall|i: int, j: int| 0 <= i < 3 && 0 <= j < 3 ==> (#[trigger] patch[i][j]) is Some
}

/// The first observation wins: after a full patch was merged at a place, a
/// second patch at the same place changes nothing, whatever it holds.
pub proof fn lemma_first_observation_wins(
    grid: Seq<Seq<Option<Tile>>>,
    position: (usize, usize),
    first: Seq<Seq<Option<Tile>>>,
    second: Seq<Seq<Option<Tile>>>,
)
    requires
        is_full_patch(first),
    ensures
        updated(updated(grid, position, first), position, second) == updated(grid, position, first),
{
    let once = updated(grid, position, first);
    assert forall|r: int, c: int|
        0 <= r < once.len() && 0 <= c < once[r].len() && observed(second, position, r, c)
            is Some implies (#[trigger] once[r][c]) is Some by {
        assert(first[r - position.0 + 1][c - position.1 + 1] is Some);
    }
    assert(updated(once, position, second) =~~= once);
}

/// An update writes no cell but the robot's and those next to it.
pub proof fn lemma_far_cells_are_untouched(
    grid: Seq<Seq<Option<Tile>>>,
    position: (usize, usize),
    patch: Seq<Seq<Option<Tile>>>,
    row: int,
    col: int,
)
    requires
        0 <= row < grid.len(),
        0 <= col < grid[row].len(),
        row < position.0 - 1 || row > position.0 + 1 || col < position.1 - 1 || col > position.1
            + 1,
    ensures
        updated(grid, position, patch)[row][col] == grid[row][col],
{
}

} // verus!
