//! Positions on the tile grid of a map and their neighbourhoods, and the
//! collision data kept for each tile.

use vstd::prelude::*;

use crate::behavior::{Movement, State};

verus! {

/// A tile of the map: integer coordinates on the board.
#[derive(Debug, Clone, Copy, PartialEq, Eq, Hash, Structural)]
pub struct BoardPosition {
    pub x: i64,
    pub y: i64,
    pub z: i64,
}

impl Default for BoardPosition {
    fn default() -> (r: Self)
        ensures
            r == (BoardPosition { x: 0, y: 0, z: 0 }),
    {
        BoardPosition { x: 0, y: 0, z: 0 }
    }
}

/// Clamps `v` into `lo..=hi`.
pub open spec fn clamp_spec(v: int, lo: int, hi: int) -> int {
    if v < lo {
        lo
    } else if v > hi {
        hi
    } else {
        v
    }
}

/// The tiles of the rectangle `x1..=x2` by `y1..=y2` on layer `z`, listed
/// column by column: all `y` for the first `x`, then the next `x`.
pub open spec fn rect_tiles(x1: int, x2: int, y1: int, y2: int, z: i64) -> Seq<BoardPosition>
    decreases x2 - x1 + 1,
{
    if x2 < x1 {
        Seq::empty()
    } else {
        rect_tiles(x1, x2 - 1, y1, y2, z) + column_tiles(x2, y1, y2, z)
    }
}

/// The tiles `(x, y1..=y2, z)`, by increasing `y`.
pub open spec fn column_tiles(x: int, y1: int, y2: int, z: i64) -> Seq<BoardPosition>
    decreases y2 - y1 + 1,
{
    if y2 < y1 {
        Seq::empty()
    } else {
        column_tiles(x, y1, y2 - 1, z).push(BoardPosition { x: x as i64, y: y2 as i64, z })
    }
}

impl BoardPosition {
    /// The tile one step towards negative `x`.
    pub fn left(&self) -> (r: BoardPosition)
        requires
            self.x > i64::MIN,
        ensures
            r == (BoardPosition { x: (self.x - 1) as i64, ..*self }),
    {
        BoardPosition { x: self.x - 1, y: self.y, z: self.z }
    }

    /// The tile one step towards positive `x`.
    pub fn right(&self) -> (r: BoardPosition)
        requires
            self.x < i64::MAX,
        ensures
            r == (BoardPosition { x: (self.x + 1) as i64, ..*self }),
    {
        BoardPosition { x: self.x + 1, y: self.y, z: self.z }
    }

    /// The tile one step towards negative `y`.
    pub fn top(&self) -> (r: BoardPosition)
        requires
            self.y > i64::MIN,
        ensures
            r == (BoardPosition { y: (self.y - 1) as i64, ..*self }),
    {
        BoardPosition { x: self.x, y: self.y - 1, z: self.z }
    }

    /// The tile one step towards positive `y`.
    pub fn bottom(&self) -> (r: BoardPosition)
        requires
            self.y < i64::MAX,
        ensures
            r == (BoardPosition { y: (self.y + 1) as i64, ..*self }),
    {
        BoardPosition { x: self.x, y: self.y + 1, z: self.z }
    }

    /// The square of tiles at most `dist` away along `x` and along `y`, on the
    /// same layer, listed column by column.
    pub open spec fn neighbors_spec(self, dist: int) -> Seq<BoardPosition> {
        rect_tiles(self.x - dist, self.x + dist, self.y - dist, self.y + dist, self.z)
    }

    /// Replaces the contents of `out` with the square of tiles at most `dist`
    /// away along `x` and along `y` (the tile itself included), column by
    /// column.
    pub fn xy_neighbors_buf(&self, dist: u32, out: &mut Vec<BoardPosition>)
        requires
            i64::MIN <= self.x - dist,
            self.x + dist <= i64::MAX,
            i64::MIN <= self.y - dist,
            self.y + dist <= i64::MAX,
        ensures
            final(out)@ == self.neighbors_spec(dist as int),
    {
        out.clear();
        let d = dist as i64;
        self.push_rect(self.x - d, self.x + d, self.y - d, self.y + d, out);
    }

    /// Appends the tiles of the rectangle `x1..=x2` by `y1..=y2` on this
    /// tile's layer to `out`, column by column.
    fn push_rect(&self, x1: i64, x2: i64, y1: i64, y2: i64, out: &mut Vec<BoardPosition>)
        ensures
            final(out)@ == old(out)@ + rect_tiles(x1 as int, x2 as int, y1 as int, y2 as int, self.z),
    {
        let ghost start = out@;
        if x2 < x1 {
            assert(out@ =~= start + rect_tiles(x1 as int, x2 as int, y1 as int, y2 as int, self.z));
            return;
        }
        let mut x = x1;
        loop
            invariant_except_break
                x1 <= x <= x2,
                out@ == start + rect_tiles(x1 as int, x - 1, y1 as int, y2 as int, self.z),
            ensures
                out@ == start + rect_tiles(x1 as int, x2 as int, y1 as int, y2 as int, self.z),
            decreases x2 - x,
        {
            let ghost before = out@;
            self.push_column(x, y1, y2, out);
            assert(out@ =~= start + rect_tiles(x1 as int, x as int, y1 as int, y2 as int, self.z));
            if x == x2 {
                break;
            }
            x = x + 1;
        }
    }

    /// Appends the tiles `(x, y1..=y2)` on this tile's layer to `out`.
    fn push_column(&self, x: i64, y1: i64, y2: i64, out: &mut Vec<BoardPosition>)
        ensures
            final(out)@ == old(out)@ + column_tiles(x as int, y1 as int, y2 as int, self.z),
    {
        let ghost start = out@;
        if y2 < y1 {
            assert(out@ =~= start + column_tiles(x as int, y1 as int, y2 as int, self.z));
            return;
        }
        let mut y = y1;
        loop
            invariant_except_break
                y1 <= y <= y2,
                out@ == start + column_tiles(x as int, y1 as int, y - 1, self.z),
            ensures
                out@ == start + column_tiles(x as int, y1 as int, y2 as int, self.z),
            decreases y2 - y,
        {
            out.push(BoardPosition { x, y, z: self.z });
            assert(out@ =~= start + column_tiles(x as int, y1 as int, y as int, self.z));
            if y == y2 {
                break;
            }
            y = y + 1;
        }
    }

    /// Replaces the contents of `out` with the square of tiles at most `dist`
    /// away, cut to the box `min_x..=max_x` by `min_y..=max_y`: each bound of
    /// the square is clamped into the box.
    pub fn xy_neighbors_buf_clamped(
        &self,
        dist: u32,
        out: &mut Vec<BoardPosition>,
        min_x: i64,
        max_x: i64,
        min_y: i64,
        max_y: i64,
    )
        requires
            min_x <= max_x,
            min_y <= max_y,
            i64::MIN <= self.x - dist,
            self.x + dist <= i64::MAX,
            i64::MIN <= self.y - dist,
            self.y + dist <= i64::MAX,
        ensures
            final(out)@ == rect_tiles(
                clamp_spec(self.x - dist, min_x as int, max_x as int),
                clamp_spec(self.x + dist, min_x as int, max_x as int),
                clamp_spec(self.y - dist, min_y as int, max_y as int),
                clamp_spec(self.y + dist, min_y as int, max_y as int),
                self.z,
            ),
            min_x <= self.x <= max_x && min_y <= self.y <= max_y ==> final(out)@
                == self.neighbors_spec(dist as int).filter(
                in_box(min_x as int, max_x as int, min_y as int, max_y as int),
            ),
    {
        proof {
            if min_x <= self.x <= max_x && min_y <= self.y <= max_y {
                lemma_clamped_neighbors_filter(
                    *self,
                    dist as int,
                    min_x as int,
                    max_x as int,
                    min_y as int,
                    max_y as int,
                );
            }
        }
        out.clear();
        let d = dist as i64;
        let x1 = clamp_i64(self.x - d, min_x, max_x);
        let x2 = clamp_i64(self.x + d, min_x, max_x);
        let y1 = clamp_i64(self.y - d, min_y, max_y);
        let y2 = clamp_i64(self.y + d, min_y, max_y);
        self.push_rect(x1, x2, y1, y2, out);
        assert(out@ =~= rect_tiles(x1 as int, x2 as int, y1 as int, y2 as int, self.z));
    }

    /// Returns the square of tiles at most `dist` away along `x` and along
    /// `y`, column by column.
    pub fn xy_neighbors(&self, dist: u32) -> (r: Vec<BoardPosition>)
        requires
            i64::MIN <= self.x - dist,
            self.x + dist <= i64::MAX,
            i64::MIN <= self.y - dist,
            self.y + dist <= i64::MAX,
        ensures
            r@ == self.neighbors_spec(dist as int),
    {
        let mut ret: Vec<BoardPosition> = Vec::new();
        self.xy_neighbors_buf(dist, &mut ret);
        ret
    }
}

/// Clamps `v` into `lo..=hi`.
pub fn clamp_i64(v: i64, lo: i64, hi: i64) -> (r: i64)
    requires
        lo <= hi,
    ensures
        r == clamp_spec(v as int, lo as int, hi as int),
{
    if v < lo {
        lo
    } else if v > hi {
        hi
    } else {
        v
    }
}

/// What can move through a tile and whether light passes it.
#[derive(Debug, Clone, Copy, PartialEq, Eq, Structural)]
pub struct CollisionFieldData {
    pub player_free: bool,
    pub ghost_free: bool,
    pub see_through: bool,
}

proof fn lemma_column_tiles(x: int, y1: int, y2: int, z: i64)
    requires
        i64::MIN <= x <= i64::MAX,
        i64::MIN <= y1,
        y2 <= i64::MAX,
    ensures
        column_tiles(x, y1, y2, z).len() == if y2 < y1 {
            0
        } else {
            y2 - y1 + 1
        },
        forall|k: int|
            0 <= k < column_tiles(x, y1, y2, z).len() ==> #[trigger] column_tiles(x, y1, y2, z)[k]
                == (BoardPosition { x: x as i64, y: (y1 + k) as i64, z }),
    decreases y2 - y1 + 1,
{
    if y2 >= y1 {
        lemma_column_tiles(x, y1, y2 - 1, z);
    }
}

/// Whether a tile lies in the box `min_x..=max_x` by `min_y..=max_y`.
pub open spec fn in_box(min_x: int, max_x: int, min_y: int, max_y: int) -> spec_fn(BoardPosition) -> bool {
    |p: BoardPosition| min_x <= p.x <= max_x && min_y <= p.y <= max_y
}

proof fn lemma_column_filter(x: int, y1: int, y2: int, z: i64, mx: int, hx: int, my: int, hy: int)
    requires
        i64::MIN <= x <= i64::MAX,
        i64::MIN <= y1,
        y2 <= i64::MAX,
    ensures
        column_tiles(x, y1, y2, z).filter(in_box(mx, hx, my, hy)) == if mx <= x <= hx {
            column_tiles(x, max_int(y1, my), min_int(y2, hy), z)
        } else {
            Seq::<BoardPosition>::empty()
        },
    decreases y2 - y1 + 1,
{
    let f = in_box(mx, hx, my, hy);
    reveal(Seq::filter);
    if y2 < y1 {
        assert(column_tiles(x, y1, y2, z).len() == 0);
    } else {
        lemma_column_filter(x, y1, y2 - 1, z, mx, hx, my, hy);
        let prev = column_tiles(x, y1, y2 - 1, z);
        let p = BoardPosition { x: x as i64, y: y2 as i64, z };
        let s = column_tiles(x, y1, y2, z);
        assert(s == prev.push(p));
        assert(s.drop_last() =~= prev);
        assert(s.last() == p);
        assert(s.filter(f) == if f(p) { prev.filter(f).push(p) } else { prev.filter(f) });
        if mx <= x <= hx && my <= y2 <= hy {
            assert(column_tiles(x, max_int(y1, my), y2, z) == column_tiles(
                x,
                max_int(y1, my),
                y2 - 1,
                z,
            ).push(p));
        } else if mx <= x <= hx && y2 < my {
            assert(column_tiles(x, max_int(y1, my), y2, z) =~= Seq::<BoardPosition>::empty());
            assert(column_tiles(x, max_int(y1, my), y2 - 1, z) =~= Seq::<BoardPosition>::empty());
        }
    }
}

/// The larger of two integers.
pub open spec fn max_int(a: int, b: int) -> int {
    if a < b {
        b
    } else {
        a
    }
}

/// The smaller of two integers.
pub open spec fn min_int(a: int, b: int) -> int {
    if a < b {
        a
    } else {
        b
    }
}

proof fn lemma_rect_empty(x1: int, x2: int, y1: int, y2: int, z: i64)
    requires
        x2 < x1,
    ensures
        rect_tiles(x1, x2, y1, y2, z) == Seq::<BoardPosition>::empty(),
{
}

proof fn lemma_rect_filter(x1: int, x2: int, y1: int, y2: int, z: i64, mx: int, hx: int, my: int, hy: int)
    requires
        i64::MIN <= x1,
        x2 <= i64::MAX,
        i64::MIN <= y1,
        y2 <= i64::MAX,
    ensures
        rect_tiles(x1, x2, y1, y2, z).filter(in_box(mx, hx, my, hy)) == rect_tiles(
            max_int(x1, mx),
            min_int(x2, hx),
            max_int(y1, my),
            min_int(y2, hy),
            z,
        ),
    decreases x2 - x1 + 1,
{
    let f = in_box(mx, hx, my, hy);
    let ny1 = max_int(y1, my);
    let ny2 = min_int(y2, hy);
    if x2 < x1 {
        reveal(Seq::filter);
        lemma_rect_empty(x1, x2, y1, y2, z);
        lemma_rect_empty(max_int(x1, mx), min_int(x2, hx), ny1, ny2, z);
    } else {
        lemma_rect_filter(x1, x2 - 1, y1, y2, z, mx, hx, my, hy);
        lemma_column_filter(x2, y1, y2, z, mx, hx, my, hy);
        let prev = rect_tiles(x1, x2 - 1, y1, y2, z);
        let col = column_tiles(x2, y1, y2, z);
        Seq::filter_distributes_over_add(prev, col, f);
        assert(rect_tiles(x1, x2, y1, y2, z) == prev + col);
        let a = max_int(x1, mx);
        if mx <= x2 <= hx {
            assert(rect_tiles(a, x2, ny1, ny2, z) == rect_tiles(a, x2 - 1, ny1, ny2, z)
                + column_tiles(x2, ny1, ny2, z));
        } else if x2 > hx {
            assert(rect_tiles(a, min_int(x2 - 1, hx), ny1, ny2, z) + Seq::<BoardPosition>::empty()
                =~= rect_tiles(a, min_int(x2 - 1, hx), ny1, ny2, z));
        } else {
            lemma_rect_empty(a, x2, ny1, ny2, z);
            lemma_rect_empty(a, x2 - 1, ny1, ny2, z);
            assert(Seq::<BoardPosition>::empty() + Seq::<BoardPosition>::empty()
                =~= Seq::<BoardPosition>::empty());
        }
    }
}

/// For a tile inside the box, the square of neighbours clamped into the box
/// is the full square of neighbours with the tiles outside the box taken
/// out, in the same order.
pub proof fn lemma_clamped_neighbors_filter(
    p: BoardPosition,
    dist: int,
    min_x: int,
    max_x: int,
    min_y: int,
    max_y: int,
)
    requires
        0 <= dist,
        min_x <= p.x <= max_x,
        min_y <= p.y <= max_y,
        i64::MIN <= p.x - dist,
        p.x + dist <= i64::MAX,
        i64::MIN <= p.y - dist,
        p.y + dist <= i64::MAX,
    ensures
        rect_tiles(
            clamp_spec(p.x - dist, min_x, max_x),
            clamp_spec(p.x + dist, min_x, max_x),
            clamp_spec(p.y - dist, min_y, max_y),
            clamp_spec(p.y + dist, min_y, max_y),
            p.z,
        ) == p.neighbors_spec(dist).filter(in_box(min_x, max_x, min_y, max_y)),
{
    lemma_rect_filter(
        p.x - dist,
        p.x + dist,
        p.y - dist,
        p.y + dist,
        p.z,
        min_x,
        max_x,
        min_y,
        max_y,
    );
}

/// Stepping left then right, or up then down, comes back to the same tile.
pub proof fn lemma_steps_undo(p: BoardPosition)
    requires
        i64::MIN < p.x < i64::MAX,
        i64::MIN < p.y < i64::MAX,
    ensures
        (BoardPosition { x: (((p.x - 1) as i64) + 1) as i64, ..p }) == p,
        (BoardPosition { y: (((p.y - 1) as i64) + 1) as i64, ..p }) == p,
{
}

/// The neighbourhood of a tile at distance `d` holds `(2d+1)` columns of
/// `(2d+1)` tiles; the tile at column `i`, row `j` is the one offset by
/// `(i - d, j - d)`, so every tile of the square appears exactly there.
pub proof fn lemma_neighbors_layout(p: BoardPosition, d: int, i: int, j: int)
    requires
        0 <= d,
        i64::MIN <= p.x - d,
        p.x + d <= i64::MAX,
        i64::MIN <= p.y - d,
        p.y + d <= i64::MAX,
        0 <= i <= 2 * d,
        0 <= j <= 2 * d,
    ensures
        p.neighbors_spec(d).len() == (2 * d + 1) * (2 * d + 1),
        p.neighbors_spec(d)[i * (2 * d + 1) + j] == (BoardPosition {
            x: (p.x - d + i) as i64,
            y: (p.y - d + j) as i64,
            z: p.z,
        }),
{
    lemma_rect_tiles(p.x - d, p.x + d, p.y - d, p.y + d, p.z, i, j);
}

proof fn lemma_rect_tiles(x1: int, x2: int, y1: int, y2: int, z: i64, i: int, j: int)
    requires
        i64::MIN <= x1,
        x1 <= x2 <= i64::MAX,
        i64::MIN <= y1,
        y1 <= y2 <= i64::MAX,
        0 <= i <= x2 - x1,
        0 <= j <= y2 - y1,
    ensures
        rect_tiles(x1, x2, y1, y2, z).len() == (x2 - x1 + 1) * (y2 - y1 + 1),
        rect_tiles(x1, x2, y1, y2, z)[i * (y2 - y1 + 1) + j] == (BoardPosition {
            x: (x1 + i) as i64,
            y: (y1 + j) as i64,
            z,
        }),
    decreases x2 - x1,
{
    let h = y2 - y1 + 1;
    lemma_column_tiles(x2, y1, y2, z);
    if x2 == x1 {
        assert(rect_tiles(x1, x2 - 1, y1, y2, z) =~= Seq::<BoardPosition>::empty());
        assert(rect_tiles(x1, x2, y1, y2, z) =~= column_tiles(x2, y1, y2, z));
        assert(rect_tiles(x1, x2, y1, y2, z).len() == h);
        assert((x2 - x1 + 1) * h == h) by (nonlinear_arith)
            requires
                x2 == x1,
        ;
        assert(i == 0);
    } else {
        let prev = rect_tiles(x1, x2 - 1, y1, y2, z);
        if i < x2 - x1 {
            lemma_rect_tiles(x1, x2 - 1, y1, y2, z, i, j);
        } else {
            lemma_rect_tiles(x1, x2 - 1, y1, y2, z, 0, 0);
        }
        assert(prev.len() == (x2 - x1) * h);
        assert((x2 - x1) * h + h == (x2 - x1 + 1) * h) by (nonlinear_arith);
        if i < x2 - x1 {
            assert(i * h + j < (x2 - x1) * h) by (nonlinear_arith)
                requires
                    i < x2 - x1,
                    0 <= j < h,
                    0 <= i,
            ;
        } else {
            assert(i * h + j == (x2 - x1) * h + j) by (nonlinear_arith)
                requires
                    i == x2 - x1,
            ;
        }
    }
}


/// Remainder of `a` by `m` rounded towards zero, as Rust's `%` computes it
/// on signed integers: it takes the sign of `a`.
pub open spec fn rem_toward_zero(a: int, m: int) -> int {
    if a >= 0 {
        a % m
    } else {
        -((-a) % m)
    }
}

impl BoardPosition {
    /// The small pseudo-random hash of a tile, as the numerator of a
    /// fraction of 109 (between -108 and 108): a mix of its coordinates.
    pub open spec fn mini_hash_of(self) -> int {
        rem_toward_zero(
            rem_toward_zero(self.x + 41, 61) + rem_toward_zero(self.y * 13 + 47, 67)
                + rem_toward_zero(self.z * 29 + 59, 79),
            109,
        )
    }

    /// Returns the small pseudo-random hash of the tile: the result over 109
    /// is the hash, between -1 and 1.
    pub fn mini_hash(&self) -> (r: i64)
        requires
            self.x + 41 <= i64::MAX,
            i64::MIN <= self.y * 13,
            self.y * 13 + 47 <= i64::MAX,
            i64::MIN <= self.z * 29,
            self.z * 29 + 59 <= i64::MAX,
        ensures
            r == self.mini_hash_of(),
            -108 <= r <= 108,
    {
        let h: i64 = ((self.x + 41) % 61 + (self.y * 13 + 47) % 67 + (self.z * 29 + 59) % 79) % 109;
        h
    }
}

/// The number of cells along an axis running from `min` to `max`.
pub open spec fn axis_size(min: i64, max: i64) -> int {
    if max - min + 1 > 0 {
        max - min + 1
    } else {
        0
    }
}

/// The offset along an axis that a sector uses for coordinate `v`: the
/// difference from the sector's minimum taken as an unsigned index, where
/// a negative difference wraps to a very large one, and clamped to the
/// size of the axis (one past its last cell).
pub open spec fn axis_offset(v: i64, min: i64, size: usize) -> int {
    if ((v - min) as usize) < size {
        ((v - min) as usize) as int
    } else {
        size as int
    }
}

/// A block of the light field stored in one flat vector, row after row,
/// with some spare cells at the end. Coordinates outside the block clamp
/// to one past the last cell of their axis, so they share cells with the
/// next row or the spare cells.
#[derive(Debug, Clone)]
pub struct LightFieldSector<T> {
    field: Vec<T>,
    min_x: i64,
    min_y: i64,
    _min_z: i64,
    sz_x: usize,
    sz_y: usize,
    _sz_z: usize,
}

impl<T: Copy> LightFieldSector<T> {
    /// The stored cells.
    pub closed spec fn cells(self) -> Seq<T> {
        self.field@
    }

    /// The lowest coordinates of the block along `x` and `y`.
    pub closed spec fn corner(self) -> (i64, i64) {
        (self.min_x, self.min_y)
    }

    /// The number of cells along `x`, `y` and `z`.
    pub closed spec fn sizes(self) -> (usize, usize, usize) {
        (self.sz_x, self.sz_y, self._sz_z)
    }

    /// The cell that coordinates `x`, `y` are stored in; `z` is not used.
    pub open spec fn index_of(self, x: i64, y: i64) -> int {
        axis_offset(x, self.corner().0, self.sizes().0) + axis_offset(
            y,
            self.corner().1,
            self.sizes().1,
        ) * self.sizes().0
    }

    /// A block from `min_*` to `max_*` (inclusive) with every cell set to
    /// `fill`, plus 15000 spare cells.
    pub fn new(min_x: i64, min_y: i64, min_z: i64, max_x: i64, max_y: i64, max_z: i64, fill: T) -> (r:
        LightFieldSector<T>)
        requires
            i64::MIN <= max_x - min_x,
            max_x - min_x + 1 <= i64::MAX,
            i64::MIN <= max_y - min_y,
            max_y - min_y + 1 <= i64::MAX,
            i64::MIN <= max_z - min_z,
            max_z - min_z + 1 <= i64::MAX,
            axis_size(min_x, max_x) * axis_size(min_y, max_y) * axis_size(min_z, max_z) + 15000
                <= usize::MAX,
            axis_size(min_x, max_x) <= usize::MAX,
            axis_size(min_y, max_y) <= usize::MAX,
            axis_size(min_z, max_z) <= usize::MAX,
        ensures
            r.corner() == (min_x, min_y),
            r.sizes().0 == axis_size(min_x, max_x),
            r.sizes().1 == axis_size(min_y, max_y),
            r.sizes().2 == axis_size(min_z, max_z),
            r.cells().len() == axis_size(min_x, max_x) * axis_size(min_y, max_y) * axis_size(
                min_z,
                max_z,
            ) + 15000,
            forall|i: int| 0 <= i < r.cells().len() ==> #[trigger] r.cells()[i] == fill,
            axis_size(min_z, max_z) > 0 ==> r.sizes().0 * r.sizes().1 <= r.cells().len(),
    {
        let dx = max_x - min_x + 1;
        let dy = max_y - min_y + 1;
        let dz = max_z - min_z + 1;
        let sz_x: usize = if dx > 0 {
            dx as usize
        } else {
            0
        };
        let sz_y: usize = if dy > 0 {
            dy as usize
        } else {
            0
        };
        let sz_z: usize = if dz > 0 {
            dz as usize
        } else {
            0
        };
        proof {
            assert(sz_x * sz_y <= sz_x * sz_y * sz_z || sz_z == 0) by (nonlinear_arith)
                requires
                    sz_z >= 0,
            ;
            if sz_z > 0 {
                assert(sz_x * sz_y <= sz_x * sz_y * sz_z) by (nonlinear_arith)
                    requires
                        sz_z >= 1,
                        sz_x * sz_y >= 0,
                ;
            }
        }
        let n = if sz_z == 0 {
            15000
        } else {
            sz_x * sz_y * sz_z + 15000
        };
        let mut field: Vec<T> = Vec::new();
        let mut i: usize = 0;
        while i < n
            invariant
                i <= n,
                field@.len() == i,
                forall|j: int| 0 <= j < i ==> #[trigger] field@[j] == fill,
            decreases n - i,
        {
            field.push(fill);
            i = i + 1;
        }
        LightFieldSector { field, min_x, min_y, _min_z: min_z, sz_x, sz_y, _sz_z: sz_z }
    }

    /// Returns the cell that coordinates `x`, `y` are stored in.
    fn vec_coord(&self, x: i64, y: i64, _z: i64) -> (r: usize)
        requires
            self.index_of(x, y) <= usize::MAX,
            i64::MIN <= x - self.corner().0 <= i64::MAX,
            i64::MIN <= y - self.corner().1 <= i64::MAX,
        ensures
            r == self.index_of(x, y),
    {
        let x = x - self.min_x;
        let y = y - self.min_y;
        let x = if (x as usize) < self.sz_x {
            x as usize
        } else {
            self.sz_x
        };
        let y = if (y as usize) < self.sz_y {
            y as usize
        } else {
            self.sz_y
        };
        proof {
            assert(0 <= y * self.sz_x) by (nonlinear_arith)
                requires
                    0 <= y,
                    0 <= self.sz_x,
            ;
        }
        x + y * self.sz_x
    }

    /// Returns the value stored for coordinates `x`, `y`, or `None` when
    /// they map past the stored cells.
    pub fn get(&self, x: i64, y: i64, z: i64) -> (r: Option<&T>)
        requires
            self.index_of(x, y) <= usize::MAX,
            i64::MIN <= x - self.corner().0 <= i64::MAX,
            i64::MIN <= y - self.corner().1 <= i64::MAX,
        ensures
            r == if self.index_of(x, y) < self.cells().len() {
                Some(&self.cells()[self.index_of(x, y)])
            } else {
                None
            },
    {
        let xyz = self.vec_coord(x, y, z);
        if xyz < self.field.len() {
            Some(&self.field[xyz])
        } else {
            None
        }
    }

    /// Returns the value stored for a tile; see `get`.
    pub fn get_pos(&self, p: &BoardPosition) -> (r: Option<&T>)
        requires
            self.index_of(p.x, p.y) <= usize::MAX,
            i64::MIN <= p.x - self.corner().0 <= i64::MAX,
            i64::MIN <= p.y - self.corner().1 <= i64::MAX,
        ensures
            r == if self.index_of(p.x, p.y) < self.cells().len() {
                Some(&self.cells()[self.index_of(p.x, p.y)])
            } else {
                None
            },
    {
        self.get(p.x, p.y, p.z)
    }

    /// Returns the cell stored for coordinates `x`, `y` to change it in
    /// place, or `None` when they map past the stored cells.
    pub fn get_mut(&mut self, x: i64, y: i64, z: i64) -> (r: Option<&mut T>)
        requires
            old(self).index_of(x, y) <= usize::MAX,
            i64::MIN <= x - old(self).corner().0 <= i64::MAX,
            i64::MIN <= y - old(self).corner().1 <= i64::MAX,
        ensures
            old(self).index_of(x, y) < old(self).cells().len() <==> r is Some,
            r matches Some(c) ==> *c == old(self).cells()[old(self).index_of(x, y)]
                && final(self).cells() == old(self).cells().update(
                old(self).index_of(x, y),
                *final(c),
            ),
            r is None ==> final(self).cells() == old(self).cells(),
            final(self).corner() == old(self).corner(),
            final(self).sizes() == old(self).sizes(),
    {
        let xyz = self.vec_coord(x, y, z);
        if xyz < self.field.len() {
            Some(&mut self.field[xyz])
        } else {
            None
        }
    }

    /// Returns the cell stored for a tile to change it in place; see
    /// `get_mut`.
    pub fn get_mut_pos(&mut self, p: &BoardPosition) -> (r: Option<&mut T>)
        requires
            old(self).index_of(p.x, p.y) <= usize::MAX,
            i64::MIN <= p.x - old(self).corner().0 <= i64::MAX,
            i64::MIN <= p.y - old(self).corner().1 <= i64::MAX,
        ensures
            old(self).index_of(p.x, p.y) < old(self).cells().len() <==> r is Some,
            r matches Some(c) ==> *c == old(self).cells()[old(self).index_of(p.x, p.y)]
                && final(self).cells() == old(self).cells().update(
                old(self).index_of(p.x, p.y),
                *final(c),
            ),
            r is None ==> final(self).cells() == old(self).cells(),
            final(self).corner() == old(self).corner(),
            final(self).sizes() == old(self).sizes(),
    {
        self.get_mut(p.x, p.y, p.z)
    }

    /// Stores `lfd` for coordinates `x`, `y`, which must map to a stored
    /// cell.
    pub fn insert(&mut self, x: i64, y: i64, z: i64, lfd: T)
        requires
            i64::MIN <= x - old(self).corner().0 <= i64::MAX,
            i64::MIN <= y - old(self).corner().1 <= i64::MAX,
            old(self).index_of(x, y) < old(self).cells().len(),
        ensures
            final(self).cells() == old(self).cells().update(old(self).index_of(x, y), lfd),
            final(self).corner() == old(self).corner(),
            final(self).sizes() == old(self).sizes(),
    {
        let n = self.field.len();
        assert(self.index_of(x, y) < n);
        let xyz = self.vec_coord(x, y, z);
        self.field.set(xyz, lfd);
    }
}

/// Within the block no two coordinates share a cell, and a coordinate's
/// cell is its row times the row length plus its column.
pub proof fn lemma_sector_cells_distinct<T: Copy>(
    s: LightFieldSector<T>,
    x1: i64,
    y1: i64,
    x2: i64,
    y2: i64,
)
    requires
        s.corner().0 <= x1 < s.corner().0 + s.sizes().0,
        s.corner().0 <= x2 < s.corner().0 + s.sizes().0,
        s.corner().1 <= y1 < s.corner().1 + s.sizes().1,
        s.corner().1 <= y2 < s.corner().1 + s.sizes().1,
        (x1, y1) != (x2, y2),
    ensures
        s.index_of(x1, y1) != s.index_of(x2, y2),
        s.index_of(x1, y1) == (x1 - s.corner().0) + (y1 - s.corner().1) * s.sizes().0,
{
    let sx = s.sizes().0 as int;
    let a1 = x1 - s.corner().0;
    let b1 = y1 - s.corner().1;
    let a2 = x2 - s.corner().0;
    let b2 = y2 - s.corner().1;
    assert(((x1 - s.corner().0) as usize) as int == a1);
    assert(((x2 - s.corner().0) as usize) as int == a2);
    assert(((y1 - s.corner().1) as usize) as int == b1);
    assert(((y2 - s.corner().1) as usize) as int == b2);
    if b1 == b2 {
        assert(a1 != a2);
    } else if b1 < b2 {
        assert(a1 + b1 * sx < a2 + b2 * sx) by (nonlinear_arith)
            requires
                0 <= a1 < sx,
                0 <= a2 < sx,
                b1 < b2,
        ;
    } else {
        assert(a2 + b2 * sx < a1 + b1 * sx) by (nonlinear_arith)
            requires
                0 <= a1 < sx,
                0 <= a2 < sx,
                b2 < b1,
        ;
    }
}


/// Reading the block after a store: the coordinates stored to give back the
/// value stored, and any other coordinates of the block keep their value.
pub proof fn lemma_sector_store_then_read<T: Copy>(
    s: LightFieldSector<T>,
    x1: i64,
    y1: i64,
    x2: i64,
    y2: i64,
    v: T,
)
    requires
        s.corner().0 <= x1 < s.corner().0 + s.sizes().0,
        s.corner().0 <= x2 < s.corner().0 + s.sizes().0,
        s.corner().1 <= y1 < s.corner().1 + s.sizes().1,
        s.corner().1 <= y2 < s.corner().1 + s.sizes().1,
        s.sizes().0 * s.sizes().1 <= s.cells().len(),
    ensures
        s.index_of(x1, y1) < s.cells().len(),
        s.index_of(x2, y2) < s.cells().len(),
        s.cells().update(s.index_of(x1, y1), v)[s.index_of(x2, y2)] == if (x1, y1) == (x2, y2) {
            v
        } else {
            s.cells()[s.index_of(x2, y2)]
        },
{
    lemma_sector_index_in_block(s, x1, y1);
    lemma_sector_index_in_block(s, x2, y2);
    if (x1, y1) != (x2, y2) {
        lemma_sector_cells_distinct(s, x1, y1, x2, y2);
    }
}

/// Coordinates inside the block are stored among its first `sx * sy`
/// cells, where `sx`, `sy` are its sizes along `x` and `y`.
pub proof fn lemma_sector_index_in_block<T: Copy>(s: LightFieldSector<T>, x: i64, y: i64)
    requires
        s.corner().0 <= x < s.corner().0 + s.sizes().0,
        s.corner().1 <= y < s.corner().1 + s.sizes().1,
    ensures
        s.index_of(x, y) == (x - s.corner().0) + (y - s.corner().1) * s.sizes().0,
        0 <= s.index_of(x, y) < s.sizes().0 * s.sizes().1,
{
    let sx = s.sizes().0 as int;
    let sy = s.sizes().1 as int;
    let a = x - s.corner().0;
    let b = y - s.corner().1;
    assert(((x - s.corner().0) as usize) as int == a);
    assert(((y - s.corner().1) as usize) as int == b);
    assert(0 <= a + b * sx < sx * sy) by (nonlinear_arith)
        requires
            0 <= a < sx,
            0 <= b < sy,
    ;
}


/// The map that a list of key-value pairs stands for, keys and values seen
/// through `fk` and `fv`: later pairs win over earlier ones with the same
/// key.
pub open spec fn pairs_map<K, V, A, B>(s: Seq<(K, V)>, fk: spec_fn(K) -> A, fv: spec_fn(V) -> B) -> Map<
    A,
    B,
>
    decreases s.len(),
{
    if s.len() == 0 {
        Map::empty()
    } else {
        pairs_map(s.drop_last(), fk, fv).insert(fk(s.last().0), fv(s.last().1))
    }
}

/// No key occurs twice in `s`.
pub open spec fn keys_unique<K, V, A>(s: Seq<(K, V)>, fk: spec_fn(K) -> A) -> bool {
    forall|i: int, j: int|
        0 <= i < s.len() && 0 <= j < s.len() && i != j ==> fk(#[trigger] s[i].0) != fk(
            #[trigger] s[j].0,
        )
}

proof fn lemma_pairs_lookup<K, V, A, B>(s: Seq<(K, V)>, fk: spec_fn(K) -> A, fv: spec_fn(V) -> B, i: int)
    requires
        keys_unique(s, fk),
        0 <= i < s.len(),
    ensures
        pairs_map(s, fk, fv).dom().contains(fk(s[i].0)),
        pairs_map(s, fk, fv)[fk(s[i].0)] == fv(s[i].1),
    decreases s.len(),
{
    if i < s.len() - 1 {
        let t = s.drop_last();
        assert(t[i] == s[i]);
        assert(keys_unique(t, fk)) by {
            assert forall|a: int, b: int|
                0 <= a < t.len() && 0 <= b < t.len() && a != b implies fk(#[trigger] t[a].0) != fk(
                #[trigger] t[b].0,
            ) by {
                assert(t[a] == s[a]);
                assert(t[b] == s[b]);
            }
        }
        lemma_pairs_lookup(t, fk, fv, i);
        assert(fk(s[s.len() - 1].0) != fk(s[i].0));
    }
}

proof fn lemma_pairs_absent<K, V, A, B>(s: Seq<(K, V)>, fk: spec_fn(K) -> A, fv: spec_fn(V) -> B, k: A)
    requires
        forall|i: int| 0 <= i < s.len() ==> fk(#[trigger] s[i].0) != k,
    ensures
        !pairs_map(s, fk, fv).dom().contains(k),
    decreases s.len(),
{
    if s.len() > 0 {
        let t = s.drop_last();
        assert forall|i: int| 0 <= i < t.len() implies fk(#[trigger] t[i].0) != k by {
            assert(t[i] == s[i]);
        }
        lemma_pairs_absent(t, fk, fv, k);
        assert(fk(s[s.len() - 1].0) != k);
    }
}

proof fn lemma_pairs_update<K, V, A, B>(
    s: Seq<(K, V)>,
    fk: spec_fn(K) -> A,
    fv: spec_fn(V) -> B,
    i: int,
    p: (K, V),
)
    requires
        keys_unique(s, fk),
        0 <= i < s.len(),
        fk(p.0) == fk(s[i].0),
    ensures
        pairs_map(s.update(i, p), fk, fv) == pairs_map(s, fk, fv).insert(fk(p.0), fv(p.1)),
        keys_unique(s.update(i, p), fk),
    decreases s.len(),
{
    let u = s.update(i, p);
    assert(keys_unique(u, fk)) by {
        assert forall|a: int, b: int|
            0 <= a < u.len() && 0 <= b < u.len() && a != b implies fk(#[trigger] u[a].0) != fk(
            #[trigger] u[b].0,
        ) by {
            if a == i {
                assert(u[a] == p);
                assert(u[b] == s[b]);
            } else if b == i {
                assert(u[b] == p);
                assert(u[a] == s[a]);
            } else {
                assert(u[a] == s[a]);
                assert(u[b] == s[b]);
            }
        }
    }
    let t = s.drop_last();
    if i == s.len() - 1 {
        assert(u.drop_last() =~= t);
        assert(u.last() == p);
        assert(pairs_map(u, fk, fv) =~= pairs_map(s, fk, fv).insert(fk(p.0), fv(p.1)));
    } else {
        assert(u.drop_last() =~= t.update(i, p));
        assert(t[i] == s[i]);
        assert(keys_unique(t, fk)) by {
            assert forall|a: int, b: int|
                0 <= a < t.len() && 0 <= b < t.len() && a != b implies fk(#[trigger] t[a].0) != fk(
                #[trigger] t[b].0,
            ) by {
                assert(t[a] == s[a]);
                assert(t[b] == s[b]);
            }
        }
        lemma_pairs_update(t, fk, fv, i, p);
        assert(u.last() == s.last());
        assert(fk(s[s.len() - 1].0) != fk(s[i].0));
        assert(pairs_map(u, fk, fv) =~= pairs_map(s, fk, fv).insert(fk(p.0), fv(p.1)));
    }
}

proof fn lemma_pairs_push<K, V, A>(s: Seq<(K, V)>, fk: spec_fn(K) -> A, p: (K, V))
    requires
        keys_unique(s, fk),
        forall|i: int| 0 <= i < s.len() ==> fk(#[trigger] s[i].0) != fk(p.0),
    ensures
        keys_unique(s.push(p), fk),
{
    let u = s.push(p);
    assert forall|a: int, b: int|
        0 <= a < u.len() && 0 <= b < u.len() && a != b implies fk(#[trigger] u[a].0) != fk(
        #[trigger] u[b].0,
    ) by {
        if a < s.len() {
            assert(u[a] == s[a]);
        }
        if b < s.len() {
            assert(u[b] == s[b]);
        }
    }
}

/// Tiles as keys of the room database: themselves.
pub open spec fn tile_key() -> spec_fn(BoardPosition) -> BoardPosition {
    |p: BoardPosition| p
}

/// Room names as keys or values of the room database: their characters.
pub open spec fn name_chars() -> spec_fn(String) -> Seq<char> {
    |s: String| s@
}

/// Room states as values of the room database: themselves.
pub open spec fn state_value() -> spec_fn(State) -> State {
    |st: State| st
}

/// The rooms of a map: which room each tile belongs to, and the state of
/// each room (its lights on or off). Each tile and each room is listed at
/// most once.
#[derive(Debug, Clone)]
pub struct RoomDB {
    room_tiles: Vec<(BoardPosition, String)>,
    room_state: Vec<(String, State)>,
}

impl RoomDB {
    /// The room of each tile that belongs to one.
    pub closed spec fn tiles(self) -> Map<BoardPosition, Seq<char>> {
        pairs_map(self.room_tiles@, tile_key(), name_chars())
    }

    /// The state of each room that has one.
    pub closed spec fn states(self) -> Map<Seq<char>, State> {
        pairs_map(self.room_state@, name_chars(), state_value())
    }

    /// No tile and no room is listed twice.
    pub closed spec fn wf(self) -> bool {
        keys_unique(self.room_tiles@, tile_key()) && keys_unique(self.room_state@, name_chars())
    }

    /// No rooms.
    pub fn new() -> (r: RoomDB)
        ensures
            r.wf(),
            r.tiles() == Map::<BoardPosition, Seq<char>>::empty(),
            r.states() == Map::<Seq<char>, State>::empty(),
    {
        RoomDB { room_tiles: Vec::new(), room_state: Vec::new() }
    }

    /// Forgets every room.
    pub fn clear(&mut self)
        ensures
            final(self).wf(),
            final(self).tiles() == Map::<BoardPosition, Seq<char>>::empty(),
            final(self).states() == Map::<Seq<char>, State>::empty(),
    {
        self.room_tiles.clear();
        self.room_state.clear();
    }

    /// Records that tile `pos` belongs to room `name`.
    pub fn insert_tile(&mut self, pos: BoardPosition, name: String)
        requires
            old(self).wf(),
        ensures
            final(self).wf(),
            final(self).tiles() == old(self).tiles().insert(pos, name@),
            final(self).states() == old(self).states(),
    {
        let ghost fk = tile_key();
        let ghost fv = name_chars();
        let n = self.room_tiles.len();
        let mut i: usize = 0;
        while i < n
            invariant
                self.wf(),
                *self == *old(self),
                fk == tile_key(),
                fv == name_chars(),
                n == self.room_tiles@.len(),
                i <= n,
                forall|j: int| 0 <= j < i ==> #[trigger] self.room_tiles@[j].0 != pos,
            decreases n - i,
        {
            if self.room_tiles[i].0 == pos {
                proof {
                    lemma_pairs_update(self.room_tiles@, fk, fv, i as int, (pos, name));
                }
                self.room_tiles.set(i, (pos, name));
                return;
            }
            i = i + 1;
        }
        proof {
            lemma_pairs_push(self.room_tiles@, fk, (pos, name));
            assert(self.room_tiles@.push((pos, name)).drop_last() =~= self.room_tiles@);
        }
        self.room_tiles.push((pos, name));
    }

    /// Returns the room of tile `pos`, if it belongs to one.
    pub fn room_of(&self, pos: &BoardPosition) -> (r: Option<String>)
        requires
            self.wf(),
        ensures
            r is Some <==> self.tiles().dom().contains(*pos),
            r matches Some(name) ==> name@ == self.tiles()[*pos],
    {
        let ghost fk = tile_key();
        let ghost fv = name_chars();
        let n = self.room_tiles.len();
        let mut i: usize = 0;
        while i < n
            invariant
                self.wf(),
                fk == tile_key(),
                fv == name_chars(),
                n == self.room_tiles@.len(),
                i <= n,
                forall|j: int| 0 <= j < i ==> #[trigger] self.room_tiles@[j].0 != *pos,
            decreases n - i,
        {
            if self.room_tiles[i].0 == *pos {
                proof {
                    lemma_pairs_lookup(self.room_tiles@, fk, fv, i as int);
                }
                return Some(self.room_tiles[i].1.clone());
            }
            i = i + 1;
        }
        proof {
            lemma_pairs_absent(self.room_tiles@, fk, fv, *pos);
        }
        None
    }

    /// Sets the state of room `name`.
    pub fn insert_state(&mut self, name: String, st: State)
        requires
            old(self).wf(),
        ensures
            final(self).wf(),
            final(self).states() == old(self).states().insert(name@, st),
            final(self).tiles() == old(self).tiles(),
    {
        let ghost fk = name_chars();
        let ghost fv = state_value();
        let n = self.room_state.len();
        let mut i: usize = 0;
        while i < n
            invariant
                self.wf(),
                *self == *old(self),
                fk == name_chars(),
                fv == state_value(),
                n == self.room_state@.len(),
                i <= n,
                forall|j: int| 0 <= j < i ==> #[trigger] self.room_state@[j].0@ != name@,
            decreases n - i,
        {
            if self.room_state[i].0 == name {
                proof {
                    lemma_pairs_update(self.room_state@, fk, fv, i as int, (name, st));
                }
                self.room_state.set(i, (name, st));
                return;
            }
            i = i + 1;
        }
        proof {
            lemma_pairs_push(self.room_state@, fk, (name, st));
            assert(self.room_state@.push((name, st)).drop_last() =~= self.room_state@);
        }
        self.room_state.push((name, st));
    }

    /// Returns the state of room `name`, if it has one.
    pub fn state_of(&self, name: &String) -> (r: Option<State>)
        requires
            self.wf(),
        ensures
            r == if self.states().dom().contains(name@) {
                Some(self.states()[name@])
            } else {
                None
            },
    {
        let ghost fk = name_chars();
        let ghost fv = state_value();
        let n = self.room_state.len();
        let mut i: usize = 0;
        while i < n
            invariant
                self.wf(),
                fk == name_chars(),
                fv == state_value(),
                n == self.room_state@.len(),
                i <= n,
                forall|j: int| 0 <= j < i ==> #[trigger] self.room_state@[j].0@ != name@,
            decreases n - i,
        {
            if self.room_state[i].0 == *name {
                proof {
                    lemma_pairs_lookup(self.room_state@, fk, fv, i as int);
                }
                return Some(self.room_state[i].1);
            }
            i = i + 1;
        }
        proof {
            lemma_pairs_absent(self.room_state@, fk, fv, name@);
        }
        None
    }

    /// Sets the state of room `name` when it already has one; returns
    /// whether it had.
    pub fn update_state(&mut self, name: &String, st: State) -> (r: bool)
        requires
            old(self).wf(),
        ensures
            final(self).wf(),
            r == old(self).states().dom().contains(name@),
            final(self).states() == if r {
                old(self).states().insert(name@, st)
            } else {
                old(self).states()
            },
            final(self).tiles() == old(self).tiles(),
    {
        match self.state_of(name) {
            Some(_) => {
                self.insert_state(name.clone(), st);
                true
            },
            None => false,
        }
    }
}

/// What the room database gives back after a change: the room just given
/// to a tile, or the state just set for a room; other tiles and rooms keep
/// theirs.
pub proof fn lemma_rooms_read_after_write(
    tiles: Map<BoardPosition, Seq<char>>,
    states: Map<Seq<char>, State>,
    pos: BoardPosition,
    other: BoardPosition,
    name: Seq<char>,
    room: Seq<char>,
    other_room: Seq<char>,
    st: State,
)
    requires
        other != pos,
        other_room != room,
    ensures
        tiles.insert(pos, name)[pos] == name,
        tiles.insert(pos, name).dom().contains(other) == tiles.dom().contains(other),
        tiles.insert(pos, name)[other] == tiles[other],
        states.insert(room, st)[room] == st,
        states.insert(room, st).dom().contains(other_room) == states.dom().contains(other_room),
        states.insert(room, st)[other_room] == states[other_room],
{
}


/// Collision data as values of the collision field: themselves.
pub open spec fn collision_value() -> spec_fn(CollisionFieldData) -> CollisionFieldData {
    |c: CollisionFieldData| c
}

/// The collision data of the tiles of a map, at most one entry per tile.
#[derive(Debug, Clone)]
pub struct CollisionField {
    entries: Vec<(BoardPosition, CollisionFieldData)>,
}

impl CollisionField {
    /// The data of each tile that has some.
    pub closed spec fn cells(self) -> Map<BoardPosition, CollisionFieldData> {
        pairs_map(self.entries@, tile_key(), collision_value())
    }

    /// No tile is listed twice.
    pub closed spec fn wf(self) -> bool {
        keys_unique(self.entries@, tile_key())
    }

    /// An empty field.
    pub fn new() -> (r: CollisionField)
        ensures
            r.wf(),
            r.cells() == Map::<BoardPosition, CollisionFieldData>::empty(),
    {
        CollisionField { entries: Vec::new() }
    }

    /// Sets the data of tile `pos`.
    pub fn insert(&mut self, pos: BoardPosition, data: CollisionFieldData)
        requires
            old(self).wf(),
        ensures
            final(self).wf(),
            final(self).cells() == old(self).cells().insert(pos, data),
    {
        let ghost fk = tile_key();
        let ghost fv = collision_value();
        let n = self.entries.len();
        let mut i: usize = 0;
        while i < n
            invariant
                self.wf(),
                *self == *old(self),
                fk == tile_key(),
                fv == collision_value(),
                n == self.entries@.len(),
                i <= n,
                forall|j: int| 0 <= j < i ==> #[trigger] self.entries@[j].0 != pos,
            decreases n - i,
        {
            if self.entries[i].0 == pos {
                proof {
                    lemma_pairs_update(self.entries@, fk, fv, i as int, (pos, data));
                }
                self.entries.set(i, (pos, data));
                return;
            }
            i = i + 1;
        }
        proof {
            lemma_pairs_push(self.entries@, fk, (pos, data));
            assert(self.entries@.push((pos, data)).drop_last() =~= self.entries@);
        }
        self.entries.push((pos, data));
    }

    /// Returns the data of tile `pos`, if it has some.
    pub fn get(&self, pos: &BoardPosition) -> (r: Option<CollisionFieldData>)
        requires
            self.wf(),
        ensures
            r == if self.cells().dom().contains(*pos) {
                Some(self.cells()[*pos])
            } else {
                None
            },
    {
        let ghost fk = tile_key();
        let ghost fv = collision_value();
        let n = self.entries.len();
        let mut i: usize = 0;
        while i < n
            invariant
                self.wf(),
                fk == tile_key(),
                fv == collision_value(),
                n == self.entries@.len(),
                i <= n,
                forall|j: int| 0 <= j < i ==> #[trigger] self.entries@[j].0 != *pos,
            decreases n - i,
        {
            if self.entries[i].0 == *pos {
                proof {
                    lemma_pairs_lookup(self.entries@, fk, fv, i as int);
                }
                return Some(self.entries[i].1);
            }
            i = i + 1;
        }
        proof {
            lemma_pairs_absent(self.entries@, fk, fv, *pos);
        }
        None
    }
}

/// The data of a floor tile: anyone can stand there, light is not let
/// through (until something above says otherwise).
pub open spec fn free_cell() -> CollisionFieldData {
    CollisionFieldData { player_free: true, ghost_free: true, see_through: false }
}

/// The data of a tile that stops the player.
pub open spec fn blocking_cell(m: Movement, see_through: bool) -> CollisionFieldData {
    CollisionFieldData { player_free: false, ghost_free: !m.ghost_collision, see_through }
}

/// `base` after the floor tiles of `tiles` (position, movement, lets light
/// through) are marked free, in order.
pub open spec fn walkable_pass(
    tiles: Seq<(BoardPosition, Movement, bool)>,
    base: Map<BoardPosition, CollisionFieldData>,
) -> Map<BoardPosition, CollisionFieldData>
    decreases tiles.len(),
{
    if tiles.len() == 0 {
        base
    } else {
        let m = walkable_pass(tiles.drop_last(), base);
        let t = tiles.last();
        if t.1.walkable {
            m.insert(t.0, free_cell())
        } else {
            m
        }
    }
}

/// `base` after the tiles of `tiles` that stop the player are marked
/// blocking, in order.
pub open spec fn blocking_pass(
    tiles: Seq<(BoardPosition, Movement, bool)>,
    base: Map<BoardPosition, CollisionFieldData>,
) -> Map<BoardPosition, CollisionFieldData>
    decreases tiles.len(),
{
    if tiles.len() == 0 {
        base
    } else {
        let m = blocking_pass(tiles.drop_last(), base);
        let t = tiles.last();
        if t.1.player_collision {
            m.insert(t.0, blocking_cell(t.1, t.2))
        } else {
            m
        }
    }
}

/// Builds the collision field of a map from its tiles (position, movement,
/// lets light through): first every floor tile is free, then every tile
/// that stops the player overrides its position.
pub fn build_collision_field(tiles: &Vec<(BoardPosition, Movement, bool)>) -> (r: CollisionField)
    ensures
        r.wf(),
        r.cells() == blocking_pass(tiles@, walkable_pass(tiles@, Map::empty())),
{
    let mut field = CollisionField::new();
    let n = tiles.len();
    let mut i: usize = 0;
    while i < n
        invariant
            n == tiles@.len(),
            i <= n,
            field.wf(),
            field.cells() == walkable_pass(tiles@.subrange(0, i as int), Map::empty()),
        decreases n - i,
    {
        let ghost prefix = tiles@.subrange(0, i as int + 1);
        assert(prefix.drop_last() =~= tiles@.subrange(0, i as int));
        assert(prefix.last() == tiles@[i as int]);
        let (pos, m, _see) = tiles[i];
        if m.walkable {
            field.insert(pos, CollisionFieldData { player_free: true, ghost_free: true, see_through: false });
        }
        i = i + 1;
    }
    assert(tiles@.subrange(0, n as int) =~= tiles@);
    let ghost base = field.cells();
    let mut i: usize = 0;
    while i < n
        invariant
            n == tiles@.len(),
            i <= n,
            field.wf(),
            field.cells() == blocking_pass(tiles@.subrange(0, i as int), base),
        decreases n - i,
    {
        let ghost prefix = tiles@.subrange(0, i as int + 1);
        assert(prefix.drop_last() =~= tiles@.subrange(0, i as int));
        assert(prefix.last() == tiles@[i as int]);
        let (pos, m, see) = tiles[i];
        if m.player_collision {
            field.insert(pos, CollisionFieldData { player_free: false, ghost_free: !m.ghost_collision, see_through: see });
        }
        i = i + 1;
    }
    assert(tiles@.subrange(0, n as int) =~= tiles@);
    field
}

/// A tile that stops the player is never free, whatever else stands on the
/// same position.
pub proof fn lemma_collision_blocking_wins(
    tiles: Seq<(BoardPosition, Movement, bool)>,
    base: Map<BoardPosition, CollisionFieldData>,
    i: int,
)
    requires
        0 <= i < tiles.len(),
        tiles[i].1.player_collision,
    ensures
        blocking_pass(tiles, base).dom().contains(tiles[i].0),
        !blocking_pass(tiles, base)[tiles[i].0].player_free,
    decreases tiles.len(),
{
    if i < tiles.len() - 1 {
        let t = tiles.drop_last();
        assert(t[i] == tiles[i]);
        lemma_collision_blocking_wins(t, base, i);
    }
}

proof fn lemma_walkable_cells(
    tiles: Seq<(BoardPosition, Movement, bool)>,
    pos: BoardPosition,
)
    ensures
        walkable_pass(tiles, Map::empty()).dom().contains(pos) <==> exists|j: int|
            0 <= j < tiles.len() && #[trigger] tiles[j].0 == pos && tiles[j].1.walkable,
        walkable_pass(tiles, Map::empty()).dom().contains(pos) ==> walkable_pass(
            tiles,
            Map::empty(),
        )[pos] == (CollisionFieldData { player_free: true, ghost_free: true, see_through: false }),
    decreases tiles.len(),
{
    if tiles.len() > 0 {
        let rest = tiles.drop_last();
        lemma_walkable_cells(rest, pos);
        let n = tiles.len() - 1;
        if exists|j: int| 0 <= j < rest.len() && #[trigger] rest[j].0 == pos && rest[j].1.walkable {
            let j = choose|j: int| 0 <= j < rest.len() && #[trigger] rest[j].0 == pos && rest[j].1.walkable;
            assert(tiles[j] == rest[j]);
        }
        if exists|j: int| 0 <= j < tiles.len() && #[trigger] tiles[j].0 == pos && tiles[j].1.walkable {
            let j = choose|j: int| 0 <= j < tiles.len() && #[trigger] tiles[j].0 == pos && tiles[j].1.walkable;
            if j < n {
                assert(rest[j] == tiles[j]);
            }
        }
        assert(tiles[n] == tiles.last());
    }
}

proof fn lemma_blocking_last(
    tiles: Seq<(BoardPosition, Movement, bool)>,
    base: Map<BoardPosition, CollisionFieldData>,
    i: int,
)
    requires
        0 <= i < tiles.len(),
        tiles[i].1.player_collision,
        forall|j: int| i < j < tiles.len() && #[trigger] tiles[j].0 == tiles[i].0 ==> !tiles[j].1.player_collision,
    ensures
        blocking_pass(tiles, base).dom().contains(tiles[i].0),
        blocking_pass(tiles, base)[tiles[i].0] == (CollisionFieldData {
            player_free: false,
            ghost_free: !tiles[i].1.ghost_collision,
            see_through: tiles[i].2,
        }),
    decreases tiles.len(),
{
    let n = tiles.len() - 1;
    if i < n {
        let rest = tiles.drop_last();
        assert(rest[i] == tiles[i]);
        assert forall|j: int| i < j < rest.len() && #[trigger] rest[j].0 == rest[i].0 implies !rest[j].1.player_collision by {
            assert(rest[j] == tiles[j]);
        }
        lemma_blocking_last(rest, base, i);
        assert(tiles.last() == tiles[n]);
    }
}

proof fn lemma_blocking_none(
    tiles: Seq<(BoardPosition, Movement, bool)>,
    base: Map<BoardPosition, CollisionFieldData>,
    pos: BoardPosition,
)
    requires
        forall|j: int| 0 <= j < tiles.len() && #[trigger] tiles[j].0 == pos ==> !tiles[j].1.player_collision,
    ensures
        blocking_pass(tiles, base).dom().contains(pos) == base.dom().contains(pos),
        base.dom().contains(pos) ==> blocking_pass(tiles, base)[pos] == base[pos],
    decreases tiles.len(),
{
    if tiles.len() > 0 {
        let rest = tiles.drop_last();
        assert forall|j: int| 0 <= j < rest.len() && #[trigger] rest[j].0 == pos implies !rest[j].1.player_collision by {
            assert(rest[j] == tiles[j]);
        }
        lemma_blocking_none(rest, base, pos);
        assert(tiles.last() == tiles[tiles.len() - 1]);
    }
}

/// The collision field says of a tile stopping the player what that tile
/// is: at the position of a tile `i` that stops the player, with no later
/// tile on the same position stopping the player, the player cannot pass,
/// the ghost can exactly when tile `i` does not stop it, and light passes
/// exactly when tile `i` lets it through.
pub proof fn lemma_collision_field_blocking(tiles: Seq<(BoardPosition, Movement, bool)>, i: int)
    requires
        0 <= i < tiles.len(),
        tiles[i].1.player_collision,
        forall|j: int| i < j < tiles.len() && #[trigger] tiles[j].0 == tiles[i].0 ==> !tiles[j].1.player_collision,
    ensures
        blocking_pass(tiles, walkable_pass(tiles, Map::empty())).dom().contains(tiles[i].0),
        blocking_pass(tiles, walkable_pass(tiles, Map::empty()))[tiles[i].0] == (CollisionFieldData {
            player_free: false,
            ghost_free: !tiles[i].1.ghost_collision,
            see_through: tiles[i].2,
        }),
{
    lemma_blocking_last(tiles, walkable_pass(tiles, Map::empty()), i);
}

/// The collision field at a position no tile stopping the player stands
/// on: the position has data exactly when a floor tile stands there, and
/// then both player and ghost can pass and light is not marked as passing.
pub proof fn lemma_collision_field_open(tiles: Seq<(BoardPosition, Movement, bool)>, pos: BoardPosition)
    requires
        forall|j: int| 0 <= j < tiles.len() && #[trigger] tiles[j].0 == pos ==> !tiles[j].1.player_collision,
    ensures
        blocking_pass(tiles, walkable_pass(tiles, Map::empty())).dom().contains(pos) <==> exists|j: int|
            0 <= j < tiles.len() && #[trigger] tiles[j].0 == pos && tiles[j].1.walkable,
        blocking_pass(tiles, walkable_pass(tiles, Map::empty())).dom().contains(pos) ==> blocking_pass(
            tiles,
            walkable_pass(tiles, Map::empty()),
        )[pos] == (CollisionFieldData { player_free: true, ghost_free: true, see_through: false }),
{
    lemma_walkable_cells(tiles, pos);
    lemma_blocking_none(tiles, walkable_pass(tiles, Map::empty()), pos);
}

/// The smallest and largest coordinates of the tiles of `positions`, from
/// `lo`/`hi` on.
pub open spec fn bounds_from(positions: Seq<BoardPosition>, lo: BoardPosition, hi: BoardPosition) -> (
    BoardPosition,
    BoardPosition,
)
    decreases positions.len(),
{
    if positions.len() == 0 {
        (lo, hi)
    } else {
        let (l, h) = bounds_from(positions.drop_last(), lo, hi);
        let p = positions.last();
        (
            BoardPosition {
                x: if p.x < l.x {
                    p.x
                } else {
                    l.x
                },
                y: if p.y < l.y {
                    p.y
                } else {
                    l.y
                },
                z: if p.z < l.z {
                    p.z
                } else {
                    l.z
                },
            },
            BoardPosition {
                x: if p.x > h.x {
                    p.x
                } else {
                    h.x
                },
                y: if p.y > h.y {
                    p.y
                } else {
                    h.y
                },
                z: if p.z > h.z {
                    p.z
                } else {
                    h.z
                },
            },
        )
    }
}

/// Returns the corners of the box that holds every tile of `positions`:
/// the smallest and the largest coordinates; both are the origin when there
/// are no tiles.
pub fn tiles_bounds(positions: &Vec<BoardPosition>) -> (r: (BoardPosition, BoardPosition))
    ensures
        positions@.len() == 0 ==> r == (BoardPosition { x: 0, y: 0, z: 0 }, BoardPosition {
            x: 0,
            y: 0,
            z: 0,
        }),
        positions@.len() > 0 ==> r == bounds_from(positions@, positions@[0], positions@[0]),
{
    if positions.len() == 0 {
        return (BoardPosition::default(), BoardPosition::default());
    }
    let first = positions[0];
    let mut lo = first;
    let mut hi = first;
    let n = positions.len();
    let mut i: usize = 0;
    while i < n
        invariant
            n == positions@.len(),
            n > 0,
            first == positions@[0],
            i <= n,
            (lo, hi) == bounds_from(positions@.subrange(0, i as int), first, first),
        decreases n - i,
    {
        let ghost prefix = positions@.subrange(0, i as int + 1);
        assert(prefix.drop_last() =~= positions@.subrange(0, i as int));
        assert(prefix.last() == positions@[i as int]);
        let p = positions[i];
        lo = BoardPosition {
            x: if p.x < lo.x { p.x } else { lo.x },
            y: if p.y < lo.y { p.y } else { lo.y },
            z: if p.z < lo.z { p.z } else { lo.z },
        };
        hi = BoardPosition {
            x: if p.x > hi.x { p.x } else { hi.x },
            y: if p.y > hi.y { p.y } else { hi.y },
            z: if p.z > hi.z { p.z } else { hi.z },
        };
        i = i + 1;
    }
    assert(positions@.subrange(0, n as int) =~= positions@);
    (lo, hi)
}

/// Every tile lies in the box of the bounds.
pub proof fn lemma_bounds_hold_all(positions: Seq<BoardPosition>, lo: BoardPosition, hi: BoardPosition, i: int)
    requires
        0 <= i < positions.len(),
    ensures
        bounds_from(positions, lo, hi).0.x <= positions[i].x <= bounds_from(positions, lo, hi).1.x,
        bounds_from(positions, lo, hi).0.y <= positions[i].y <= bounds_from(positions, lo, hi).1.y,
        bounds_from(positions, lo, hi).0.z <= positions[i].z <= bounds_from(positions, lo, hi).1.z,
    decreases positions.len(),
{
    if i < positions.len() - 1 {
        let t = positions.drop_last();
        assert(t[i] == positions[i]);
        lemma_bounds_hold_all(t, lo, hi, i);
    }
}

} // verus!
