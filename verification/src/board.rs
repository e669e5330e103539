use itertools::Itertools;
use vstd::prelude::*;

verus! {

/// A grid cell coordinate: column first, then row.
#[derive(Clone, Copy, Debug, PartialEq, Eq, PartialOrd, Ord, Hash, Structural)]
pub struct Pos(pub i16, pub i16);

/// A neighbouring cell reachable in one step, with the cost of entering it.
#[derive(Clone, Copy, Debug, PartialEq, Eq, Structural)]
pub struct Successor {
    pub pos: Pos,
    pub cost: u32,
}

/// Failure of board construction: the level rows were empty or not rectangular.
#[derive(Clone, Copy, Debug, PartialEq, Eq, Structural)]
pub enum BoardError {
    InvalidLevel,
}

/// A rectangular grid of traversal costs together with the movement mask
/// that defines which neighbours are reachable in one step.
#[derive(Debug)]
pub struct Board {
    pub width: u8,
    pub height: u8,
    pub data: Vec<Vec<u8>>,
    pub moveable_directions: Vec<(i16, i16)>,
}

impl Board {
    /// Whether `level` is an acceptable board sketch: at least one row, a
    /// non-empty first row, and every row of the same length.
    pub open spec fn level_ok(level: Seq<Vec<u8>>) -> bool {
        &&& level.len() > 0
        &&& level[0]@.len() > 0
        &&& forall|i: int| 0 <= i < level.len() ==> (#[trigger] level[i])@.len() == level[0]@.len()
    }

    /// Builds a board from a sequence of rows of cost bytes, picking the
    /// movement mask from `move_diagonal`. Fails with `InvalidLevel` exactly
    /// when the rows do not form a non-empty rectangle: no rows, an empty
    /// first row (the grid invariant asks for `width >= 1`), or rows of
    /// differing lengths.
    pub fn new(level: Vec<Vec<u8>>, move_diagonal: bool) -> (r: Result<Board, BoardError>)
        requires
            level@.len() <= u8::MAX,
            level@.len() > 0 ==> level@[0]@.len() <= u8::MAX,
        ensures
            match r {
                Ok(b) => {
                    &&& Self::level_ok(level@)
                    &&& b.wf()
                    &&& b.height == level@.len()
                    &&& b.width == level@[0]@.len()
                    &&& b.data == level
                    &&& b.moveable_directions@ == spec_surroundings(move_diagonal)
                },
                Err(e) => {
                    &&& e == BoardError::InvalidLevel
                    &&& !Self::level_ok(level@)
                },
            },
    {
        if level.len() == 0 {
            return Err(BoardError::InvalidLevel);
        }
        let width_us: usize = level[0].len();
        if width_us == 0 {
            return Err(BoardError::InvalidLevel);
        }
        let mut i: usize = 1;
        while i < level.len()
            invariant
                1 <= i <= level@.len(),
                width_us == level@[0]@.len(),
                forall|j: int| 0 <= j < i ==> (#[trigger] level@[j])@.len() == width_us,
            decreases level@.len() - i,
        {
            if level[i].len() != width_us {
                return Err(BoardError::InvalidLevel);
            }
            i = i + 1;
        }
        let height: u8 = level.len() as u8;
        let width: u8 = width_us as u8;
        Ok(Board { width, height, data: level, moveable_directions: surroundings(move_diagonal) })
    }

    /// The grid is rectangular: `height` rows of exactly `width` cells each,
    /// and neither dimension is zero.
    pub open spec fn wf(self) -> bool {
        &&& self.width >= 1
        &&& self.height >= 1
        &&& self.data@.len() == self.height as int
        &&& forall|r: int| 0 <= r < self.data@.len() ==> (#[trigger] self.data@[r])@.len() == self.width as int
    }

    pub open spec fn in_bounds(self, col: int, row: int) -> bool {
        0 <= col < self.width as int && 0 <= row < self.height as int
    }

    pub open spec fn cost_at(self, col: int, row: int) -> u8
        recommends
            self.wf(),
            self.in_bounds(col, row),
    {
        self.data@[row]@[col]
    }

    /// The successors produced by the first `n` mask deltas, in mask order:
    /// each delta's candidate cell is kept exactly when it lies on the grid,
    /// and carries the cost of the cell it lands on.
    pub open spec fn successors_upto(self, pos: Pos, n: int) -> Seq<Successor>
        decreases n,
    {
        if n <= 0 {
            Seq::empty()
        } else {
            let rest = self.successors_upto(pos, n - 1);
            let d = self.moveable_directions@[n - 1];
            let c = pos.0 + d.0;
            let r = pos.1 + d.1;
            if self.in_bounds(c, r) {
                rest.push(Successor { pos: Pos(c as i16, r as i16), cost: self.cost_at(c, r) as u32 })
            } else {
                rest
            }
        }
    }

    /// The full successor sequence of `pos`: one entry per in-bounds candidate,
    /// in mask order.
    pub open spec fn spec_successors(self, pos: Pos) -> Seq<Successor> {
        self.successors_upto(pos, self.moveable_directions@.len() as int)
    }

    /// Neighbours of `pos` reachable in one step, in mask order, each with the
    /// cost of entering its cell. The result is pinned to `spec_successors`, a
    /// pure function of the board and the position, so the output order is
    /// deterministic.
    pub fn successors(&self, pos: &Pos) -> (r: Vec<Successor>)
        requires
            self.wf(),
        ensures
            r@ == self.spec_successors(*pos),
    {
        let mut out: Vec<Successor> = Vec::new();
        let mut i: usize = 0;
        while i < self.moveable_directions.len()
            invariant
                self.wf(),
                i <= self.moveable_directions@.len(),
                out@ == self.successors_upto(*pos, i as int),
            decreases self.moveable_directions@.len() - i,
        {
            let d = self.moveable_directions[i];
            let col: i32 = pos.0 as i32 + d.0 as i32;
            let row: i32 = pos.1 as i32 + d.1 as i32;
            if self.ok_col(&col) && self.ok_row(&row) {
                let cost = self.data[row as usize][col as usize];
                out.push(Successor { pos: Pos(col as i16, row as i16), cost: cost as u32 });
            }
            i = i + 1;
        }
        out
    }

    /// Whether `x` is a column index on the grid.
    fn ok_col(&self, x: &i32) -> (r: bool)
        ensures
            r == (0 <= *x < self.width as int),
    {
        *x >= 0 && *x < self.width as i32
    }

    /// Whether `y` is a row index on the grid.
    fn ok_row(&self, y: &i32) -> (r: bool)
        ensures
            r == (0 <= *y < self.height as int),
    {
        *y >= 0 && *y < self.height as i32
    }

    /// Whether the path `ps` visits the cell at column `col`, row `row`.
    pub open spec fn path_marks(ps: Seq<Pos>, col: int, row: int) -> bool {
        exists|k: int| 0 <= k < ps.len() && ps[k] == Pos(col as i16, row as i16)
    }

    /// The byte shown for the cell at `(col, row)`: the marker glyph where the
    /// path visits the cell, else the cell's own cost byte.
    pub open spec fn rendered_cell(self, mover: Option<Seq<Pos>>, col: int, row: int) -> u8 {
        match mover {
            Some(ps) => if Self::path_marks(ps, col, row) {
                MARKER
            } else {
                self.cost_at(col, row)
            },
            None => self.cost_at(col, row),
        }
    }

    /// The grid as display rows: the raw cost bytes, with the marker glyph
    /// overlaid on every cell the given path visits. Path entries that lie
    /// off the grid mark nothing; the entries need not be sorted.
    pub fn render(&self, mover: Option<Vec<Pos>>) -> (r: Vec<Vec<u8>>)
        requires
            self.wf(),
        ensures
            r@.len() == self.height as int,
            forall|y: int| 0 <= y < r@.len() ==> (#[trigger] r@[y])@.len() == self.width as int,
            forall|y: int, c: int| 0 <= y < self.height as int && 0 <= c < self.width as int
                ==> (#[trigger] r@[y]@[c]) == self.rendered_cell(mover_view(mover), c, y),
    {
        let mut out: Vec<Vec<u8>> = Vec::new();
        let mut y: usize = 0;
        while y < self.height as usize
            invariant
                self.wf(),
                y <= self.height as usize,
                out@.len() == y as int,
                forall|j: int| 0 <= j < y as int ==> (#[trigger] out@[j])@.len() == self.width as int,
                forall|j: int, c: int| 0 <= j < y as int && 0 <= c < self.width as int
                    ==> (#[trigger] out@[j]@[c]) == self.rendered_cell(mover_view(mover), c, j),
            decreases self.height as int - y,
        {
            let mut row: Vec<u8> = Vec::new();
            let mut c: usize = 0;
            while c < self.width as usize
                invariant
                    self.wf(),
                    y < self.height as usize,
                    c <= self.width as usize,
                    row@.len() == c as int,
                    forall|k: int| 0 <= k < c as int
                        ==> (#[trigger] row@[k]) == self.rendered_cell(mover_view(mover), k, y as int),
                decreases self.width as int - c,
            {
                let base = self.data[y][c];
                let byte = match &mover {
                    Some(ps) => {
                        if path_hits(ps, c as u8, y as u8) {
                            MARKER
                        } else {
                            base
                        }
                    },
                    None => base,
                };
                row.push(byte);
                c = c + 1;
            }
            out.push(row);
            y = y + 1;
        }
        out
    }
}

impl Board {
    /// Whether `p` lies on the grid.
    pub open spec fn pos_on_board(self, p: Pos) -> bool {
        self.in_bounds(p.0 as int, p.1 as int)
    }

    /// Whether `p` is one of the four corner cells.
    pub open spec fn corner(self, p: Pos) -> bool {
        &&& (p.0 == 0 || p.0 as int == self.width as int - 1)
        &&& (p.1 == 0 || p.1 as int == self.height as int - 1)
    }

    /// Whether `p` is strictly interior: all eight neighbouring cells exist.
    pub open spec fn interior(self, p: Pos) -> bool {
        &&& 0 < p.0
        &&& (p.0 as int) < (self.width as int) - 1
        &&& 0 < p.1
        &&& (p.1 as int) < (self.height as int) - 1
    }
}

proof fn lemma_upto_in_bounds(b: Board, p: Pos, n: int)
    ensures
        forall|i: int| 0 <= i < b.successors_upto(p, n).len()
            ==> b.pos_on_board(#[trigger] b.successors_upto(p, n)[i].pos),
    decreases n,
{
    if n > 0 {
        lemma_upto_in_bounds(b, p, n - 1);
        let d = b.moveable_directions@[n - 1];
        let c = p.0 + d.0;
        let r = p.1 + d.1;
        if b.in_bounds(c, r) {
            let s = Successor { pos: Pos(c as i16, r as i16), cost: b.cost_at(c, r) as u32 };
            assert(b.successors_upto(p, n) == b.successors_upto(p, n - 1).push(s));
            assert(b.pos_on_board(s.pos));
        } else {
            assert(b.successors_upto(p, n) == b.successors_upto(p, n - 1));
        }
    }
}

/// Every successor lies on the grid: no produced position has a column or row
/// below zero or at or beyond the grid's width or height.
pub proof fn lemma_successors_in_bounds(b: Board, p: Pos)
    ensures
        forall|i: int| 0 <= i < b.spec_successors(p).len()
            ==> b.pos_on_board(#[trigger] b.spec_successors(p)[i].pos),
{
    lemma_upto_in_bounds(b, p, b.moveable_directions@.len() as int);
}

/// With the 8-direction mask, on a grid at least 2 cells wide and 2 cells
/// high, each of the four corner cells has exactly 3 successors.
pub proof fn lemma_corner_count_diag(b: Board, p: Pos)
    requires
        b.width >= 2,
        b.height >= 2,
        b.moveable_directions@ == diag_deltas(),
        b.corner(p),
    ensures
        b.spec_successors(p).len() == 3,
{
    reveal_with_fuel(Board::successors_upto, 9);
}

/// With the 8-direction mask, every strictly interior cell has exactly 8
/// successors.
pub proof fn lemma_interior_count_diag(b: Board, p: Pos)
    requires
        b.moveable_directions@ == diag_deltas(),
        b.interior(p),
    ensures
        b.spec_successors(p).len() == 8,
{
    reveal_with_fuel(Board::successors_upto, 9);
}

/// With the 4-direction mask, on a grid at least 2 cells wide and 2 cells
/// high, each corner cell other than the top-right one has exactly 2
/// successors. The top-right corner is the exception: the asymmetric mask
/// holds no south delta, and its east and south-east deltas leave the grid
/// there (see `lemma_top_right_count_ortho`).
pub proof fn lemma_corner_count_ortho(b: Board, p: Pos)
    requires
        b.width >= 2,
        b.height >= 2,
        b.moveable_directions@ == ortho_deltas(),
        b.corner(p),
        !(p.0 as int == b.width as int - 1 && p.1 == 0),
    ensures
        b.spec_successors(p).len() == 2,
{
    reveal_with_fuel(Board::successors_upto, 5);
}

/// With the 4-direction mask, the top-right corner has exactly 1 successor:
/// only the west delta stays on the grid.
pub proof fn lemma_top_right_count_ortho(b: Board, p: Pos)
    requires
        b.width >= 2,
        b.height >= 2,
        b.moveable_directions@ == ortho_deltas(),
        p.0 as int == b.width as int - 1,
        p.1 == 0,
    ensures
        b.spec_successors(p).len() == 1,
{
    reveal_with_fuel(Board::successors_upto, 5);
}

/// With the 4-direction mask, every strictly interior cell has exactly 4
/// successors.
pub proof fn lemma_interior_count_ortho(b: Board, p: Pos)
    requires
        b.moveable_directions@ == ortho_deltas(),
        b.interior(p),
    ensures
        b.spec_successors(p).len() == 4,
{
    reveal_with_fuel(Board::successors_upto, 5);
}

/// Either movement mask holds at most 8 deltas, never `(0, 0)`, and no delta
/// twice.
pub proof fn lemma_mask_valid(move_diagonal: bool)
    ensures
        spec_surroundings(move_diagonal).len() <= 8,
        forall|i: int| 0 <= i < spec_surroundings(move_diagonal).len()
            ==> #[trigger] spec_surroundings(move_diagonal)[i] != (0i16, 0i16),
        forall|i: int, j: int| 0 <= i < j < spec_surroundings(move_diagonal).len()
            ==> #[trigger] spec_surroundings(move_diagonal)[i]
                != #[trigger] spec_surroundings(move_diagonal)[j],
{
}

/// The glyph overlaid on path cells: ASCII `X`.
pub const MARKER: u8 = 88;

/// The path sequence carried by an optional path argument.
pub open spec fn mover_view(m: Option<Vec<Pos>>) -> Option<Seq<Pos>> {
    match m {
        Some(v) => Some(v@),
        None => None,
    }
}

/// Whether the path visits the cell at column `col`, row `row`.
fn path_hits(ps: &Vec<Pos>, col: u8, row: u8) -> (r: bool)
    ensures
        r == Board::path_marks(ps@, col as int, row as int),
{
    let mut k: usize = 0;
    while k < ps.len()
        invariant
            k <= ps@.len(),
            forall|j: int| 0 <= j < k as int ==> ps@[j] != Pos(col as i16, row as i16),
        decreases ps@.len() - k,
    {
        let p = ps[k];
        if p.0 == col as i16 && p.1 == row as i16 {
            assert(ps@[k as int] == Pos(col as i16, row as i16));
            return true;
        }
        k = k + 1;
    }
    false
}

/// The 8-direction movement mask, in cartesian order: the column delta is the
/// outer loop, the row delta the inner one, and `(0, 0)` is skipped.
pub open spec fn diag_deltas() -> Seq<(i16, i16)> {
    seq![
        (-1i16, -1i16),
        (-1i16, 0i16),
        (-1i16, 1i16),
        (0i16, -1i16),
        (0i16, 1i16),
        (1i16, -1i16),
        (1i16, 0i16),
        (1i16, 1i16),
    ]
}

/// The 4-direction movement mask. Note the asymmetry: it holds north, west,
/// east and the south-east diagonal, not the naive north/south/west/east set.
pub open spec fn ortho_deltas() -> Seq<(i16, i16)> {
    seq![(0i16, -1i16), (-1i16, 0i16), (1i16, 0i16), (1i16, 1i16)]
}

/// The movement mask selected at construction time.
pub open spec fn spec_surroundings(move_diagonal: bool) -> Seq<(i16, i16)> {
    if move_diagonal {
        diag_deltas()
    } else {
        ortho_deltas()
    }
}

/// The first `n` elements of `s` with every `(0, 0)` removed, order kept.
pub open spec fn nonzero_prefix(s: Seq<(i16, i16)>, n: int) -> Seq<(i16, i16)>
    decreases n,
{
    if n <= 0 {
        Seq::empty()
    } else {
        let rest = nonzero_prefix(s, n - 1);
        if s[n - 1] == (0i16, 0i16) {
            rest
        } else {
            rest.push(s[n - 1])
        }
    }
}

/// Relies on itertools' `cartesian_product`: it pairs each element of the
/// first iterator with each element of a fresh clone of the second, in order,
/// with the first iterator as the outer loop. On the two ranges `-1..=1` this
/// yields the nine unit offsets in cartesian order.
#[verifier::external_body]
fn cartesian_unit_offsets() -> (r: Vec<(i16, i16)>)
    ensures
        r@ == cartesian_unit_offsets_seq(),
{
    (-1i16..=1).cartesian_product(-1i16..=1).collect()
}

/// The movement mask for the chosen movement style: all eight unit offsets in
/// cartesian order when diagonal moves are enabled, else the fixed 4-delta set.
pub fn surroundings(move_diagonal: bool) -> (r: Vec<(i16, i16)>)
    ensures
        r@ == spec_surroundings(move_diagonal),
{
    if move_diagonal {
        let all = cartesian_unit_offsets();
        let mut out: Vec<(i16, i16)> = Vec::new();
        let mut i: usize = 0;
        while i < all.len()
            invariant
                i <= all@.len(),
                all@ == cartesian_unit_offsets_seq(),
                out@ == nonzero_prefix(all@, i as int),
            decreases all@.len() - i,
        {
            let d = all[i];
            if !(d.0 == 0 && d.1 == 0) {
                out.push(d);
            }
            i = i + 1;
        }
        proof {
            reveal_with_fuel(nonzero_prefix, 10);
            assert(out@ =~= diag_deltas());
        }
        out
    } else {
        let mut v: Vec<(i16, i16)> = Vec::new();
        v.push((0, -1));
        v.push((-1, 0));
        v.push((1, 0));
        v.push((1, 1));
        proof {
            assert(v@ =~= ortho_deltas());
        }
        v
    }
}

/// The nine unit offsets in cartesian order, `(0, 0)` included.
pub open spec fn cartesian_unit_offsets_seq() -> Seq<(i16, i16)> {
    seq![
        (-1i16, -1i16),
        (-1i16, 0i16),
        (-1i16, 1i16),
        (0i16, -1i16),
        (0i16, 0i16),
        (0i16, 1i16),
        (1i16, -1i16),
        (1i16, 0i16),
        (1i16, 1i16),
    ]
}

} // verus!
