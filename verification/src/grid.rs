//! The cell grid for the precomputed direction-table view.
//!
//! A grid is built from an origin cell and the 64 raw displacement pairs
//! read out of the ROM: every displacement whose target lands inside the
//! grid gets a numbered cell, numbered in the order the pairs appear, and
//! later placements overwrite earlier cells. The remaining methods give
//! each cell its fill color and optional text label for rendering.

use vstd::prelude::*;
use vstd::string::StringExecFns;

verus! {

/// One cell of the direction-table view.
#[derive(Clone, Copy, Debug, PartialEq, Eq, Structural)]
pub enum GridCell {
    /// No table entry lands here.
    Empty,
    /// The cell the displacements are measured from.
    Origin,
    /// The target of the table entry with this index.
    Dir(u8),
}

/// The mathematical view of a cell matrix: a sequence of rows.
pub open spec fn rows_view(cells: Seq<Vec<GridCell>>) -> Seq<Seq<GridCell>> {
    cells.map_values(|row: Vec<GridCell>| row@)
}

/// A rectangular grid of cells, rows outermost.
#[derive(Debug)]
pub struct Grid {
    pub cells: Vec<Vec<GridCell>>,
}

impl View for Grid {
    type V = Seq<Seq<GridCell>>;

    open spec fn view(&self) -> Seq<Seq<GridCell>> {
        rows_view(self.cells@)
    }
}

/// Whether displacement `d` from origin `(ox, oy)` lands inside a
/// `w` by `h` grid.
pub open spec fn dir_in_range(w: int, h: int, ox: int, oy: int, d: (i8, i8)) -> bool {
    &&& 0 <= ox + (d.0 as int) < w
    &&& 0 <= oy + (d.1 as int) < h
}

/// How many of the displacements land inside the grid.
pub open spec fn placed_count(w: int, h: int, ox: int, oy: int, dirs: Seq<(i8, i8)>) -> int
    decreases dirs.len(),
{
    if dirs.len() == 0 {
        0
    } else {
        placed_count(w, h, ox, oy, dirs.drop_last()) + (if dir_in_range(
            w,
            h,
            ox,
            oy,
            dirs.last(),
        ) {
            1int
        } else {
            0int
        })
    }
}

/// The `h` by `w` grid of empty cells.
pub open spec fn empty_grid(w: int, h: int) -> Seq<Seq<GridCell>> {
    Seq::new(h as nat, |y: int| Seq::new(w as nat, |x: int| GridCell::Empty))
}

/// The empty grid with the origin cell marked.
pub open spec fn grid_init(w: int, h: int, ox: int, oy: int) -> Seq<Seq<GridCell>> {
    empty_grid(w, h).update(oy, empty_grid(w, h)[oy].update(ox, GridCell::Origin))
}

/// Place the displacements one after the other onto `cells`: each one that
/// lands inside the grid overwrites its target cell with the index it has
/// among the in-range displacements so far (wrapped to a byte, as the
/// original table indices are bytes).
pub open spec fn place_dirs(
    cells: Seq<Seq<GridCell>>,
    w: int,
    h: int,
    ox: int,
    oy: int,
    dirs: Seq<(i8, i8)>,
) -> Seq<Seq<GridCell>>
    decreases dirs.len(),
{
    if dirs.len() == 0 {
        cells
    } else {
        let prev = place_dirs(cells, w, h, ox, oy, dirs.drop_last());
        let d = dirs.last();
        if dir_in_range(w, h, ox, oy, d) {
            let x = ox + d.0 as int;
            let y = oy + d.1 as int;
            let label = (placed_count(w, h, ox, oy, dirs.drop_last()) % 256) as u8;
            prev.update(y, prev[y].update(x, GridCell::Dir(label)))
        } else {
            prev
        }
    }
}

/// The grid that `Grid::new` builds: origin marked, then all in-range
/// displacements placed in order.
pub open spec fn grid_spec(w: int, h: int, ox: int, oy: int, dirs: Seq<(i8, i8)>) -> Seq<
    Seq<GridCell>,
> {
    place_dirs(grid_init(w, h, ox, oy), w, h, ox, oy, dirs)
}

/// Placement touches only cells inside the grid, so it keeps the row count
/// and every row length.
pub proof fn lemma_place_dirs_dims(
    cells: Seq<Seq<GridCell>>,
    w: int,
    h: int,
    ox: int,
    oy: int,
    dirs: Seq<(i8, i8)>,
)
    requires
        cells.len() == h,
        forall|y: int| 0 <= y < h ==> (#[trigger] cells[y]).len() == w,
    ensures
        place_dirs(cells, w, h, ox, oy, dirs).len() == h,
        forall|y: int|
            0 <= y < h ==> (#[trigger] place_dirs(cells, w, h, ox, oy, dirs)[y]).len() == w,
    decreases dirs.len(),
{
    if dirs.len() == 0 {
    } else {
        lemma_place_dirs_dims(cells, w, h, ox, oy, dirs.drop_last());
    }
}

/// Fill color of a cell: light gray when empty, yellow for the origin,
/// white for a table entry.
pub open spec fn spec_cell_color(c: GridCell) -> Seq<u8> {
    match c {
        GridCell::Empty => seq![0xC0u8, 0xC0u8, 0xC0u8],
        GridCell::Origin => seq![0xFFu8, 0xFFu8, 0x00u8],
        GridCell::Dir(_) => seq![0xFFu8, 0xFFu8, 0xFFu8],
    }
}

/// The uppercase hex digit for a value in [0, 16).
pub open spec fn hex_char(n: int) -> char {
    if n == 0 {
        '0'
    } else if n == 1 {
        '1'
    } else if n == 2 {
        '2'
    } else if n == 3 {
        '3'
    } else if n == 4 {
        '4'
    } else if n == 5 {
        '5'
    } else if n == 6 {
        '6'
    } else if n == 7 {
        '7'
    } else if n == 8 {
        '8'
    } else if n == 9 {
        '9'
    } else if n == 10 {
        'A'
    } else if n == 11 {
        'B'
    } else if n == 12 {
        'C'
    } else if n == 13 {
        'D'
    } else if n == 14 {
        'E'
    } else {
        'F'
    }
}

/// The two-digit uppercase hex spelling of a byte.
pub open spec fn spec_hex_byte(b: u8) -> Seq<char> {
    seq![hex_char(b as int / 16), hex_char(b as int % 16)]
}

/// Label colors for the table-entry cells, indexed by the high two bits of
/// the entry index: black, blue, green, red.
pub const DIR_TEXT_COLORS: [[u8; 3]; 4] = [
    [0x00, 0x00, 0x00],
    [0x00, 0x00, 0xFF],
    [0x00, 0x80, 0x00],
    [0xFF, 0x00, 0x00],
];

/// Label color of the table entry with index `d`.
pub open spec fn spec_dir_text_color(d: u8) -> Seq<u8> {
    DIR_TEXT_COLORS@[d as int / 16]@
}

/// The uppercase hex digit character for `n`.
pub fn hex_digit(n: u8) -> (r: &'static str)
    requires
        n < 16,
    ensures
        r@.len() == 1,
        r@[0] == hex_char(n as int),
{
    proof {
        reveal_strlit("0");
        reveal_strlit("1");
        reveal_strlit("2");
        reveal_strlit("3");
        reveal_strlit("4");
        reveal_strlit("5");
        reveal_strlit("6");
        reveal_strlit("7");
        reveal_strlit("8");
        reveal_strlit("9");
        reveal_strlit("A");
        reveal_strlit("B");
        reveal_strlit("C");
        reveal_strlit("D");
        reveal_strlit("E");
        reveal_strlit("F");
    }
    match n {
        0 => "0",
        1 => "1",
        2 => "2",
        3 => "3",
        4 => "4",
        5 => "5",
        6 => "6",
        7 => "7",
        8 => "8",
        9 => "9",
        10 => "A",
        11 => "B",
        12 => "C",
        13 => "D",
        14 => "E",
        _ => "F",
    }
}

impl Grid {
    /// A well-formed grid is a nonempty rectangle.
    pub open spec fn wf(self) -> bool {
        &&& self@.len() > 0
        &&& self@[0].len() > 0
        &&& forall|y: int| 0 <= y < self@.len() ==> (#[trigger] self@[y]).len() == self@[0].len()
    }

    /// Build the `w` by `h` table view: the origin cell marked, then each
    /// displacement of `dirs` that lands inside the grid overwriting its
    /// target cell with its index among the in-range displacements.
    pub fn new(w: usize, h: usize, origin: (i32, i32), dirs: &[(i8, i8)]) -> (g: Grid)
        requires
            0 < w,
            0 < h,
            0 <= origin.0 && (origin.0 as int) < w as int,
            0 <= origin.1 && (origin.1 as int) < h as int,
        ensures
            g@ == grid_spec(w as int, h as int, origin.0 as int, origin.1 as int, dirs@),
            g.wf(),
            g@.len() == h as int,
            forall|y: int| 0 <= y < h as int ==> (#[trigger] g@[y]).len() == w as int,
    {
        let ghost wi = w as int;
        let ghost hi = h as int;
        let ghost oxi = origin.0 as int;
        let ghost oyi = origin.1 as int;

        let mut cells: Vec<Vec<GridCell>> = Vec::new();
        let mut y: usize = 0;
        while y < h
            invariant
                y <= h,
                cells@.len() == y as int,
                forall|j: int|
                    0 <= j < y as int ==> (#[trigger] cells@[j])@ == Seq::new(
                        w as nat,
                        |x: int| GridCell::Empty,
                    ),
            decreases h - y,
        {
            let mut row: Vec<GridCell> = Vec::new();
            let mut x: usize = 0;
            while x < w
                invariant
                    x <= w,
                    row@.len() == x as int,
                    forall|i: int| 0 <= i < x as int ==> row@[i] == GridCell::Empty,
                decreases w - x,
            {
                row.push(GridCell::Empty);
                x += 1;
            }
            assert(row@ =~= Seq::new(w as nat, |x: int| GridCell::Empty));
            cells.push(row);
            y += 1;
        }
        assert(rows_view(cells@) =~= empty_grid(wi, hi));

        let oy = origin.1 as usize;
        let ox = origin.0 as usize;
        cells[oy][ox] = GridCell::Origin;
        assert(rows_view(cells@) =~= grid_init(wi, hi, oxi, oyi));

        let dn = dirs.len();
        let mut k: usize = 0;
        let mut i: usize = 0;
        while i < dn
            invariant
                i <= dn,
                dn == dirs@.len(),
                0 < w,
                0 < h,
                wi == w as int,
                hi == h as int,
                oxi == origin.0 as int,
                oyi == origin.1 as int,
                0 <= oxi < wi,
                0 <= oyi < hi,
                k == placed_count(wi, hi, oxi, oyi, dirs@.take(i as int)),
                k <= i,
                rows_view(cells@) == grid_spec(wi, hi, oxi, oyi, dirs@.take(i as int)),
            decreases dn - i,
        {
            proof {
                lemma_place_dirs_dims(
                    grid_init(wi, hi, oxi, oyi),
                    wi,
                    hi,
                    oxi,
                    oyi,
                    dirs@.take(i as int),
                );
                assert(dirs@.take(i as int + 1).drop_last() =~= dirs@.take(i as int));
                assert(dirs@.take(i as int + 1).last() == dirs@[i as int]);
            }
            let ghost prev = rows_view(cells@);
            let (dx, dy) = dirs[i];
            let tx: i64 = origin.0 as i64 + dx as i64;
            let ty: i64 = origin.1 as i64 + dy as i64;
            if 0 <= tx && 0 <= ty {
                let txu = tx as usize;
                let tyu = ty as usize;
                if txu < w && tyu < h {
                    let label: u8 = (k % 256) as u8;
                    proof {
                        let gs = grid_spec(wi, hi, oxi, oyi, dirs@.take(i as int));
                        assert(gs[tyu as int].len() == wi);
                        assert(cells@[tyu as int]@ == gs[tyu as int]);
                    }
                    cells[tyu][txu] = GridCell::Dir(label);
                    assert(rows_view(cells@) =~= prev.update(
                        ty as int,
                        prev[ty as int].update(tx as int, GridCell::Dir(label)),
                    ));
                    k += 1;
                }
            }
            assert(rows_view(cells@) == grid_spec(wi, hi, oxi, oyi, dirs@.take(i as int + 1)));
            i += 1;
        }
        assert(dirs@.take(dn as int) =~= dirs@);
        proof {
            lemma_place_dirs_dims(grid_init(wi, hi, oxi, oyi), wi, hi, oxi, oyi, dirs@);
        }
        Grid { cells }
    }

    /// Grid-line color: black.
    pub fn line_color(&self) -> (r: [u8; 3])
        ensures
            r@ == seq![0x00u8, 0x00u8, 0x00u8],
    {
        let r = [0x00u8, 0x00u8, 0x00u8];
        assert(r@ =~= seq![0x00u8, 0x00u8, 0x00u8]);
        r
    }

    /// Width of a rendered cell in pixels.
    pub fn cell_width(&self) -> (r: u32)
        ensures
            r == 24u32,
    {
        24
    }

    /// Height of a rendered cell in pixels.
    pub fn cell_height(&self) -> (r: u32)
        ensures
            r == 24u32,
    {
        24
    }

    /// Font size of the cell labels in pixels.
    pub fn font_size(&self) -> (r: u32)
        ensures
            r == 24u32,
    {
        24
    }

    /// Fill color of the cell at `(x, y)`.
    pub fn cell_color(&self, x: usize, y: usize) -> (r: [u8; 3])
        requires
            self.wf(),
            y < self@.len(),
            x < self@[0].len(),
        ensures
            r@ == spec_cell_color(self@[y as int][x as int]),
    {
        assert(self.cells@[y as int]@ == self@[y as int]);
        let r = match self.cells[y][x] {
            GridCell::Empty => [0xC0u8, 0xC0u8, 0xC0u8],
            GridCell::Origin => [0xFFu8, 0xFFu8, 0x00u8],
            GridCell::Dir(_) => [0xFFu8, 0xFFu8, 0xFFu8],
        };
        assert(r@ =~= spec_cell_color(self@[y as int][x as int]));
        r
    }

    /// Text label of the cell at `(x, y)`, with its color: nothing on an
    /// empty cell, the bullet mark on the origin, and the two-digit
    /// uppercase hex index on a table-entry cell, colored by the index's
    /// high bits.
    pub fn cell_text(&self, x: usize, y: usize) -> (r: Option<(String, [u8; 3])>)
        requires
            self.wf(),
            y < self@.len(),
            x < self@[0].len(),
            self@[y as int][x as int] matches GridCell::Dir(d) ==> d < 64,
        ensures
            self@[y as int][x as int] is Empty <==> r is None,
            self@[y as int][x as int] is Origin ==> (r matches Some(t) && t.0@ == "弾"@ && t.1@
                == seq![0x00u8, 0x00u8, 0x00u8]),
            self@[y as int][x as int] matches GridCell::Dir(d) ==> (r matches Some(t) && t.0@
                == spec_hex_byte(d) && t.1@ == spec_dir_text_color(d)),
    {
        assert(self.cells@[y as int]@ == self@[y as int]);
        match self.cells[y][x] {
            GridCell::Empty => None,
            GridCell::Origin => {
                let color = [0x00u8, 0x00u8, 0x00u8];
                assert(color@ =~= seq![0x00u8, 0x00u8, 0x00u8]);
                Some(("弾".to_owned(), color))
            },
            GridCell::Dir(d) => {
                let hi = hex_digit(d / 16);
                let lo = hex_digit(d % 16);
                let text = hi.to_owned().concat(lo);
                assert(text@ =~= spec_hex_byte(d));
                let color = DIR_TEXT_COLORS[(d / 16) as usize];
                Some((text, color))
            },
        }
    }

    /// Number of columns.
    pub fn col_count(&self) -> (r: usize)
        requires
            self.wf(),
        ensures
            r as int == self@[0].len(),
    {
        self.cells[0].len()
    }

    /// Number of rows.
    pub fn row_count(&self) -> (r: usize)
        requires
            self.wf(),
        ensures
            r as int == self@.len(),
    {
        self.cells.len()
    }
}

} // verus!
