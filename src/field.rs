//! The field: a fixed-size grid of integer cells, stored row by row.

use vstd::prelude::*;

verus! {

/// One grid element: an instruction when the pointer is on it, data otherwise.
pub type BefungeCell = i32;

/// The value of the space character, the no-op instruction that fills a fresh field.
pub const SPACE: i32 = 32;

/// Position of cell `(x, y)` in a row-major store of rows `width` long.
pub open spec fn flat_index(x: int, y: int, width: int) -> int {
    x + y * width
}

/// Every in-bounds coordinate has a slot inside a store of `width * height` cells.
pub proof fn lemma_flat_index_bounds(x: int, y: int, width: int, height: int)
    requires
        0 <= x < width,
        0 <= y < height,
    ensures
        0 <= flat_index(x, y, width) < width * height,
{
    assert(0 <= x + y * width < width * height) by (nonlinear_arith)
        requires
            0 <= x < width,
            0 <= y < height,
    ;
}

/// Distinct in-bounds coordinates have distinct slots.
pub proof fn lemma_flat_index_injective(x1: int, y1: int, x2: int, y2: int, width: int)
    requires
        0 <= x1 < width,
        0 <= x2 < width,
        0 <= y1,
        0 <= y2,
        flat_index(x1, y1, width) == flat_index(x2, y2, width),
    ensures
        x1 == x2,
        y1 == y2,
{
    assert(y1 == y2) by (nonlinear_arith)
        requires
            0 <= x1 < width,
            0 <= x2 < width,
            0 <= y1,
            0 <= y2,
            x1 + y1 * width == x2 + y2 * width,
    ;
}

/// The pieces of `s` between newline characters: `k` newlines make `k + 1` pieces.
pub open spec fn pieces(s: Seq<char>) -> Seq<Seq<char>>
    decreases s.len(),
{
    if s.len() == 0 {
        seq![Seq::empty()]
    } else {
        let p = pieces(s.drop_last());
        if s.last() == '\n' {
            p.push(Seq::empty())
        } else {
            p.update(p.len() - 1, p.last().push(s.last()))
        }
    }
}

pub proof fn lemma_pieces_nonempty(s: Seq<char>)
    ensures
        pieces(s).len() >= 1,
    decreases s.len(),
{
    if s.len() > 0 {
        lemma_pieces_nonempty(s.drop_last());
    }
}

/// The last piece is empty exactly when the text is empty or ends with a newline.
pub proof fn lemma_last_piece_empty(s: Seq<char>)
    ensures
        pieces(s).len() >= 1,
        (pieces(s).last().len() == 0) <==> (s.len() == 0 || s.last() == '\n'),
{
    lemma_pieces_nonempty(s);
    if s.len() > 0 {
        lemma_pieces_nonempty(s.drop_last());
    }
}

/// The number of lines of `s`: a final newline ends the last line and opens no new one.
pub open spec fn line_count(s: Seq<char>) -> nat {
    if s.len() == 0 {
        0
    } else if s.last() == '\n' {
        (pieces(s).len() - 1) as nat
    } else {
        pieces(s).len()
    }
}

/// Line `k` of `s`, without its terminator: a carriage return before a newline
/// belongs to the terminator.
pub open spec fn line_of(s: Seq<char>, k: int) -> Seq<char> {
    let p = pieces(s)[k];
    if k + 1 < pieces(s).len() && p.len() > 0 && p.last() == '\r' {
        p.drop_last()
    } else {
        p
    }
}

/// A character that the field stores from text: one that takes a single byte in UTF-8.
pub open spec fn is_single_unit(c: char) -> bool {
    (c as u32) < 0x80
}

/// Loading copies character `x` of `line`: it exists, and neither it nor any
/// character before it takes more than one byte.
pub open spec fn copies(line: Seq<char>, x: int) -> bool {
    &&& 0 <= x < line.len()
    &&& forall|j: int| 0 <= j <= x ==> is_single_unit(#[trigger] line[j])
}

/// The pieces between newlines, as vectors, followed by the piece in progress.
pub open spec fn split_view(done: Seq<Vec<char>>, cur: Seq<char>) -> Seq<Seq<char>> {
    Seq::new(done.len(), |k: int| done[k]@).push(cur)
}

/// Splits `s` at its newlines.
fn split_pieces(s: &str) -> (r: Vec<Vec<char>>)
    ensures
        r@.len() == pieces(s@).len(),
        forall|k: int| 0 <= k < r@.len() ==> #[trigger] r@[k]@ == pieces(s@)[k],
{
    let mut done: Vec<Vec<char>> = Vec::new();
    let mut cur: Vec<char> = Vec::new();
    broadcast use vstd::string::axiom_spec_iter;
    for c in it: s.chars()
        invariant
            it.seq() == s@,
            split_view(done@, cur@) == pieces(s@.take(it.index())),
    {
        assert(s@.take(it.index() + 1).drop_last() == s@.take(it.index()));
        if c == '\n' {
            done.push(cur);
            cur = Vec::new();
        } else {
            cur.push(c);
        }
        assert(split_view(done@, cur@) =~= pieces(s@.take(it.index() + 1)));
    }
    assert(s@.take(s@.len() as int) == s@);
    done.push(cur);
    assert(Seq::new(done@.len(), |k: int| done@[k]@) =~= pieces(s@));
    done
}

/// The mathematical content of a field: its size and its cells, row by row.
pub struct FieldView {
    pub width: nat,
    pub height: nat,
    pub cells: Seq<i32>,
}

impl FieldView {
    /// The store holds exactly one cell per coordinate, and its size fits a `usize`.
    pub open spec fn wf(self) -> bool {
        &&& self.cells.len() == self.width * self.height
        &&& self.width * self.height <= usize::MAX
        &&& self.width <= usize::MAX
        &&& self.height <= usize::MAX
    }

    pub open spec fn in_bounds(self, x: int, y: int) -> bool {
        0 <= x < self.width && 0 <= y < self.height
    }

    /// The cell at `(x, y)`, or `None` outside the grid.
    pub open spec fn get(self, x: int, y: int) -> Option<i32> {
        if self.in_bounds(x, y) {
            Some(self.cells[flat_index(x, y, self.width as int)])
        } else {
            None
        }
    }

    /// The field with `(x, y)` holding `value`; unchanged outside the grid.
    pub open spec fn set(self, x: int, y: int, value: i32) -> FieldView {
        if self.in_bounds(x, y) {
            FieldView {
                cells: self.cells.update(flat_index(x, y, self.width as int), value),
                ..self
            }
        } else {
            self
        }
    }

    /// What loading `s` leaves at `(x, y)`: character `x` of line `y` where
    /// loading copies it, and the cell as it was everywhere else.
    pub open spec fn load_cell(self, s: Seq<char>, x: int, y: int) -> Option<i32> {
        if self.in_bounds(x, y) && y < line_count(s) && copies(line_of(s, y), x) {
            Some(line_of(s, y)[x] as i32)
        } else {
            self.get(x, y)
        }
    }

    /// A write shows at its own coordinate and nowhere else.
    pub proof fn lemma_get_set(self, x: int, y: int, value: i32, a: int, b: int)
        requires
            self.wf(),
        ensures
            self.set(x, y, value).wf(),
            self.set(x, y, value).get(a, b) == if self.in_bounds(x, y) && a == x && b == y {
                Some(value)
            } else {
                self.get(a, b)
            },
    {
        if self.in_bounds(x, y) {
            lemma_flat_index_bounds(x, y, self.width as int, self.height as int);
            if self.in_bounds(a, b) {
                lemma_flat_index_bounds(a, b, self.width as int, self.height as int);
                if flat_index(x, y, self.width as int) == flat_index(a, b, self.width as int) {
                    lemma_flat_index_injective(x, y, a, b, self.width as int);
                }
            }
        }
    }

    /// A `width` by `height` field of spaces.
    pub open spec fn blank(width: nat, height: nat) -> FieldView {
        FieldView { width, height, cells: Seq::new(width * height, |i: int| SPACE) }
    }
}

/// A new field holds a space at every coordinate on it, and nothing off it.
pub proof fn lemma_blank_field_get(width: nat, height: nat, x: int, y: int)
    ensures
        FieldView::blank(width, height).get(x, y) == if 0 <= x < width && 0 <= y < height {
            Some(SPACE)
        } else {
            None::<i32>
        },
{
    if 0 <= x < width && 0 <= y < height {
        lemma_flat_index_bounds(x, y, width as int, height as int);
    }
}

/// A fixed-size grid of cells.
#[derive(Clone, Debug)]
pub struct FungeField {
    width: usize,
    height: usize,
    cells: Vec<BefungeCell>,
}

impl View for FungeField {
    type V = FieldView;

    closed spec fn view(&self) -> FieldView {
        FieldView { width: self.width as nat, height: self.height as nat, cells: self.cells@ }
    }
}

impl FungeField {
    pub open spec fn wf(&self) -> bool {
        self@.wf()
    }

    /// A `width` by `height` field of spaces.
    pub fn new(width: usize, height: usize) -> (r: Self)
        requires
            width * height <= usize::MAX,
        ensures
            r.wf(),
            r@ == FieldView::blank(width as nat, height as nat),
    {
        let n: usize = width * height;
        let mut cells: Vec<BefungeCell> = Vec::with_capacity(n);
        let mut i: usize = 0;
        while i < n
            invariant
                i <= n,
                cells@ == Seq::new(i as nat, |k: int| SPACE),
            decreases n - i,
        {
            cells.push(SPACE);
            i = i + 1;
        }
        let r = FungeField { width, height, cells };
        assert(r@ =~= FieldView::blank(width as nat, height as nat));
        r
    }

    /// Copies the lines of `input` into the rows, from the top-left corner.
    /// Lines past the last row and characters past the last column are
    /// dropped; a character of more than one UTF-8 byte ends the copy of its
    /// line; cells that no character reaches keep their value.
    fn load_str(&mut self, input: &str)
        requires
            old(self).wf(),
        ensures
            final(self).wf(),
            final(self)@.width == old(self)@.width,
            final(self)@.height == old(self)@.height,
            forall|x: int, y: int| #[trigger]
                final(self)@.get(x, y) == old(self)@.load_cell(input@, x, y),
    {
        let ghost s = input@;
        let ghost start = self@;
        let parts = split_pieces(input);
        proof {
            lemma_last_piece_empty(s);
        }
        let count: usize = if parts[parts.len() - 1].len() == 0 {
            parts.len() - 1
        } else {
            parts.len()
        };
        assert(count == line_count(s));
        let mut y: usize = 0;
        while y < count && y < self.height
            invariant
                self.wf(),
                self@.width == start.width,
                self@.height == start.height,
                start.wf(),
                y <= count,
                count == line_count(s),
                count <= parts@.len(),
                parts@.len() == pieces(s).len(),
                forall|k: int| 0 <= k < parts@.len() ==> #[trigger] parts@[k]@ == pieces(s)[k],
                forall|a: int, b: int| #[trigger]
                    self@.get(a, b) == if b < y {
                        start.load_cell(s, a, b)
                    } else {
                        start.get(a, b)
                    },
            decreases count - y,
        {
            let line = &parts[y];
            let mut len: usize = line.len();
            if y + 1 < parts.len() && len > 0 && line[len - 1] == '\r' {
                len = len - 1;
            }
            assert(line_of(s, y as int) == line@.take(len as int));
            let mut x: usize = 0;
            let mut stopped = false;
            while !stopped && x < len && x < self.width
                invariant
                    self.wf(),
                    self@.width == start.width,
                    self@.height == start.height,
                    start.wf(),
                    y < count,
                    y < start.height,
                    count == line_count(s),
                    len <= line@.len(),
                    line_of(s, y as int) == line@.take(len as int),
                    x <= len,
                    forall|j: int| 0 <= j < x ==> is_single_unit(#[trigger] line@[j]),
                    stopped ==> x < len && !is_single_unit(line@[x as int]),
                    forall|a: int, b: int| #[trigger]
                        self@.get(a, b) == if b < y || (b == y && a < x) {
                            start.load_cell(s, a, b)
                        } else {
                            start.get(a, b)
                        },
                decreases len - x, if stopped { 0int } else { 1int },
            {
                let c = line[x];
                if (c as u32) < 0x80 {
                    let ghost before = self@;
                    self.set(x, y, c as i32);
                    assert forall|a: int, b: int| #[trigger]
                        self@.get(a, b) == if b < y || (b == y && a < x + 1) {
                            start.load_cell(s, a, b)
                        } else {
                            start.get(a, b)
                        } by {
                        before.lemma_get_set(x as int, y as int, c as i32, a, b);
                        if a == x && b == y {
                            assert(copies(line_of(s, y as int), x as int));
                        }
                    }
                    x = x + 1;
                } else {
                    stopped = true;
                }
            }
            assert forall|a: int, b: int| #[trigger]
                self@.get(a, b) == if b < y + 1 {
                    start.load_cell(s, a, b)
                } else {
                    start.get(a, b)
                } by {
                if b == y && a >= x && start.in_bounds(a, b) && a < line_of(s, y as int).len() {
                    assert(!copies(line_of(s, y as int), a)) by {
                        if stopped {
                            assert(!is_single_unit(line_of(s, y as int)[x as int]));
                        }
                    }
                }
            }
            y = y + 1;
        }
    }

    /// A `width` by `height` field of spaces with the lines of `input` copied in
    /// as `load_str` describes.
    pub fn from_str(input: &str, width: usize, height: usize) -> (r: Self)
        requires
            width * height <= usize::MAX,
        ensures
            r.wf(),
            r@.width == width,
            r@.height == height,
            forall|x: int, y: int| #[trigger]
                r@.get(x, y) == FieldView::blank(width as nat, height as nat).load_cell(input@, x, y),
    {
        let mut field = Self::new(width, height);
        field.load_str(input);
        field
    }

    pub fn width(&self) -> (r: usize)
        ensures
            r == self@.width,
    {
        self.width
    }

    pub fn height(&self) -> (r: usize)
        ensures
            r == self@.height,
    {
        self.height
    }

    /// The cell at `(x, y)`, or `None` when the coordinate lies outside the grid.
    pub fn get(&self, x: usize, y: usize) -> (r: Option<BefungeCell>)
        requires
            self.wf(),
        ensures
            r == self@.get(x as int, y as int),
    {
        if x < self.width && y < self.height {
            proof {
                lemma_flat_index_bounds(x as int, y as int, self.width as int, self.height as int);
            }
            Some(self.cells[x + y * self.width])
        } else {
            None
        }
    }

    /// Writes `value` at `(x, y)`; a coordinate outside the grid leaves the field as it was.
    pub fn set(&mut self, x: usize, y: usize, value: i32)
        requires
            old(self).wf(),
        ensures
            final(self).wf(),
            final(self)@ == old(self)@.set(x as int, y as int, value),
    {
        if x < self.width && y < self.height {
            proof {
                lemma_flat_index_bounds(x as int, y as int, self.width as int, self.height as int);
            }
            self.cells.set(x + y * self.width, value);
        }
    }

    /// The cells, row by row.
    pub fn cells(&self) -> (r: &Vec<BefungeCell>)
        ensures
            r@ == self@.cells,
    {
        &self.cells
    }
}

} // verus!
