use vstd::prelude::*;

verus! {

/// One of the two markers a participant places on the board.
#[derive(Debug, Clone, Copy, PartialEq, Eq, Structural)]
pub enum Piece {
    X,
    O,
}

/// A rectangular grid of cells, each empty or holding one `Piece`.
///
/// The dimensions are fixed at construction; `place` is the sole
/// mutation entry point, and an occupied cell is never overwritten.
pub struct Board {
    pub height: usize,
    pub width: usize,
    pub pieces: Vec<Vec<Option<Piece>>>,
}

impl Board {
    /// The grid really is `height` rows of `width` cells each.
    pub open spec fn wf(self) -> bool {
        &&& self.pieces@.len() == self.height
        &&& forall|r: int|
            0 <= r < self.height ==> (#[trigger] self.pieces@[r])@.len() == self.width
    }

    /// The contents of the cell at row `r`, column `c`.
    pub open spec fn cell(self, r: int, c: int) -> Option<Piece> {
        self.pieces@[r]@[c]
    }

    /// Every cell of row `r` holds `p`.
    pub open spec fn row_wins(self, r: int, p: Piece) -> bool {
        forall|c: int| 0 <= c < self.width ==> #[trigger] self.cell(r, c) == Some(p)
    }

    /// Every cell of column `c` holds `p`.
    pub open spec fn col_wins(self, c: int, p: Piece) -> bool {
        forall|r: int| 0 <= r < self.height ==> #[trigger] self.cell(r, c) == Some(p)
    }

    /// Every cell of the main diagonal (top-left to bottom-right) holds `p`.
    pub open spec fn main_diag_wins(self, p: Piece) -> bool {
        forall|i: int| 0 <= i < self.height ==> #[trigger] self.cell(i, i) == Some(p)
    }

    /// Every cell of the anti-diagonal (top-right to bottom-left) holds `p`.
    pub open spec fn anti_diag_wins(self, p: Piece) -> bool {
        forall|i: int|
            0 <= i < self.height ==> #[trigger] self.cell(self.height - 1 - i, i) == Some(p)
    }

    /// `p` owns at least one full row, full column, or full diagonal.
    pub open spec fn wins(self, p: Piece) -> bool {
        ||| exists|r: int| 0 <= r < self.height && self.row_wins(r, p)
        ||| exists|c: int| 0 <= c < self.width && self.col_wins(c, p)
        ||| self.main_diag_wins(p)
        ||| self.anti_diag_wins(p)
    }

    /// No cell of the grid is empty.
    pub open spec fn full(self) -> bool {
        forall|r: int, c: int|
            0 <= r < self.height && 0 <= c < self.width ==> (#[trigger] self.cell(r, c)) is Some
    }

    /// Every cell of the grid is empty.
    pub open spec fn all_empty(self) -> bool {
        forall|r: int, c: int|
            0 <= r < self.height && 0 <= c < self.width ==> (#[trigger] self.cell(r, c)) is None
    }

    /// Builds a `height` by `width` board with every cell empty.
    pub fn new(height: usize, width: usize) -> (b: Board)
        ensures
            b.wf(),
            b.height == height,
            b.width == width,
            b.all_empty(),
            height > 0 && width > 0 ==> !b.full(),
    {
        let mut pieces: Vec<Vec<Option<Piece>>> = Vec::new();
        let mut i: usize = 0;
        while i < height
            invariant
                i <= height,
                pieces@.len() == i,
                forall|r: int| 0 <= r < i ==> (#[trigger] pieces@[r])@.len() == width,
                forall|r: int, c: int|
                    0 <= r < i && 0 <= c < width ==> (#[trigger] pieces@[r]@[c]) is None,
            decreases height - i,
        {
            let mut row: Vec<Option<Piece>> = Vec::new();
            let mut j: usize = 0;
            while j < width
                invariant
                    j <= width,
                    row@.len() == j,
                    forall|c: int| 0 <= c < j ==> (#[trigger] row@[c]) is None,
                decreases width - j,
            {
                row.push(None);
                j += 1;
            }
            pieces.push(row);
            i += 1;
        }
        let b = Board { height, width, pieces };
        proof {
            if height > 0 && width > 0 {
                assert(b.cell(0, 0) is None);
            }
        }
        b
    }

    /// The contents of the cell at row `row`, column `col`.
    pub fn get(&self, row: usize, col: usize) -> (r: Option<Piece>)
        requires
            self.wf(),
            row < self.height,
            col < self.width,
        ensures
            r == self.cell(row as int, col as int),
    {
        self.pieces[row][col]
    }

    /// Attempts to place `t` at row `row`, column `col`. If that cell is
    /// empty, it is set to `t` and the call succeeds; if it is already
    /// occupied, the board is left unchanged and the call fails.
    pub fn place(&mut self, row: usize, col: usize, t: Piece) -> (r: bool)
        requires
            old(self).wf(),
            row < old(self).height,
            col < old(self).width,
        ensures
            final(self).wf(),
            final(self).height == old(self).height,
            final(self).width == old(self).width,
            r == (old(self).cell(row as int, col as int) is None),
            r ==> final(self).cell(row as int, col as int) == Some(t),
            forall|i: int, j: int|
                0 <= i < old(self).height && 0 <= j < old(self).width
                    && !(i == row as int && j == col as int)
                    ==> #[trigger] final(self).cell(i, j) == old(self).cell(i, j),
            forall|i: int, j: int|
                0 <= i < old(self).height && 0 <= j < old(self).width
                    && old(self).cell(i, j) is Some
                    ==> #[trigger] final(self).cell(i, j) == old(self).cell(i, j),
            !r ==> *final(self) == *old(self),
    {
        match self.pieces[row][col] {
            Some(_) => false,
            None => {
                self.pieces[row][col] = Some(t);
                true
            }
        }
    }

    /// Whether row `row` is entirely filled with `p`.
    fn check_win_row(&self, row: usize, p: Piece) -> (r: bool)
        requires
            self.wf(),
            row < self.height,
        ensures
            r == self.row_wins(row as int, p),
    {
        let mut c: usize = 0;
        while c < self.width
            invariant
                self.wf(),
                row < self.height,
                c <= self.width,
                forall|j: int| 0 <= j < c ==> #[trigger] self.cell(row as int, j) == Some(p),
            decreases self.width - c,
        {
            let v = self.pieces[row][c];
            if v.is_none() || v.unwrap() != p {
                proof {
                    assert(self.cell(row as int, c as int) != Some(p));
                }
                return false;
            }
            c += 1;
        }
        true
    }

    /// Whether column `col` is entirely filled with `p`.
    fn check_win_col(&self, col: usize, p: Piece) -> (r: bool)
        requires
            self.wf(),
            col < self.width,
        ensures
            r == self.col_wins(col as int, p),
    {
        let mut i: usize = 0;
        while i < self.height
            invariant
                self.wf(),
                col < self.width,
                i <= self.height,
                forall|j: int| 0 <= j < i ==> #[trigger] self.cell(j, col as int) == Some(p),
            decreases self.height - i,
        {
            let v = self.pieces[i][col];
            if v.is_none() || v.unwrap() != p {
                proof {
                    assert(self.cell(i as int, col as int) != Some(p));
                }
                return false;
            }
            i += 1;
        }
        true
    }

    /// Whether the main diagonal is entirely filled with `p`.
    /// A diagonal is meaningful only on a square board.
    fn check_win_diag_left(&self, p: Piece) -> (r: bool)
        requires
            self.wf(),
            self.height == self.width,
        ensures
            r == self.main_diag_wins(p),
    {
        let side = self.height;
        let mut i: usize = 0;
        while i < side
            invariant
                self.wf(),
                side == self.height,
                self.height == self.width,
                i <= side,
                forall|j: int| 0 <= j < i ==> #[trigger] self.cell(j, j) == Some(p),
            decreases side - i,
        {
            let v = self.pieces[i][i];
            if v.is_none() || v.unwrap() != p {
                proof {
                    assert(self.cell(i as int, i as int) != Some(p));
                }
                return false;
            }
            i += 1;
        }
        true
    }

    /// Whether the anti-diagonal is entirely filled with `p`.
    /// A diagonal is meaningful only on a square board.
    fn check_win_diag_right(&self, p: Piece) -> (r: bool)
        requires
            self.wf(),
            self.height == self.width,
        ensures
            r == self.anti_diag_wins(p),
    {
        let side = self.height;
        let mut i: usize = 0;
        while i < side
            invariant
                self.wf(),
                side == self.height,
                self.height == self.width,
                i <= side,
                forall|j: int|
                    0 <= j < i ==> #[trigger] self.cell(self.height - 1 - j, j) == Some(p),
            decreases side - i,
        {
            let v = self.pieces[self.height - i - 1][i];
            if v.is_none() || v.unwrap() != p {
                proof {
                    assert(self.cell(self.height - 1 - i as int, i as int) != Some(p));
                }
                return false;
            }
            i += 1;
        }
        true
    }

    /// Whether `p` has won: some full row, full column, main diagonal,
    /// or anti-diagonal consists entirely of cells holding `p`.
    /// Diagonals are meaningful only on a square board.
    pub fn check_win_condition(&self, p: Piece) -> (r: bool)
        requires
            self.wf(),
            self.height == self.width,
        ensures
            r == self.wins(p),
    {
        let mut i: usize = 0;
        while i < self.height
            invariant
                self.wf(),
                self.height == self.width,
                i <= self.height,
                forall|r0: int| 0 <= r0 < i ==> !(#[trigger] self.row_wins(r0, p)),
            decreases self.height - i,
        {
            if self.check_win_row(i, p) {
                return true;
            }
            i += 1;
        }

        let mut j: usize = 0;
        while j < self.height
            invariant
                self.wf(),
                self.height == self.width,
                j <= self.height,
                forall|c0: int| 0 <= c0 < j ==> !(#[trigger] self.col_wins(c0, p)),
                forall|r0: int| 0 <= r0 < self.height ==> !(#[trigger] self.row_wins(r0, p)),
            decreases self.height - j,
        {
            if self.check_win_col(j, p) {
                return true;
            }
            j += 1;
        }

        if self.check_win_diag_left(p) || self.check_win_diag_right(p) {
            return true;
        }

        false
    }

    /// Whether every cell of the grid is occupied by some piece.
    pub fn is_full(&self) -> (r: bool)
        requires
            self.wf(),
        ensures
            r == self.full(),
    {
        let mut i: usize = 0;
        while i < self.height
            invariant
                self.wf(),
                i <= self.height,
                forall|r0: int, c0: int|
                    0 <= r0 < i && 0 <= c0 < self.width
                        ==> (#[trigger] self.cell(r0, c0)) is Some,
            decreases self.height - i,
        {
            let mut j: usize = 0;
            while j < self.width
                invariant
                    self.wf(),
                    i < self.height,
                    j <= self.width,
                    forall|r0: int, c0: int|
                        0 <= r0 < i && 0 <= c0 < self.width
                            ==> (#[trigger] self.cell(r0, c0)) is Some,
                    forall|c0: int|
                        0 <= c0 < j ==> (#[trigger] self.cell(i as int, c0)) is Some,
                decreases self.width - j,
            {
                if self.pieces[i][j].is_none() {
                    proof {
                        assert(self.cell(i as int, j as int) is None);
                    }
                    return false;
                }
                j += 1;
            }
            i += 1;
        }
        true
    }
}

} // verus!
