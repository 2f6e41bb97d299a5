//! Scanning a matrix keypad for a single pressed key.
//!
//! A matrix keypad wires each switch to one row line and one column line.
//! The caller drives the rows and reads the columns once per poll, records
//! the readings in a [`KeyMatrixState`], and asks [`KeyMatrixState::first_pressed`]
//! for the first pressed cell in row-major order. Blocking until a key is
//! pressed is the caller's loop: poll, ask, repeat; a press is reported on
//! the very poll that carries it, with no minimum hold time.

use vstd::prelude::*;

verus! {

/// A logic level read from a column line. Under the pull-up convention an
/// open switch reads `High`; a pressed switch pulls its column to `Low`.
#[derive(Clone, Copy, PartialEq, Eq, Structural, Debug)]
pub enum Level {
    High,
    Low,
}

/// The active-low convention: a reading of logical low means pressed.
pub open spec fn level_pressed(l: Level) -> bool {
    l is Low
}

impl Level {
    /// Whether this reading means the key is pressed.
    pub fn is_pressed(self) -> (r: bool)
        ensures
            r == level_pressed(self),
    {
        match self {
            Level::Low => true,
            Level::High => false,
        }
    }
}

/// One physical key, identified by its row and column in the matrix.
#[derive(Clone, Copy, PartialEq, Eq, Structural, Debug)]
pub struct KeyPosition {
    pub row: usize,
    pub col: usize,
}

/// Cell (i, j) comes strictly before cell (r, c) in row-major order.
pub open spec fn row_major_before(i: int, j: int, r: int, c: int) -> bool {
    i < r || (i == r && j < c)
}

/// One full scan of the key matrix: a rectangular grid of level readings,
/// one per (row, column) cell, produced freshly on each poll.
pub struct KeyMatrixState {
    cols: usize,
    readings: Vec<Vec<Level>>,
}

impl KeyMatrixState {
    /// Number of scan rows.
    pub closed spec fn spec_rows(self) -> nat {
        self.readings@.len()
    }

    /// Number of column lines per row.
    pub closed spec fn spec_cols(self) -> nat {
        self.cols as nat
    }

    /// The reading recorded for one cell.
    pub closed spec fn reading_spec(self, row: int, col: int) -> Level {
        self.readings@[row]@[col]
    }

    /// The grid is rectangular: every row holds one reading per column line.
    pub closed spec fn wf(self) -> bool {
        forall|i: int|
            0 <= i < self.readings@.len() ==> (#[trigger] self.readings@[i])@.len() == self.cols
    }

    /// A fresh scan with every cell released (reading `High`).
    pub fn new(rows: usize, cols: usize) -> (m: KeyMatrixState)
        ensures
            m.wf(),
            m.spec_rows() == rows,
            m.spec_cols() == cols,
            forall|i: int, j: int|
                0 <= i < rows && 0 <= j < cols ==> m.reading_spec(i, j) == Level::High,
    {
        let mut readings: Vec<Vec<Level>> = Vec::new();
        let mut i: usize = 0;
        while i < rows
            invariant
                i <= rows,
                readings@.len() == i,
                forall|k: int| 0 <= k < i ==> (#[trigger] readings@[k])@.len() == cols,
                forall|k: int, j: int|
                    0 <= k < i && 0 <= j < cols ==> readings@[k]@[j] == Level::High,
            decreases rows - i,
        {
            let mut row: Vec<Level> = Vec::new();
            let mut j: usize = 0;
            while j < cols
                invariant
                    j <= cols,
                    row@.len() == j,
                    forall|l: int| 0 <= l < j ==> row@[l] == Level::High,
                decreases cols - j,
            {
                row.push(Level::High);
                j += 1;
            }
            readings.push(row);
            i += 1;
        }
        KeyMatrixState { cols, readings }
    }

    /// Record the reading of one cell, leaving every other cell unchanged.
    pub fn set_reading(&mut self, pos: KeyPosition, level: Level)
        requires
            old(self).wf(),
            pos.row < old(self).spec_rows(),
            pos.col < old(self).spec_cols(),
        ensures
            final(self).wf(),
            final(self).spec_rows() == old(self).spec_rows(),
            final(self).spec_cols() == old(self).spec_cols(),
            final(self).reading_spec(pos.row as int, pos.col as int) == level,
            forall|i: int, j: int|
                0 <= i < old(self).spec_rows() && 0 <= j < old(self).spec_cols()
                    && !(i == pos.row && j == pos.col)
                    ==> final(self).reading_spec(i, j) == old(self).reading_spec(i, j),
    {
        let row: &mut Vec<Level> = &mut self.readings[pos.row];
        row[pos.col] = level;
    }

    /// Read one cell back.
    pub fn reading(&self, pos: KeyPosition) -> (r: Level)
        requires
            self.wf(),
            pos.row < self.spec_rows(),
            pos.col < self.spec_cols(),
        ensures
            r == self.reading_spec(pos.row as int, pos.col as int),
    {
        self.readings[pos.row][pos.col]
    }

    /// Number of scan rows.
    pub fn rows(&self) -> (r: usize)
        ensures
            r == self.spec_rows(),
    {
        self.readings.len()
    }

    /// Number of column lines per row.
    pub fn cols(&self) -> (r: usize)
        ensures
            r == self.spec_cols(),
    {
        self.cols
    }

    /// The first pressed cell in row-major scan order, if any cell of this
    /// scan is pressed at all. Every cell scanned earlier reads released.
    pub fn first_pressed(&self) -> (r: Option<KeyPosition>)
        requires
            self.wf(),
        ensures
            match r {
                Some(p) => {
                    &&& p.row < self.spec_rows()
                    &&& p.col < self.spec_cols()
                    &&& level_pressed(self.reading_spec(p.row as int, p.col as int))
                    &&& forall|i: int, j: int|
                        0 <= i && 0 <= j && j < self.spec_cols()
                            && row_major_before(i, j, p.row as int, p.col as int)
                            ==> !level_pressed(self.reading_spec(i, j))
                },
                None => forall|i: int, j: int|
                    0 <= i < self.spec_rows() && 0 <= j < self.spec_cols()
                        ==> !level_pressed(self.reading_spec(i, j)),
            },
    {
        let rows = self.readings.len();
        let mut i: usize = 0;
        while i < rows
            invariant
                self.wf(),
                rows == self.spec_rows(),
                i <= rows,
                forall|k: int, l: int|
                    0 <= k < i && 0 <= l < self.spec_cols()
                        ==> !level_pressed(self.reading_spec(k, l)),
            decreases rows - i,
        {
            let mut j: usize = 0;
            while j < self.cols
                invariant
                    self.wf(),
                    rows == self.spec_rows(),
                    i < rows,
                    j <= self.spec_cols(),
                    forall|k: int, l: int|
                        0 <= k < i && 0 <= l < self.spec_cols()
                            ==> !level_pressed(self.reading_spec(k, l)),
                    forall|l: int| 0 <= l < j ==> !level_pressed(self.reading_spec(i as int, l)),
                decreases self.cols - j,
            {
                if self.readings[i][j].is_pressed() {
                    return Some(KeyPosition { row: i, col: j });
                }
                j += 1;
            }
            i += 1;
        }
        None
    }
}

} // verus!
