//! The header row: one cell per column, and a splitter per inner boundary.

use vstd::prelude::*;

use crate::column::Column;
use crate::splitter::DragState;
use crate::splitter::Splitter;
use crate::table::spec_resized;
use crate::width::Width;

verus! {

/// One header cell: the column it belongs to, the heading it shows, and
/// the width it is displayed at.
pub struct HeaderCell {
    /// The index of the column the cell heads.
    pub column: usize,
    /// The heading text.
    pub heading: String,
    /// The displayed width, read from the table's width store.
    pub width: Width,
}

/// The rendered description of the header: cells in column order, and one
/// idle splitter for the boundary after each column but the last.
pub struct HeaderRow {
    /// One cell per column, in order.
    pub cells: Vec<HeaderCell>,
    /// One splitter per inner boundary: the splitter at position `i`
    /// resizes column `i`.
    pub splitters: Vec<Splitter>,
}

impl HeaderRow {
    /// What a faithful header for the given columns looks like: cell `i`
    /// shows column `i`'s heading at column `i`'s current width, and the
    /// splitters cover exactly the inner boundaries, all idle.
    pub open spec fn matches(self, cols: Seq<Column>) -> bool {
        &&& self.cells@.len() == cols.len()
        &&& forall|i: int|
            0 <= i < cols.len() ==> {
                &&& (#[trigger] self.cells@[i]).column as int == i
                &&& self.cells@[i].heading == cols[i].heading
                &&& self.cells@[i].width == cols[i].width
            }
        &&& self.splitters@.len() == (if cols.len() == 0 {
            0int
        } else {
            cols.len() - 1
        })
        &&& forall|i: int|
            0 <= i < self.splitters@.len() ==> {
                &&& (#[trigger] self.splitters@[i]).spec_column() == i
                &&& self.splitters@[i].spec_state() == DragState::Idle
            }
    }

    /// Build the header description for the given columns.
    pub fn build(cols: &Vec<Column>) -> (h: HeaderRow)
        ensures
            h.matches(cols@),
    {
        let n = cols.len();
        let mut cells: Vec<HeaderCell> = Vec::new();
        let mut i: usize = 0;
        while i < n
            invariant
                n == cols@.len(),
                i <= n,
                cells@.len() == i as int,
                forall|j: int|
                    0 <= j < i as int ==> {
                        &&& (#[trigger] cells@[j]).column as int == j
                        &&& cells@[j].heading == cols@[j].heading
                        &&& cells@[j].width == cols@[j].width
                    },
            decreases n - i,
        {
            cells.push(HeaderCell {
                column: i,
                heading: cols[i].heading.clone(),
                width: cols[i].width,
            });
            i += 1;
        }
        let mut splitters: Vec<Splitter> = Vec::new();
        let mut b: usize = 0;
        while n > 0 && b < n - 1
            invariant
                n == cols@.len(),
                n == 0 ==> b == 0,
                n > 0 ==> b as int <= n - 1,
                splitters@.len() == b as int,
                forall|j: int|
                    0 <= j < b as int ==> {
                        &&& (#[trigger] splitters@[j]).spec_column() == j
                        &&& splitters@[j].spec_state() == DragState::Idle
                    },
            decreases n - b,
        {
            splitters.push(Splitter::new(b));
            b += 1;
        }
        HeaderRow { cells, splitters }
    }
}

/// Law: a pure width change leaves every other header cell's description
/// unchanged, so a host needs to refresh only the affected cell, never to
/// rebuild the whole header row.
pub proof fn lemma_width_change_touches_one_cell(
    before: HeaderRow,
    after: HeaderRow,
    cols: Seq<Column>,
    i: int,
    w: Width,
    j: int,
)
    requires
        before.matches(cols),
        after.matches(spec_resized(cols, i, w)),
        0 <= j < cols.len(),
        j != i,
    ensures
        after.cells@[j].column == before.cells@[j].column,
        after.cells@[j].heading == before.cells@[j].heading,
        after.cells@[j].width == before.cells@[j].width,
{
    assert(spec_resized(cols, i, w)[j] == cols[j]);
}

} // verus!
