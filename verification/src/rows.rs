//! The pull-based row production protocol.
//!
//! The table never materializes its row set. For increasing row index it
//! calls an externally supplied [`RowProducer`] with the index and a
//! [`WidthCursor`] that yields the width of the next cell to draw, one
//! column per call, left to right. The producer draws zero or more cells
//! and answers `true` while more rows should be requested; the first
//! `false` marks the row past the end and stops production for the pass.
//! The sequence is forward-only and non-restartable, so memory cost does
//! not grow with the logical row count.

use vstd::prelude::*;

use crate::width::Width;

verus! {

/// The column-width cursor handed to a row producer: it yields the width
/// of the next cell to be drawn, advancing one column per call, left to
/// right. Asking past the last column yields nothing; drawing fewer cells
/// than there are columns is legal.
pub struct WidthCursor {
    widths: Vec<Width>,
    pos: usize,
}

impl WidthCursor {
    /// The widths the cursor walks, in column order.
    pub closed spec fn spec_widths(self) -> Seq<Width> {
        self.widths@
    }

    /// How many widths have been yielded so far — equally, the index of
    /// the next cell to be drawn.
    pub closed spec fn spec_pos(self) -> int {
        self.pos as int
    }

    /// The cursor position never passes the number of columns.
    pub open spec fn wf(self) -> bool {
        0 <= self.spec_pos() <= self.spec_widths().len()
    }

    /// Build a cursor over the given widths, positioned at the first
    /// column.
    pub fn new(widths: Vec<Width>) -> (c: WidthCursor)
        ensures
            c.wf(),
            c.spec_widths() == widths@,
            c.spec_pos() == 0,
    {
        WidthCursor { widths, pos: 0 }
    }

    /// Yield the width of the next cell and advance; past the last column,
    /// yield nothing and stay put.
    pub fn next_width(&mut self) -> (w: Option<Width>)
        requires
            old(self).wf(),
        ensures
            final(self).wf(),
            final(self).spec_widths() == old(self).spec_widths(),
            if old(self).spec_pos() < old(self).spec_widths().len() {
                &&& w == Some(old(self).spec_widths()[old(self).spec_pos()])
                &&& final(self).spec_pos() == old(self).spec_pos() + 1
            } else {
                &&& w is None
                &&& final(self).spec_pos() == old(self).spec_pos()
            },
    {
        if self.pos < self.widths.len() {
            let w = self.widths[self.pos];
            self.pos = self.pos + 1;
            Some(w)
        } else {
            None
        }
    }

    /// How many cells the producer has drawn so far in this row.
    pub fn drawn(&self) -> (n: usize)
        ensures
            n as int == self.spec_pos(),
    {
        self.pos
    }

    /// Rewind to the first column for the next row.
    pub fn reset(&mut self)
        ensures
            final(self).wf(),
            final(self).spec_widths() == old(self).spec_widths(),
            final(self).spec_pos() == 0,
    {
        self.pos = 0;
    }
}

/// The row production interface: the contract boundary through which the
/// surrounding application feeds body content into the table, one row per
/// call, without the table depending on the data's shape.
pub trait RowProducer {
    /// Whether a row exists at `index`: the producer answers `true` there.
    /// Production runs through the indices in order and stops permanently
    /// at the first index where this is false.
    ///
    /// Unless an implementation says otherwise, nothing is known to end
    /// the sequence, so proofs cannot drive a render pass over it; an
    /// implementation overrides this to say where its rows stop.
    open spec fn spec_continues(&self, index: int) -> bool {
        true
    }

    /// Draw the row at `index`, pulling one width from `cursor` per cell
    /// drawn (drawing fewer cells than there are columns is legal), and
    /// answer `true` while more rows should be requested; `false` marks
    /// the first row past the end.
    fn produce(&self, index: usize, cursor: &mut WidthCursor) -> (more: bool)
        requires
            old(cursor).wf(),
        ensures
            more == self.spec_continues(index as int);
}

/// A producer with rows exactly at the indices below a fixed limit, each
/// drawn without cells: the simplest body a host can supply.
pub struct RowLimit {
    /// The number of rows; the producer stops at this index.
    pub limit: usize,
}

impl RowProducer for RowLimit {
    open spec fn spec_continues(&self, index: int) -> bool {
        index < self.limit as int
    }

    fn produce(&self, index: usize, _cursor: &mut WidthCursor) -> (more: bool) {
        index < self.limit
    }
}

/// Whether a row index is odd. Row parity alternates by construction, so
/// striped styling needs no stored state; this names the parity readers
/// should use.
pub open spec fn spec_odd_row(index: int) -> bool {
    index % 2 == 1
}

/// Whether a row index is odd, for striped styling.
pub fn odd_row(index: usize) -> (r: bool)
    ensures
        r == spec_odd_row(index as int),
{
    index % 2 == 1
}

/// Law: the row sequence stops at exactly one index — whatever drives the
/// pass, the number of rendered rows is determined by the producer alone.
pub proof fn lemma_rows_rendered_unique<P: RowProducer>(p: &P, r1: int, r2: int)
    requires
        0 <= r1,
        0 <= r2,
        forall|j: int| 0 <= j < r1 ==> p.spec_continues(j),
        !p.spec_continues(r1),
        forall|j: int| 0 <= j < r2 ==> p.spec_continues(j),
        !p.spec_continues(r2),
    ensures
        r1 == r2,
{
    if r1 < r2 {
        assert(p.spec_continues(r1));
    }
    if r2 < r1 {
        assert(p.spec_continues(r2));
    }
}

/// Law: a producer that answers `true` exactly below its limit renders
/// exactly `limit` rows.
pub proof fn lemma_limit_producer_stops_at_limit(p: &RowLimit, r: int)
    requires
        0 <= r,
        forall|j: int| 0 <= j < r ==> p.spec_continues(j),
        !p.spec_continues(r),
    ensures
        r == p.limit as int,
{
    if r > p.limit as int {
        assert(p.spec_continues(p.limit as int));
    }
}

} // verus!
