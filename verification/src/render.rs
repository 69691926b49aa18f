//! The render pass: header first, then the body rows, pulled one at a
//! time from the producer until it signals the end.
//!
//! Nothing is cached between passes: each pass re-reads the widths and
//! re-drives the producer from row zero, so the producer — not the table —
//! owns whatever data-source state exists.

use vstd::prelude::*;

use crate::header::HeaderRow;
use crate::rows::RowProducer;
use crate::rows::WidthCursor;
use crate::table::Table;

verus! {

/// What one render pass produced: the header description and the number of
/// body rows rendered before the producer signalled the end.
pub struct RenderPass {
    /// The header: one cell per column, one splitter per inner boundary.
    pub header: HeaderRow,
    /// How many rows were rendered: the producer answered `true` at every
    /// index below this and `false` at this index.
    pub rows_rendered: usize,
}

impl Table {
    /// The header description for the current columns.
    pub fn header_row(&self) -> (h: HeaderRow)
        ensures
            h.matches(self.spec_columns()),
    {
        HeaderRow::build(self.columns())
    }

    /// Drive one full render pass: build the header from the column model,
    /// then request rows `0, 1, 2, …` from the producer — each row with a
    /// fresh width cursor over the same width snapshot — until the producer
    /// answers `false`. Serves the pending layout request.
    ///
    /// The producer must have an end; a body that never signals one would
    /// keep the pass running forever.
    pub fn render_pass<P: RowProducer>(&mut self, producer: &P) -> (r: RenderPass)
        requires
            exists|n: int| 0 <= n <= usize::MAX as int && !producer.spec_continues(n),
        ensures
            final(self).spec_columns() == old(self).spec_columns(),
            final(self).spec_sort() == old(self).spec_sort(),
            !final(self).spec_needs_layout(),
            old(self).wf() ==> final(self).wf(),
            r.header.matches(old(self).spec_columns()),
            forall|j: int| 0 <= j < r.rows_rendered as int ==> producer.spec_continues(j),
            !producer.spec_continues(r.rows_rendered as int),
    {
        let header = self.header_row();
        let mut cursor = WidthCursor::new(self.widths());
        let ghost stop = choose|n: int|
            0 <= n <= usize::MAX as int && !producer.spec_continues(n);
        let mut index: usize = 0;
        loop
            invariant
                0 <= stop <= usize::MAX as int,
                !producer.spec_continues(stop),
                (index as int) <= stop,
                forall|j: int| 0 <= j < index as int ==> producer.spec_continues(j),
            ensures
                forall|j: int| 0 <= j < index as int ==> producer.spec_continues(j),
                !producer.spec_continues(index as int),
            decreases stop - index,
        {
            cursor.reset();
            let more = producer.produce(index, &mut cursor);
            if !more {
                break ;
            }
            proof {
                assert((index as int) < stop);
            }
            index += 1;
        }
        self.clear_layout_request();
        RenderPass { header, rows_rendered: index }
    }
}

} // verus!
