use std::cell::Cell;
use std::cell::RefCell;

use table_core::rows::odd_row;
use table_core::rows::RowLimit;
use table_core::rows::RowProducer;
use table_core::rows::WidthCursor;
use table_core::table::Table;
use table_core::width::Width;

/// A host-side producer: draws one cell per column by pulling every width
/// the cursor offers, and records what it saw.
struct CountingRows {
    stop: usize,
    calls: Cell<usize>,
    widths_seen: RefCell<Vec<Width>>,
}

impl RowProducer for CountingRows {
    fn produce(&self, index: usize, cursor: &mut WidthCursor) -> bool {
        self.calls.set(self.calls.get() + 1);
        if index >= self.stop {
            return false;
        }
        while let Some(w) = cursor.next_width() {
            self.widths_seen.borrow_mut().push(w);
        }
        true
    }
}

fn headings(names: &[&str]) -> Vec<String> {
    names.iter().map(|n| n.to_string()).collect()
}

#[test]
fn ten_rows_then_production_stops() {
    let mut t = Table::new(headings(&["a", "b"]));
    let producer = RowLimit { limit: 10 };
    let pass = t.render_pass(&producer);
    assert_eq!(pass.rows_rendered, 10);
}

#[test]
fn false_at_index_five_renders_five_rows() {
    let mut t = Table::new(headings(&["a", "b"]));
    let producer = RowLimit { limit: 5 };
    let pass = t.render_pass(&producer);
    assert_eq!(pass.rows_rendered, 5);
}

#[test]
fn empty_producer_renders_no_rows() {
    let mut t = Table::new(headings(&["a"]));
    let pass = t.render_pass(&RowLimit { limit: 0 });
    assert_eq!(pass.rows_rendered, 0);
}

#[test]
fn render_pass_serves_the_layout_request() {
    let mut t = Table::new(headings(&["a", "b"]));
    t.resize(0, Width::Fixed(10));
    assert!(t.needs_layout());
    t.render_pass(&RowLimit { limit: 3 });
    assert!(!t.needs_layout());
}

#[test]
fn repeated_passes_rerender_from_row_zero() {
    let mut t = Table::new(headings(&["a"]));
    let producer = RowLimit { limit: 4 };
    let first = t.render_pass(&producer);
    let second = t.render_pass(&producer);
    assert_eq!(first.rows_rendered, 4);
    assert_eq!(second.rows_rendered, 4);
}

#[test]
fn render_pass_header_matches_columns() {
    let mut t = Table::with_widths(
        headings(&["Status", "Job", "Elapsed"]),
        vec![Width::Fixed(100), Width::Stretch(2), Width::Percentage(30)],
    );
    let pass = t.render_pass(&RowLimit { limit: 1 });
    let header = pass.header;
    assert_eq!(header.cells.len(), 3);
    assert_eq!(header.cells[0].heading, "Status");
    assert_eq!(header.cells[1].heading, "Job");
    assert_eq!(header.cells[2].heading, "Elapsed");
    assert_eq!(header.cells[0].width, Width::Fixed(100));
    assert_eq!(header.cells[1].width, Width::Stretch(2));
    assert_eq!(header.cells[2].width, Width::Percentage(30));
    assert_eq!(header.splitters.len(), 2);
}

#[test]
fn cursor_yields_widths_in_order() {
    let mut c = WidthCursor::new(vec![
        Width::Fixed(10),
        Width::Stretch(2),
        Width::Percentage(30),
    ]);
    assert_eq!(c.drawn(), 0);
    assert_eq!(c.next_width(), Some(Width::Fixed(10)));
    assert_eq!(c.next_width(), Some(Width::Stretch(2)));
    assert_eq!(c.drawn(), 2);
    assert_eq!(c.next_width(), Some(Width::Percentage(30)));
    assert_eq!(c.next_width(), None);
    assert_eq!(c.drawn(), 3);
}

#[test]
fn cursor_past_the_last_column_stays_put() {
    let mut c = WidthCursor::new(vec![Width::Fixed(5)]);
    assert_eq!(c.next_width(), Some(Width::Fixed(5)));
    assert_eq!(c.next_width(), None);
    assert_eq!(c.next_width(), None);
    assert_eq!(c.drawn(), 1);
}

#[test]
fn cursor_reset_rewinds_to_the_first_column() {
    let mut c = WidthCursor::new(vec![Width::Fixed(5), Width::Fixed(6)]);
    c.next_width();
    c.next_width();
    c.reset();
    assert_eq!(c.drawn(), 0);
    assert_eq!(c.next_width(), Some(Width::Fixed(5)));
}

#[test]
fn cursor_over_no_columns_yields_nothing() {
    let mut c = WidthCursor::new(Vec::new());
    assert_eq!(c.next_width(), None);
    assert_eq!(c.drawn(), 0);
}

#[test]
fn external_producer_draws_cells_at_current_widths() {
    let mut t = Table::with_widths(
        headings(&["a", "b"]),
        vec![Width::Fixed(10), Width::Fixed(20)],
    );
    let p = CountingRows {
        stop: 2,
        calls: Cell::new(0),
        widths_seen: RefCell::new(Vec::new()),
    };
    let pass = t.render_pass(&p);
    assert_eq!(pass.rows_rendered, 2);
    // Rows 0 and 1, plus the call that signalled the end — and none after.
    assert_eq!(p.calls.get(), 3);
    assert_eq!(
        p.widths_seen.into_inner(),
        vec![
            Width::Fixed(10),
            Width::Fixed(20),
            Width::Fixed(10),
            Width::Fixed(20),
        ]
    );
}

#[test]
fn row_parity_alternates() {
    assert!(!odd_row(0));
    assert!(odd_row(1));
    assert!(!odd_row(2));
    assert!(odd_row(3));
}
