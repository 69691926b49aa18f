//! The table coordinator: the column array, the authoritative width store,
//! and the sort precedence list.
//!
//! Every consumer of a width holds a column index, not a handle to the
//! value, and re-reads the value from the table's single column array; the
//! table is therefore the one source of truth for widths. Widths are
//! written only by the resize entry points, which clamp below zero and
//! raise a single pending-layout flag; a render pass consumes the flag.

use vstd::prelude::*;

use crate::column::Column;
use crate::width::Width;

verus! {

/// The direction of one sort preference entry.
#[derive(Clone, Copy, Debug, PartialEq, Eq, Structural)]
pub enum SortDirection {
    /// Smallest first.
    Ascending,
    /// Largest first.
    Descending,
}

/// One entry of the sort precedence list: which column to sort by, and in
/// which direction. The first entry is the primary key.
#[derive(Clone, Copy, Debug, PartialEq, Eq, Structural)]
pub struct SortKey {
    /// The identity of the column to sort by.
    pub column: usize,
    /// The direction to sort in.
    pub direction: SortDirection,
}

/// A command for the table: either a width change or a sort preference
/// change. Splitters and external callers both speak this language.
#[derive(Clone, Copy, Debug, PartialEq, Eq, Structural)]
pub enum TableEvent {
    /// Store `new_size` as the width of column `column`.
    ResizeColumn {
        /// The index of the column to resize.
        column: usize,
        /// The width to store; magnitudes below zero are clamped to zero.
        new_size: Width,
    },
    /// Make `column` the primary sort key, sorted in `direction`.
    SetSortPreference {
        /// The identity of the column to sort by.
        column: usize,
        /// The direction to sort in.
        direction: SortDirection,
    },
}

/// A column with its width replaced by the clamped new value; heading and
/// sort identity are kept.
pub open spec fn spec_with_width(c: Column, w: Width) -> Column {
    Column { width: w.spec_clamped(), heading: c.heading, sort_index: c.sort_index }
}

/// The column array after a resize command: a column named by a valid index
/// gets the clamped new width and nothing else changes; an out-of-range
/// index changes nothing.
pub open spec fn spec_resized(cols: Seq<Column>, column: int, w: Width) -> Seq<Column> {
    if 0 <= column < cols.len() {
        cols.update(column, spec_with_width(cols[column], w))
    } else {
        cols
    }
}

/// The precedence list with every entry for column `c` removed; the order
/// of the remaining entries is kept.
pub open spec fn spec_without_column(s: Seq<SortKey>, c: int) -> Seq<SortKey>
    decreases s.len(),
{
    if s.len() == 0 {
        Seq::empty()
    } else if s[0].column as int == c {
        spec_without_column(s.skip(1), c)
    } else {
        seq![s[0]] + spec_without_column(s.skip(1), c)
    }
}

/// The precedence list after a sort preference command: the named column
/// becomes the primary key with the given direction, any earlier entry for
/// it is dropped, and the other entries keep their relative order.
pub open spec fn spec_promoted(s: Seq<SortKey>, key: SortKey) -> Seq<SortKey> {
    seq![key] + spec_without_column(s, key.column as int)
}

/// No two entries of the precedence list name the same column.
pub open spec fn sort_cols_distinct(s: Seq<SortKey>) -> bool {
    forall|i: int, j: int| 0 <= i < j < s.len() ==> s[i].column != s[j].column
}

/// Every entry of the precedence list names a valid column.
pub open spec fn sort_cols_in_range(s: Seq<SortKey>, n: int) -> bool {
    forall|i: int| 0 <= i < s.len() ==> (#[trigger] s[i]).column < n
}

/// Well-formedness of a precedence list over `n` columns.
pub open spec fn sort_wf(s: Seq<SortKey>, n: int) -> bool {
    sort_cols_distinct(s) && sort_cols_in_range(s, n)
}

/// The table: ordered column metadata, the single width store, the sort
/// precedence list, and the pending-layout flag.
pub struct Table {
    columns: Vec<Column>,
    sort: Vec<SortKey>,
    needs_layout: bool,
}

impl Table {
    /// The ordered column metadata.
    pub closed spec fn spec_columns(self) -> Seq<Column> {
        self.columns@
    }

    /// The sort precedence list, primary key first.
    pub closed spec fn spec_sort(self) -> Seq<SortKey> {
        self.sort@
    }

    /// Whether a layout pass is pending.
    pub closed spec fn spec_needs_layout(self) -> bool {
        self.needs_layout
    }

    /// The number of columns.
    pub open spec fn spec_num_columns(self) -> int {
        self.spec_columns().len() as int
    }

    /// The current width of column `i`.
    pub open spec fn spec_width(self, i: int) -> Width {
        self.spec_columns()[i].width
    }

    /// The widths of all columns, in column order.
    pub open spec fn spec_widths(self) -> Seq<Width> {
        Seq::new(self.spec_columns().len(), |i: int| self.spec_columns()[i].width)
    }

    /// Well-formedness: every width is non-negative and the precedence
    /// list names distinct, valid columns. Constructors establish this and
    /// every operation preserves it.
    pub open spec fn wf(self) -> bool {
        &&& forall|i: int|
            0 <= i < self.spec_num_columns() ==> (#[trigger] self.spec_columns()[i]).wf()
        &&& sort_wf(self.spec_sort(), self.spec_num_columns())
    }

    /// Build a table with one column per heading and explicit initial
    /// widths, stored clamped. The lists must pair up; a mismatch is a
    /// caller error. Sorting starts unset and a first layout pass is
    /// pending.
    pub fn with_widths(headings: Vec<String>, widths: Vec<Width>) -> (t: Table)
        requires
            headings@.len() == widths@.len(),
        ensures
            t.wf(),
            t.spec_num_columns() == headings@.len(),
            forall|i: int|
                0 <= i < headings@.len() ==> {
                    &&& (#[trigger] t.spec_columns()[i]).heading == headings@[i]
                    &&& t.spec_columns()[i].width == widths@[i].spec_clamped()
                    &&& t.spec_columns()[i].sort_index as int == i
                },
            t.spec_sort() == Seq::<SortKey>::empty(),
            t.spec_needs_layout(),
    {
        let n = headings.len();
        let mut cols: Vec<Column> = Vec::new();
        let mut i: usize = 0;
        while i < n
            invariant
                n == headings@.len(),
                headings@.len() == widths@.len(),
                i <= n,
                cols@.len() == i as int,
                forall|j: int|
                    0 <= j < i as int ==> {
                        &&& (#[trigger] cols@[j]).heading == headings@[j]
                        &&& cols@[j].width == widths@[j].spec_clamped()
                        &&& cols@[j].sort_index as int == j
                    },
            decreases n - i,
        {
            let heading = headings[i].clone();
            let width = widths[i].clamped();
            cols.push(Column { heading, width, sort_index: i });
            i += 1;
        }
        let t = Table { columns: cols, sort: Vec::new(), needs_layout: true };
        proof {
            assert(t.spec_sort() =~= Seq::<SortKey>::empty());
        }
        t
    }

    /// Build a table with one column per heading, each sized by the default
    /// policy: one equal stretch share per column.
    pub fn new(headings: Vec<String>) -> (t: Table)
        ensures
            t.wf(),
            t.spec_num_columns() == headings@.len(),
            forall|i: int|
                0 <= i < headings@.len() ==> {
                    &&& (#[trigger] t.spec_columns()[i]).heading == headings@[i]
                    &&& t.spec_columns()[i].width == Width::Stretch(1)
                    &&& t.spec_columns()[i].sort_index as int == i
                },
            t.spec_sort() == Seq::<SortKey>::empty(),
            t.spec_needs_layout(),
    {
        let n = headings.len();
        let mut widths: Vec<Width> = Vec::new();
        let mut i: usize = 0;
        while i < n
            invariant
                i <= n,
                widths@.len() == i as int,
                forall|j: int| 0 <= j < i as int ==> widths@[j] == Width::Stretch(1),
            decreases n - i,
        {
            widths.push(Width::Stretch(1));
            i += 1;
        }
        Table::with_widths(headings, widths)
    }

    /// The number of columns.
    pub fn num_columns(&self) -> (n: usize)
        ensures
            n as int == self.spec_num_columns(),
    {
        self.columns.len()
    }

    /// The current width of a valid column; never fails for one.
    pub fn width_of(&self, column: usize) -> (w: Width)
        requires
            (column as int) < self.spec_num_columns(),
        ensures
            w == self.spec_width(column as int),
    {
        self.columns[column].width
    }

    /// A read-only snapshot of the column metadata for rendering.
    pub fn columns(&self) -> (cols: &Vec<Column>)
        ensures
            cols@ == self.spec_columns(),
    {
        &self.columns
    }

    /// A read-only snapshot of the sort precedence list, primary key first.
    pub fn sort_keys(&self) -> (keys: &Vec<SortKey>)
        ensures
            keys@ == self.spec_sort(),
    {
        &self.sort
    }

    /// Whether a layout pass is pending. Any number of width writes since
    /// the last pass leave exactly one pending request.
    pub fn needs_layout(&self) -> (b: bool)
        ensures
            b == self.spec_needs_layout(),
    {
        self.needs_layout
    }

    /// A snapshot of the current widths, in column order. Every reader of
    /// one render pass observes these same values.
    pub fn widths(&self) -> (ws: Vec<Width>)
        ensures
            ws@ == self.spec_widths(),
    {
        let n = self.columns.len();
        let mut ws: Vec<Width> = Vec::new();
        let mut i: usize = 0;
        while i < n
            invariant
                n == self.columns@.len(),
                i <= n,
                ws@.len() == i as int,
                forall|j: int| 0 <= j < i as int ==> ws@[j] == self.columns@[j].width,
            decreases n - i,
        {
            ws.push(self.columns[i].width);
            i += 1;
        }
        proof {
            assert(ws@ =~= self.spec_widths());
        }
        ws
    }

    /// Mark the pending layout request as served; a render pass calls this
    /// once its reads are done.
    pub(crate) fn clear_layout_request(&mut self)
        ensures
            final(self).spec_columns() == old(self).spec_columns(),
            final(self).spec_sort() == old(self).spec_sort(),
            !final(self).spec_needs_layout(),
            old(self).wf() ==> final(self).wf(),
    {
        self.needs_layout = false;
    }

    /// Store a width: clamp any magnitude below zero to zero, write the
    /// value so that every later read observes it, and request a layout
    /// pass. An out-of-range index changes nothing. Never fails.
    pub fn set_width(&mut self, column: usize, new_size: Width)
        ensures
            final(self).spec_columns() == spec_resized(
                old(self).spec_columns(),
                column as int,
                new_size,
            ),
            final(self).spec_sort() == old(self).spec_sort(),
            final(self).spec_needs_layout() == ((column as int) < old(self).spec_num_columns()
                || old(self).spec_needs_layout()),
            old(self).wf() ==> final(self).wf(),
    {
        if column < self.columns.len() {
            let w = new_size.clamped();
            self.columns[column].width = w;
            self.needs_layout = true;
            proof {
                assert(self.columns@ =~= spec_resized(
                    old(self).spec_columns(),
                    column as int,
                    new_size,
                ));
            }
        }
    }

    /// The single mutation entry point for widths: delegates to the width
    /// store and thereby schedules a layout pass. Always succeeds; invalid
    /// values are clamped, not rejected.
    pub fn resize(&mut self, column: usize, new_size: Width)
        ensures
            final(self).spec_columns() == spec_resized(
                old(self).spec_columns(),
                column as int,
                new_size,
            ),
            final(self).spec_sort() == old(self).spec_sort(),
            final(self).spec_needs_layout() == ((column as int) < old(self).spec_num_columns()
                || old(self).spec_needs_layout()),
            old(self).wf() ==> final(self).wf(),
    {
        self.set_width(column, new_size);
    }

    /// Record a sort preference: a valid column becomes the primary sort
    /// key with the given direction, losing any earlier entry it had; the
    /// other entries keep their relative precedence. Row data is not
    /// touched — ordering rows is the row producer's business. An
    /// out-of-range index changes nothing.
    pub fn set_sort_preference(&mut self, column: usize, direction: SortDirection)
        ensures
            final(self).spec_columns() == old(self).spec_columns(),
            final(self).spec_needs_layout() == old(self).spec_needs_layout(),
            final(self).spec_sort() == (if (column as int) < old(self).spec_num_columns() {
                spec_promoted(old(self).spec_sort(), SortKey { column, direction })
            } else {
                old(self).spec_sort()
            }),
            old(self).wf() ==> final(self).wf(),
    {
        if column >= self.columns.len() {
            return ;
        }
        let ghost s = self.sort@;
        let ghost c = column as int;
        let n = self.sort.len();
        let mut out: Vec<SortKey> = Vec::new();
        out.push(SortKey { column, direction });
        proof {
            assert(s.skip(0) =~= s);
            assert(out@.skip(1) =~= Seq::<SortKey>::empty());
            assert(out@.skip(1) + spec_without_column(s, c) =~= spec_without_column(s, c));
        }
        let mut i: usize = 0;
        while i < n
            invariant
                n == s.len(),
                self.sort@ == s,
                i <= n,
                c == column as int,
                out@.len() >= 1,
                out@[0] == (SortKey { column, direction }),
                out@.skip(1) + spec_without_column(s.skip(i as int), c) == spec_without_column(
                    s,
                    c,
                ),
            decreases n - i,
        {
            let k = self.sort[i];
            proof {
                lemma_without_column_step(s, c, i as int);
            }
            if k.column != column {
                let ghost prev = out@;
                out.push(k);
                proof {
                    assert(out@.skip(1) =~= prev.skip(1).push(k));
                    assert(prev.skip(1).push(k) + spec_without_column(s.skip(i + 1), c)
                        =~= prev.skip(1) + (seq![k] + spec_without_column(s.skip(i + 1), c)));
                }
            }
            i += 1;
        }
        proof {
            assert(s.skip(n as int) =~= Seq::<SortKey>::empty());
            assert(out@.skip(1) + spec_without_column(s.skip(n as int), c) =~= out@.skip(1));
        }
        self.sort = out;
        proof {
            assert(self.sort@ =~= spec_promoted(s, SortKey { column, direction }));
            if old(self).wf() {
                lemma_without_column_wf(s, c, old(self).spec_num_columns());
                let p = spec_promoted(s, SortKey { column, direction });
                let w = spec_without_column(s, c);
                assert forall|a: int, b: int| 0 <= a < b < p.len() implies p[a].column
                    != p[b].column by {
                    if a == 0 {
                        assert(p[b] == w[b - 1]);
                    } else {
                        assert(p[a] == w[a - 1]);
                        assert(p[b] == w[b - 1]);
                    }
                }
                assert forall|a: int| 0 <= a < p.len() implies (#[trigger] p[a]).column
                    < old(self).spec_num_columns() by {
                    if a > 0 {
                        assert(p[a] == w[a - 1]);
                    }
                }
            }
        }
    }

    /// Apply one table command: a resize or a sort preference change.
    pub fn handle_event(&mut self, event: TableEvent)
        ensures
            old(self).wf() ==> final(self).wf(),
            (match event {
                TableEvent::ResizeColumn { column, new_size } => {
                    &&& final(self).spec_columns() == spec_resized(
                        old(self).spec_columns(),
                        column as int,
                        new_size,
                    )
                    &&& final(self).spec_sort() == old(self).spec_sort()
                    &&& final(self).spec_needs_layout() == ((column as int) < old(
                        self,
                    ).spec_num_columns() || old(self).spec_needs_layout())
                },
                TableEvent::SetSortPreference { column, direction } => {
                    &&& final(self).spec_columns() == old(self).spec_columns()
                    &&& final(self).spec_needs_layout() == old(self).spec_needs_layout()
                    &&& final(self).spec_sort() == (if (column as int) < old(
                        self,
                    ).spec_num_columns() {
                        spec_promoted(old(self).spec_sort(), SortKey { column, direction })
                    } else {
                        old(self).spec_sort()
                    })
                },
            }),
    {
        match event {
            TableEvent::ResizeColumn { column, new_size } => self.resize(column, new_size),
            TableEvent::SetSortPreference { column, direction } => self.set_sort_preference(
                column,
                direction,
            ),
        }
    }
}

/// One unfolding step of [`spec_without_column`] along a suffix of the
/// precedence list.
proof fn lemma_without_column_step(s: Seq<SortKey>, c: int, i: int)
    requires
        0 <= i < s.len(),
    ensures
        spec_without_column(s.skip(i), c) == (if s[i].column as int == c {
            spec_without_column(s.skip(i + 1), c)
        } else {
            seq![s[i]] + spec_without_column(s.skip(i + 1), c)
        }),
{
    assert(s.skip(i)[0] == s[i]);
    assert(s.skip(i).skip(1) =~= s.skip(i + 1));
}

/// Removing a column's entries keeps the precedence list well formed, and
/// afterwards no entry names that column.
proof fn lemma_without_column_wf(s: Seq<SortKey>, c: int, n: int)
    requires
        sort_wf(s, n),
    ensures
        sort_wf(spec_without_column(s, c), n),
        forall|j: int|
            0 <= j < spec_without_column(s, c).len() ==> (#[trigger] spec_without_column(s, c)[j])
                .column as int != c,
        forall|j: int|
            0 <= j < spec_without_column(s, c).len() ==> exists|k: int|
                0 <= k < s.len() && (#[trigger] spec_without_column(s, c)[j]) == s[k],
    decreases s.len(),
{
    if s.len() == 0 {
    } else {
        let tail = s.skip(1);
        assert forall|a: int| 0 <= a < tail.len() implies (#[trigger] tail[a]).column < n by {
            assert(tail[a] == s[a + 1]);
        }
        assert forall|a: int, b: int| 0 <= a < b < tail.len() implies tail[a].column
            != tail[b].column by {
            assert(tail[a] == s[a + 1]);
            assert(tail[b] == s[b + 1]);
        }
        lemma_without_column_wf(tail, c, n);
        let wt = spec_without_column(tail, c);
        if s[0].column as int == c {
            assert(spec_without_column(s, c) == wt);
            assert forall|j: int| 0 <= j < wt.len() implies exists|k: int|
                0 <= k < s.len() && (#[trigger] wt[j]) == s[k] by {
                let k0 = choose|k0: int| 0 <= k0 < tail.len() && wt[j] == tail[k0];
                assert(wt[j] == s[k0 + 1]);
            }
        } else {
            let r = spec_without_column(s, c);
            assert(r == seq![s[0]] + wt);
            assert forall|j: int| 0 <= j < r.len() implies exists|k: int|
                0 <= k < s.len() && (#[trigger] r[j]) == s[k] by {
                if j == 0 {
                    assert(r[0] == s[0]);
                } else {
                    assert(r[j] == wt[j - 1]);
                    let k0 = choose|k0: int| 0 <= k0 < tail.len() && wt[j - 1] == tail[k0];
                    assert(r[j] == s[k0 + 1]);
                }
            }
            assert forall|j: int| 0 <= j < r.len() implies (#[trigger] r[j]).column as int
                != c by {
                if j > 0 {
                    assert(r[j] == wt[j - 1]);
                }
            }
            assert forall|a: int, b: int| 0 <= a < b < r.len() implies r[a].column
                != r[b].column by {
                if a == 0 {
                    assert(r[b] == wt[b - 1]);
                    let k0 = choose|k0: int| 0 <= k0 < tail.len() && wt[b - 1] == tail[k0];
                    assert(tail[k0] == s[k0 + 1]);
                    assert(s[0].column != s[k0 + 1].column);
                } else {
                    assert(r[a] == wt[a - 1]);
                    assert(r[b] == wt[b - 1]);
                }
            }
            assert forall|j: int| 0 <= j < r.len() implies (#[trigger] r[j]).column < n by {
                if j > 0 {
                    assert(r[j] == wt[j - 1]);
                }
            }
        }
    }
}

/// Law: after a resize, reading the resized column back gives exactly the
/// requested width when its magnitude is non-negative; a fixed length below
/// zero comes back as fixed zero.
pub proof fn lemma_resize_read_back(cols: Seq<Column>, i: int, w: Width)
    requires
        0 <= i < cols.len(),
    ensures
        spec_resized(cols, i, w)[i].width == w.spec_clamped(),
        w.is_nonneg() ==> spec_resized(cols, i, w)[i].width == w,
{
}

/// Law: a fixed length below zero is stored as fixed zero.
pub proof fn lemma_negative_fixed_clamps(cols: Seq<Column>, i: int, v: i64)
    requires
        0 <= i < cols.len(),
        v < 0,
    ensures
        spec_resized(cols, i, Width::Fixed(v))[i].width == Width::Fixed(0),
{
}

/// Law: a resize changes no other column — neither width nor heading nor
/// sort identity.
pub proof fn lemma_resize_leaves_others(cols: Seq<Column>, i: int, w: Width, j: int)
    requires
        0 <= j < cols.len(),
        j != i,
    ensures
        spec_resized(cols, i, w)[j] == cols[j],
{
}

/// Law: resizing a column to its current well-formed width changes no
/// column at all; together with the single pending-layout flag, such a
/// resize costs at most one layout pass.
pub proof fn lemma_resize_to_current_is_stable(cols: Seq<Column>, i: int)
    requires
        0 <= i < cols.len(),
        cols[i].width.is_nonneg(),
    ensures
        spec_resized(cols, i, cols[i].width) == cols,
{
    assert(spec_with_width(cols[i], cols[i].width) == cols[i]);
    assert(spec_resized(cols, i, cols[i].width) =~= cols);
}

} // verus!
