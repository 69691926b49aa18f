//! Column metadata.

use vstd::prelude::*;

use crate::width::Width;

verus! {

/// Metadata of one column: its heading text, its current width, and a sort
/// key that names the column independently of display order.
pub struct Column {
    /// The heading text shown in the header cell.
    pub heading: String,
    /// The current width of the column.
    pub width: Width,
    /// A fixed identity used as the key in sort preferences; it does not
    /// change when columns are displayed in another order.
    pub sort_index: usize,
}

impl Column {
    /// A column is well formed when its width is non-negative.
    pub open spec fn wf(self) -> bool {
        self.width.is_nonneg()
    }
}

} // verus!
