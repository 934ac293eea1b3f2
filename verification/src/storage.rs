use vstd::prelude::*;

verus! {

/// The rows of a column of the persistent store, as a map from key to value.
pub type Rows = Map<Seq<u8>, Seq<u8>>;

/// A write that is to be made to a column of the persistent store.
#[derive(Debug, PartialEq, Eq)]
pub enum ColumnOp {
    /// Store `value` under `key`, in place of what was stored there.
    Put { key: Vec<u8>, value: Vec<u8> },
    /// Delete the row of `key`.
    Remove { key: Vec<u8> },
}

/// The mathematical content of a [`ColumnOp`].
pub enum ColumnOpView {
    Put { key: Seq<u8>, value: Seq<u8> },
    Remove { key: Seq<u8> },
}

impl View for ColumnOp {
    type V = ColumnOpView;

    open spec fn view(&self) -> ColumnOpView {
        match self {
            ColumnOp::Put { key, value } => ColumnOpView::Put { key: key@, value: value@ },
            ColumnOp::Remove { key } => ColumnOpView::Remove { key: key@ },
        }
    }
}

impl ColumnOpView {
    /// The rows of a column after the write was made to it.
    pub open spec fn apply(self, rows: Rows) -> Rows {
        match self {
            ColumnOpView::Put { key, value } => rows.insert(key, value),
            ColumnOpView::Remove { key } => rows.remove(key),
        }
    }
}

/// The rows of a column after an optional write.
pub open spec fn apply_optional(op: Option<ColumnOp>, rows: Rows) -> Rows {
    match op {
        Some(op) => op@.apply(rows),
        None => rows,
    }
}

} // verus!
