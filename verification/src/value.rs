use vstd::prelude::*;

verus! {

/// A value as the engine stores it: the tagged variant set written by
/// parameter binding and read back by column decoding.
///
/// The engine also stores floating-point values; those cannot be modelled
/// here, and reading such a column reports a decoding failure.
pub enum SqlValue {
    /// The absent value.
    Null,
    /// A 64-bit signed integer.
    Integer(i64),
    /// UTF-8 text.
    Text(String),
    /// A raw byte blob.
    Blob(Vec<u8>),
}

/// The mathematical shape of a stored value, used by the contracts of the
/// binding and decoding protocol.
pub enum SqlValueView {
    Null,
    Integer(int),
    Text(Seq<char>),
    Blob(Seq<u8>),
}

impl View for SqlValue {
    type V = SqlValueView;

    open spec fn view(&self) -> SqlValueView {
        match self {
            SqlValue::Null => SqlValueView::Null,
            SqlValue::Integer(i) => SqlValueView::Integer(*i as int),
            SqlValue::Text(s) => SqlValueView::Text(s@),
            SqlValue::Blob(b) => SqlValueView::Blob(b@),
        }
    }
}

/// The views of a whole result row, column by column.
pub open spec fn row_view(cells: Seq<SqlValue>) -> Seq<SqlValueView> {
    cells.map_values(|c: SqlValue| c@)
}

} // verus!
