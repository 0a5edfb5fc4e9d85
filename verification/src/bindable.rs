use vstd::prelude::*;

use vstd::string::StringExecFns;

use crate::error::SqlError;
use crate::statement::Statement;
use crate::value::{row_view, SqlValue, SqlValueView};

verus! {

/// Where consecutive parameter writes land: `values` written into the slots
/// `start`, `start + 1`, and so on.
pub open spec fn write_params(
    params: Map<int, SqlValueView>,
    start: int,
    values: Seq<SqlValueView>,
) -> Map<int, SqlValueView>
    decreases values.len(),
{
    if values.len() == 0 {
        params
    } else {
        write_params(params.insert(start, values[0]), start + 1, values.subrange(1, values.len() as int))
    }
}

/// Writing one block of values and then a second block right after it is
/// one write of the concatenation.
pub proof fn lemma_write_params_concat(
    params: Map<int, SqlValueView>,
    start: int,
    a: Seq<SqlValueView>,
    b: Seq<SqlValueView>,
)
    ensures
        write_params(write_params(params, start, a), start + a.len(), b) == write_params(
            params,
            start,
            a + b,
        ),
    decreases a.len(),
{
    if a.len() == 0 {
        assert(a + b =~= b);
    } else {
        assert((a + b)[0] == a[0]);
        assert((a + b).subrange(1, (a + b).len() as int) =~= a.subrange(1, a.len() as int) + b);
        lemma_write_params_concat(
            params.insert(start, a[0]),
            start + 1,
            a.subrange(1, a.len() as int),
            b,
        );
    }
}

/// Exactly where bound values land: writing a block of values fills the
/// consecutive slots from `start` on with those values, in order, and leaves
/// every other slot as it was.
pub proof fn lemma_write_params_lookup(
    params: Map<int, SqlValueView>,
    start: int,
    values: Seq<SqlValueView>,
)
    ensures
        forall|k: int|
            start <= k < start + values.len() ==> #[trigger] write_params(
                params,
                start,
                values,
            ).contains_key(k),
        forall|k: int|
            start <= k < start + values.len() ==> #[trigger] write_params(params, start, values)[k]
                == values[k - start],
        forall|k: int|
            !(start <= k < start + values.len()) ==> #[trigger] write_params(
                params,
                start,
                values,
            ).contains_key(k) == params.contains_key(k),
        forall|k: int|
            !(start <= k < start + values.len()) && params.contains_key(k) ==> #[trigger] write_params(
                params,
                start,
                values,
            )[k] == params[k],
    decreases values.len(),
{
    if values.len() > 0 {
        let m1 = params.insert(start, values[0]);
        let rest = values.subrange(1, values.len() as int);
        lemma_write_params_lookup(m1, start + 1, rest);
        let written = write_params(params, start, values);
        assert(written == write_params(m1, start + 1, rest));
        assert forall|k: int| start <= k < start + values.len() implies #[trigger] written.contains_key(
            k,
        ) && written[k] == values[k - start] by {
            if k == start {
                assert(!(start + 1 <= k < start + 1 + rest.len()));
                assert(m1.contains_key(start) && m1[start] == values[0]);
            } else {
                assert(start + 1 <= k < start + 1 + rest.len());
                assert(rest[k - (start + 1)] == values[k - start]);
            }
        }
        assert forall|k: int| !(start <= k < start + values.len()) implies #[trigger] written.contains_key(
            k,
        ) == params.contains_key(k) by {
            assert(!(start + 1 <= k < start + 1 + rest.len()));
            assert(m1.contains_key(k) == params.contains_key(k));
        }
        assert forall|k: int|
            !(start <= k < start + values.len()) && params.contains_key(k) implies #[trigger] written[k]
            == params[k] by {
            assert(!(start + 1 <= k < start + 1 + rest.len()));
            assert(m1[k] == params[k]);
        }
    }
}

/// Writing a single value is one insertion.
pub proof fn lemma_write_params_single(
    params: Map<int, SqlValueView>,
    start: int,
    value: SqlValueView,
)
    ensures
        write_params(params, start, seq![value]) == params.insert(start, value),
{
    let s = seq![value];
    assert(s.len() == 1);
    assert(s[0] == value);
    assert(s.subrange(1, s.len() as int) =~= Seq::<SqlValueView>::empty());
    assert(write_params(params.insert(start, value), start + 1, s.subrange(1, s.len() as int))
        == params.insert(start, value));
}

/// The bind capability: converts a structured value into engine values and
/// writes them into consecutive 1-based parameter slots of a statement.
pub trait Bind {
    /// The engine values this value writes, in slot order.
    spec fn encoded(&self) -> Seq<SqlValueView>;

    /// Writes the value into the slots `start_index`, `start_index + 1`, ...
    /// of `statement`, handing back the next free slot.
    fn bind(&self, statement: &mut Statement<'_>, start_index: usize) -> (r: Result<
        usize,
        SqlError,
    >)
        ensures
            r is Ok ==> r->Ok_0 == start_index + self.encoded().len()
                && final(statement).params() == write_params(
                old(statement).params(),
                start_index as int,
                self.encoded(),
            ),
            r is Err ==> r->Err_0 is Binding,
    ;
}

/// Writes one engine value into one slot: the shared step of every scalar
/// bind implementation.
fn bind_single(statement: &mut Statement<'_>, start_index: usize, value: SqlValue) -> (r: Result<
    usize,
    SqlError,
>)
    ensures
        r is Ok ==> r->Ok_0 == start_index + 1 && final(statement).params() == write_params(
            old(statement).params(),
            start_index as int,
            seq![value@],
        ),
        r is Err ==> r->Err_0 is Binding,
{
    if start_index == usize::MAX {
        return Err(
            SqlError::Binding { message: String::from_str("parameter slot index out of range") },
        );
    }
    let ghost v = value@;
    statement.bind_value(start_index, value)?;
    proof {
        lemma_write_params_single(old(statement).params(), start_index as int, v);
    }
    Ok(start_index + 1)
}

impl Bind for &str {
    open spec fn encoded(&self) -> Seq<SqlValueView> {
        seq![SqlValueView::Text((*self)@)]
    }

    fn bind(&self, statement: &mut Statement<'_>, start_index: usize) -> (r: Result<
        usize,
        SqlError,
    >) {
        bind_single(statement, start_index, SqlValue::Text(String::from_str(*self)))
    }
}

impl Bind for String {
    open spec fn encoded(&self) -> Seq<SqlValueView> {
        seq![SqlValueView::Text(self@)]
    }

    fn bind(&self, statement: &mut Statement<'_>, start_index: usize) -> (r: Result<
        usize,
        SqlError,
    >) {
        bind_single(statement, start_index, SqlValue::Text(self.clone()))
    }
}

impl Bind for i64 {
    open spec fn encoded(&self) -> Seq<SqlValueView> {
        seq![SqlValueView::Integer(*self as int)]
    }

    fn bind(&self, statement: &mut Statement<'_>, start_index: usize) -> (r: Result<
        usize,
        SqlError,
    >) {
        bind_single(statement, start_index, SqlValue::Integer(*self))
    }
}

impl Bind for i32 {
    open spec fn encoded(&self) -> Seq<SqlValueView> {
        seq![SqlValueView::Integer(*self as int)]
    }

    fn bind(&self, statement: &mut Statement<'_>, start_index: usize) -> (r: Result<
        usize,
        SqlError,
    >) {
        bind_single(statement, start_index, SqlValue::Integer(*self as i64))
    }
}

impl Bind for u32 {
    open spec fn encoded(&self) -> Seq<SqlValueView> {
        seq![SqlValueView::Integer(*self as int)]
    }

    fn bind(&self, statement: &mut Statement<'_>, start_index: usize) -> (r: Result<
        usize,
        SqlError,
    >) {
        bind_single(statement, start_index, SqlValue::Integer(*self as i64))
    }
}

impl Bind for usize {
    open spec fn encoded(&self) -> Seq<SqlValueView> {
        seq![SqlValueView::Integer(*self as int)]
    }

    fn bind(&self, statement: &mut Statement<'_>, start_index: usize) -> (r: Result<
        usize,
        SqlError,
    >) {
        if (*self as u64) > (i64::MAX as u64) {
            return Err(
                SqlError::Binding {
                    message: String::from_str("integer too large for an engine parameter"),
                },
            );
        }
        bind_single(statement, start_index, SqlValue::Integer(*self as i64))
    }
}

impl Bind for Vec<u8> {
    open spec fn encoded(&self) -> Seq<SqlValueView> {
        seq![SqlValueView::Blob(self@)]
    }

    fn bind(&self, statement: &mut Statement<'_>, start_index: usize) -> (r: Result<
        usize,
        SqlError,
    >) {
        bind_single(statement, start_index, SqlValue::Blob(vstd::slice::slice_to_vec(self.as_slice())))
    }
}

impl<T: Bind> Bind for Option<T> {
    /// An absent value writes one null slot; a present one delegates to the
    /// inner value.
    open spec fn encoded(&self) -> Seq<SqlValueView> {
        match self {
            Option::Some(inner) => inner.encoded(),
            Option::None => seq![SqlValueView::Null],
        }
    }

    fn bind(&self, statement: &mut Statement<'_>, start_index: usize) -> (r: Result<
        usize,
        SqlError,
    >) {
        match self {
            Option::Some(inner) => inner.bind(statement, start_index),
            Option::None => bind_single(statement, start_index, SqlValue::Null),
        }
    }
}

impl<A: Bind, B: Bind> Bind for (A, B) {
    open spec fn encoded(&self) -> Seq<SqlValueView> {
        self.0.encoded() + self.1.encoded()
    }

    fn bind(&self, statement: &mut Statement<'_>, start_index: usize) -> (r: Result<
        usize,
        SqlError,
    >) {
        let next_a = self.0.bind(statement, start_index)?;
        let next_b = self.1.bind(statement, next_a)?;
        proof {
            lemma_write_params_concat(
                old(statement).params(),
                start_index as int,
                self.0.encoded(),
                self.1.encoded(),
            );
        }
        Ok(next_b)
    }
}

impl<A: Bind, B: Bind, C: Bind> Bind for (A, B, C) {
    open spec fn encoded(&self) -> Seq<SqlValueView> {
        self.0.encoded() + self.1.encoded() + self.2.encoded()
    }

    fn bind(&self, statement: &mut Statement<'_>, start_index: usize) -> (r: Result<
        usize,
        SqlError,
    >) {
        let next_a = self.0.bind(statement, start_index)?;
        let next_b = self.1.bind(statement, next_a)?;
        let next_c = self.2.bind(statement, next_b)?;
        proof {
            lemma_write_params_concat(
                old(statement).params(),
                start_index as int,
                self.0.encoded(),
                self.1.encoded(),
            );
            lemma_write_params_concat(
                old(statement).params(),
                start_index as int,
                self.0.encoded() + self.1.encoded(),
                self.2.encoded(),
            );
        }
        Ok(next_c)
    }
}

impl<A: Bind, B: Bind, C: Bind, D: Bind> Bind for (A, B, C, D) {
    open spec fn encoded(&self) -> Seq<SqlValueView> {
        self.0.encoded() + self.1.encoded() + self.2.encoded() + self.3.encoded()
    }

    fn bind(&self, statement: &mut Statement<'_>, start_index: usize) -> (r: Result<
        usize,
        SqlError,
    >) {
        let next_a = self.0.bind(statement, start_index)?;
        let next_b = self.1.bind(statement, next_a)?;
        let next_c = self.2.bind(statement, next_b)?;
        let next_d = self.3.bind(statement, next_c)?;
        proof {
            lemma_write_params_concat(
                old(statement).params(),
                start_index as int,
                self.0.encoded(),
                self.1.encoded(),
            );
            lemma_write_params_concat(
                old(statement).params(),
                start_index as int,
                self.0.encoded() + self.1.encoded(),
                self.2.encoded(),
            );
            lemma_write_params_concat(
                old(statement).params(),
                start_index as int,
                self.0.encoded() + self.1.encoded() + self.2.encoded(),
                self.3.encoded(),
            );
        }
        Ok(next_d)
    }
}

/// The column capability: reads consecutive columns of a result row and
/// converts them to the target type, reporting a decoding failure on a
/// stored kind that cannot be converted losslessly.
pub trait Column: Sized {
    /// Whether the columns from `start` on hold kinds this type converts.
    spec fn decodable(row: Seq<SqlValueView>, start: int) -> bool;

    /// How many columns a decode from `start` consumes.
    spec fn width_at(row: Seq<SqlValueView>, start: int) -> int;

    /// The exact relation between the columns from `start` on and a decoded
    /// value.
    spec fn fits(row: Seq<SqlValueView>, start: int, value: &Self) -> bool;

    /// Reads this type from the columns of `row` starting at `start_index`,
    /// handing back the value and the next unread column.
    fn column(row: &Vec<SqlValue>, start_index: usize) -> (r: Result<(Self, usize), SqlError>)
        ensures
            r is Ok <==> Self::decodable(row_view(row@), start_index as int),
            r is Ok ==> Self::fits(row_view(row@), start_index as int, &r->Ok_0.0)
                && r->Ok_0.1 == start_index + Self::width_at(row_view(row@), start_index as int),
            r is Err ==> r->Err_0 is Decoding,
    ;
}

/// Decodes a whole materialized result row as `T`, reading consecutive
/// columns from the row's start.
pub fn decode_row<T: Column>(cells: &Vec<SqlValue>) -> (r: Result<T, SqlError>)
    ensures
        r is Ok <==> T::decodable(row_view(cells@), 0),
        r is Ok ==> T::fits(row_view(cells@), 0, &r->Ok_0),
        r is Err ==> r->Err_0 is Decoding,
{
    let (value, _) = T::column(cells, 0)?;
    Ok(value)
}

impl Column for String {
    open spec fn decodable(row: Seq<SqlValueView>, start: int) -> bool {
        0 <= start < row.len() && row[start] is Text
    }

    open spec fn width_at(row: Seq<SqlValueView>, start: int) -> int {
        1
    }

    open spec fn fits(row: Seq<SqlValueView>, start: int, value: &Self) -> bool {
        Self::decodable(row, start) && row[start] == SqlValueView::Text(value@)
    }

    fn column(row: &Vec<SqlValue>, start_index: usize) -> (r: Result<(Self, usize), SqlError>) {
        if start_index >= row.len() {
            return Err(
                SqlError::Decoding { message: String::from_str("column index past the row") },
            );
        }
        match &row[start_index] {
            SqlValue::Text(text) => Ok((text.clone(), start_index + 1)),
            _ => Err(SqlError::Decoding { message: String::from_str("expected a text column") }),
        }
    }
}

impl Column for i64 {
    open spec fn decodable(row: Seq<SqlValueView>, start: int) -> bool {
        0 <= start < row.len() && (row[start] matches SqlValueView::Integer(i) && i64::MIN <= i
            <= i64::MAX)
    }

    open spec fn width_at(row: Seq<SqlValueView>, start: int) -> int {
        1
    }

    open spec fn fits(row: Seq<SqlValueView>, start: int, value: &Self) -> bool {
        Self::decodable(row, start) && row[start] == SqlValueView::Integer(*value as int)
    }

    fn column(row: &Vec<SqlValue>, start_index: usize) -> (r: Result<(Self, usize), SqlError>) {
        if start_index >= row.len() {
            return Err(
                SqlError::Decoding { message: String::from_str("column index past the row") },
            );
        }
        match &row[start_index] {
            SqlValue::Integer(i) => Ok((*i, start_index + 1)),
            _ => Err(
                SqlError::Decoding { message: String::from_str("expected an integer column") },
            ),
        }
    }
}

impl Column for i32 {
    open spec fn decodable(row: Seq<SqlValueView>, start: int) -> bool {
        0 <= start < row.len() && (row[start] matches SqlValueView::Integer(i) && i32::MIN <= i
            <= i32::MAX)
    }

    open spec fn width_at(row: Seq<SqlValueView>, start: int) -> int {
        1
    }

    open spec fn fits(row: Seq<SqlValueView>, start: int, value: &Self) -> bool {
        Self::decodable(row, start) && row[start] == SqlValueView::Integer(*value as int)
    }

    fn column(row: &Vec<SqlValue>, start_index: usize) -> (r: Result<(Self, usize), SqlError>) {
        if start_index >= row.len() {
            return Err(
                SqlError::Decoding { message: String::from_str("column index past the row") },
            );
        }
        match &row[start_index] {
            SqlValue::Integer(i) => {
                let value = *i;
                if (i32::MIN as i64) <= value && value <= (i32::MAX as i64) {
                    Ok((value as i32, start_index + 1))
                } else {
                    Err(
                        SqlError::Decoding {
                            message: String::from_str("integer out of range for the target type"),
                        },
                    )
                }
            },
            _ => Err(
                SqlError::Decoding { message: String::from_str("expected an integer column") },
            ),
        }
    }
}

impl Column for u32 {
    open spec fn decodable(row: Seq<SqlValueView>, start: int) -> bool {
        0 <= start < row.len() && (row[start] matches SqlValueView::Integer(i) && 0 <= i
            <= u32::MAX)
    }

    open spec fn width_at(row: Seq<SqlValueView>, start: int) -> int {
        1
    }

    open spec fn fits(row: Seq<SqlValueView>, start: int, value: &Self) -> bool {
        Self::decodable(row, start) && row[start] == SqlValueView::Integer(*value as int)
    }

    fn column(row: &Vec<SqlValue>, start_index: usize) -> (r: Result<(Self, usize), SqlError>) {
        if start_index >= row.len() {
            return Err(
                SqlError::Decoding { message: String::from_str("column index past the row") },
            );
        }
        match &row[start_index] {
            SqlValue::Integer(i) => {
                let value = *i;
                if 0 <= value && value <= (u32::MAX as i64) {
                    Ok((value as u32, start_index + 1))
                } else {
                    Err(
                        SqlError::Decoding {
                            message: String::from_str("integer out of range for the target type"),
                        },
                    )
                }
            },
            _ => Err(
                SqlError::Decoding { message: String::from_str("expected an integer column") },
            ),
        }
    }
}

impl Column for usize {
    open spec fn decodable(row: Seq<SqlValueView>, start: int) -> bool {
        0 <= start < row.len() && (row[start] matches SqlValueView::Integer(i) && 0 <= i
            <= usize::MAX)
    }

    open spec fn width_at(row: Seq<SqlValueView>, start: int) -> int {
        1
    }

    open spec fn fits(row: Seq<SqlValueView>, start: int, value: &Self) -> bool {
        Self::decodable(row, start) && row[start] == SqlValueView::Integer(*value as int)
    }

    fn column(row: &Vec<SqlValue>, start_index: usize) -> (r: Result<(Self, usize), SqlError>) {
        if start_index >= row.len() {
            return Err(
                SqlError::Decoding { message: String::from_str("column index past the row") },
            );
        }
        match &row[start_index] {
            SqlValue::Integer(i) => {
                let value = *i;
                if value >= 0 && (value as u64) <= (usize::MAX as u64) {
                    Ok((value as usize, start_index + 1))
                } else {
                    Err(
                        SqlError::Decoding {
                            message: String::from_str("integer out of range for the target type"),
                        },
                    )
                }
            },
            _ => Err(
                SqlError::Decoding { message: String::from_str("expected an integer column") },
            ),
        }
    }
}

impl Column for Vec<u8> {
    open spec fn decodable(row: Seq<SqlValueView>, start: int) -> bool {
        0 <= start < row.len() && row[start] is Blob
    }

    open spec fn width_at(row: Seq<SqlValueView>, start: int) -> int {
        1
    }

    open spec fn fits(row: Seq<SqlValueView>, start: int, value: &Self) -> bool {
        Self::decodable(row, start) && row[start] == SqlValueView::Blob(value@)
    }

    fn column(row: &Vec<SqlValue>, start_index: usize) -> (r: Result<(Self, usize), SqlError>) {
        if start_index >= row.len() {
            return Err(
                SqlError::Decoding { message: String::from_str("column index past the row") },
            );
        }
        match &row[start_index] {
            SqlValue::Blob(bytes) => Ok(
                (vstd::slice::slice_to_vec(bytes.as_slice()), start_index + 1),
            ),
            _ => Err(SqlError::Decoding { message: String::from_str("expected a blob column") }),
        }
    }
}

impl<T: Column> Column for Option<T> {
    /// An absent value is stored as one null column; anything else delegates
    /// to the inner type.
    open spec fn decodable(row: Seq<SqlValueView>, start: int) -> bool {
        0 <= start < row.len() && (row[start] is Null || T::decodable(row, start))
    }

    open spec fn width_at(row: Seq<SqlValueView>, start: int) -> int {
        if row[start] is Null {
            1
        } else {
            T::width_at(row, start)
        }
    }

    open spec fn fits(row: Seq<SqlValueView>, start: int, value: &Self) -> bool {
        match value {
            Option::None => 0 <= start < row.len() && row[start] is Null,
            Option::Some(inner) => 0 <= start < row.len() && !(row[start] is Null) && T::fits(
                row,
                start,
                inner,
            ),
        }
    }

    fn column(row: &Vec<SqlValue>, start_index: usize) -> (r: Result<(Self, usize), SqlError>) {
        if start_index >= row.len() {
            return Err(
                SqlError::Decoding { message: String::from_str("column index past the row") },
            );
        }
        let absent = matches!(&row[start_index], SqlValue::Null);
        if absent {
            Ok((None, start_index + 1))
        } else {
            let (inner, next) = T::column(row, start_index)?;
            Ok((Some(inner), next))
        }
    }
}

impl<A: Column, B: Column> Column for (A, B) {
    open spec fn decodable(row: Seq<SqlValueView>, start: int) -> bool {
        A::decodable(row, start) && B::decodable(row, start + A::width_at(row, start))
    }

    open spec fn width_at(row: Seq<SqlValueView>, start: int) -> int {
        A::width_at(row, start) + B::width_at(row, start + A::width_at(row, start))
    }

    open spec fn fits(row: Seq<SqlValueView>, start: int, value: &Self) -> bool {
        A::fits(row, start, &value.0) && B::fits(row, start + A::width_at(row, start), &value.1)
    }

    fn column(row: &Vec<SqlValue>, start_index: usize) -> (r: Result<(Self, usize), SqlError>) {
        let (a, next_a) = A::column(row, start_index)?;
        let (b, next_b) = B::column(row, next_a)?;
        Ok(((a, b), next_b))
    }
}

impl<A: Column, B: Column, C: Column> Column for (A, B, C) {
    open spec fn decodable(row: Seq<SqlValueView>, start: int) -> bool {
        A::decodable(row, start) && B::decodable(row, start + A::width_at(row, start))
            && C::decodable(
            row,
            start + A::width_at(row, start) + B::width_at(row, start + A::width_at(row, start)),
        )
    }

    open spec fn width_at(row: Seq<SqlValueView>, start: int) -> int {
        A::width_at(row, start) + B::width_at(row, start + A::width_at(row, start)) + C::width_at(
            row,
            start + A::width_at(row, start) + B::width_at(row, start + A::width_at(row, start)),
        )
    }

    open spec fn fits(row: Seq<SqlValueView>, start: int, value: &Self) -> bool {
        A::fits(row, start, &value.0) && B::fits(row, start + A::width_at(row, start), &value.1)
            && C::fits(
            row,
            start + A::width_at(row, start) + B::width_at(row, start + A::width_at(row, start)),
            &value.2,
        )
    }

    fn column(row: &Vec<SqlValue>, start_index: usize) -> (r: Result<(Self, usize), SqlError>) {
        let (a, next_a) = A::column(row, start_index)?;
        let (b, next_b) = B::column(row, next_a)?;
        let (c, next_c) = C::column(row, next_b)?;
        Ok(((a, b, c), next_c))
    }
}

impl<A: Column, B: Column, C: Column, D: Column> Column for (A, B, C, D) {
    open spec fn decodable(row: Seq<SqlValueView>, start: int) -> bool {
        <(A, B, C) as Column>::decodable(row, start) && D::decodable(
            row,
            start + <(A, B, C) as Column>::width_at(row, start),
        )
    }

    open spec fn width_at(row: Seq<SqlValueView>, start: int) -> int {
        <(A, B, C) as Column>::width_at(row, start) + D::width_at(
            row,
            start + <(A, B, C) as Column>::width_at(row, start),
        )
    }

    open spec fn fits(row: Seq<SqlValueView>, start: int, value: &Self) -> bool {
        A::fits(row, start, &value.0) && B::fits(row, start + A::width_at(row, start), &value.1)
            && C::fits(
            row,
            start + A::width_at(row, start) + B::width_at(row, start + A::width_at(row, start)),
            &value.2,
        ) && D::fits(
            row,
            start + A::width_at(row, start) + B::width_at(row, start + A::width_at(row, start))
                + C::width_at(
                row,
                start + A::width_at(row, start) + B::width_at(
                    row,
                    start + A::width_at(row, start),
                ),
            ),
            &value.3,
        )
    }

    fn column(row: &Vec<SqlValue>, start_index: usize) -> (r: Result<(Self, usize), SqlError>) {
        let (a, next_a) = A::column(row, start_index)?;
        let (b, next_b) = B::column(row, next_a)?;
        let (c, next_c) = C::column(row, next_b)?;
        let (d, next_d) = D::column(row, next_c)?;
        Ok(((a, b, c, d), next_d))
    }
}

/// Round trip at the protocol level: the row a bound text value writes is
/// decodable as text, and any text value it decodes to equals the one bound.
pub proof fn lemma_text_round_trip(bound: String, decoded: String)
    ensures
        <String as Column>::decodable(<String as Bind>::encoded(&bound), 0),
        <String as Column>::fits(<String as Bind>::encoded(&bound), 0, &decoded) ==> decoded@
            == bound@,
{
}

/// Round trip at the protocol level for a `(text, integer, blob)` tuple:
/// the row its binding writes decodes back, column by column, to an equal
/// tuple.
pub proof fn lemma_tuple_round_trip(
    bound: (String, usize, Vec<u8>),
    decoded: (String, usize, Vec<u8>),
)
    ensures
        <(String, usize, Vec<u8>) as Column>::decodable(
            <(String, usize, Vec<u8>) as Bind>::encoded(&bound),
            0,
        ),
        <(String, usize, Vec<u8>) as Column>::fits(
            <(String, usize, Vec<u8>) as Bind>::encoded(&bound),
            0,
            &decoded,
        ) ==> decoded.0@ == bound.0@ && decoded.1 == bound.1 && decoded.2@ == bound.2@,
{
    let enc = <(String, usize, Vec<u8>) as Bind>::encoded(&bound);
    assert(enc =~= seq![
        SqlValueView::Text(bound.0@),
        SqlValueView::Integer(bound.1 as int),
        SqlValueView::Blob(bound.2@),
    ]);
}

/// Type-mismatch detection: a text column never decodes as a byte blob, and
/// a blob column never decodes as text.
pub proof fn lemma_type_mismatch_detected(row: Seq<SqlValueView>, start: int)
    ensures
        row[start] is Text ==> !<Vec<u8> as Column>::decodable(row, start),
        row[start] is Blob ==> !<String as Column>::decodable(row, start),
{
}

} // verus!
