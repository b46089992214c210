//! The physical side of the row mapping: scalar column values as the
//! storage engine materializes them, declared column types, the field
//! shapes a target structure presents, and the non-flattening derivation
//! mechanism that binds one physical column to each declared field.

use vstd::prelude::*;

verus! {

/// The scalar column types the table schema declares.
#[derive(Clone, Copy, Debug, PartialEq, Eq, Structural)]
pub enum ColumnType {
    /// A 32-bit signed integer column.
    Integer,
    /// A 64-bit signed integer column.
    BigInt,
    /// A variable-length text column.
    Text,
}

/// One scalar value of a materialized result row.
#[derive(Clone, Debug, PartialEq)]
pub enum SqlValue {
    Integer(i32),
    BigInt(i64),
    Text(String),
}

/// The declared column type a materialized value belongs to.
pub open spec fn column_type_of(v: SqlValue) -> ColumnType {
    match v {
        SqlValue::Integer(_) => ColumnType::Integer,
        SqlValue::BigInt(_) => ColumnType::BigInt,
        SqlValue::Text(_) => ColumnType::Text,
    }
}

/// The shape one declared field of a target structure presents to the
/// derivation mechanism: either a single scalar column, or a nested
/// composite value type that spans more than one physical column.
#[derive(Clone, Copy, Debug, PartialEq, Eq, Structural)]
pub enum FieldType {
    /// A field holding one scalar of the given column type.
    Column(ColumnType),
    /// A field holding a nested composite value type.
    Composite,
}

/// Why a lookup or a decode failed.
#[derive(Clone, Copy, Debug, PartialEq, Eq, Structural)]
pub enum DecodeError {
    /// The equality lookup matched no row.
    RowNotFound,
    /// The declared shape of the target structure does not correspond,
    /// column for column, to the materialized row.
    SchemaMismatch,
}

/// Whether the non-flattening derivation can bind the single column value
/// `v` to a field of shape `f`: only a scalar field of the column's own
/// type qualifies. A nested composite field never corresponds one-to-one
/// to a single column, so it is never bound.
pub open spec fn field_accepts(f: FieldType, v: SqlValue) -> bool {
    match f {
        FieldType::Column(t) => column_type_of(v) == t,
        FieldType::Composite => false,
    }
}

/// Whether a declared shape matches a materialized row under the
/// non-flattening rule: one column per declared field, in declared order,
/// and every field accepts the column it is offered.
pub open spec fn shape_matches(shape: Seq<FieldType>, row: Seq<SqlValue>) -> bool {
    &&& shape.len() == row.len()
    &&& forall|i: int| 0 <= i < shape.len() ==> field_accepts(shape[i], row[i])
}

/// Executable mirror of [`field_accepts`].
fn field_accepts_exec(f: &FieldType, v: &SqlValue) -> (b: bool)
    ensures
        b == field_accepts(*f, *v),
{
    match f {
        FieldType::Column(t) => match (t, v) {
            (ColumnType::Integer, SqlValue::Integer(_)) => true,
            (ColumnType::BigInt, SqlValue::BigInt(_)) => true,
            (ColumnType::Text, SqlValue::Text(_)) => true,
            _ => false,
        },
        FieldType::Composite => false,
    }
}

/// The non-flattening derivation mechanism itself: walk the declared
/// fields and the physical columns side by side, binding exactly one
/// column to each field. It succeeds exactly when the counts agree and
/// every field is a scalar of the offered column's type; a nested
/// composite field, a type mismatch or a count mismatch is a schema
/// mismatch, surfaced as an error and never as mis-bound values.
pub fn derive_check(shape: &Vec<FieldType>, row: &Vec<SqlValue>) -> (r: Result<(), DecodeError>)
    ensures
        r is Ok <==> shape_matches(shape@, row@),
        r is Err ==> r == Err::<(), DecodeError>(DecodeError::SchemaMismatch),
{
    if shape.len() != row.len() {
        return Err(DecodeError::SchemaMismatch);
    }
    let n = shape.len();
    let mut i: usize = 0;
    while i < n
        invariant
            i <= n,
            n == shape@.len(),
            n == row@.len(),
            forall|j: int| 0 <= j < i ==> field_accepts(shape@[j], row@[j]),
        decreases n - i,
    {
        if !field_accepts_exec(&shape[i], &row[i]) {
            return Err(DecodeError::SchemaMismatch);
        }
        i = i + 1;
    }
    Ok(())
}

/// A target structure with a nested composite field can never be derived
/// by the non-flattening mechanism, whatever the row holds: the composite
/// field refuses every single column it could be offered.
pub proof fn lemma_composite_shape_never_matches(
    shape: Seq<FieldType>,
    row: Seq<SqlValue>,
    i: int,
)
    requires
        0 <= i < shape.len(),
        shape[i] is Composite,
    ensures
        !shape_matches(shape, row),
{
    if shape.len() == row.len() {
        assert(!field_accepts(shape[i], row[i]));
    }
}

} // verus!
