//! The record types this library decodes rows into, and the three
//! interchangeable decoding strategies applied to the same single-row
//! equality lookup: automatic derivation against a nested target (which
//! must fail observably), manual per-schema construction, and automatic
//! derivation against a flattened target.

use vstd::prelude::*;

use crate::columns::ColumnType;
use crate::columns::DecodeError;
use crate::columns::FieldType;
use crate::columns::SqlValue;
use crate::columns::derive_check;
use crate::columns::field_accepts;
use crate::columns::lemma_composite_shape_never_matches;
use crate::columns::shape_matches;

verus! {

/// The composite logical identifier: a view over the two 64-bit integer
/// columns `id_0` and `id_1`, in that order. It has no identity of its
/// own and is always embedded in a record.
#[derive(Clone, Copy, Debug, PartialEq, Eq, Structural)]
pub struct RecordId {
    pub id_0: i64,
    pub id_1: i64,
}

/// Target of the automatic nested derivation: the composite identifier is
/// declared as one nested field. The non-flattening mechanism offers that
/// field a single column slot while the physical schema provides two, so
/// decoding into this target must fail — loudly, never by mis-binding.
#[derive(Clone, Debug, PartialEq)]
pub struct Record {
    pub iid: i32,
    pub id: RecordId,
    pub data: String,
}

/// Target of the manual per-schema construction: the same fields as
/// [`Record`], built by an explicit hand-written function instead of a
/// derivation mechanism.
#[derive(Clone, Debug, PartialEq)]
pub struct RecordManual {
    pub iid: i32,
    pub id: RecordId,
    pub data: String,
}

/// Target of the flattened derivation: the composite identifier's
/// components stand as sibling scalar fields, so every field maps
/// one-to-one to a physical column.
#[derive(Clone, Debug, PartialEq)]
pub struct RecordDirect {
    pub iid: i32,
    pub id_0: i64,
    pub id_1: i64,
    pub data: String,
}

/// The shape [`Record`] declares to the derivation mechanism: surrogate
/// key, one nested composite field, text payload.
pub open spec fn nested_shape() -> Seq<FieldType> {
    seq![
        FieldType::Column(ColumnType::Integer),
        FieldType::Composite,
        FieldType::Column(ColumnType::Text),
    ]
}

/// The shape [`RecordDirect`] declares to the derivation mechanism: four
/// scalar fields, one per physical column.
pub open spec fn direct_shape() -> Seq<FieldType> {
    seq![
        FieldType::Column(ColumnType::Integer),
        FieldType::Column(ColumnType::BigInt),
        FieldType::Column(ColumnType::BigInt),
        FieldType::Column(ColumnType::Text),
    ]
}

/// Builds [`nested_shape`] as a vector, for the derivation mechanism.
pub fn record_nested_shape() -> (s: Vec<FieldType>)
    ensures
        s@ == nested_shape(),
{
    let mut s: Vec<FieldType> = Vec::new();
    s.push(FieldType::Column(ColumnType::Integer));
    s.push(FieldType::Composite);
    s.push(FieldType::Column(ColumnType::Text));
    proof {
        assert(s@ =~= nested_shape());
    }
    s
}

/// Builds [`direct_shape`] as a vector, for the derivation mechanism.
pub fn record_direct_shape() -> (s: Vec<FieldType>)
    ensures
        s@ == direct_shape(),
{
    let mut s: Vec<FieldType> = Vec::new();
    s.push(FieldType::Column(ColumnType::Integer));
    s.push(FieldType::Column(ColumnType::BigInt));
    s.push(FieldType::Column(ColumnType::BigInt));
    s.push(FieldType::Column(ColumnType::Text));
    proof {
        assert(s@ =~= direct_shape());
    }
    s
}

/// The materialized row a flattened record stands for, column by column:
/// surrogate key, the two composite-identifier components in order, text
/// payload.
pub open spec fn direct_row_of(rec: RecordDirect) -> Seq<SqlValue> {
    seq![
        SqlValue::Integer(rec.iid),
        SqlValue::BigInt(rec.id_0),
        SqlValue::BigInt(rec.id_1),
        SqlValue::Text(rec.data),
    ]
}

/// What the flattened derivation yields for a row: exactly when the row
/// matches the flattened shape, the record whose fields are the row's
/// columns in order; otherwise a schema mismatch.
pub open spec fn direct_decode_spec(row: Seq<SqlValue>) -> Result<RecordDirect, DecodeError> {
    if shape_matches(direct_shape(), row) {
        match (row[0], row[1], row[2], row[3]) {
            (
                SqlValue::Integer(iid),
                SqlValue::BigInt(id_0),
                SqlValue::BigInt(id_1),
                SqlValue::Text(data),
            ) => Ok(RecordDirect { iid, id_0, id_1, data }),
            _ => Err(DecodeError::SchemaMismatch),
        }
    } else {
        Err(DecodeError::SchemaMismatch)
    }
}

/// Strategy of flattened structural derivation: run the derivation
/// mechanism against the flattened shape, then bind each column to the
/// sibling field it corresponds to. Succeeds exactly on rows of the
/// declared physical shape.
pub fn decode_direct(row: Vec<SqlValue>) -> (r: Result<RecordDirect, DecodeError>)
    ensures
        r == direct_decode_spec(row@),
{
    let shape = record_direct_shape();
    match derive_check(&shape, &row) {
        Err(e) => Err(e),
        Ok(()) => {
            proof {
                assert(field_accepts(direct_shape()[0], row@[0]));
                assert(field_accepts(direct_shape()[1], row@[1]));
                assert(field_accepts(direct_shape()[2], row@[2]));
                assert(field_accepts(direct_shape()[3], row@[3]));
            }
            let mut rest = row;
            let v0 = rest.remove(0);
            let v1 = rest.remove(0);
            let v2 = rest.remove(0);
            let v3 = rest.remove(0);
            match (v0, v1, v2, v3) {
                (
                    SqlValue::Integer(iid),
                    SqlValue::BigInt(id_0),
                    SqlValue::BigInt(id_1),
                    SqlValue::Text(data),
                ) => Ok(RecordDirect { iid, id_0, id_1, data }),
                _ => Err(DecodeError::SchemaMismatch),
            }
        },
    }
}

/// Strategy of automatic nested derivation: run the derivation mechanism
/// against [`Record`]'s declared shape. The nested composite field can
/// never be bound to a single column, so this fails on every row with a
/// schema mismatch — the failure is surfaced, never silent corruption.
pub fn decode_nested(row: Vec<SqlValue>) -> (r: Result<Record, DecodeError>)
    ensures
        r == Err::<Record, DecodeError>(DecodeError::SchemaMismatch),
{
    let shape = record_nested_shape();
    proof {
        assert(nested_shape()[1] is Composite);
        lemma_composite_shape_never_matches(nested_shape(), row@, 1);
    }
    match derive_check(&shape, &row) {
        Ok(()) => Err(DecodeError::SchemaMismatch),
        Err(e) => Err(e),
    }
}

/// What the manual construction yields for a typed row tuple: field by
/// field, position by position.
pub open spec fn manual_build_spec(row: (i32, i64, i64, String)) -> RecordManual {
    RecordManual { iid: row.0, id: RecordId { id_0: row.1, id_1: row.2 }, data: row.3 }
}

impl RecordManual {
    /// Strategy of manual per-schema construction: consume the typed row
    /// tuple positionally — surrogate key, the two composite-identifier
    /// components, text payload. Always succeeds for a row of the declared
    /// physical shape, but is written against exactly this schema: any
    /// column added, removed or reordered requires rewriting it, which is
    /// why this strategy does not scale.
    pub fn build(row: (i32, i64, i64, String)) -> (r: Self)
        ensures
            r == manual_build_spec(row),
    {
        let (iid, id_0, id_1, data) = row;
        RecordManual { iid, id: RecordId { id_0, id_1 }, data }
    }
}

/// Encode a flattened record's fields back into update-column values: the
/// row the record stands for, column by column.
pub fn encode_direct(rec: RecordDirect) -> (row: Vec<SqlValue>)
    ensures
        row@ == direct_row_of(rec),
{
    let RecordDirect { iid, id_0, id_1, data } = rec;
    let mut row: Vec<SqlValue> = Vec::new();
    row.push(SqlValue::Integer(iid));
    row.push(SqlValue::BigInt(id_0));
    row.push(SqlValue::BigInt(id_1));
    row.push(SqlValue::Text(data));
    proof {
        assert(row@ =~= direct_row_of(rec));
    }
    row
}

/// Encode a manually-built record's fields back into the typed update
/// tuple, positionally.
pub fn encode_manual(rec: RecordManual) -> (row: (i32, i64, i64, String))
    ensures
        row == (rec.iid, rec.id.id_0, rec.id.id_1, rec.data),
{
    let RecordManual { iid, id, data } = rec;
    (iid, id.id_0, id.id_1, data)
}

/// What the single-row equality lookup yields under the flattened
/// strategy, given the row the storage engine found, if any.
pub open spec fn direct_lookup_spec(found: Option<Vec<SqlValue>>) -> Result<
    RecordDirect,
    DecodeError,
> {
    match found {
        Option::None => Err(DecodeError::RowNotFound),
        Option::Some(row) => direct_decode_spec(row@),
    }
}

/// Decode the result of the single-row equality lookup under the
/// flattened strategy. Absence of a matching row is a row-not-found
/// failure, never a default or zeroed record.
pub fn lookup_direct(found: Option<Vec<SqlValue>>) -> (r: Result<RecordDirect, DecodeError>)
    ensures
        r == direct_lookup_spec(found),
{
    match found {
        None => Err(DecodeError::RowNotFound),
        Some(row) => decode_direct(row),
    }
}

/// What the single-row equality lookup yields under the manual strategy,
/// given the typed row the storage engine found, if any.
pub open spec fn manual_lookup_spec(found: Option<(i32, i64, i64, String)>) -> Result<
    RecordManual,
    DecodeError,
> {
    match found {
        Option::None => Err(DecodeError::RowNotFound),
        Option::Some(row) => Ok(manual_build_spec(row)),
    }
}

/// Decode the result of the single-row equality lookup under the manual
/// strategy. Absence of a matching row is a row-not-found failure, never
/// a default or zeroed record; a found row always decodes.
pub fn lookup_manual(found: Option<(i32, i64, i64, String)>) -> (r: Result<
    RecordManual,
    DecodeError,
>)
    ensures
        r == manual_lookup_spec(found),
{
    match found {
        None => Err(DecodeError::RowNotFound),
        Some(row) => Ok(RecordManual::build(row)),
    }
}

/// Decode the result of the single-row equality lookup under the nested
/// strategy. Absence of a matching row is a row-not-found failure; a
/// found row always fails to decode, with a schema mismatch, since the
/// nested composite field cannot be bound to a single column.
pub fn lookup_nested(found: Option<Vec<SqlValue>>) -> (r: Result<Record, DecodeError>)
    ensures
        found is None ==> r == Err::<Record, DecodeError>(DecodeError::RowNotFound),
        found is Some ==> r == Err::<Record, DecodeError>(DecodeError::SchemaMismatch),
{
    match found {
        None => Err(DecodeError::RowNotFound),
        Some(row) => decode_nested(row),
    }
}

/// The columns this query selects from a stored table row: the four
/// declared columns, which stand first, in declared order. A column added
/// to the table later comes after them and is never selected.
pub open spec fn selected_columns(full: Seq<SqlValue>) -> Seq<SqlValue> {
    full.take(4)
}

/// Select the declared columns out of a full stored row. The stored row
/// always holds at least the declared columns.
pub fn select_declared(full: Vec<SqlValue>) -> (r: Vec<SqlValue>)
    requires
        full@.len() >= 4,
    ensures
        r@ == selected_columns(full@),
{
    let mut r = full;
    r.truncate(4);
    proof {
        assert(r@ =~= selected_columns(full@));
    }
    r
}

} // verus!
