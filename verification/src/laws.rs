//! The properties that relate the decoding strategies to one another:
//! the nested target is underivable from any row, decoding is a function
//! of the row alone, encoding and decoding round-trip, and a column added
//! to the table leaves every decoded value unchanged.

use vstd::prelude::*;

use crate::columns::DecodeError;
use crate::columns::SqlValue;
use crate::columns::field_accepts;
use crate::columns::lemma_composite_shape_never_matches;
use crate::columns::shape_matches;
use crate::records::RecordDirect;
use crate::records::RecordManual;
use crate::records::direct_decode_spec;
use crate::records::direct_row_of;
use crate::records::direct_shape;
use crate::records::manual_build_spec;
use crate::records::nested_shape;
use crate::records::selected_columns;

verus! {

/// The nested target's declared shape matches no row whatsoever: its
/// composite identifier field spans two physical columns, and the
/// non-flattening mechanism offers it exactly one.
pub proof fn lemma_nested_shape_never_matches(row: Seq<SqlValue>)
    ensures
        !shape_matches(nested_shape(), row),
{
    assert(nested_shape()[1] is Composite);
    lemma_composite_shape_never_matches(nested_shape(), row, 1);
}

/// Idempotence of the flattened strategy: its result is a function of the
/// row alone, so any two results its contract allows on the same row are
/// identical records.
pub proof fn lemma_direct_decode_idempotent(
    row: Seq<SqlValue>,
    r1: Result<RecordDirect, DecodeError>,
    r2: Result<RecordDirect, DecodeError>,
)
    requires
        r1 == direct_decode_spec(row),
        r2 == direct_decode_spec(row),
    ensures
        r1 == r2,
{
}

/// Idempotence of the manual strategy: the constructed record is a
/// function of the typed row tuple alone, so any two records built from
/// the same tuple are identical.
pub proof fn lemma_manual_build_idempotent(
    row: (i32, i64, i64, String),
    r1: RecordManual,
    r2: RecordManual,
)
    requires
        r1 == manual_build_spec(row),
        r2 == manual_build_spec(row),
    ensures
        r1 == r2,
{
}

/// Round-trip for the flattened strategy: encoding a record's fields back
/// into update-column values and decoding the resulting row reproduces
/// the record exactly.
pub proof fn lemma_direct_round_trip(rec: RecordDirect)
    ensures
        direct_decode_spec(direct_row_of(rec)) == Ok::<RecordDirect, DecodeError>(rec),
{
    let row = direct_row_of(rec);
    assert(field_accepts(direct_shape()[0], row[0]));
    assert(field_accepts(direct_shape()[1], row[1]));
    assert(field_accepts(direct_shape()[2], row[2]));
    assert(field_accepts(direct_shape()[3], row[3]));
    assert(shape_matches(direct_shape(), row));
}

/// Round-trip for the manual strategy: encoding a record's fields back
/// into the typed update tuple and building from that tuple reproduces
/// the record exactly.
pub proof fn lemma_manual_round_trip(rec: RecordManual)
    ensures
        manual_build_spec((rec.iid, rec.id.id_0, rec.id.id_1, rec.data)) == rec,
{
}

/// Schema-change robustness: adding an unrelated column to the table
/// appends it after the declared columns, so the selected row — and with
/// it every value any strategy decodes — is unchanged.
pub proof fn lemma_added_column_ignored(full: Seq<SqlValue>, extra: SqlValue)
    requires
        full.len() >= 4,
    ensures
        selected_columns(full.push(extra)) == selected_columns(full),
        direct_decode_spec(selected_columns(full.push(extra))) == direct_decode_spec(
            selected_columns(full),
        ),
{
    assert(selected_columns(full.push(extra)) =~= selected_columns(full));
}

} // verus!
