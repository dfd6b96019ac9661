//! Persisted rows and the codec between them and order records.
//!
//! The backing store keeps an order as a row of dynamically typed column
//! values; decoding a row back into a [`SpordRecord`] can fail, and a
//! listing skips such rows instead of failing whole.  The codec here is
//! total in the other direction: every record encodes, and decoding an
//! encoded row gives the record back.
use vstd::prelude::*;

use crate::errors::SqlError;
use crate::models::SpordRecord;
use crate::models::SpordState;

verus! {

/// A single column value as the backing store returns it: dynamically typed.
#[derive(Debug, Clone)]
pub enum RawValue {
    Null,
    Int(i64),
    Text(String),
}

/// Ghost counterpart of [`RawValue`], with text as a character sequence.
pub enum RawValueView {
    Null,
    Int(i64),
    Text(Seq<char>),
}

impl View for RawValue {
    type V = RawValueView;

    open spec fn view(&self) -> RawValueView {
        match self {
            RawValue::Null => RawValueView::Null,
            RawValue::Int(v) => RawValueView::Int(*v),
            RawValue::Text(s) => RawValueView::Text(s@),
        }
    }
}

/// The non-id columns of a persisted order row, in schema order.
#[derive(Debug, Clone)]
pub struct SpordFields {
    pub name: RawValue,
    pub phone: RawValue,
    pub email: RawValue,
    pub part: RawValue,
    pub state: RawValue,
    pub created: RawValue,
    pub received: RawValue,
    pub comments: RawValue,
}

/// Ghost counterpart of [`SpordFields`].
pub struct SpordFieldsView {
    pub name: RawValueView,
    pub phone: RawValueView,
    pub email: RawValueView,
    pub part: RawValueView,
    pub state: RawValueView,
    pub created: RawValueView,
    pub received: RawValueView,
    pub comments: RawValueView,
}

impl View for SpordFields {
    type V = SpordFieldsView;

    open spec fn view(&self) -> SpordFieldsView {
        SpordFieldsView {
            name: self.name@,
            phone: self.phone@,
            email: self.email@,
            part: self.part@,
            state: self.state@,
            created: self.created@,
            received: self.received@,
            comments: self.comments@,
        }
    }
}

/// A persisted order row: the store-assigned id and the data columns.
#[derive(Debug, Clone)]
pub struct SpordRow {
    pub id: i32,
    pub fields: SpordFields,
}

/// Ghost counterpart of [`SpordRow`].
pub struct SpordRowView {
    pub id: i32,
    pub fields: SpordFieldsView,
}

impl View for SpordRow {
    type V = SpordRowView;

    open spec fn view(&self) -> SpordRowView {
        SpordRowView { id: self.id, fields: self.fields@ }
    }
}

/// Ghost counterpart of a whole record, with text as character sequences.
pub struct SpordRecordView {
    pub id: i32,
    pub customer_name: Seq<char>,
    pub customer_phone: Option<Seq<char>>,
    pub customer_email: Option<Seq<char>>,
    pub part: Seq<char>,
    pub state: SpordState,
    pub creation_date: i64,
    pub received_date: Option<i64>,
    pub comments: Option<Seq<char>>,
}

impl View for SpordRecord {
    type V = SpordRecordView;

    open spec fn view(&self) -> SpordRecordView {
        SpordRecordView {
            id: self.id,
            customer_name: self.customer_name@,
            customer_phone: match self.customer_phone {
                Option::Some(s) => Option::Some(s@),
                Option::None => Option::None,
            },
            customer_email: match self.customer_email {
                Option::Some(s) => Option::Some(s@),
                Option::None => Option::None,
            },
            part: self.part@,
            state: self.state,
            creation_date: self.creation_date,
            received_date: self.received_date,
            comments: match self.comments {
                Option::Some(s) => Option::Some(s@),
                Option::None => Option::None,
            },
        }
    }
}

/// An optional text as its column value: text, or null when absent.
pub open spec fn opt_text(o: Option<Seq<char>>) -> RawValueView {
    match o {
        Option::Some(s) => RawValueView::Text(s),
        Option::None => RawValueView::Null,
    }
}

/// An optional integer as its column value: an integer, or null when absent.
pub open spec fn opt_int(o: Option<i64>) -> RawValueView {
    match o {
        Option::Some(v) => RawValueView::Int(v),
        Option::None => RawValueView::Null,
    }
}

/// The persisted form of a record's data columns.  The lifecycle state is
/// stored as its integer code and the id is not among the data columns: the
/// store assigns it.
pub open spec fn spec_encode(r: SpordRecordView) -> SpordFieldsView {
    SpordFieldsView {
        name: RawValueView::Text(r.customer_name),
        phone: opt_text(r.customer_phone),
        email: opt_text(r.customer_email),
        part: RawValueView::Text(r.part),
        state: RawValueView::Int(r.state.spec_as_sql() as i64),
        created: RawValueView::Int(r.creation_date),
        received: opt_int(r.received_date),
        comments: opt_text(r.comments),
    }
}

/// Whether a row's columns carry the types decoding demands.  The state
/// code may be any value in range — an unrecognized code is still well
/// typed and decodes to `Other` — but a misplaced null or text is not.
pub open spec fn row_well_typed(f: SpordFieldsView) -> bool {
    &&& f.name is Text
    &&& (f.phone is Null || f.phone is Text)
    &&& (f.email is Null || f.email is Text)
    &&& f.part is Text
    &&& (f.state matches RawValueView::Int(v) && i32::MIN as i64 <= v && v <= i32::MAX as i64)
    &&& f.created is Int
    &&& (f.received is Null || f.received is Int)
    &&& (f.comments is Null || f.comments is Text)
}

/// The optional text a column decodes to, on a well-typed column.
pub open spec fn opt_text_back(v: RawValueView) -> Option<Seq<char>> {
    match v {
        RawValueView::Text(s) => Option::Some(s),
        _ => Option::None,
    }
}

/// The optional integer a column decodes to, on a well-typed column.
pub open spec fn opt_int_back(v: RawValueView) -> Option<i64> {
    match v {
        RawValueView::Int(n) => Option::Some(n),
        _ => Option::None,
    }
}

/// The record a persisted row decodes to, or nothing when a column is
/// malformed.  An out-of-range state code is not malformed: it decodes to
/// `Other`.
pub open spec fn spec_decode(row: SpordRowView) -> Option<SpordRecordView> {
    if row_well_typed(row.fields) {
        Option::Some(
            SpordRecordView {
                id: row.id,
                customer_name: row.fields.name->Text_0,
                customer_phone: opt_text_back(row.fields.phone),
                customer_email: opt_text_back(row.fields.email),
                part: row.fields.part->Text_0,
                state: SpordState::spec_from_sql(row.fields.state->Int_0 as i32),
                creation_date: row.fields.created->Int_0,
                received_date: opt_int_back(row.fields.received),
                comments: opt_text_back(row.fields.comments),
            },
        )
    } else {
        Option::None
    }
}

/// Encode a record's data columns for insertion or a full-row update.
pub fn encode_record(record: &SpordRecord) -> (fields: SpordFields)
    ensures
        fields@ == spec_encode(record@),
{
    SpordFields {
        name: RawValue::Text(record.customer_name.clone()),
        phone: match &record.customer_phone {
            Option::Some(s) => RawValue::Text(s.clone()),
            Option::None => RawValue::Null,
        },
        email: match &record.customer_email {
            Option::Some(s) => RawValue::Text(s.clone()),
            Option::None => RawValue::Null,
        },
        part: RawValue::Text(record.part.clone()),
        state: RawValue::Int(record.state.as_sql() as i64),
        created: RawValue::Int(record.creation_date),
        received: match record.received_date {
            Option::Some(v) => RawValue::Int(v),
            Option::None => RawValue::Null,
        },
        comments: match &record.comments {
            Option::Some(s) => RawValue::Text(s.clone()),
            Option::None => RawValue::Null,
        },
    }
}

/// Decode a persisted row into a record.  Fails exactly on a malformed
/// column, and then with `DecodeError`; an unrecognized state code is not a
/// failure.
pub fn decode_row(row: &SpordRow) -> (r: Result<SpordRecord, SqlError>)
    ensures
        r is Ok <==> spec_decode(row@) is Some,
        r matches Ok(rec) ==> Some(rec@) == spec_decode(row@),
        r matches Err(e) ==> e == SqlError::DecodeError,
{
    let customer_name = match &row.fields.name {
        RawValue::Text(s) => s.clone(),
        _ => {
            return Err(SqlError::DecodeError);
        },
    };
    let customer_phone = match &row.fields.phone {
        RawValue::Text(s) => Some(s.clone()),
        RawValue::Null => None,
        _ => {
            return Err(SqlError::DecodeError);
        },
    };
    let customer_email = match &row.fields.email {
        RawValue::Text(s) => Some(s.clone()),
        RawValue::Null => None,
        _ => {
            return Err(SqlError::DecodeError);
        },
    };
    let part = match &row.fields.part {
        RawValue::Text(s) => s.clone(),
        _ => {
            return Err(SqlError::DecodeError);
        },
    };
    let state_code = match &row.fields.state {
        RawValue::Int(v) => *v,
        _ => {
            return Err(SqlError::DecodeError);
        },
    };
    if state_code < i32::MIN as i64 || state_code > i32::MAX as i64 {
        return Err(SqlError::DecodeError);
    }
    let creation_date = match &row.fields.created {
        RawValue::Int(v) => *v,
        _ => {
            return Err(SqlError::DecodeError);
        },
    };
    let received_date = match &row.fields.received {
        RawValue::Int(v) => Some(*v),
        RawValue::Null => None,
        _ => {
            return Err(SqlError::DecodeError);
        },
    };
    let comments = match &row.fields.comments {
        RawValue::Text(s) => Some(s.clone()),
        RawValue::Null => None,
        _ => {
            return Err(SqlError::DecodeError);
        },
    };
    Ok(
        SpordRecord {
            id: row.id,
            customer_name,
            customer_phone,
            customer_email,
            part,
            state: SpordState::from_sql(state_code as i32),
            creation_date,
            received_date,
            comments,
        },
    )
}

/// The same record under another id: what an insert assigns in place of
/// the placeholder.
pub open spec fn with_id(r: SpordRecordView, id: i32) -> SpordRecordView {
    SpordRecordView {
        id,
        customer_name: r.customer_name,
        customer_phone: r.customer_phone,
        customer_email: r.customer_email,
        part: r.part,
        state: r.state,
        creation_date: r.creation_date,
        received_date: r.received_date,
        comments: r.comments,
    }
}

/// Encoding a record and decoding the stored row gives the record back,
/// carrying the row's id: the codec loses nothing, and a freshly encoded
/// row is never skipped by a listing.
pub proof fn lemma_encode_decode_round_trip(r: SpordRecordView, id: i32)
    ensures
        spec_decode(SpordRowView { id, fields: spec_encode(r) }) == Some(with_id(r, id)),
{
    crate::models::lemma_state_code_round_trip(r.state);
}

/// A row whose state column holds an out-of-range code still decodes — to
/// the `Other` state — rather than failing: a bad state code never costs
/// the row.
pub proof fn lemma_unknown_state_decodes(row: SpordRowView, code: i64)
    requires
        row_well_typed(row.fields),
        row.fields.state == RawValueView::Int(code),
        code != 1 && code != 2 && code != 3,
    ensures
        spec_decode(row) matches Some(rec) && rec.state == SpordState::Other,
{
}

} // verus!
