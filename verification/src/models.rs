//! Order ("spord") records and their lifecycle state.
use vstd::prelude::*;

verus! {

/// Lifecycle state of a spord.  Persisted as a small integer code; any
/// unrecognized code decodes to `Other`, never to an error.
#[derive(Debug, PartialEq, Eq, Structural, Clone, Copy)]
pub enum SpordState {
    Pending,
    Ordered,
    Received,
    Other,
}

impl SpordState {
    /// The integer code this state is persisted as.
    pub open spec fn spec_as_sql(self) -> i32 {
        match self {
            SpordState::Pending => 1,
            SpordState::Ordered => 2,
            SpordState::Received => 3,
            SpordState::Other => 0,
        }
    }

    /// The state a persisted integer code decodes to: total, with every
    /// unrecognized code mapping to `Other`.
    pub open spec fn spec_from_sql(num: i32) -> SpordState {
        if num == 1 {
            SpordState::Pending
        } else if num == 2 {
            SpordState::Ordered
        } else if num == 3 {
            SpordState::Received
        } else {
            SpordState::Other
        }
    }

    pub fn as_sql(&self) -> (code: i32)
        ensures
            code == self.spec_as_sql(),
    {
        match self {
            SpordState::Pending => 1,
            SpordState::Ordered => 2,
            SpordState::Received => 3,
            SpordState::Other => 0,
        }
    }

    pub fn from_sql(num: i32) -> (state: SpordState)
        ensures
            state == SpordState::spec_from_sql(num),
    {
        match num {
            1 => SpordState::Pending,
            2 => SpordState::Ordered,
            3 => SpordState::Received,
            _ => SpordState::Other,
        }
    }
}

/// Encoding a state and decoding the code gives the state back, for every
/// state; decoding never loses a stored lifecycle value.
pub proof fn lemma_state_code_round_trip(state: SpordState)
    ensures
        SpordState::spec_from_sql(state.spec_as_sql()) == state,
{
}

/// An order for a part, as the store owns it.  Timestamps are unix seconds;
/// `id` is assigned by the store on creation (`0` is the placeholder before
/// insertion) and is the update key afterwards.
#[derive(Debug, Clone)]
pub struct SpordRecord {
    pub id: i32,
    pub customer_name: String,
    pub customer_phone: Option<String>,
    pub customer_email: Option<String>,
    pub part: String,
    pub state: SpordState,
    pub creation_date: i64,
    pub received_date: Option<i64>,
    pub comments: Option<String>,
}

impl SpordRecord {
    /// The received timestamp as it is persisted: the unix seconds, or null
    /// when the order has not been received.
    pub fn received_date_unix(&self) -> (unix: Option<i64>)
        ensures
            unix == self.received_date,
    {
        self.received_date
    }
}

} // verus!
