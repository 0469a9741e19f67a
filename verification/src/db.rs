//! What the persistence sink writes for one reading: the row of the reading
//! itself, which the sink numbers, and one row for each extra channel, which
//! carries that number.

use crate::models::{VitalSigns, VitalSignsView};
use vstd::prelude::*;

verus! {

/// A failure of the persistence sink, with the sink's own words.
#[derive(Debug, PartialEq)]
pub enum DbError {
    OperationError(String),
}

impl DbError {
    /// The sink's words.
    pub open spec fn detail(&self) -> Seq<char> {
        match self {
            DbError::OperationError(detail) => detail@,
        }
    }

    /// The sentence that reports the error.
    pub open spec fn message_spec(&self) -> Seq<char> {
        "Database operation failed: "@ + self.detail()
    }

    /// The sentence that reports the error.
    pub fn message(&self) -> (s: String)
        ensures
            s@ == self.message_spec(),
    {
        match self {
            DbError::OperationError(detail) => {
                let mut s = "Database operation failed: ".to_owned();
                s.append(detail.as_str());
                s
            },
        }
    }
}

/// The row of one extra channel.
#[derive(Debug, PartialEq)]
pub struct ParamRow {
    /// The number that the sink gave the row of the reading.
    pub vitals_id: i64,
    pub param_name: String,
    /// Thousandths of the channel's unit.
    pub param_value: i64,
}

/// A row of an extra channel, as mathematical values.
pub struct ParamRowView {
    pub vitals_id: i64,
    pub param_name: Seq<char>,
    pub param_value: i64,
}

impl View for ParamRow {
    type V = ParamRowView;

    open spec fn view(&self) -> ParamRowView {
        ParamRowView {
            vitals_id: self.vitals_id,
            param_name: self.param_name@,
            param_value: self.param_value,
        }
    }
}

/// The views of a list of rows.
pub open spec fn rows_view(rows: Seq<ParamRow>) -> Seq<ParamRowView> {
    rows.map_values(|r: ParamRow| r@)
}

/// The rows of the extra channels of a reading whose own row has the number
/// `vitals_id`: one row for each channel, in the order held, each with that
/// number.
pub open spec fn param_rows_spec(vitals_id: i64, vitals: VitalSignsView) -> Seq<ParamRowView> {
    vitals.additional_params.map_values(
        |p: (Seq<char>, i64)| ParamRowView { vitals_id, param_name: p.0, param_value: p.1 },
    )
}

/// The rows to write for the extra channels of a reading, once the sink has
/// given the row of the reading the number `vitals_id`.
pub fn param_rows(vitals_id: i64, vitals: &VitalSigns) -> (rows: Vec<ParamRow>)
    ensures
        rows_view(rows@) == param_rows_spec(vitals_id, vitals@),
{
    let mut rows: Vec<ParamRow> = Vec::new();
    let n = vitals.additional_params.len();
    let mut i: usize = 0;
    while i < n
        invariant
            i <= n,
            n == vitals.additional_params.len(),
            rows_view(rows@) == param_rows_spec(vitals_id, vitals@).take(i as int),
        decreases n - i,
    {
        let ghost before = rows@;
        let param_name = vitals.additional_params[i].0.clone();
        let param_value = vitals.additional_params[i].1;
        rows.push(ParamRow { vitals_id, param_name, param_value });
        proof {
            let whole = param_rows_spec(vitals_id, vitals@);
            assert(rows_view(rows@) =~= rows_view(before).push(whole[i as int]));
            assert(whole.take(i + 1) =~= whole.take(i as int).push(whole[i as int]));
        }
        i += 1;
    }
    assert(param_rows_spec(vitals_id, vitals@).take(n as int) =~= param_rows_spec(
        vitals_id,
        vitals@,
    ));
    rows
}

} // verus!
