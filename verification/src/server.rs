//! The simulated monitor: one plausible reading per tick, and what a failed
//! send means for the connection.

use crate::laws::law_drawn_reading_is_accepted;
use crate::models::{VitalSigns, VitalSignsView};
use crate::text::{contains, contains_text};
use crate::training_data::{accepted, standard_table};
use rand::rngs::StdRng;
use rand::Rng;
use vstd::prelude::*;

verus! {

/// The seconds between two readings of a connection.
pub const TICK_SECONDS: u64 = 5;

/// `rand::rngs::StdRng`, the generator that the draws are taken from.
#[verifier::external_type_specification]
#[verifier::external_body]
pub struct ExStdRng(rand::rngs::StdRng);

/// Calls `rand::Rng::gen_range` on the half-open range `low..high`. The
/// call panics on an empty range, which `requires` leaves out. It returns a
/// value of the range; which one depends on the state of the generator.
#[verifier::external_body]
fn draw(rng: &mut StdRng, low: i32, high: i32) -> (value: i32)
    requires
        low < high,
    ensures
        low <= value < high,
{
    rng.gen_range(low..high)
}

/// The eight numbers that make one reading of the simulation, in the order
/// in which they are drawn.
#[derive(Clone, Copy, Debug, PartialEq, Eq, Structural)]
pub struct Draws {
    /// Central venous pressure, in thousandths.
    pub cvp: i32,
    /// Systolic pulmonary artery pressure, in thousandths.
    pub pap_systolic: i32,
    pub heart_rate: i32,
    pub blood_pressure_systolic: i32,
    pub blood_pressure_diastolic: i32,
    pub oxygen_saturation: i32,
    pub respiratory_rate: i32,
    /// Thousandths of a degree Celsius.
    pub temperature: i32,
}

impl Draws {
    /// Every number lies in the band of its channel.
    pub open spec fn in_bands(self) -> bool {
        &&& 0 <= self.cvp < 15000
        &&& 15000 <= self.pap_systolic < 30000
        &&& 40 <= self.heart_rate < 120
        &&& 90 <= self.blood_pressure_systolic < 160
        &&& 50 <= self.blood_pressure_diastolic < 100
        &&& 85 <= self.oxygen_saturation < 100
        &&& 8 <= self.respiratory_rate < 30
        &&& 36000 <= self.temperature < 38500
    }

    /// The reading that the numbers make: the patient `patient1`, every core
    /// channel present, and the extra channels `CVP` and `PAP_systolic`.
    pub open spec fn reading(self) -> VitalSignsView {
        VitalSignsView {
            patient_id: "patient1"@,
            heart_rate: Some(self.heart_rate),
            blood_pressure_systolic: Some(self.blood_pressure_systolic),
            blood_pressure_diastolic: Some(self.blood_pressure_diastolic),
            oxygen_saturation: Some(self.oxygen_saturation),
            respiratory_rate: Some(self.respiratory_rate),
            temperature: Some(self.temperature),
            additional_params: seq![
                ("CVP"@, self.cvp as i64),
                ("PAP_systolic"@, self.pap_systolic as i64),
            ],
        }
    }
}

/// Makes the reading of one tick from its eight numbers.
pub fn reading_from_draws(draws: Draws) -> (vitals: VitalSigns)
    ensures
        vitals@ == draws.reading(),
{
    let mut additional_params: Vec<(String, i64)> = Vec::new();
    additional_params.push(("CVP".to_owned(), draws.cvp as i64));
    additional_params.push(("PAP_systolic".to_owned(), draws.pap_systolic as i64));
    let vitals = VitalSigns {
        patient_id: "patient1".to_owned(),
        heart_rate: Some(draws.heart_rate),
        blood_pressure_systolic: Some(draws.blood_pressure_systolic),
        blood_pressure_diastolic: Some(draws.blood_pressure_diastolic),
        oxygen_saturation: Some(draws.oxygen_saturation),
        respiratory_rate: Some(draws.respiratory_rate),
        temperature: Some(draws.temperature),
        additional_params,
    };
    assert(vitals@.additional_params =~= draws.reading().additional_params);
    vitals
}

/// Draws the reading of one tick: eight numbers, each from the band of its
/// channel, made into a reading. Whatever the generator yields, the reading
/// is well formed and the standard table accepts it.
pub fn generate_vitals(rng: &mut StdRng) -> (vitals: VitalSigns)
    ensures
        exists|draws: Draws| draws.in_bands() && vitals@ == #[trigger] draws.reading(),
        vitals@.wf(),
        accepted(standard_table(), vitals@),
{
    let cvp = draw(rng, 0, 15000);
    let pap_systolic = draw(rng, 15000, 30000);
    let heart_rate = draw(rng, 40, 120);
    let blood_pressure_systolic = draw(rng, 90, 160);
    let blood_pressure_diastolic = draw(rng, 50, 100);
    let oxygen_saturation = draw(rng, 85, 100);
    let respiratory_rate = draw(rng, 8, 30);
    let temperature = draw(rng, 36000, 38500);
    let draws = Draws {
        cvp,
        pap_systolic,
        heart_rate,
        blood_pressure_systolic,
        blood_pressure_diastolic,
        oxygen_saturation,
        respiratory_rate,
        temperature,
    };
    let vitals = reading_from_draws(draws);
    proof {
        law_drawn_reading_is_accepted(draws);
    }
    vitals
}

/// A send that the transport refused, with the transport's own words.
#[derive(Debug, PartialEq)]
pub enum ServerError {
    SendError(String),
}

impl ServerError {
    /// The transport's words.
    pub open spec fn detail(&self) -> Seq<char> {
        match self {
            ServerError::SendError(detail) => detail@,
        }
    }

    /// The sentence that reports the error.
    pub open spec fn message_spec(&self) -> Seq<char> {
        "Failed to send WebSocket message: "@ + self.detail()
    }

    /// The sentence that reports the error.
    pub fn message(&self) -> (s: String)
        ensures
            s@ == self.message_spec(),
    {
        match self {
            ServerError::SendError(detail) => {
                let mut s = "Failed to send WebSocket message: ".to_owned();
                s.append(detail.as_str());
                s
            },
        }
    }
}

/// What becomes of a connection after a send.
#[derive(Clone, Copy, Debug, PartialEq, Eq, Structural)]
pub enum Connection {
    /// The next tick sends again.
    Open,
    /// The consumer is gone; the tick loop of this connection ends.
    Closed,
}

/// What becomes of the connection after a send with the given outcome.
pub open spec fn after_send_spec(outcome: Result<(), ServerError>) -> Connection {
    match outcome {
        Ok(_) => Connection::Open,
        Err(error) => if contains_text(error.detail(), "disconnected"@) {
            Connection::Closed
        } else {
            Connection::Open
        },
    }
}

/// Decides what becomes of the connection after a send. A failed send ends
/// the connection only when the transport says that the consumer has
/// disconnected; any other failure is retried at the next tick.
pub fn after_send(outcome: &Result<(), ServerError>) -> (next: Connection)
    ensures
        next == after_send_spec(*outcome),
{
    match outcome {
        Ok(_) => Connection::Open,
        Err(ServerError::SendError(detail)) => {
            if contains(detail.as_str(), "disconnected") {
                Connection::Closed
            } else {
                Connection::Open
            }
        },
    }
}

} // verus!
