//! One reading of a patient's vital signs, and the names of its channels.
//!
//! Whole-number channels are held as they are reported. Real-valued channels
//! (the temperature and the extra channels) are held in thousandths of their
//! unit, so that 36.6 °C is the integer 36600; the library computes with
//! integers only.

use vstd::prelude::*;

verus! {

/// A core channel of a reading.
#[derive(Clone, Copy, Debug, PartialEq, Eq, Structural)]
pub enum Field {
    HeartRate,
    BloodPressureSystolic,
    BloodPressureDiastolic,
    OxygenSaturation,
    RespiratoryRate,
    Temperature,
}

impl Field {
    /// The name of the channel on the wire and in messages.
    pub open spec fn name_spec(self) -> Seq<char> {
        match self {
            Field::HeartRate => "heart_rate"@,
            Field::BloodPressureSystolic => "blood_pressure_systolic"@,
            Field::BloodPressureDiastolic => "blood_pressure_diastolic"@,
            Field::OxygenSaturation => "oxygen_saturation"@,
            Field::RespiratoryRate => "respiratory_rate"@,
            Field::Temperature => "temperature"@,
        }
    }

    /// The name of the channel as a bedside display shows it.
    pub open spec fn label_spec(self) -> Seq<char> {
        match self {
            Field::HeartRate => "Heart Rate"@,
            Field::BloodPressureSystolic => "Blood Pressure (Systolic)"@,
            Field::BloodPressureDiastolic => "Blood Pressure (Diastolic)"@,
            Field::OxygenSaturation => "Oxygen Saturation"@,
            Field::RespiratoryRate => "Respiratory Rate"@,
            Field::Temperature => "Temperature"@,
        }
    }

    /// Whether the channel is real-valued, and so held in thousandths.
    pub open spec fn is_real_spec(self) -> bool {
        self == Field::Temperature
    }

    /// The name of the channel on the wire and in messages.
    pub fn name(&self) -> (s: &'static str)
        ensures
            s@ == self.name_spec(),
    {
        match self {
            Field::HeartRate => "heart_rate",
            Field::BloodPressureSystolic => "blood_pressure_systolic",
            Field::BloodPressureDiastolic => "blood_pressure_diastolic",
            Field::OxygenSaturation => "oxygen_saturation",
            Field::RespiratoryRate => "respiratory_rate",
            Field::Temperature => "temperature",
        }
    }

    /// The name of the channel as a bedside display shows it.
    pub fn label(&self) -> (s: &'static str)
        ensures
            s@ == self.label_spec(),
    {
        match self {
            Field::HeartRate => "Heart Rate",
            Field::BloodPressureSystolic => "Blood Pressure (Systolic)",
            Field::BloodPressureDiastolic => "Blood Pressure (Diastolic)",
            Field::OxygenSaturation => "Oxygen Saturation",
            Field::RespiratoryRate => "Respiratory Rate",
            Field::Temperature => "Temperature",
        }
    }

    /// Whether the channel is real-valued, and so held in thousandths.
    pub fn is_real(&self) -> (b: bool)
        ensures
            b == self.is_real_spec(),
    {
        match self {
            Field::Temperature => true,
            _ => false,
        }
    }
}

/// One reading of a patient's vital signs. Every channel may be absent
/// independently of the others. The extra channels are a mapping from name
/// to value that is held as a list; `==` compares the lists, so two readings
/// that hold the same extra channels in another order are not `==`.
#[derive(Clone, Debug, PartialEq)]
pub struct VitalSigns {
    pub patient_id: String,
    /// Beats per minute.
    pub heart_rate: Option<i32>,
    /// Millimetres of mercury.
    pub blood_pressure_systolic: Option<i32>,
    /// Millimetres of mercury.
    pub blood_pressure_diastolic: Option<i32>,
    /// Per cent.
    pub oxygen_saturation: Option<i32>,
    /// Breaths per minute.
    pub respiratory_rate: Option<i32>,
    /// Thousandths of a degree Celsius.
    pub temperature: Option<i32>,
    /// Extra channels by name, each in thousandths of its unit. No name
    /// occurs twice in a well-formed reading.
    pub additional_params: Vec<(String, i64)>,
}

/// What a reading holds, as mathematical values.
pub struct VitalSignsView {
    pub patient_id: Seq<char>,
    pub heart_rate: Option<i32>,
    pub blood_pressure_systolic: Option<i32>,
    pub blood_pressure_diastolic: Option<i32>,
    pub oxygen_saturation: Option<i32>,
    pub respiratory_rate: Option<i32>,
    pub temperature: Option<i32>,
    pub additional_params: Seq<(Seq<char>, i64)>,
}

impl VitalSignsView {
    /// The value of a core channel, if the reading has one.
    pub open spec fn get(self, field: Field) -> Option<i32> {
        match field {
            Field::HeartRate => self.heart_rate,
            Field::BloodPressureSystolic => self.blood_pressure_systolic,
            Field::BloodPressureDiastolic => self.blood_pressure_diastolic,
            Field::OxygenSaturation => self.oxygen_saturation,
            Field::RespiratoryRate => self.respiratory_rate,
            Field::Temperature => self.temperature,
        }
    }

    /// The names of the extra channels, in the order held.
    pub open spec fn param_names(self) -> Seq<Seq<char>> {
        self.additional_params.map_values(|p: (Seq<char>, i64)| p.0)
    }

    /// The reading names a patient, and no extra channel occurs twice.
    pub open spec fn wf(self) -> bool {
        &&& self.patient_id.len() > 0
        &&& self.param_names().no_duplicates()
    }

    /// No core channel is present.
    pub open spec fn is_blank(self) -> bool {
        forall|f: Field| (#[trigger] self.get(f)) is None
    }
}

/// The reading of a patient with every channel absent.
pub open spec fn blank_reading(patient_id: Seq<char>) -> VitalSignsView {
    VitalSignsView {
        patient_id,
        heart_rate: None,
        blood_pressure_systolic: None,
        blood_pressure_diastolic: None,
        oxygen_saturation: None,
        respiratory_rate: None,
        temperature: None,
        additional_params: Seq::empty(),
    }
}

/// The view of a list of named values.
pub open spec fn params_view(params: Seq<(String, i64)>) -> Seq<(Seq<char>, i64)> {
    params.map_values(|p: (String, i64)| (p.0@, p.1))
}

impl View for VitalSigns {
    type V = VitalSignsView;

    open spec fn view(&self) -> VitalSignsView {
        VitalSignsView {
            patient_id: self.patient_id@,
            heart_rate: self.heart_rate,
            blood_pressure_systolic: self.blood_pressure_systolic,
            blood_pressure_diastolic: self.blood_pressure_diastolic,
            oxygen_saturation: self.oxygen_saturation,
            respiratory_rate: self.respiratory_rate,
            temperature: self.temperature,
            additional_params: params_view(self.additional_params@),
        }
    }
}

impl VitalSigns {
    /// A reading for `patient_id` with every channel absent.
    pub fn new(patient_id: String) -> (v: VitalSigns)
        ensures
            v@ == blank_reading(patient_id@),
    {
        let v = VitalSigns {
            patient_id,
            heart_rate: None,
            blood_pressure_systolic: None,
            blood_pressure_diastolic: None,
            oxygen_saturation: None,
            respiratory_rate: None,
            temperature: None,
            additional_params: Vec::new(),
        };
        assert(v@.additional_params =~= Seq::empty());
        v
    }

    /// The value of a core channel, if the reading has one.
    pub fn get(&self, field: Field) -> (value: Option<i32>)
        ensures
            value == self@.get(field),
    {
        match field {
            Field::HeartRate => self.heart_rate,
            Field::BloodPressureSystolic => self.blood_pressure_systolic,
            Field::BloodPressureDiastolic => self.blood_pressure_diastolic,
            Field::OxygenSaturation => self.oxygen_saturation,
            Field::RespiratoryRate => self.respiratory_rate,
            Field::Temperature => self.temperature,
        }
    }

    /// Whether the reading names a patient and holds no extra channel twice.
    pub fn is_well_formed(&self) -> (b: bool)
        ensures
            b == self@.wf(),
    {
        if self.patient_id.as_str().unicode_len() == 0 {
            return false;
        }
        let n = self.additional_params.len();
        let ghost names = self@.param_names();
        let mut i: usize = 0;
        while i < n
            invariant
                i <= n,
                n == self.additional_params.len(),
                names == self@.param_names(),
                names.len() == n,
                forall|a: int, b: int| 0 <= a < b < i ==> names[a] != names[b],
            decreases n - i,
        {
            let mut j: usize = 0;
            while j < i
                invariant
                    j <= i < n,
                    n == self.additional_params.len(),
                    names == self@.param_names(),
                    names.len() == n,
                    forall|a: int| 0 <= a < j ==> names[a] != names[i as int],
                decreases i - j,
            {
                if self.additional_params[j].0 == self.additional_params[i].0 {
                    assert(names[j as int] == names[i as int]);
                    return false;
                }
                j += 1;
            }
            i += 1;
        }
        true
    }

    /// A copy of the reading.
    pub fn duplicate(&self) -> (v: VitalSigns)
        ensures
            v@ == self@,
    {
        let mut params: Vec<(String, i64)> = Vec::new();
        let n = self.additional_params.len();
        let mut i: usize = 0;
        while i < n
            invariant
                i <= n,
                n == self.additional_params.len(),
                params_view(params@) == params_view(self.additional_params@).take(i as int),
            decreases n - i,
        {
            let name = self.additional_params[i].0.clone();
            let value = self.additional_params[i].1;
            let ghost before = params@;
            params.push((name, value));
            proof {
                let whole = params_view(self.additional_params@);
                assert(params_view(params@) =~= params_view(before).push(whole[i as int]));
                assert(whole.take(i + 1) =~= whole.take(i as int).push(whole[i as int]));
            }
            i += 1;
        }
        assert(params_view(params@) =~= params_view(self.additional_params@));
        VitalSigns {
            patient_id: self.patient_id.clone(),
            heart_rate: self.heart_rate,
            blood_pressure_systolic: self.blood_pressure_systolic,
            blood_pressure_diastolic: self.blood_pressure_diastolic,
            oxygen_saturation: self.oxygen_saturation,
            respiratory_rate: self.respiratory_rate,
            temperature: self.temperature,
            additional_params: params,
        }
    }
}

/// The kinds of fault for which a reading is refused.
#[derive(Clone, Copy, Debug, PartialEq, Eq, Structural)]
pub enum ValidationError {
    HeartRateOutOfRange,
    OxygenSaturationOutOfRange,
    InvalidBloodPressureFormat,
}

impl ValidationError {
    /// The sentence that reports the error.
    pub open spec fn message_spec(self) -> Seq<char> {
        match self {
            ValidationError::HeartRateOutOfRange => "Heart rate is out of realistic range."@,
            ValidationError::OxygenSaturationOutOfRange => {
                "Oxygen saturation is out of realistic range."@
            },
            ValidationError::InvalidBloodPressureFormat => "Blood pressure format is invalid."@,
        }
    }

    /// The sentence that reports the error.
    pub fn message(&self) -> (s: &'static str)
        ensures
            s@ == self.message_spec(),
    {
        match self {
            ValidationError::HeartRateOutOfRange => "Heart rate is out of realistic range.",
            ValidationError::OxygenSaturationOutOfRange => {
                "Oxygen saturation is out of realistic range."
            },
            ValidationError::InvalidBloodPressureFormat => "Blood pressure format is invalid.",
        }
    }
}

} // verus!
