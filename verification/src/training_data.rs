//! The table of clinical ranges, the validator that holds a reading to its
//! plausible ranges, and the evaluator that flags what lies outside the
//! normal bands.

use crate::models::{Field, VitalSigns, VitalSignsView};
use crate::text::{
    append_decimal, append_thousandths, decimal, join, join_strings, thousandths, views,
};
use vstd::prelude::*;

verus! {

/// The bounds of one channel: the widest plausible range, and the normal
/// band inside it. All four bounds are inclusive, and in the unit in which
/// the channel is held.
#[derive(Clone, Copy, Debug, PartialEq, Eq, Structural)]
pub struct VitalRange {
    pub min: i32,
    pub max: i32,
    pub normal_min: i32,
    pub normal_max: i32,
}

impl VitalRange {
    /// The normal band lies inside the plausible range, and neither is empty.
    pub open spec fn nested(self) -> bool {
        self.min <= self.normal_min <= self.normal_max <= self.max
    }

    /// `value` is plausible.
    pub open spec fn admits(self, value: i32) -> bool {
        self.min <= value <= self.max
    }

    /// `value` lies in the normal band.
    pub open spec fn is_normal(self, value: i32) -> bool {
        self.normal_min <= value <= self.normal_max
    }

    /// Whether the normal band lies inside the plausible range.
    pub fn is_nested(&self) -> (b: bool)
        ensures
            b == self.nested(),
    {
        self.min <= self.normal_min && self.normal_min <= self.normal_max && self.normal_max
            <= self.max
    }
}

/// The bounds that the standard table gives each channel. Alerts are raised
/// on the heart rate, the two pressures and the oxygen saturation only, so
/// the respiratory rate and the temperature have no band of their own to be
/// held to: the table gives them their plausible range a second time.
pub open spec fn standard_range(field: Field) -> VitalRange {
    match field {
        Field::HeartRate => VitalRange { min: 30, max: 200, normal_min: 60, normal_max: 100 },
        Field::BloodPressureSystolic => VitalRange {
            min: 60,
            max: 200,
            normal_min: 90,
            normal_max: 140,
        },
        Field::BloodPressureDiastolic => VitalRange {
            min: 40,
            max: 120,
            normal_min: 60,
            normal_max: 90,
        },
        Field::OxygenSaturation => VitalRange {
            min: 70,
            max: 100,
            normal_min: 90,
            normal_max: 100,
        },
        Field::RespiratoryRate => VitalRange { min: 5, max: 50, normal_min: 5, normal_max: 50 },
        Field::Temperature => VitalRange {
            min: 35000,
            max: 40000,
            normal_min: 35000,
            normal_max: 40000,
        },
    }
}

/// The standard table: every channel with its standard bounds.
pub open spec fn standard_table() -> Map<Field, VitalRange> {
    Map::new(|f: Field| true, |f: Field| standard_range(f))
}

/// Every range of the table has its normal band inside its plausible range.
pub open spec fn ranges_nested(table: Map<Field, VitalRange>) -> bool {
    forall|f: Field| table.contains_key(f) ==> (#[trigger] table[f]).nested()
}

/// A value that lies outside the plausible range of its channel.
#[derive(Clone, Copy, Debug, PartialEq, Eq, Structural)]
pub struct Violation {
    pub field: Field,
    pub value: i32,
    pub min: i32,
    pub max: i32,
}

/// The numeral of a value of `field`: a decimal numeral for a whole-number
/// channel, a fixed-point numeral for one held in thousandths.
pub open spec fn value_text(field: Field, value: i32) -> Seq<char> {
    if field.is_real_spec() {
        thousandths(value as int)
    } else {
        decimal(value as int)
    }
}

impl Violation {
    /// The message for the violation: the channel's name, the offending
    /// value, and the bounds of the plausible range.
    pub open spec fn text(self) -> Seq<char> {
        self.field.name_spec() + " "@ + value_text(self.field, self.value) + " out of range ("@
            + value_text(self.field, self.min) + "-"@ + value_text(self.field, self.max) + ")"@
    }

    /// The message for the violation.
    pub fn message(&self) -> (s: String)
        ensures
            s@ == self.text(),
    {
        let mut s = String::new();
        s.append(self.field.name());
        s.append(" ");
        append_value(&mut s, self.field, self.value);
        s.append(" out of range (");
        append_value(&mut s, self.field, self.min);
        s.append("-");
        append_value(&mut s, self.field, self.max);
        s.append(")");
        assert(s@ =~= self.text());
        s
    }
}

/// Appends the numeral of a value of `field` to `out`.
fn append_value(out: &mut String, field: Field, value: i32)
    ensures
        final(out)@ == old(out)@ + value_text(field, value),
{
    if field.is_real() {
        append_thousandths(out, value as i64);
    } else {
        append_decimal(out, value as i64);
    }
}

/// The violation of one channel: present, bounded by the table, and outside
/// its plausible range. A channel that is absent from the reading or from
/// the table violates nothing.
pub open spec fn violation_of(
    table: Map<Field, VitalRange>,
    vitals: VitalSignsView,
    field: Field,
) -> Seq<Violation> {
    match vitals.get(field) {
        Some(value) => if table.contains_key(field) && !table[field].admits(value) {
            seq![Violation { field, value, min: table[field].min, max: table[field].max }]
        } else {
            Seq::empty()
        },
        None => Seq::empty(),
    }
}

/// All violations of a reading, in the order in which the channels are
/// checked.
pub open spec fn violations_spec(table: Map<Field, VitalRange>, vitals: VitalSignsView) -> Seq<
    Violation,
> {
    violation_of(table, vitals, Field::HeartRate) + violation_of(
        table,
        vitals,
        Field::BloodPressureSystolic,
    ) + violation_of(table, vitals, Field::BloodPressureDiastolic) + violation_of(
        table,
        vitals,
        Field::OxygenSaturation,
    ) + violation_of(table, vitals, Field::RespiratoryRate) + violation_of(
        table,
        vitals,
        Field::Temperature,
    )
}

/// The reading is accepted: none of its channels violates the table.
pub open spec fn accepted(table: Map<Field, VitalRange>, vitals: VitalSignsView) -> bool {
    violations_spec(table, vitals).len() == 0
}

/// The messages of a list of violations.
pub open spec fn messages_spec(violations: Seq<Violation>) -> Seq<Seq<char>> {
    violations.map_values(|v: Violation| v.text())
}

/// The report of a list of violations: their messages, separated by `"; "`.
pub open spec fn report_spec(violations: Seq<Violation>) -> Seq<char> {
    join(messages_spec(violations), "; "@)
}

/// The abnormal value of one channel: present, bounded by the table, and
/// outside its normal band.
pub open spec fn abnormal_of(
    table: Map<Field, VitalRange>,
    vitals: VitalSignsView,
    field: Field,
) -> Seq<(Field, i32)> {
    match vitals.get(field) {
        Some(value) => if table.contains_key(field) && !table[field].is_normal(value) {
            seq![(field, value)]
        } else {
            Seq::empty()
        },
        None => Seq::empty(),
    }
}

/// All abnormal values of a reading: those of the four channels on which
/// alerts are raised, blood pressure first, then heart rate and oxygen
/// saturation. The respiratory rate and the temperature are never flagged.
pub open spec fn abnormal_spec(table: Map<Field, VitalRange>, vitals: VitalSignsView) -> Seq<
    (Field, i32),
> {
    abnormal_of(table, vitals, Field::BloodPressureSystolic) + abnormal_of(
        table,
        vitals,
        Field::BloodPressureDiastolic,
    ) + abnormal_of(table, vitals, Field::HeartRate) + abnormal_of(
        table,
        vitals,
        Field::OxygenSaturation,
    )
}

/// The abnormal values as a display shows them: the channel's label and the
/// numeral of the value.
pub open spec fn abnormal_display(abnormal: Seq<(Field, i32)>) -> Seq<(Seq<char>, Seq<char>)> {
    abnormal.map_values(|a: (Field, i32)| (a.0.label_spec(), value_text(a.0, a.1)))
}

/// The view of a list of pairs of strings.
pub open spec fn pairs_view(pairs: Seq<(String, String)>) -> Seq<(Seq<char>, Seq<char>)> {
    pairs.map_values(|p: (String, String)| (p.0@, p.1@))
}

/// The recommendation for a reading: oxygen when the saturation is below
/// 90 per cent, and no action otherwise.
pub open spec fn recommendation_spec(vitals: VitalSignsView) -> Seq<char> {
    match vitals.oxygen_saturation {
        Some(o2) => if o2 < 90 {
            "Consider supplemental oxygen."@
        } else {
            "No immediate action required."@
        },
        None => "No immediate action required."@,
    }
}

/// The table of clinical ranges. A channel without an entry is unbounded:
/// every value of it is plausible and normal.
#[derive(Debug)]
pub struct TrainingData {
    heart_rate: Option<VitalRange>,
    blood_pressure_systolic: Option<VitalRange>,
    blood_pressure_diastolic: Option<VitalRange>,
    oxygen_saturation: Option<VitalRange>,
    respiratory_rate: Option<VitalRange>,
    temperature: Option<VitalRange>,
}

impl TrainingData {
    spec fn entry(&self, field: Field) -> Option<VitalRange> {
        match field {
            Field::HeartRate => self.heart_rate,
            Field::BloodPressureSystolic => self.blood_pressure_systolic,
            Field::BloodPressureDiastolic => self.blood_pressure_diastolic,
            Field::OxygenSaturation => self.oxygen_saturation,
            Field::RespiratoryRate => self.respiratory_rate,
            Field::Temperature => self.temperature,
        }
    }
}

impl View for TrainingData {
    type V = Map<Field, VitalRange>;

    closed spec fn view(&self) -> Map<Field, VitalRange> {
        Map::new(|f: Field| self.entry(f) is Some, |f: Field| self.entry(f)->0)
    }
}

impl TrainingData {
    /// Every range of the table has its normal band inside its plausible
    /// range.
    pub open spec fn wf(&self) -> bool {
        ranges_nested(self@)
    }

    /// The standard table.
    pub fn new() -> (table: TrainingData)
        ensures
            table@ == standard_table(),
            table.wf(),
    {
        let table = TrainingData {
            heart_rate: Some(VitalRange { min: 30, max: 200, normal_min: 60, normal_max: 100 }),
            blood_pressure_systolic: Some(
                VitalRange { min: 60, max: 200, normal_min: 90, normal_max: 140 },
            ),
            blood_pressure_diastolic: Some(
                VitalRange { min: 40, max: 120, normal_min: 60, normal_max: 90 },
            ),
            oxygen_saturation: Some(
                VitalRange { min: 70, max: 100, normal_min: 90, normal_max: 100 },
            ),
            respiratory_rate: Some(VitalRange { min: 5, max: 50, normal_min: 5, normal_max: 50 }),
            temperature: Some(
                VitalRange { min: 35000, max: 40000, normal_min: 35000, normal_max: 40000 },
            ),
        };
        assert(table@ =~= standard_table());
        table
    }

    /// The table without any entry: it bounds nothing.
    pub fn empty() -> (table: TrainingData)
        ensures
            table@ == Map::<Field, VitalRange>::empty(),
            table.wf(),
    {
        let table = TrainingData {
            heart_rate: None,
            blood_pressure_systolic: None,
            blood_pressure_diastolic: None,
            oxygen_saturation: None,
            respiratory_rate: None,
            temperature: None,
        };
        assert(table@ =~= Map::<Field, VitalRange>::empty());
        table
    }

    /// Gives `field` the bounds `range`, if the normal band of `range` lies
    /// inside its plausible range; leaves the table as it is otherwise.
    pub fn set_range(&mut self, field: Field, range: VitalRange) -> (done: bool)
        ensures
            done == range.nested(),
            done ==> final(self)@ == old(self)@.insert(field, range),
            !done ==> final(self)@ == old(self)@,
            old(self).wf() ==> final(self).wf(),
    {
        if !range.is_nested() {
            return false;
        }
        match field {
            Field::HeartRate => {
                self.heart_rate = Some(range);
            },
            Field::BloodPressureSystolic => {
                self.blood_pressure_systolic = Some(range);
            },
            Field::BloodPressureDiastolic => {
                self.blood_pressure_diastolic = Some(range);
            },
            Field::OxygenSaturation => {
                self.oxygen_saturation = Some(range);
            },
            Field::RespiratoryRate => {
                self.respiratory_rate = Some(range);
            },
            Field::Temperature => {
                self.temperature = Some(range);
            },
        }
        assert(self@ =~= old(self)@.insert(field, range));
        true
    }

    /// The bounds of `field`, if the table has any.
    pub fn range(&self, field: Field) -> (range: Option<VitalRange>)
        ensures
            range is Some <==> self@.contains_key(field),
            range is Some ==> range->0 == self@[field],
    {
        match field {
            Field::HeartRate => self.heart_rate,
            Field::BloodPressureSystolic => self.blood_pressure_systolic,
            Field::BloodPressureDiastolic => self.blood_pressure_diastolic,
            Field::OxygenSaturation => self.oxygen_saturation,
            Field::RespiratoryRate => self.respiratory_rate,
            Field::Temperature => self.temperature,
        }
    }

    /// Appends the violation of `field`, if there is one.
    fn check_field(&self, vitals: &VitalSigns, field: Field, found: &mut Vec<Violation>)
        ensures
            final(found)@ == old(found)@ + violation_of(self@, vitals@, field),
    {
        if let Some(value) = vitals.get(field) {
            if let Some(range) = self.range(field) {
                if value < range.min || value > range.max {
                    found.push(Violation { field, value, min: range.min, max: range.max });
                }
            }
        }
        assert(found@ =~= old(found)@ + violation_of(self@, vitals@, field));
    }

    /// All violations of a reading, in the order in which the channels are
    /// checked: heart rate, systolic and diastolic pressure, oxygen
    /// saturation, respiratory rate, temperature.
    pub fn violations(&self, vitals: &VitalSigns) -> (found: Vec<Violation>)
        ensures
            found@ == violations_spec(self@, vitals@),
    {
        let mut found: Vec<Violation> = Vec::new();
        self.check_field(vitals, Field::HeartRate, &mut found);
        self.check_field(vitals, Field::BloodPressureSystolic, &mut found);
        self.check_field(vitals, Field::BloodPressureDiastolic, &mut found);
        self.check_field(vitals, Field::OxygenSaturation, &mut found);
        self.check_field(vitals, Field::RespiratoryRate, &mut found);
        self.check_field(vitals, Field::Temperature, &mut found);
        assert(found@ =~= violations_spec(self@, vitals@));
        found
    }

    /// Holds a reading to the plausible ranges of the table. `Ok` when no
    /// channel violates the table; otherwise the report of all violations.
    pub fn validate(&self, vitals: &VitalSigns) -> (result: Result<(), String>)
        ensures
            result is Ok <==> accepted(self@, vitals@),
            result is Err ==> result->Err_0@ == report_spec(violations_spec(self@, vitals@)),
    {
        let found = self.violations(vitals);
        if found.len() == 0 {
            Ok(())
        } else {
            Err(report(&found))
        }
    }

    /// Appends the abnormal value of `field`, if there is one.
    fn flag_field(&self, vitals: &VitalSigns, field: Field, found: &mut Vec<(Field, i32)>)
        ensures
            final(found)@ == old(found)@ + abnormal_of(self@, vitals@, field),
    {
        if let Some(value) = vitals.get(field) {
            if let Some(range) = self.range(field) {
                if value < range.normal_min || value > range.normal_max {
                    found.push((field, value));
                }
            }
        }
        assert(found@ =~= old(found)@ + abnormal_of(self@, vitals@, field));
    }

    /// The values of a reading that lie outside their normal band, of the
    /// four channels on which alerts are raised: systolic and diastolic
    /// pressure, heart rate, oxygen saturation.
    pub fn abnormal(&self, vitals: &VitalSigns) -> (found: Vec<(Field, i32)>)
        ensures
            found@ == abnormal_spec(self@, vitals@),
    {
        let mut found: Vec<(Field, i32)> = Vec::new();
        self.flag_field(vitals, Field::BloodPressureSystolic, &mut found);
        self.flag_field(vitals, Field::BloodPressureDiastolic, &mut found);
        self.flag_field(vitals, Field::HeartRate, &mut found);
        self.flag_field(vitals, Field::OxygenSaturation, &mut found);
        assert(found@ =~= abnormal_spec(self@, vitals@));
        found
    }

    /// The recommendation for a reading.
    pub fn get_recommendation(&self, vitals: &VitalSigns) -> (advice: String)
        ensures
            advice@ == recommendation_spec(vitals@),
    {
        if let Some(o2) = vitals.oxygen_saturation {
            if o2 < 90 {
                return "Consider supplemental oxygen.".to_owned();
            }
        }
        "No immediate action required.".to_owned()
    }
}

/// The report of a list of violations: their messages, separated by `"; "`.
pub fn report(violations: &Vec<Violation>) -> (s: String)
    ensures
        s@ == report_spec(violations@),
{
    let mut messages: Vec<String> = Vec::new();
    let n = violations.len();
    let mut i: usize = 0;
    while i < n
        invariant
            i <= n,
            n == violations.len(),
            views(messages@) == messages_spec(violations@).take(i as int),
        decreases n - i,
    {
        let ghost before = messages@;
        let message = violations[i].message();
        messages.push(message);
        proof {
            let whole = messages_spec(violations@);
            assert(views(messages@) =~= views(before).push(whole[i as int]));
            assert(whole.take(i + 1) =~= whole.take(i as int).push(whole[i as int]));
        }
        i += 1;
    }
    assert(messages_spec(violations@).take(n as int) =~= messages_spec(violations@));
    join_strings(&messages, "; ")
}

/// The abnormal values as a display shows them: the channel's label and the
/// numeral of the value.
pub fn display_abnormal(abnormal: &Vec<(Field, i32)>) -> (shown: Vec<(String, String)>)
    ensures
        pairs_view(shown@) == abnormal_display(abnormal@),
        shown@.len() == abnormal@.len(),
{
    let mut shown: Vec<(String, String)> = Vec::new();
    let n = abnormal.len();
    let mut i: usize = 0;
    while i < n
        invariant
            i <= n,
            n == abnormal.len(),
            pairs_view(shown@) == abnormal_display(abnormal@).take(i as int),
        decreases n - i,
    {
        let ghost before = shown@;
        let field = abnormal[i].0;
        let value = abnormal[i].1;
        let label = field.label().to_owned();
        let mut numeral = String::new();
        append_value(&mut numeral, field, value);
        assert(numeral@ =~= value_text(field, value));
        shown.push((label, numeral));
        proof {
            let whole = abnormal_display(abnormal@);
            assert(pairs_view(shown@) =~= pairs_view(before).push(whole[i as int]));
            assert(whole.take(i + 1) =~= whole.take(i as int).push(whole[i as int]));
        }
        i += 1;
    }
    assert(abnormal_display(abnormal@).take(n as int) =~= abnormal_display(abnormal@));
    shown
}

impl VitalSigns {
    /// Holds the reading to the plausible ranges of the standard table.
    /// `Ok` when no channel violates it; otherwise the report of all
    /// violations.
    pub fn validate(&self) -> (result: Result<(), String>)
        ensures
            result is Ok <==> accepted(standard_table(), self@),
            result is Err ==> result->Err_0@ == report_spec(
                violations_spec(standard_table(), self@),
            ),
    {
        TrainingData::new().validate(self)
    }

    /// The values of the two pressures, the heart rate and the oxygen
    /// saturation that lie outside the normal bands of the standard table,
    /// as a display shows them.
    pub fn get_abnormal_vitals(&self) -> (shown: Vec<(String, String)>)
        ensures
            pairs_view(shown@) == abnormal_display(abnormal_spec(standard_table(), self@)),
            shown@.len() == abnormal_spec(standard_table(), self@).len(),
    {
        let found = TrainingData::new().abnormal(self);
        display_abnormal(&found)
    }
}

} // verus!
