use vitals_monitor::models::{Field, ValidationError, VitalSigns};
use vitals_monitor::training_data::{report, TrainingData, Violation, VitalRange};

fn reading() -> VitalSigns {
    VitalSigns::new("patient1".to_string())
}

fn with_heart_rate(heart_rate: i32) -> VitalSigns {
    let mut vitals = reading();
    vitals.heart_rate = Some(heart_rate);
    vitals
}

#[test]
fn blank_reading_has_no_violations() {
    let vitals = reading();
    assert_eq!(vitals.validate(), Ok(()));
    assert_eq!(TrainingData::new().validate(&vitals), Ok(()));
    assert!(TrainingData::new().violations(&vitals).is_empty());
    assert!(TrainingData::empty().violations(&vitals).is_empty());
}

#[test]
fn blank_reading_has_no_abnormal_values() {
    let vitals = reading();
    assert!(vitals.get_abnormal_vitals().is_empty());
    assert!(TrainingData::new().abnormal(&vitals).is_empty());
}

#[test]
fn heart_rate_inside_bounds_is_accepted() {
    for heart_rate in [30, 31, 60, 115, 199, 200] {
        assert_eq!(with_heart_rate(heart_rate).validate(), Ok(()));
    }
}

#[test]
fn heart_rate_outside_bounds_is_one_violation() {
    for heart_rate in [29, 201, 210, 0, -5, i32::MAX, i32::MIN] {
        let found = TrainingData::new().violations(&with_heart_rate(heart_rate));
        assert_eq!(
            found,
            vec![Violation { field: Field::HeartRate, value: heart_rate, min: 30, max: 200 }]
        );
        assert!(found[0].message().starts_with("heart_rate"));
    }
}

#[test]
fn heart_rate_210_is_rejected_with_value_and_bound() {
    let result = with_heart_rate(210).validate();
    assert_eq!(result, Err("heart_rate 210 out of range (30-200)".to_string()));
    let message = result.unwrap_err();
    assert!(message.contains("210"));
    assert!(message.contains("200"));
}

#[test]
fn every_channel_has_its_bounds() {
    let cases = [
        (Field::BloodPressureSystolic, 59, 60, 200, 201),
        (Field::BloodPressureDiastolic, 39, 40, 120, 121),
        (Field::OxygenSaturation, 69, 70, 100, 101),
        (Field::RespiratoryRate, 4, 5, 50, 51),
        (Field::Temperature, 34999, 35000, 40000, 40001),
    ];
    for (field, below, min, max, above) in cases {
        for (value, expected) in [(below, false), (min, true), (max, true), (above, false)] {
            let mut vitals = reading();
            match field {
                Field::HeartRate => vitals.heart_rate = Some(value),
                Field::BloodPressureSystolic => vitals.blood_pressure_systolic = Some(value),
                Field::BloodPressureDiastolic => vitals.blood_pressure_diastolic = Some(value),
                Field::OxygenSaturation => vitals.oxygen_saturation = Some(value),
                Field::RespiratoryRate => vitals.respiratory_rate = Some(value),
                Field::Temperature => vitals.temperature = Some(value),
            }
            assert_eq!(vitals.get(field), Some(value));
            assert_eq!(vitals.validate().is_ok(), expected);
            let found = TrainingData::new().violations(&vitals);
            if expected {
                assert!(found.is_empty());
            } else {
                assert_eq!(found, vec![Violation { field, value, min, max }]);
            }
        }
    }
}

#[test]
fn all_violations_are_reported_in_order() {
    let vitals = VitalSigns {
        patient_id: "patient1".to_string(),
        heart_rate: Some(210),
        blood_pressure_systolic: Some(250),
        blood_pressure_diastolic: Some(30),
        oxygen_saturation: Some(101),
        respiratory_rate: Some(2),
        temperature: Some(41500),
        additional_params: vec![("CVP".to_string(), 99_000_000)],
    };
    let found = TrainingData::new().violations(&vitals);
    assert_eq!(
        found,
        vec![
            Violation { field: Field::HeartRate, value: 210, min: 30, max: 200 },
            Violation { field: Field::BloodPressureSystolic, value: 250, min: 60, max: 200 },
            Violation { field: Field::BloodPressureDiastolic, value: 30, min: 40, max: 120 },
            Violation { field: Field::OxygenSaturation, value: 101, min: 70, max: 100 },
            Violation { field: Field::RespiratoryRate, value: 2, min: 5, max: 50 },
            Violation { field: Field::Temperature, value: 41500, min: 35000, max: 40000 },
        ]
    );
    assert_eq!(
        vitals.validate(),
        Err("heart_rate 210 out of range (30-200); \
             blood_pressure_systolic 250 out of range (60-200); \
             blood_pressure_diastolic 30 out of range (40-120); \
             oxygen_saturation 101 out of range (70-100); \
             respiratory_rate 2 out of range (5-50); \
             temperature 41.500 out of range (35.000-40.000)"
            .to_string())
    );
    assert_eq!(report(&found), vitals.validate().unwrap_err());
}

#[test]
fn violation_message_names_channel_value_and_bounds() {
    let violation = Violation { field: Field::OxygenSaturation, value: -3, min: 70, max: 100 };
    assert_eq!(violation.message(), "oxygen_saturation -3 out of range (70-100)");
    let cold = Violation { field: Field::Temperature, value: -7, min: 35000, max: 40000 };
    assert_eq!(cold.message(), "temperature -0.007 out of range (35.000-40.000)");
}

#[test]
fn report_of_nothing_is_empty() {
    assert_eq!(report(&Vec::new()), "");
}

#[test]
fn unlisted_channel_is_unbounded() {
    let table = TrainingData::empty();
    let vitals = with_heart_rate(100_000);
    assert_eq!(table.validate(&vitals), Ok(()));
    assert!(table.abnormal(&vitals).is_empty());
    for field in [
        Field::HeartRate,
        Field::BloodPressureSystolic,
        Field::BloodPressureDiastolic,
        Field::OxygenSaturation,
        Field::RespiratoryRate,
        Field::Temperature,
    ] {
        assert_eq!(table.range(field), None);
    }
}

#[test]
fn standard_table_holds_the_standard_bounds() {
    let table = TrainingData::new();
    assert_eq!(
        table.range(Field::HeartRate),
        Some(VitalRange { min: 30, max: 200, normal_min: 60, normal_max: 100 })
    );
    assert_eq!(
        table.range(Field::BloodPressureSystolic),
        Some(VitalRange { min: 60, max: 200, normal_min: 90, normal_max: 140 })
    );
    assert_eq!(
        table.range(Field::BloodPressureDiastolic),
        Some(VitalRange { min: 40, max: 120, normal_min: 60, normal_max: 90 })
    );
    assert_eq!(
        table.range(Field::OxygenSaturation),
        Some(VitalRange { min: 70, max: 100, normal_min: 90, normal_max: 100 })
    );
    assert_eq!(
        table.range(Field::RespiratoryRate),
        Some(VitalRange { min: 5, max: 50, normal_min: 5, normal_max: 50 })
    );
    assert_eq!(
        table.range(Field::Temperature),
        Some(VitalRange { min: 35000, max: 40000, normal_min: 35000, normal_max: 40000 })
    );
}

#[test]
fn set_range_replaces_the_bounds_of_one_channel() {
    let mut table = TrainingData::empty();
    let range = VitalRange { min: 20, max: 250, normal_min: 50, normal_max: 90 };
    assert!(table.set_range(Field::HeartRate, range));
    assert_eq!(table.range(Field::HeartRate), Some(range));
    assert_eq!(table.range(Field::Temperature), None);
    assert_eq!(table.validate(&with_heart_rate(210)), Ok(()));
    assert_eq!(table.abnormal(&with_heart_rate(210)), vec![(Field::HeartRate, 210)]);
    assert_eq!(
        table.validate(&with_heart_rate(251)),
        Err("heart_rate 251 out of range (20-250)".to_string())
    );
}

#[test]
fn set_range_refuses_a_band_outside_its_range() {
    let mut table = TrainingData::new();
    let before = table.range(Field::HeartRate);
    for range in [
        VitalRange { min: 30, max: 200, normal_min: 20, normal_max: 100 },
        VitalRange { min: 30, max: 200, normal_min: 60, normal_max: 201 },
        VitalRange { min: 30, max: 200, normal_min: 100, normal_max: 60 },
    ] {
        assert!(!range.is_nested());
        assert!(!table.set_range(Field::HeartRate, range));
        assert_eq!(table.range(Field::HeartRate), before);
    }
}

#[test]
fn validation_error_sentences() {
    assert_eq!(
        ValidationError::HeartRateOutOfRange.message(),
        "Heart rate is out of realistic range."
    );
    assert_eq!(
        ValidationError::OxygenSaturationOutOfRange.message(),
        "Oxygen saturation is out of realistic range."
    );
    assert_eq!(
        ValidationError::InvalidBloodPressureFormat.message(),
        "Blood pressure format is invalid."
    );
}

#[test]
fn field_names_and_labels() {
    let expected = [
        (Field::HeartRate, "heart_rate", "Heart Rate", false),
        (Field::BloodPressureSystolic, "blood_pressure_systolic", "Blood Pressure (Systolic)", false),
        (Field::BloodPressureDiastolic, "blood_pressure_diastolic", "Blood Pressure (Diastolic)", false),
        (Field::OxygenSaturation, "oxygen_saturation", "Oxygen Saturation", false),
        (Field::RespiratoryRate, "respiratory_rate", "Respiratory Rate", false),
        (Field::Temperature, "temperature", "Temperature", true),
    ];
    for (field, name, label, real) in expected {
        assert_eq!(field.name(), name);
        assert_eq!(field.label(), label);
        assert_eq!(field.is_real(), real);
    }
}

#[test]
fn well_formed_readings_name_a_patient_and_repeat_no_channel() {
    let mut vitals = reading();
    assert!(vitals.is_well_formed());
    vitals.additional_params = vec![("CVP".to_string(), 8200), ("PAP".to_string(), 21000)];
    assert!(vitals.is_well_formed());
    vitals.additional_params.push(("CVP".to_string(), 1));
    assert!(!vitals.is_well_formed());
    assert!(!VitalSigns::new(String::new()).is_well_formed());
}

#[test]
fn duplicate_is_an_equal_reading() {
    let mut vitals = with_heart_rate(72);
    vitals.temperature = Some(36600);
    vitals.additional_params = vec![("CVP".to_string(), 8200), ("PAP".to_string(), 21000)];
    assert_eq!(vitals.duplicate(), vitals);
}
