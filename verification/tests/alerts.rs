use vitals_monitor::agent::render_alert;
use vitals_monitor::models::{Field, VitalSigns};
use vitals_monitor::training_data::{display_abnormal, TrainingData, VitalRange};

fn pair(label: &str, value: &str) -> (String, String) {
    (label.to_string(), value.to_string())
}

#[test]
fn low_saturation_is_accepted_and_flagged() {
    let mut vitals = VitalSigns::new("patient1".to_string());
    vitals.oxygen_saturation = Some(85);
    assert_eq!(vitals.validate(), Ok(()));
    assert_eq!(vitals.get_abnormal_vitals(), vec![pair("Oxygen Saturation", "85")]);
    assert_eq!(
        TrainingData::new().abnormal(&vitals),
        vec![(Field::OxygenSaturation, 85)]
    );
    assert_eq!(
        TrainingData::new().get_recommendation(&vitals),
        "Consider supplemental oxygen."
    );
}

#[test]
fn abnormal_values_come_in_display_order() {
    let vitals = VitalSigns {
        patient_id: "patient1".to_string(),
        heart_rate: Some(55),
        blood_pressure_systolic: Some(150),
        blood_pressure_diastolic: Some(95),
        oxygen_saturation: Some(89),
        respiratory_rate: Some(12),
        temperature: Some(36600),
        additional_params: Vec::new(),
    };
    assert_eq!(vitals.validate(), Ok(()));
    assert_eq!(
        vitals.get_abnormal_vitals(),
        vec![
            pair("Blood Pressure (Systolic)", "150"),
            pair("Blood Pressure (Diastolic)", "95"),
            pair("Heart Rate", "55"),
            pair("Oxygen Saturation", "89"),
        ]
    );
}

#[test]
fn normal_bands_are_inclusive() {
    let cases = [
        (Field::HeartRate, 59, 60, 100, 101),
        (Field::BloodPressureSystolic, 89, 90, 140, 141),
        (Field::BloodPressureDiastolic, 59, 60, 90, 91),
        (Field::OxygenSaturation, 89, 90, 100, 101),
    ];
    for (field, below, min, max, above) in cases {
        for (value, normal) in [(below, false), (min, true), (max, true), (above, false)] {
            let mut vitals = VitalSigns::new("patient1".to_string());
            match field {
                Field::HeartRate => vitals.heart_rate = Some(value),
                Field::BloodPressureSystolic => vitals.blood_pressure_systolic = Some(value),
                Field::BloodPressureDiastolic => vitals.blood_pressure_diastolic = Some(value),
                _ => vitals.oxygen_saturation = Some(value),
            }
            let found = TrainingData::new().abnormal(&vitals);
            if normal {
                assert!(found.is_empty());
            } else {
                assert_eq!(found, vec![(field, value)]);
            }
        }
    }
}

#[test]
fn accepted_breathing_and_temperature_are_never_flagged() {
    for (rate, temperature) in [(5, 35000), (50, 40000), (20, 37250)] {
        let mut vitals = VitalSigns::new("patient1".to_string());
        vitals.respiratory_rate = Some(rate);
        vitals.temperature = Some(temperature);
        assert_eq!(vitals.validate(), Ok(()));
        assert!(vitals.get_abnormal_vitals().is_empty());
    }
}

#[test]
fn recommendation_without_alert_is_the_default() {
    let table = TrainingData::new();
    let mut vitals = VitalSigns::new("patient1".to_string());
    assert_eq!(table.get_recommendation(&vitals), "No immediate action required.");
    vitals.oxygen_saturation = Some(90);
    assert_eq!(table.get_recommendation(&vitals), "No immediate action required.");
    vitals.oxygen_saturation = Some(89);
    assert_eq!(table.get_recommendation(&vitals), "Consider supplemental oxygen.");
    vitals.oxygen_saturation = Some(97);
    vitals.heart_rate = Some(130);
    assert_eq!(table.get_recommendation(&vitals), "No immediate action required.");
}

#[test]
fn temperature_is_displayed_in_degrees() {
    let shown = display_abnormal(&vec![(Field::Temperature, 41500), (Field::HeartRate, -4)]);
    assert_eq!(shown, vec![pair("Temperature", "41.500"), pair("Heart Rate", "-4")]);
}

#[test]
fn alert_text_lists_each_value_on_its_line() {
    let abnormal = vec![pair("Heart Rate", "55"), pair("Oxygen Saturation", "85")];
    assert_eq!(
        render_alert(&abnormal),
        "Abnormal Vital Signs Detected:\n\tHeart Rate: 55\n\tOxygen Saturation: 85"
    );
    assert_eq!(render_alert(&Vec::new()), "Abnormal Vital Signs Detected:\n");
}

#[test]
fn breathing_and_temperature_are_never_flagged() {
    for (rate, temperature) in [(100, 45000), (0, 0), (-1, i32::MIN), (i32::MAX, 20000)] {
        let mut vitals = VitalSigns::new("patient1".to_string());
        vitals.respiratory_rate = Some(rate);
        assert!(vitals.get_abnormal_vitals().is_empty());
        vitals.temperature = Some(temperature);
        assert!(vitals.get_abnormal_vitals().is_empty());
        assert!(TrainingData::new().abnormal(&vitals).is_empty());
    }
}

#[test]
fn readings_that_agree_on_four_channels_flag_the_same() {
    let mut one = VitalSigns::new("patient1".to_string());
    one.heart_rate = Some(130);
    one.blood_pressure_systolic = Some(150);
    one.blood_pressure_diastolic = Some(80);
    one.oxygen_saturation = Some(85);
    let mut other = one.clone();
    other.patient_id = "patient2".to_string();
    other.respiratory_rate = Some(100);
    other.temperature = Some(45000);
    other.additional_params = vec![("CVP".to_string(), 8200)];
    let expected = vec![
        ("Blood Pressure (Systolic)".to_string(), "150".to_string()),
        ("Heart Rate".to_string(), "130".to_string()),
        ("Oxygen Saturation".to_string(), "85".to_string()),
    ];
    assert_eq!(one.get_abnormal_vitals(), expected);
    assert_eq!(other.get_abnormal_vitals(), expected);
    assert_eq!(TrainingData::new().abnormal(&one), TrainingData::new().abnormal(&other));
}

#[test]
fn a_band_for_breathing_in_the_table_raises_no_alert() {
    let mut table = TrainingData::new();
    assert!(table.set_range(
        Field::RespiratoryRate,
        VitalRange { min: 5, max: 50, normal_min: 12, normal_max: 20 }
    ));
    let mut vitals = VitalSigns::new("patient1".to_string());
    vitals.respiratory_rate = Some(30);
    assert_eq!(table.validate(&vitals), Ok(()));
    assert!(table.abnormal(&vitals).is_empty());
}
