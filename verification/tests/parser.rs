use vitals_monitor::models::{Field, VitalSigns};
use vitals_monitor::parser::{
    encode_compact, parse_compact, parse_compact_numbers, parse_message, Compact, ParseError,
};

fn compact(systolic: i32, diastolic: i32, heart_rate: i32, oxygen_saturation: i32) -> VitalSigns {
    let mut vitals = VitalSigns::new("patient1".to_string());
    vitals.blood_pressure_systolic = Some(systolic);
    vitals.blood_pressure_diastolic = Some(diastolic);
    vitals.heart_rate = Some(heart_rate);
    vitals.oxygen_saturation = Some(oxygen_saturation);
    vitals
}

#[test]
fn compact_message_parses_to_its_four_channels() {
    let vitals = parse_compact("BP:120/80,HR:70,SpO2:98", "patient1").unwrap();
    assert_eq!(vitals.patient_id, "patient1");
    assert_eq!(vitals.blood_pressure_systolic, Some(120));
    assert_eq!(vitals.blood_pressure_diastolic, Some(80));
    assert_eq!(vitals.heart_rate, Some(70));
    assert_eq!(vitals.oxygen_saturation, Some(98));
    assert_eq!(vitals.respiratory_rate, None);
    assert_eq!(vitals.temperature, None);
    assert!(vitals.additional_params.is_empty());
    assert!(vitals.is_well_formed());
}

#[test]
fn compact_round_trip() {
    for numbers in [(120, 80, 70, 98), (0, 0, 0, 0), (-1, 7, i32::MAX, i32::MIN), (90, 60, 100, 100)] {
        let vitals = compact(numbers.0, numbers.1, numbers.2, numbers.3);
        let message = encode_compact(&vitals).unwrap();
        assert_eq!(parse_compact(&message, "patient1"), Ok(vitals));
    }
    assert_eq!(
        encode_compact(&compact(120, 80, 70, 98)),
        Some("BP:120/80,HR:70,SpO2:98".to_string())
    );
    assert_eq!(
        encode_compact(&compact(-1, 7, i32::MAX, i32::MIN)),
        Some("BP:-1/7,HR:2147483647,SpO2:-2147483648".to_string())
    );
}

#[test]
fn encode_compact_needs_all_four_channels() {
    for missing in 0..4 {
        let mut vitals = compact(120, 80, 70, 98);
        match missing {
            0 => vitals.blood_pressure_systolic = None,
            1 => vitals.blood_pressure_diastolic = None,
            2 => vitals.heart_rate = None,
            _ => vitals.oxygen_saturation = None,
        }
        assert_eq!(encode_compact(&vitals), None);
    }
}

#[test]
fn malformed_compact_number_is_a_parse_error() {
    assert!(parse_compact("BP:abc,HR:70,SpO2:98", "patient1").is_err());
    assert_eq!(
        parse_compact_numbers("BP:abc,HR:70,SpO2:98").err(),
        Some(ParseError::UnknownShape)
    );
    assert_eq!(
        parse_compact_numbers("BP:abc/80,HR:70,SpO2:98").err(),
        Some(ParseError::InvalidNumber(Field::BloodPressureSystolic))
    );
}

#[test]
fn blanks_around_segments_are_ignored() {
    for message in [
        " BP:120/80,HR:70,SpO2:98",
        "BP:120/80 , HR:70 , SpO2:98",
        "\tBP:120/80\t,\r\nHR:70\n,  SpO2:98  \r\n",
    ] {
        assert_eq!(parse_compact(message, "patient1"), Ok(compact(120, 80, 70, 98)));
    }
}

#[test]
fn blanks_inside_a_segment_are_not_ignored() {
    assert_eq!(
        parse_compact_numbers("BP:120/80,HR: 70,SpO2:98").err(),
        Some(ParseError::InvalidNumber(Field::HeartRate))
    );
    assert_eq!(
        parse_compact_numbers("BP :120/80,HR:70,SpO2:98").err(),
        Some(ParseError::UnknownShape)
    );
    assert_eq!(
        parse_compact_numbers("BP:120 /80,HR:70,SpO2:98").err(),
        Some(ParseError::InvalidNumber(Field::BloodPressureSystolic))
    );
}

#[test]
fn wrong_number_of_segments_is_refused() {
    for message in [
        "",
        "hello",
        "BP:120/80",
        "BP:120/80,HR:70",
        "BP:120/80,HR:70,SpO2:98,",
        "BP:120/80,HR:70,SpO2:98,RR:12",
        "{\"patient_id\":\"patient1\"}",
    ] {
        assert_eq!(parse_compact_numbers(message).err(), Some(ParseError::SegmentCount));
    }
}

#[test]
fn wrong_labels_are_refused() {
    for message in [
        "BP120/80,HR:70,SpO2:98",
        "bp:120/80,HR:70,SpO2:98",
        "HR:70,BP:120/80,SpO2:98",
        "BP:120/80,HR:70,SPO2:98",
        "BP:120/80,,SpO2:98",
        "BP:120-80,HR:70,SpO2:98",
        ",,",
    ] {
        assert_eq!(parse_compact_numbers(message).err(), Some(ParseError::UnknownShape));
    }
}

#[test]
fn each_numeral_is_checked_from_left_to_right() {
    let cases = [
        ("BP:/80,HR:70,SpO2:98", Field::BloodPressureSystolic),
        ("BP:1x/80,HR:70,SpO2:98", Field::BloodPressureSystolic),
        ("BP:120/,HR:70,SpO2:98", Field::BloodPressureDiastolic),
        ("BP:120/80/1,HR:70,SpO2:98", Field::BloodPressureDiastolic),
        ("BP:120/80,HR:,SpO2:98", Field::HeartRate),
        ("BP:120/80,HR:7.0,SpO2:98", Field::HeartRate),
        ("BP:120/80,HR:--7,SpO2:98", Field::HeartRate),
        ("BP:120/80,HR:70,SpO2:-", Field::OxygenSaturation),
        ("BP:120/80,HR:70,SpO2:98%", Field::OxygenSaturation),
        ("BP:x/y,HR:z,SpO2:w", Field::BloodPressureSystolic),
        ("BP:1/y,HR:z,SpO2:w", Field::BloodPressureDiastolic),
        ("BP:1/2,HR:z,SpO2:w", Field::HeartRate),
    ];
    for (message, field) in cases {
        assert_eq!(
            parse_compact_numbers(message).err(),
            Some(ParseError::InvalidNumber(field))
        );
    }
}

#[test]
fn numerals_are_signed_decimals_of_32_bits() {
    assert_eq!(
        parse_compact_numbers("BP:+120/-80,HR:007,SpO2:2147483647"),
        Ok(Compact { systolic: 120, diastolic: -80, heart_rate: 7, oxygen_saturation: i32::MAX })
    );
    assert_eq!(
        parse_compact_numbers("BP:-2147483648/0,HR:-0,SpO2:+0"),
        Ok(Compact { systolic: i32::MIN, diastolic: 0, heart_rate: 0, oxygen_saturation: 0 })
    );
    assert_eq!(
        parse_compact_numbers("BP:2147483648/80,HR:70,SpO2:98").err(),
        Some(ParseError::InvalidNumber(Field::BloodPressureSystolic))
    );
    assert_eq!(
        parse_compact_numbers("BP:120/-2147483649,HR:70,SpO2:98").err(),
        Some(ParseError::InvalidNumber(Field::BloodPressureDiastolic))
    );
    assert_eq!(
        parse_compact_numbers("BP:120/80,HR:99999999999999999999999999,SpO2:98").err(),
        Some(ParseError::InvalidNumber(Field::HeartRate))
    );
    let padded = parse_compact_numbers("BP:120/80,HR:0000000000000000000000070,SpO2:98").unwrap();
    assert_eq!(padded.heart_rate, 70);
}

#[test]
fn compact_message_needs_a_patient() {
    assert_eq!(
        parse_compact("BP:120/80,HR:70,SpO2:98", ""),
        Err(ParseError::InvalidSample)
    );
    assert_eq!(parse_compact("BP:120/80,HR:70", ""), Err(ParseError::SegmentCount));
}

#[test]
fn decoded_reading_stands_when_well_formed() {
    let mut vitals = compact(118, 76, 64, 99);
    vitals.temperature = Some(36600);
    vitals.additional_params = vec![("CVP".to_string(), 8200)];
    assert_eq!(
        parse_message("{...}", Some(vitals.clone()), "patient9"),
        Ok(vitals.clone())
    );
    assert_eq!(
        parse_message("BP:120/80,HR:70,SpO2:98", Some(vitals.clone()), "patient9"),
        Ok(vitals)
    );
}

#[test]
fn decoded_reading_must_be_well_formed() {
    let nameless = VitalSigns::new(String::new());
    assert_eq!(parse_message("{}", Some(nameless), "patient1"), Err(ParseError::InvalidSample));
    let mut repeated = compact(118, 76, 64, 99);
    repeated.additional_params = vec![("CVP".to_string(), 1), ("CVP".to_string(), 2)];
    assert_eq!(parse_message("{}", Some(repeated), "patient1"), Err(ParseError::InvalidSample));
}

#[test]
fn undecoded_message_is_read_as_compact() {
    assert_eq!(
        parse_message("BP:120/80,HR:70,SpO2:98", None, "patient1"),
        Ok(compact(120, 80, 70, 98))
    );
    assert_eq!(parse_message("not a reading", None, "patient1"), Err(ParseError::SegmentCount));
}

#[test]
fn undecoded_structured_message_is_reported_as_such() {
    for message in [
        "{",
        "{}",
        "{\"patient_id\": 7}",
        "  \t\r\n{\"heart_rate\": \"fast\"}",
        "{BP:120/80,HR:70,SpO2:98",
        " {,,",
    ] {
        assert_eq!(parse_message(message, None, "patient1"), Err(ParseError::Undecodable));
        assert_eq!(parse_message(message, None, ""), Err(ParseError::Undecodable));
    }
    for message in ["", " ", "x{", "[1,2,3]", "}{", "BP:120/80,HR:70{,SpO2:98"] {
        assert_ne!(parse_message(message, None, "patient1"), Err(ParseError::Undecodable));
    }
    assert_eq!(
        parse_message("BP:120/80,HR:70{,SpO2:98", None, "patient1"),
        Err(ParseError::InvalidNumber(Field::HeartRate))
    );
    assert_eq!(parse_message("[1,2,3]", None, "patient1"), Err(ParseError::UnknownShape));
}

#[test]
fn parse_error_sentences() {
    assert_eq!(ParseError::Undecodable.message(), "structured message that does not decode");
    assert_eq!(ParseError::SegmentCount.message(), "expected three comma-separated segments");
    assert_eq!(
        ParseError::UnknownShape.message(),
        "expected BP:<systolic>/<diastolic>,HR:<rate>,SpO2:<saturation>"
    );
    assert_eq!(
        ParseError::InvalidNumber(Field::HeartRate).message(),
        "invalid number for heart_rate"
    );
    assert_eq!(
        ParseError::InvalidSample.message(),
        "reading without a patient or with a repeated channel"
    );
}
