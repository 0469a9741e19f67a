use rand::rngs::StdRng;
use rand::SeedableRng;
use vitals_monitor::parser::{encode_compact, parse_compact};
use vitals_monitor::models::VitalSigns;
use vitals_monitor::server::{
    after_send, generate_vitals, reading_from_draws, Connection, Draws, ServerError, TICK_SECONDS,
};

#[test]
fn generated_readings_lie_in_their_bands() {
    let mut rng = StdRng::seed_from_u64(7);
    for _ in 0..500 {
        let vitals = generate_vitals(&mut rng);
        assert_eq!(vitals.patient_id, "patient1");
        assert!((40..120).contains(&vitals.heart_rate.unwrap()));
        assert!((90..160).contains(&vitals.blood_pressure_systolic.unwrap()));
        assert!((50..100).contains(&vitals.blood_pressure_diastolic.unwrap()));
        assert!((85..100).contains(&vitals.oxygen_saturation.unwrap()));
        assert!((8..30).contains(&vitals.respiratory_rate.unwrap()));
        assert!((36000..38500).contains(&vitals.temperature.unwrap()));
        assert_eq!(vitals.additional_params.len(), 2);
        assert_eq!(vitals.additional_params[0].0, "CVP");
        assert!((0..15000).contains(&vitals.additional_params[0].1));
        assert_eq!(vitals.additional_params[1].0, "PAP_systolic");
        assert!((15000..30000).contains(&vitals.additional_params[1].1));
    }
}

#[test]
fn generated_readings_are_accepted() {
    let mut rng = StdRng::seed_from_u64(11);
    for _ in 0..500 {
        let vitals = generate_vitals(&mut rng);
        assert!(vitals.is_well_formed());
        assert_eq!(vitals.validate(), Ok(()));
    }
}

#[test]
fn generated_readings_vary_with_the_draws() {
    let mut rng = StdRng::seed_from_u64(3);
    let first = generate_vitals(&mut rng);
    let mut heart_rates = vec![first.heart_rate.unwrap()];
    let mut temperatures = vec![first.temperature.unwrap()];
    for _ in 0..200 {
        let vitals = generate_vitals(&mut rng);
        heart_rates.push(vitals.heart_rate.unwrap());
        temperatures.push(vitals.temperature.unwrap());
    }
    heart_rates.sort();
    heart_rates.dedup();
    temperatures.sort();
    temperatures.dedup();
    assert!(heart_rates.len() > 20);
    assert!(temperatures.len() > 100);
    assert!(*heart_rates.first().unwrap() > 40 || *heart_rates.last().unwrap() > 41);
}

#[test]
fn same_seed_gives_the_same_readings() {
    let mut a = StdRng::seed_from_u64(99);
    let mut b = StdRng::seed_from_u64(99);
    for _ in 0..20 {
        assert_eq!(generate_vitals(&mut a), generate_vitals(&mut b));
    }
}

#[test]
fn generated_readings_survive_the_compact_format() {
    let mut rng = StdRng::seed_from_u64(5);
    for _ in 0..100 {
        let vitals = generate_vitals(&mut rng);
        let message = encode_compact(&vitals).unwrap();
        let read = parse_compact(&message, "patient1").unwrap();
        assert_eq!(read.heart_rate, vitals.heart_rate);
        assert_eq!(read.blood_pressure_systolic, vitals.blood_pressure_systolic);
        assert_eq!(read.blood_pressure_diastolic, vitals.blood_pressure_diastolic);
        assert_eq!(read.oxygen_saturation, vitals.oxygen_saturation);
        assert_eq!(read.respiratory_rate, None);
        assert_eq!(read.temperature, None);
    }
}

#[test]
fn delivered_send_keeps_the_connection() {
    assert_eq!(after_send(&Ok(())), Connection::Open);
}

#[test]
fn failed_send_closes_only_on_disconnect() {
    let gone = ServerError::SendError("client disconnected".to_string());
    assert_eq!(after_send(&Err(gone)), Connection::Closed);
    for detail in ["", "timed out", "Disconnected", "disconnecte", "dis connected"] {
        let error = ServerError::SendError(detail.to_string());
        assert_eq!(after_send(&Err(error)), Connection::Open);
    }
    let at_start = ServerError::SendError("disconnected".to_string());
    assert_eq!(after_send(&Err(at_start)), Connection::Closed);
    let inside = ServerError::SendError("peer has disconnected already".to_string());
    assert_eq!(after_send(&Err(inside)), Connection::Closed);
}

#[test]
fn server_error_sentence() {
    let error = ServerError::SendError("broken pipe".to_string());
    assert_eq!(error.message(), "Failed to send WebSocket message: broken pipe");
}

#[test]
fn reading_from_draws_holds_the_numbers() {
    let draws = Draws {
        cvp: 8200,
        pap_systolic: 21750,
        heart_rate: 72,
        blood_pressure_systolic: 118,
        blood_pressure_diastolic: 76,
        oxygen_saturation: 97,
        respiratory_rate: 14,
        temperature: 36600,
    };
    assert_eq!(
        reading_from_draws(draws),
        VitalSigns {
            patient_id: "patient1".to_string(),
            heart_rate: Some(72),
            blood_pressure_systolic: Some(118),
            blood_pressure_diastolic: Some(76),
            oxygen_saturation: Some(97),
            respiratory_rate: Some(14),
            temperature: Some(36600),
            additional_params: vec![
                ("CVP".to_string(), 8200),
                ("PAP_systolic".to_string(), 21750)
            ],
        }
    );
}

#[test]
fn a_reading_is_sent_every_five_seconds() {
    assert_eq!(TICK_SECONDS, 5);
}
