use can_sentinel::sensor::{AdasModule, BmsCell, Sensor};
use can_sentinel::text::{is_fault, push_decimal, push_hex, push_volts};
use can_sentinel::window::window_is_anomalous;

fn feed(cell: &mut BmsCell, samples: &[u32]) -> Vec<bool> {
    samples.iter().map(|&v| cell.detect_thermal_runaway(v)).collect()
}

#[test]
fn sixth_low_reading_after_steady_cell_is_a_fault() {
    let mut cell = BmsCell::new(0x186A);
    for _ in 0..5 {
        assert_eq!(cell.check_status_from(false, 4000), "Cell Voltage: 4.00V (Optimal)");
    }
    let status = cell.check_status_from(true, 4000);
    assert_eq!(status, "DTC P0A80: Cell Imbalance Detected! (2.50V)");
    assert!(is_fault(&status));
}

#[test]
fn detection_on_steady_then_low_sequence() {
    let mut cell = BmsCell::new(1);
    let verdicts = feed(&mut cell, &[4000, 4000, 4000, 4000, 4000, 2500]);
    assert_eq!(verdicts, vec![false, false, false, false, false, true]);
}

#[test]
fn no_fault_before_five_samples() {
    let mut cell = BmsCell::new(1);
    let verdicts = feed(&mut cell, &[4000, 2500, 4100, 2500]);
    assert_eq!(verdicts, vec![false, false, false, false]);
    assert_eq!(cell.history().len(), 4);
}

#[test]
fn tight_window_never_faults() {
    let mut cell = BmsCell::new(1);
    let verdicts = feed(&mut cell, &[4000, 4000, 4000, 4000, 4000, 4000, 4000, 4000, 4000, 4040]);
    assert!(verdicts.iter().all(|v| !v));
    assert!(!window_is_anomalous(&vec![4000, 4000, 4000, 4000, 4000], 4000));
}

#[test]
fn dispersed_window_within_two_sigma_is_nominal() {
    // mean about 3917 mV, standard deviation about 90 mV: 4000 lies within two of them
    assert!(!window_is_anomalous(&vec![3800, 4000, 3800, 4000, 3900, 4000], 4000));
    assert!(window_is_anomalous(&vec![4000, 4000, 4000, 4000, 4000, 2500], 2500));
}

#[test]
fn eleventh_sample_evicts_the_oldest() {
    let mut cell = BmsCell::new(1);
    for v in 1..=10u32 {
        cell.record_sample(v);
    }
    assert_eq!(*cell.history(), (1..=10u32).collect::<Vec<u32>>());
    cell.record_sample(11);
    assert_eq!(*cell.history(), (2..=11u32).collect::<Vec<u32>>());
}

#[test]
fn random_cell_readings_stay_in_range() {
    let mut cell = BmsCell::new(0x186B);
    for _ in 0..200 {
        let s = cell.check_status();
        assert!(s.starts_with("Cell Voltage: ") || s.starts_with("DTC P0A80: Cell Imbalance Detected! ("));
        assert!(cell.history().iter().all(|&v| v == 2500 || (3700..4100).contains(&v)));
        assert!(cell.history().len() <= 10);
    }
    let distinct: std::collections::HashSet<u32> = cell.history().iter().copied().collect();
    assert!(distinct.len() > 1);
}

#[test]
fn adas_texts() {
    let radar = AdasModule::new(0x2901, "Front_Radar".to_string());
    assert_eq!(radar.get_id(), 0x2901);
    assert_eq!(radar.check_status_from(true, 97), "DTC C1A67: Sensor Blind / Occluded");
    assert_eq!(radar.check_status_from(false, 97), "Tracking [Front_Radar]: Confidence 97%");
}

#[test]
fn adas_fault_rate_near_one_in_ten() {
    let cam = AdasModule::new(0x2902, "Lane_Cam".to_string());
    let draws = 10_000;
    let mut faults = 0;
    for _ in 0..draws {
        let s = cam.check_status();
        if is_fault(&s) {
            assert_eq!(s, "DTC C1A67: Sensor Blind / Occluded");
            faults += 1;
        } else {
            let c: u32 = s
                .strip_prefix("Tracking [Lane_Cam]: Confidence ")
                .and_then(|t| t.strip_suffix('%'))
                .unwrap()
                .parse()
                .unwrap();
            assert!((95..100).contains(&c));
        }
    }
    let rate = faults as f64 / draws as f64;
    assert!((0.08..=0.12).contains(&rate), "fault rate {}", rate);
}

#[test]
fn sensor_dispatch() {
    let mut s = Sensor::Bms(BmsCell::new(0x186A));
    assert_eq!(s.get_id(), 0x186A);
    let _ = s.check_status();
    let mut a = Sensor::Adas(AdasModule::new(0x2901, "Front_Radar".to_string()));
    assert_eq!(a.get_id(), 0x2901);
    let _ = a.check_status();
}

#[test]
fn number_texts() {
    let mut s = String::new();
    push_decimal(&mut s, 0);
    s.push(' ');
    push_decimal(&mut s, 4294967295);
    s.push(' ');
    push_hex(&mut s, 0x186A);
    s.push(' ');
    push_hex(&mut s, 0);
    assert_eq!(s, "0 4294967295 186A 0");
    let mut v = String::new();
    push_volts(&mut v, 3705);
    v.push(' ');
    push_volts(&mut v, 4099);
    v.push(' ');
    push_volts(&mut v, 3704);
    v.push(' ');
    push_volts(&mut v, 12345);
    assert_eq!(v, "3.71 4.10 3.70 12.35");
}

#[test]
fn fault_marker() {
    assert!(is_fault(&"DTC".to_string()));
    assert!(is_fault(&"[CAN ID 0x1] DTC X".to_string()));
    assert!(!is_fault(&"DT".to_string()));
    assert!(!is_fault(&"Cell Voltage: 4.00V (Optimal)".to_string()));
    assert!(!is_fault(&"dtc".to_string()));
}
