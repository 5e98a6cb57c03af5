use can_sentinel::dashboard::{format_log_line, poll_delay_ms, AppState};

fn statuses(app: &AppState) -> Vec<(u32, String)> {
    app.sensor_status().clone()
}

#[test]
fn startup_state() {
    let app = AppState::new();
    let init = "Initializing...".to_string();
    assert_eq!(
        statuses(&app),
        vec![(0x186A, init.clone()), (0x2901, init.clone()), (0x186B, init.clone()), (0x2902, init)]
    );
    assert!(app.logs().is_empty());
}

#[test]
fn update_unknown_id_is_a_no_op() {
    let mut app = AppState::new();
    let before = statuses(&app);
    app.update_sensor(0xBEEF, "ghost".to_string());
    assert_eq!(statuses(&app), before);
    assert_eq!(app.sensor_status().len(), 4);
}

#[test]
fn trouble_log_keeps_last_twenty() {
    let mut app = AppState::new();
    let msgs: Vec<String> = (0..25).map(|i| format!("fault {}", i)).collect();
    for m in &msgs {
        app.add_log(m.clone());
        assert!(app.logs().len() <= 20);
    }
    assert_eq!(*app.logs(), msgs[5..].to_vec());
}

#[test]
fn interleaved_updates_keep_each_last_message() {
    let mut app = AppState::new();
    let ids = [0x186A, 0x2901, 0x186B, 0x2902];
    for round in 0..7 {
        for (k, id) in ids.iter().enumerate() {
            app.update_sensor(*id, format!("sensor {} round {}", k, round));
        }
    }
    for (k, (id, msg)) in statuses(&app).iter().enumerate() {
        assert_eq!(*id, ids[k]);
        assert_eq!(*msg, format!("sensor {} round 6", k));
    }
}

#[test]
fn publish_logs_faults_only() {
    let mut app = AppState::new();
    let nominal = "Cell Voltage: 3.90V (Optimal)".to_string();
    assert!(!app.publish(0x186A, &nominal));
    assert!(app.logs().is_empty());
    assert_eq!(statuses(&app)[0].1, nominal);
    let fault = "DTC C1A67: Sensor Blind / Occluded".to_string();
    assert!(app.publish(0x2902, &fault));
    assert_eq!(*app.logs(), vec!["[CAN ID 0x2902] DTC C1A67: Sensor Blind / Occluded".to_string()]);
    assert_eq!(statuses(&app)[3].1, fault);
}

#[test]
fn log_line_text() {
    assert_eq!(format_log_line(0x186A, &"x".to_string()), "[CAN ID 0x186A] x");
    assert_eq!(format_log_line(0, &"".to_string()), "[CAN ID 0x0] ");
}

#[test]
fn poll_delays_in_range() {
    let delays: Vec<u32> = (0..500).map(|_| poll_delay_ms()).collect();
    assert!(delays.iter().all(|d| (500..1500).contains(d)));
    assert!(delays.iter().any(|&d| d != 500));
}
