use disaster_response_system::command::dispatch::{select_nearest_base, BaseCandidate};
use disaster_response_system::platform::controller::{PlatformMission, StepEvents};
use disaster_response_system::systems::failsafe::{AnomalyReadings, FailsafeManager};
use disaster_response_system::systems::telemetry::{compute_crc16, LoraTelemetryFields};
use disaster_response_system::systems::types::{DisasterType, PlatformState, PriorityLevel};

fn quiet_events(uplink_lost: bool) -> StepEvents {
    StepEvents {
        uplink_lost,
        loss_of_signal_elapsed: false,
        near_target: true,
        near_home: false,
        anomalies: AnomalyReadings {
            thermal_spike: false,
            water_rising_fast: false,
            steep_tilt: false,
            ground_shock: false,
        },
    }
}

#[test]
fn test_crc16_and_lora_compression() {
    // A pod created at (39.92, 32.85, 150 m) takes its first simulated step.
    let mut pod: PlatformMission<Vec<u8>> = PlatformMission::new("POD-TEST".to_string());
    let actions = pod.step(quiet_events(false));
    assert!(!actions.camera_active);
    let fields = LoraTelemetryFields {
        sequence_number: pod.sequence_number,
        state: pod.state,
        active_mode: pod.active_mode,
        priority: PriorityLevel::P1Critical,
        lat_e7: (39.92f64 * 10_000_000.0) as i32,
        lon_e7: (32.85f64 * 10_000_000.0) as i32,
        alt_m: 150.0f32 as i16,
        battery_soc_pct: 95,
        hazard_tenths: 100,
        critical_route_blocked: true,
        gnss_lock: true,
        optical_cam_ok: true,
        thermal_sensor_ok: true,
    };
    let lora_bytes = fields.to_lora_binary();
    // Check LoRa header
    assert_eq!(&lora_bytes[0..3], b"SAT");
    // Verify compact payload is 23 bytes
    assert_eq!(lora_bytes.len(), 23);

    // Verify CRC matches
    let payload_len = lora_bytes.len();
    let payload_body = &lora_bytes[..payload_len - 2];
    let expected_crc = compute_crc16(payload_body);
    let actual_crc = u16::from_be_bytes([lora_bytes[payload_len - 2], lora_bytes[payload_len - 1]]);
    assert_eq!(expected_crc, actual_crc, "CRC-16 checksum mismatch");
}

#[test]
fn test_dispatch_optimization() {
    // Great-circle distances from BASE-ALPHA, BASE-BRAVO and BASE-CHARLIE to an
    // incident at (39.74, 32.71), and the bases' operational radii.
    let distances = [23.561327101130257f64, 1.4026452448297717, 46.07202643907219];
    let radii = [65.0f64, 75.0, 80.0];
    let bases: Vec<BaseCandidate> = (0..3)
        .map(|i| BaseCandidate {
            is_operational: true,
            stationed_platforms: 1,
            distance_key: distances[i].to_bits(),
            radius_key: radii[i].to_bits(),
        })
        .collect();
    let ids = ["BASE-ALPHA", "BASE-BRAVO", "BASE-CHARLIE"];
    let order = select_nearest_base(&bases).expect("Dispatch failed");
    assert_eq!(ids[order], "BASE-BRAVO");
    assert!(distances[order] < 10.0);
}

#[test]
fn test_autonomous_failsafe_trigger() {
    let mut failsafe: FailsafeManager<Vec<u8>> = FailsafeManager::default();
    assert!(!failsafe.is_autonomous_mode);

    // Advance 35 seconds without uplink against the 30 s loss-of-signal threshold
    let seconds_since_last_uplink: f32 = 0.0 + 35.0;
    failsafe.update(seconds_since_last_uplink >= 30.0);
    assert!(failsafe.is_autonomous_mode, "Watchdog failed to trigger autonomous degraded mode");

    // Restore uplink
    failsafe.on_uplink_received();
    assert!(!failsafe.is_autonomous_mode, "Failed to exit autonomous degraded mode on uplink");
}

fn readings(max_thermal_temp_c: f32, water_proximity_change_rate: f32, tilt_degrees: f32, shock_magnitude_g: f32) -> AnomalyReadings {
    AnomalyReadings {
        thermal_spike: max_thermal_temp_c > 75.0,
        water_rising_fast: water_proximity_change_rate < -0.15,
        steep_tilt: tilt_degrees > 28.0,
        ground_shock: shock_magnitude_g > 3.2,
    }
}

#[test]
fn test_emergency_anomaly_detection() {
    let mut failsafe: FailsafeManager<Vec<u8>> = FailsafeManager::default();
    // Thermal heat spike > 75C should trigger Wildfire mode
    let detected = failsafe.evaluate_anomalies(readings(88.0, 0.0, 5.0, 1.0));
    assert_eq!(detected, Some(DisasterType::Wildfire));

    // Sudden ground shock > 3.2g should trigger Earthquake mode
    let detected_eq = failsafe.evaluate_anomalies(readings(25.0, 0.0, 5.0, 4.2));
    assert_eq!(detected_eq, Some(DisasterType::Earthquake));
    assert!(failsafe.emergency_anomaly_detected);
    assert_eq!(failsafe.triggered_disaster_mode, Some(DisasterType::Earthquake));
    assert_eq!(PlatformState::StandbyOnBase.code(), 0);
}
