use disaster_response_system::command::dispatch::{
    incident_id_at, new_incident_id, new_order_id, order_id_at, select_nearest_base, BaseCandidate,
};
use disaster_response_system::command::tactical_report::{bulletin_id, tactical_recommendations, HazardBand};
use disaster_response_system::modes::earthquake::{triage_earthquake, EarthquakeObservations, UrgencySector};
use disaster_response_system::modes::flood::{flood_route_label, triage_flood, FloodObservations};
use disaster_response_system::modes::landslide::{triage_landslide, LandslideObservations, SecondaryFailureRisk};
use disaster_response_system::modes::wildfire::{triage_wildfire, WildfireObservations, WildfireRouteStatus};
use disaster_response_system::platform::controller::{LinkAction, MotionAction, PlatformMission, StepEvents};
use disaster_response_system::sensors::traits::SensorStatus;
use disaster_response_system::server::web_ui::get_tactical_dashboard_html;
use disaster_response_system::systems::failsafe::{AnomalyReadings, FailsafeManager};
use disaster_response_system::systems::power::PowerState;
use disaster_response_system::systems::telemetry::{compute_crc16, LoraTelemetryFields};
use disaster_response_system::systems::types::{DisasterType, PlatformState, PriorityLevel, SubsystemHealth};

const NO_ANOMALY: AnomalyReadings =
    AnomalyReadings { thermal_spike: false, water_rising_fast: false, steep_tilt: false, ground_shock: false };

fn events(uplink_lost: bool, elapsed: bool, near_target: bool, near_home: bool, anomalies: AnomalyReadings) -> StepEvents {
    StepEvents { uplink_lost, loss_of_signal_elapsed: elapsed, near_target, near_home, anomalies }
}

fn sample_fields() -> LoraTelemetryFields {
    LoraTelemetryFields {
        sequence_number: 0x0001_0203,
        state: PlatformState::OnStationScanning,
        active_mode: DisasterType::Flood,
        priority: PriorityLevel::P2High,
        lat_e7: 399_207_000,
        lon_e7: -328_541_000,
        alt_m: -12,
        battery_soc_pct: 87,
        hazard_tenths: 64,
        critical_route_blocked: true,
        gnss_lock: false,
        optical_cam_ok: true,
        thermal_sensor_ok: true,
    }
}

#[test]
fn crc16_check_value() {
    assert_eq!(compute_crc16(b"123456789"), 0x29B1);
    assert_eq!(compute_crc16(b""), 0xFFFF);
    assert_eq!(compute_crc16(&[0x00]), 0xE1F0);
}

#[test]
fn lora_frame_layout() {
    let f = sample_fields();
    let frame = f.to_lora_binary();
    assert_eq!(frame.len(), 23);
    assert_eq!(&frame[0..3], &[0x53, 0x41, 0x54]);
    assert_eq!(&frame[3..5], &[0x02, 0x03]);
    assert_eq!(&frame[5..8], &[2, 1, 2]);
    assert_eq!(&frame[8..12], &399_207_000i32.to_be_bytes());
    assert_eq!(&frame[12..16], &(-328_541_000i32).to_be_bytes());
    assert_eq!(&frame[16..18], &(-12i16).to_be_bytes());
    assert_eq!(frame[18], 87);
    assert_eq!(frame[19], 64);
    assert_eq!(frame[20], 0b1101);
    let crc = compute_crc16(&frame[..21]);
    assert_eq!(&frame[21..23], &crc.to_be_bytes());
}

#[test]
fn lora_frame_checks_to_zero() {
    let mut f = sample_fields();
    assert_eq!(compute_crc16(&f.to_lora_binary()), 0);
    f.priority = PriorityLevel::P4Low;
    f.gnss_lock = true;
    let frame = f.to_lora_binary();
    assert_eq!(frame[7], 4);
    assert_eq!(frame[20], 0b1111);
    assert_eq!(compute_crc16(&frame), 0);
}

#[test]
fn labels_and_codes() {
    assert_eq!(DisasterType::Wildfire.label(), "Wildfire");
    assert_eq!(DisasterType::Earthquake.label(), "Earthquake");
    assert_eq!(DisasterType::Landslide.code(), 2);
    assert_eq!(PriorityLevel::P1Critical.label(), "P1-CRITICAL");
    assert_eq!(PriorityLevel::P3Medium.label(), "P3-MEDIUM");
    assert_eq!(PriorityLevel::P4Low.level(), 4);
    assert!(PriorityLevel::P1Critical < PriorityLevel::P4Low);
    assert_eq!(PlatformState::AutonomousDegradedHold.label(), "AUTONOMOUS_HOLD");
    assert_eq!(PlatformState::ReturningToBase.code(), 4);
    let h = SubsystemHealth::default();
    assert!(h.obc_ok && h.gnss_lock && h.imu_ok && h.thermal_sensor_ok);
}

#[test]
fn camera_power_gating() {
    assert!(PowerState::Nominal.is_camera_allowed());
    assert!(PowerState::Conservation.is_camera_allowed());
    assert!(!PowerState::CriticalShedding.is_camera_allowed());
    assert!(!PowerState::DepletedEmergency.is_camera_allowed());
}

#[test]
fn sensor_operational_only_when_healthy() {
    assert!(SensorStatus::Healthy.is_operational());
    assert!(!SensorStatus::Degraded.is_operational());
    assert!(!SensorStatus::Offline.is_operational());
}

#[test]
fn blackbox_keeps_latest_frames() {
    let mut fs: FailsafeManager<u32> = FailsafeManager::new();
    assert_eq!(fs.max_blackbox_entries, 128);
    fs.max_blackbox_entries = 3;
    for i in 1..=5u32 {
        fs.log_blackbox(i);
    }
    assert_eq!(fs.blackbox_buffer, vec![3, 4, 5]);
    fs.max_blackbox_entries = 1;
    fs.log_blackbox(6);
    assert_eq!(fs.blackbox_buffer, vec![4, 5, 6]);
}

#[test]
fn anomaly_precedence_and_latch() {
    let mut fs: FailsafeManager<u32> = FailsafeManager::default();
    let all = AnomalyReadings { thermal_spike: true, water_rising_fast: true, steep_tilt: true, ground_shock: true };
    assert_eq!(fs.evaluate_anomalies(all), Some(DisasterType::Wildfire));
    let wet = AnomalyReadings { thermal_spike: false, ..all };
    assert_eq!(fs.evaluate_anomalies(wet), Some(DisasterType::Flood));
    let tilt = AnomalyReadings { water_rising_fast: false, ..wet };
    assert_eq!(fs.evaluate_anomalies(tilt), Some(DisasterType::Landslide));
    assert_eq!(fs.evaluate_anomalies(NO_ANOMALY), None);
    assert!(fs.emergency_anomaly_detected);
    assert_eq!(fs.triggered_disaster_mode, Some(DisasterType::Landslide));
}

#[test]
fn watchdog_latches_until_uplink() {
    let mut fs: FailsafeManager<u32> = FailsafeManager::default();
    fs.update(false);
    assert!(!fs.is_autonomous_mode);
    fs.update(true);
    fs.update(false);
    assert!(fs.is_autonomous_mode);
    fs.on_uplink_received();
    assert!(!fs.is_autonomous_mode);
}

#[test]
fn mission_transit_and_arrival() {
    let mut pod: PlatformMission<u32> = PlatformMission::new("POD-SENTINEL-01".to_string());
    assert_eq!(pod.state, PlatformState::StandbyOnBase);
    pod.dispatch(DisasterType::Flood);
    assert_eq!(pod.state, PlatformState::DispatchedInTransit);
    assert_eq!(pod.active_mode, DisasterType::Flood);

    let a = pod.step(events(false, false, false, false, NO_ANOMALY));
    assert_eq!(a.link, LinkAction::Restored);
    assert_eq!(a.motion, MotionAction::AdvanceToTarget);
    assert!(!a.camera_active);
    assert_eq!(pod.sequence_number, 1);

    let a = pod.step(events(false, false, true, false, NO_ANOMALY));
    assert_eq!(a.motion, MotionAction::ArriveOnStation);
    assert!(a.camera_active);
    assert_eq!(pod.state, PlatformState::OnStationScanning);

    pod.return_to_base();
    let a = pod.step(events(false, false, true, false, NO_ANOMALY));
    assert_eq!(a.motion, MotionAction::AdvanceToHome);
    let a = pod.step(events(false, false, false, true, NO_ANOMALY));
    assert_eq!(a.motion, MotionAction::LandAtBase);
    assert_eq!(pod.state, PlatformState::StandbyOnBase);
    assert_eq!(pod.sequence_number, 4);
}

#[test]
fn mission_loss_of_signal_and_autonomy() {
    let mut pod: PlatformMission<u32> = PlatformMission::new("POD-SENTINEL-02".to_string());
    pod.dispatch(DisasterType::Wildfire);
    let shock = AnomalyReadings { ground_shock: true, ..NO_ANOMALY };

    // Link lost but threshold not reached: an anomaly does not retarget the pod.
    let a = pod.step(events(true, false, false, false, shock));
    assert_eq!(a.link, LinkAction::Waiting);
    assert_eq!(a.link.reported_rssi_dbm(), None);
    assert_eq!(a.detected_anomaly, Some(DisasterType::Earthquake));
    assert_eq!(pod.active_mode, DisasterType::Wildfire);
    assert_eq!(pod.state, PlatformState::DispatchedInTransit);
    pod.record_frame(10);
    assert!(pod.failsafe.blackbox_buffer.is_empty());

    // Threshold reached: autonomous hold, and the anomaly now switches the mode.
    let a = pod.step(events(true, true, true, false, shock));
    assert_eq!(a.link, LinkAction::Severed);
    assert_eq!(a.link.reported_rssi_dbm(), Some(-120));
    assert_eq!(a.link.reported_packet_loss_pct(), Some(100));
    assert_eq!(a.motion, MotionAction::Hold);
    assert_eq!(pod.state, PlatformState::AutonomousDegradedHold);
    assert_eq!(pod.active_mode, DisasterType::Earthquake);
    pod.record_frame(11);
    assert_eq!(pod.failsafe.blackbox_buffer, vec![11]);

    // Uplink back: autonomy ends, the hold state stays until a command.
    let a = pod.step(events(false, false, true, true, NO_ANOMALY));
    assert_eq!(a.link, LinkAction::Restored);
    assert_eq!(a.link.reported_rssi_dbm(), Some(-78));
    assert_eq!(a.link.reported_packet_loss_pct(), Some(0));
    assert!(!pod.failsafe.is_autonomous_mode);
    assert_eq!(pod.state, PlatformState::AutonomousDegradedHold);
    pod.record_frame(12);
    assert_eq!(pod.failsafe.blackbox_buffer, vec![11]);

    pod.return_to_base();
    assert_eq!(pod.state, PlatformState::ReturningToBase);
}

fn base(op: bool, platforms: usize, dist: f64, radius: f64) -> BaseCandidate {
    BaseCandidate { is_operational: op, stationed_platforms: platforms, distance_key: dist.to_bits(), radius_key: radius.to_bits() }
}

#[test]
fn dispatch_selection_rules() {
    assert_eq!(select_nearest_base(&vec![]), None);
    // Out of radius, grounded, without pods: nobody goes.
    let v = vec![base(true, 1, 70.0, 65.0), base(false, 1, 2.0, 75.0), base(true, 0, 1.0, 80.0)];
    assert_eq!(select_nearest_base(&v), None);
    // Ties go to the first base listed.
    let v = vec![base(true, 1, 30.0, 65.0), base(true, 1, 12.5, 75.0), base(true, 2, 12.5, 80.0)];
    assert_eq!(select_nearest_base(&v), Some(1));
    // Exactly on the radius still counts; NaN never does.
    let v = vec![base(true, 1, f64::NAN, 65.0), base(true, 1, 75.0, 75.0)];
    assert_eq!(select_nearest_base(&v), Some(1));
}

#[test]
fn bulletin_recommendations() {
    let recs = tactical_recommendations(true, HazardBand::Extreme, "Route cut.");
    assert_eq!(recs, vec![
        "URGENT: Execute immediate route diversion. Target corridor is blocked or destroyed.".to_string(),
        "Notify local emergency dispatch to close highway access ramps.".to_string(),
        "P1 Extreme Hazard: Prohibit ground personnel entry into inner sector.".to_string(),
        "Route cut.".to_string(),
    ]);
    let recs = tactical_recommendations(false, HazardBand::Moderate, "Watch.");
    assert_eq!(recs, vec![
        "Designated evacuation corridor remains open under continuous surveillance.".to_string(),
        "P2 Moderate Hazard: Heavy vehicle operations permitted with safety buffers.".to_string(),
        "Watch.".to_string(),
    ]);
    let recs = tactical_recommendations(false, HazardBand::Low, "");
    assert_eq!(recs.len(), 2);
    assert_eq!(recs[1], "");
}

#[test]
fn bulletin_identifiers() {
    assert_eq!(bulletin_id(0), "TAC-BULLETIN-0");
    assert_eq!(bulletin_id(42), "TAC-BULLETIN-42");
    assert_eq!(bulletin_id(1000), "TAC-BULLETIN-1000");
    assert_eq!(bulletin_id(u32::MAX), format!("TAC-BULLETIN-{}", u32::MAX));
}

#[test]
fn wildfire_triage_rules() {
    let o = WildfireObservations {
        core_above_120c: false,
        core_above_200c: false,
        road_continuity_below_40pct: false,
        smoke_above_60pct: true,
        intensity_above_300kw: true,
    };
    let t = triage_wildfire(o);
    assert!(!t.route_blocked);
    assert_eq!(t.route_status, WildfireRouteStatus::SmokeHazard);
    assert_eq!(t.route_status.label(), "SMOKE_HAZARD - ZERO_VISIBILITY");
    assert_eq!(t.priority, PriorityLevel::P2High);
    assert!(t.threat_to_structures);
    let t = triage_wildfire(WildfireObservations { core_above_120c: true, ..o });
    assert_eq!(t.route_status.label(), "IMPASSABLE - FIRE CUTOFF");
    assert_eq!(t.priority, PriorityLevel::P1Critical);
}

#[test]
fn flood_triage_rules() {
    let o = FloodObservations {
        surface_within_50cm: false,
        water_coverage_above_65pct: false,
        road_continuity_above_50pct: true,
        rise_above_40cm_per_min: true,
    };
    let t = triage_flood(o);
    assert!(!t.bridge_inundated && t.evacuation_route_passable);
    assert_eq!(t.priority, PriorityLevel::P1Critical);
    let t = triage_flood(FloodObservations { rise_above_40cm_per_min: false, ..o });
    assert_eq!(t.priority, PriorityLevel::P2High);
    let t = triage_flood(FloodObservations { water_coverage_above_65pct: true, ..o });
    assert!(t.bridge_inundated && !t.evacuation_route_passable);
    assert_eq!(flood_route_label(t.bridge_inundated), "BRIDGE_INUNDATED_IMPASSABLE");
}

#[test]
fn landslide_and_earthquake_triage_rules() {
    let l = triage_landslide(LandslideObservations {
        debris_blockage_detected: false,
        road_continuity_below_20pct: false,
        tilt_above_22deg: false,
        tilt_above_10deg: true,
        slope_instability_flag: false,
    });
    assert_eq!(l.secondary_failure_risk, SecondaryFailureRisk::Elevated);
    assert_eq!(l.secondary_failure_risk.label(), "ELEVATED RISK");
    assert_eq!(l.priority, PriorityLevel::P2High);
    let e = triage_earthquake(EarthquakeObservations {
        collapse_above_50pct: true,
        collapse_above_60pct: true,
        debris_blockage_detected: false,
        road_continuity_above_60pct: false,
        shock_event_detected: false,
    });
    assert!(!e.medevac_artery_clear);
    assert_eq!(e.priority, PriorityLevel::P1Critical);
    assert_eq!(e.urgency_sector, UrgencySector::DowntownHospitalDistrict);
    assert_eq!(e.urgency_sector.label(), "SECTOR-4-DOWNTOWN-HOSPITAL-DISTRICT");
}

#[test]
fn dashboard_page() {
    let html = get_tactical_dashboard_html();
    assert!(html.starts_with("<!DOCTYPE html>"));
    assert!(html.trim_end().ends_with("</html>"));
}

#[test]
fn order_and_incident_identifiers() {
    assert_eq!(order_id_at(1_700_000_000_123), "ORDER-1700000000123");
    assert_eq!(order_id_at(0), "ORDER-0");
    assert_eq!(order_id_at(-42), "ORDER--42");
    assert_eq!(incident_id_at(i64::MIN), format!("INC-{}", i64::MIN));
    let id = new_order_id();
    assert!(id.starts_with("ORDER-") && id["ORDER-".len()..].parse::<i64>().is_ok());
    let id = new_incident_id();
    assert!(id.starts_with("INC-") && id["INC-".len()..].parse::<i64>().is_ok());
}
