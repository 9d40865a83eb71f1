use vstd::prelude::*;

use crate::systems::failsafe::{anomaly_of, AnomalyReadings, FailsafeManager};
use crate::systems::types::{DisasterType, PlatformState};

verus! {

/// Cruise speed in transit and on the way home, km/h.
pub const CRUISE_SPEED_KMH: u16 = 75;

/// Loiter speed on station, km/h.
pub const LOITER_SPEED_KMH: u16 = 25;

/// Operational altitude while in transit, meters.
pub const TRANSIT_ALTITUDE_M: u16 = 150;

/// What happened to the radio link in a step.
#[derive(Debug, Clone, Copy, PartialEq, Eq, Structural)]
pub enum LinkAction {
    /// Uplink heard: the link is reported clean.
    Restored,
    /// Uplink missing, loss-of-signal threshold not reached yet: nothing reported.
    Waiting,
    /// Uplink missing and the platform is autonomous: the link is reported dead.
    Severed,
}

impl LinkAction {
    pub open spec fn rssi_of(self) -> Option<i16> {
        match self {
            LinkAction::Restored => Some(-78i16),
            LinkAction::Waiting => None,
            LinkAction::Severed => Some(-120i16),
        }
    }

    pub open spec fn packet_loss_of(self) -> Option<u8> {
        match self {
            LinkAction::Restored => Some(0u8),
            LinkAction::Waiting => None,
            LinkAction::Severed => Some(100u8),
        }
    }

    /// The received signal strength to report, in dBm, if the step sets one.
    pub fn reported_rssi_dbm(&self) -> (r: Option<i16>)
        ensures
            r == self.rssi_of(),
            *self == LinkAction::Restored ==> r == Some(-78i16),
            *self == LinkAction::Severed ==> r == Some(-120i16),
            *self == LinkAction::Waiting ==> r is None,
    {
        match self {
            LinkAction::Restored => Some(-78),
            LinkAction::Waiting => None,
            LinkAction::Severed => Some(-120),
        }
    }

    /// The packet loss to report, in percent, if the step sets one.
    pub fn reported_packet_loss_pct(&self) -> (r: Option<u8>)
        ensures
            r == self.packet_loss_of(),
            *self == LinkAction::Restored ==> r == Some(0u8),
            *self == LinkAction::Severed ==> r == Some(100u8),
            *self == LinkAction::Waiting ==> r is None,
    {
        match self {
            LinkAction::Restored => Some(0),
            LinkAction::Waiting => None,
            LinkAction::Severed => Some(100),
        }
    }
}

/// How the platform moves in a step.
#[derive(Debug, Clone, Copy, PartialEq, Eq, Structural)]
pub enum MotionAction {
    /// Within the arrival radius of the target: snap onto it and loiter.
    ArriveOnStation,
    /// Fly a step towards the target at transit altitude.
    AdvanceToTarget,
    /// Within the landing radius of home: snap onto it and stop.
    LandAtBase,
    /// Fly a step towards home.
    AdvanceToHome,
    /// Stay where it is.
    Hold,
}

/// What the platform observed before a step.
#[derive(Debug, Clone, Copy, PartialEq, Eq, Structural)]
pub struct StepEvents {
    /// No uplink was heard during the step.
    pub uplink_lost: bool,
    /// With the step's time added, the time since the last uplink has reached the
    /// loss-of-signal threshold (only read when `uplink_lost`).
    pub loss_of_signal_elapsed: bool,
    /// The target is within 250 m.
    pub near_target: bool,
    /// Home is within 200 m.
    pub near_home: bool,
    /// The anomaly thresholds that the step's sensor readings crossed.
    pub anomalies: AnomalyReadings,
}

/// What the rest of the platform has to do after a step.
#[derive(Debug, Clone, Copy, PartialEq, Eq, Structural)]
pub struct StepActions {
    pub link: LinkAction,
    pub motion: MotionAction,
    /// The optical camera draws power this step.
    pub camera_active: bool,
    /// The hazard the anomaly check named, if any.
    pub detected_anomaly: Option<DisasterType>,
}

/// State after the link handling of a step.
pub open spec fn state_after_link(state: PlatformState, uplink_lost: bool, autonomous: bool) -> PlatformState {
    if uplink_lost && autonomous {
        PlatformState::AutonomousDegradedHold
    } else {
        state
    }
}

/// State after the movement of a step.
pub open spec fn state_after_motion(state: PlatformState, near_target: bool, near_home: bool) -> PlatformState {
    match state {
        PlatformState::DispatchedInTransit => if near_target {
            PlatformState::OnStationScanning
        } else {
            state
        },
        PlatformState::ReturningToBase => if near_home {
            PlatformState::StandbyOnBase
        } else {
            state
        },
        _ => state,
    }
}

pub open spec fn motion_of(state: PlatformState, near_target: bool, near_home: bool) -> MotionAction {
    match state {
        PlatformState::DispatchedInTransit => if near_target {
            MotionAction::ArriveOnStation
        } else {
            MotionAction::AdvanceToTarget
        },
        PlatformState::ReturningToBase => if near_home {
            MotionAction::LandAtBase
        } else {
            MotionAction::AdvanceToHome
        },
        _ => MotionAction::Hold,
    }
}

pub open spec fn link_of(uplink_lost: bool, autonomous: bool) -> LinkAction {
    if !uplink_lost {
        LinkAction::Restored
    } else if autonomous {
        LinkAction::Severed
    } else {
        LinkAction::Waiting
    }
}

/// The mission logic of a sensor pod: its state machine, active survey mode,
/// frame counter and fail-safe bookkeeping. `P` is the type of the telemetry
/// frames kept in the blackbox.
#[derive(Debug, Clone)]
pub struct PlatformMission<P> {
    pub platform_id: String,
    pub state: PlatformState,
    pub active_mode: DisasterType,
    pub sequence_number: u32,
    pub failsafe: FailsafeManager<P>,
}

impl<P> PlatformMission<P> {
    /// A pod on standby at its base, in wildfire mode, with no frame sent yet.
    pub fn new(platform_id: String) -> (m: Self)
        ensures
            m.platform_id@ == platform_id@,
            m.state == PlatformState::StandbyOnBase,
            m.active_mode == DisasterType::Wildfire,
            m.sequence_number == 0,
            !m.failsafe.is_autonomous_mode,
            m.failsafe.blackbox_buffer@ == Seq::<P>::empty(),
            m.failsafe.max_blackbox_entries == crate::systems::failsafe::DEFAULT_BLACKBOX_ENTRIES,
            !m.failsafe.emergency_anomaly_detected,
            m.failsafe.triggered_disaster_mode is None,
    {
        PlatformMission {
            platform_id,
            state: PlatformState::StandbyOnBase,
            active_mode: DisasterType::Wildfire,
            sequence_number: 0,
            failsafe: FailsafeManager::new(),
        }
    }

    /// Sends the pod to survey a hazard: the dispatch command counts as an uplink.
    pub fn dispatch(&mut self, mode: DisasterType)
        ensures
            final(self).state == PlatformState::DispatchedInTransit,
            final(self).active_mode == mode,
            !final(self).failsafe.is_autonomous_mode,
            final(self).platform_id == old(self).platform_id,
            final(self).sequence_number == old(self).sequence_number,
            final(self).failsafe.blackbox_buffer@ == old(self).failsafe.blackbox_buffer@,
            final(self).failsafe.max_blackbox_entries == old(self).failsafe.max_blackbox_entries,
            final(self).failsafe.emergency_anomaly_detected
                == old(self).failsafe.emergency_anomaly_detected,
            final(self).failsafe.triggered_disaster_mode
                == old(self).failsafe.triggered_disaster_mode,
    {
        self.active_mode = mode;
        self.state = PlatformState::DispatchedInTransit;
        self.failsafe.on_uplink_received();
    }

    /// Calls the pod home: the command counts as an uplink.
    pub fn return_to_base(&mut self)
        ensures
            final(self).state == PlatformState::ReturningToBase,
            final(self).active_mode == old(self).active_mode,
            !final(self).failsafe.is_autonomous_mode,
            final(self).platform_id == old(self).platform_id,
            final(self).sequence_number == old(self).sequence_number,
            final(self).failsafe.blackbox_buffer@ == old(self).failsafe.blackbox_buffer@,
            final(self).failsafe.max_blackbox_entries == old(self).failsafe.max_blackbox_entries,
            final(self).failsafe.emergency_anomaly_detected
                == old(self).failsafe.emergency_anomaly_detected,
            final(self).failsafe.triggered_disaster_mode
                == old(self).failsafe.triggered_disaster_mode,
    {
        self.state = PlatformState::ReturningToBase;
        self.failsafe.on_uplink_received();
    }

    /// One simulation step of the mission logic: count the frame, run the
    /// loss-of-link watchdog, move through the state machine, and let an
    /// anomaly retarget the survey mode while the pod is autonomous.
    pub fn step(&mut self, events: StepEvents) -> (actions: StepActions)
        requires
            old(self).sequence_number < u32::MAX,
        ensures
            final(self).sequence_number == old(self).sequence_number + 1,
            final(self).failsafe.is_autonomous_mode == (if events.uplink_lost {
                old(self).failsafe.is_autonomous_mode || events.loss_of_signal_elapsed
            } else {
                false
            }),
            actions.link == link_of(events.uplink_lost, final(self).failsafe.is_autonomous_mode),
            actions.motion == motion_of(
                state_after_link(
                    old(self).state,
                    events.uplink_lost,
                    final(self).failsafe.is_autonomous_mode,
                ),
                events.near_target,
                events.near_home,
            ),
            final(self).state == state_after_motion(
                state_after_link(
                    old(self).state,
                    events.uplink_lost,
                    final(self).failsafe.is_autonomous_mode,
                ),
                events.near_target,
                events.near_home,
            ),
            actions.camera_active == (final(self).state == PlatformState::OnStationScanning),
            events.uplink_lost && final(self).failsafe.is_autonomous_mode ==> {
                &&& final(self).state == PlatformState::AutonomousDegradedHold
                &&& actions.link == LinkAction::Severed
                &&& actions.motion == MotionAction::Hold
                &&& !actions.camera_active
            },
            !events.uplink_lost ==> actions.link == LinkAction::Restored
                && !final(self).failsafe.is_autonomous_mode,
            events.uplink_lost && !final(self).failsafe.is_autonomous_mode ==> actions.link
                == LinkAction::Waiting,
            !(events.uplink_lost && final(self).failsafe.is_autonomous_mode) ==> {
                &&& old(self).state == PlatformState::DispatchedInTransit && events.near_target
                    ==> final(self).state == PlatformState::OnStationScanning && actions.motion
                    == MotionAction::ArriveOnStation && actions.camera_active
                &&& old(self).state == PlatformState::DispatchedInTransit && !events.near_target
                    ==> final(self).state == PlatformState::DispatchedInTransit && actions.motion
                    == MotionAction::AdvanceToTarget
                &&& old(self).state == PlatformState::ReturningToBase && events.near_home
                    ==> final(self).state == PlatformState::StandbyOnBase && actions.motion
                    == MotionAction::LandAtBase
                &&& old(self).state == PlatformState::ReturningToBase && !events.near_home
                    ==> final(self).state == PlatformState::ReturningToBase && actions.motion
                    == MotionAction::AdvanceToHome
                &&& (old(self).state == PlatformState::StandbyOnBase || old(self).state
                    == PlatformState::OnStationScanning || old(self).state
                    == PlatformState::AutonomousDegradedHold) ==> final(self).state == old(
                    self,
                ).state && actions.motion == MotionAction::Hold
            },
            !final(self).failsafe.is_autonomous_mode ==> final(self).active_mode == old(
                self,
            ).active_mode,
            actions.detected_anomaly == anomaly_of(events.anomalies),
            final(self).active_mode == (match actions.detected_anomaly {
                Some(m) => if final(self).failsafe.is_autonomous_mode {
                    m
                } else {
                    old(self).active_mode
                },
                None => old(self).active_mode,
            }),
            final(self).failsafe.emergency_anomaly_detected == (
            old(self).failsafe.emergency_anomaly_detected || actions.detected_anomaly is Some),
            final(self).failsafe.triggered_disaster_mode == (if actions.detected_anomaly is Some {
                actions.detected_anomaly
            } else {
                old(self).failsafe.triggered_disaster_mode
            }),
            final(self).platform_id == old(self).platform_id,
            final(self).failsafe.blackbox_buffer@ == old(self).failsafe.blackbox_buffer@,
            final(self).failsafe.max_blackbox_entries == old(self).failsafe.max_blackbox_entries,
    {
        self.sequence_number = self.sequence_number + 1;

        let link = if events.uplink_lost {
            self.failsafe.update(events.loss_of_signal_elapsed);
            if self.failsafe.is_autonomous_mode {
                self.state = PlatformState::AutonomousDegradedHold;
                LinkAction::Severed
            } else {
                LinkAction::Waiting
            }
        } else {
            self.failsafe.on_uplink_received();
            LinkAction::Restored
        };

        let motion = match self.state {
            PlatformState::DispatchedInTransit => {
                if events.near_target {
                    self.state = PlatformState::OnStationScanning;
                    MotionAction::ArriveOnStation
                } else {
                    MotionAction::AdvanceToTarget
                }
            },
            PlatformState::ReturningToBase => {
                if events.near_home {
                    self.state = PlatformState::StandbyOnBase;
                    MotionAction::LandAtBase
                } else {
                    MotionAction::AdvanceToHome
                }
            },
            _ => MotionAction::Hold,
        };

        let camera_active = self.state == PlatformState::OnStationScanning;

        let detected = self.failsafe.evaluate_anomalies(events.anomalies);
        if let Some(mode) = detected {
            if self.failsafe.is_autonomous_mode {
                self.active_mode = mode;
            }
        }

        StepActions { link, motion, camera_active, detected_anomaly: detected }
    }

    /// Keeps a step's frame in the blackbox when the pod is flying autonomously.
    pub fn record_frame(&mut self, packet: P)
        requires
            old(self).failsafe.can_log(),
        ensures
            final(self).failsafe.blackbox_buffer@ == (if old(self).failsafe.is_autonomous_mode {
                crate::systems::failsafe::blackbox_logged(
                    old(self).failsafe.blackbox_buffer@,
                    old(self).failsafe.max_blackbox_entries,
                    packet,
                )
            } else {
                old(self).failsafe.blackbox_buffer@
            }),
            final(self).state == old(self).state,
            final(self).active_mode == old(self).active_mode,
            final(self).sequence_number == old(self).sequence_number,
            final(self).platform_id == old(self).platform_id,
            final(self).failsafe.is_autonomous_mode == old(self).failsafe.is_autonomous_mode,
            final(self).failsafe.max_blackbox_entries == old(self).failsafe.max_blackbox_entries,
            final(self).failsafe.emergency_anomaly_detected
                == old(self).failsafe.emergency_anomaly_detected,
            final(self).failsafe.triggered_disaster_mode
                == old(self).failsafe.triggered_disaster_mode,
    {
        if self.failsafe.is_autonomous_mode {
            self.failsafe.log_blackbox(packet);
        }
    }
}


/// Losing the uplink while autonomous puts a pod in autonomous degraded hold
/// from any state: it stops moving and the camera is off.
pub proof fn lemma_lost_link_autonomy_holds(state: PlatformState, near_target: bool, near_home: bool)
    ensures
        state_after_link(state, true, true) == PlatformState::AutonomousDegradedHold,
        state_after_motion(state_after_link(state, true, true), near_target, near_home)
            == PlatformState::AutonomousDegradedHold,
        motion_of(state_after_link(state, true, true), near_target, near_home) == MotionAction::Hold,
        link_of(true, true) == LinkAction::Severed,
{
}

/// Autonomous hold is left only by a ground command: no step takes a pod out of
/// `AutonomousDegradedHold`, whatever the link, arrival or anomaly events.
pub proof fn lemma_hold_is_sticky(uplink_lost: bool, autonomous: bool, near_target: bool, near_home: bool)
    ensures
        state_after_motion(
            state_after_link(PlatformState::AutonomousDegradedHold, uplink_lost, autonomous),
            near_target,
            near_home,
        ) == PlatformState::AutonomousDegradedHold,
        motion_of(
            state_after_link(PlatformState::AutonomousDegradedHold, uplink_lost, autonomous),
            near_target,
            near_home,
        ) == MotionAction::Hold,
{
}

/// A step ends in autonomous hold only when the pod was already holding or the
/// uplink was lost while the pod was autonomous.
pub proof fn lemma_hold_needs_lost_link(
    state: PlatformState,
    uplink_lost: bool,
    autonomous: bool,
    near_target: bool,
    near_home: bool,
)
    ensures
        state_after_motion(state_after_link(state, uplink_lost, autonomous), near_target, near_home)
            == PlatformState::AutonomousDegradedHold ==> state == PlatformState::AutonomousDegradedHold
            || (uplink_lost && autonomous),
{
}

/// While the uplink is heard, a dispatched pod only ever moves forward through
/// transit to on-station scanning, and a recalled pod through returning to standby.
pub proof fn lemma_linked_progress(state: PlatformState, near_target: bool, near_home: bool)
    ensures
        state == PlatformState::DispatchedInTransit ==> {
            let s = state_after_motion(state_after_link(state, false, false), near_target, near_home);
            s == PlatformState::DispatchedInTransit || s == PlatformState::OnStationScanning
        },
        state == PlatformState::ReturningToBase ==> {
            let s = state_after_motion(state_after_link(state, false, false), near_target, near_home);
            s == PlatformState::ReturningToBase || s == PlatformState::StandbyOnBase
        },
{
}

} // verus!
