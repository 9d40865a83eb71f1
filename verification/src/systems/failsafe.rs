use vstd::prelude::*;

use crate::systems::types::DisasterType;

verus! {

/// Which anomaly thresholds the latest sensor readings crossed: core
/// temperature above 75 C, water closing in faster than 0.15 m per second,
/// terrain tilt above 28 degrees, ground shock above 3.2 g.
#[derive(Debug, Clone, Copy, PartialEq, Eq, Structural)]
pub struct AnomalyReadings {
    pub thermal_spike: bool,
    pub water_rising_fast: bool,
    pub steep_tilt: bool,
    pub ground_shock: bool,
}

/// The hazard an anomaly points to; when several thresholds are crossed, heat
/// wins over water, water over tilt, tilt over shock.
pub open spec fn anomaly_of(r: AnomalyReadings) -> Option<DisasterType> {
    if r.thermal_spike {
        Some(DisasterType::Wildfire)
    } else if r.water_rising_fast {
        Some(DisasterType::Flood)
    } else if r.steep_tilt {
        Some(DisasterType::Landslide)
    } else if r.ground_shock {
        Some(DisasterType::Earthquake)
    } else {
        None
    }
}

/// A heat spike always names a wildfire; a hazard is named exactly when some
/// threshold was crossed, and the named hazard is one whose threshold was.
pub proof fn lemma_anomaly_precedence(r: AnomalyReadings)
    ensures
        r.thermal_spike ==> anomaly_of(r) == Some(DisasterType::Wildfire),
        (anomaly_of(r) is Some) <==> (r.thermal_spike || r.water_rising_fast || r.steep_tilt
            || r.ground_shock),
        anomaly_of(r) == Some(DisasterType::Flood) ==> r.water_rising_fast && !r.thermal_spike,
        anomaly_of(r) == Some(DisasterType::Landslide) ==> r.steep_tilt && !r.thermal_spike
            && !r.water_rising_fast,
        anomaly_of(r) == Some(DisasterType::Earthquake) ==> r.ground_shock && !r.thermal_spike
            && !r.water_rising_fast && !r.steep_tilt,
{
}

/// Default number of frames the blackbox keeps.
pub const DEFAULT_BLACKBOX_ENTRIES: usize = 128;

/// The buffer after one frame is logged: the oldest frame leaves when the
/// buffer is at or over its limit, and the new frame goes last.
pub open spec fn blackbox_logged<P>(buf: Seq<P>, max: usize, packet: P) -> Seq<P> {
    if buf.len() >= max {
        buf.drop_first().push(packet)
    } else {
        buf.push(packet)
    }
}

/// The buffer after logging the frames of `packets` one after another.
pub open spec fn blackbox_logged_all<P>(buf: Seq<P>, max: usize, packets: Seq<P>) -> Seq<P>
    decreases packets.len(),
{
    if packets.len() == 0 {
        buf
    } else {
        blackbox_logged(blackbox_logged_all(buf, max, packets.drop_last()), max, packets.last())
    }
}

/// Loss-of-link and anomaly bookkeeping of the platform, with the blackbox of
/// frames recorded while it flies autonomously.
#[derive(Debug, Clone)]
pub struct FailsafeManager<P> {
    pub is_autonomous_mode: bool,
    pub blackbox_buffer: Vec<P>,
    pub max_blackbox_entries: usize,
    pub emergency_anomaly_detected: bool,
    pub triggered_disaster_mode: Option<DisasterType>,
}

impl<P> FailsafeManager<P> {
    /// A blackbox can take a frame unless it is empty with a limit of zero.
    pub open spec fn can_log(&self) -> bool {
        self.blackbox_buffer@.len() > 0 || self.max_blackbox_entries > 0
    }

    pub fn new() -> (f: Self)
        ensures
            !f.is_autonomous_mode,
            f.blackbox_buffer@ == Seq::<P>::empty(),
            f.max_blackbox_entries == DEFAULT_BLACKBOX_ENTRIES,
            !f.emergency_anomaly_detected,
            f.triggered_disaster_mode is None,
    {
        FailsafeManager {
            is_autonomous_mode: false,
            blackbox_buffer: Vec::with_capacity(DEFAULT_BLACKBOX_ENTRIES),
            max_blackbox_entries: DEFAULT_BLACKBOX_ENTRIES,
            emergency_anomaly_detected: false,
            triggered_disaster_mode: None,
        }
    }

    /// A ground uplink arrived: the watchdog is reset and autonomous mode ends.
    pub fn on_uplink_received(&mut self)
        ensures
            !final(self).is_autonomous_mode,
            final(self).blackbox_buffer@ == old(self).blackbox_buffer@,
            final(self).max_blackbox_entries == old(self).max_blackbox_entries,
            final(self).emergency_anomaly_detected == old(self).emergency_anomaly_detected,
            final(self).triggered_disaster_mode == old(self).triggered_disaster_mode,
    {
        self.is_autonomous_mode = false;
    }

    /// A watchdog tick without uplink. `loss_of_signal_elapsed` tells whether the
    /// time since the last uplink has reached the loss-of-signal threshold; once
    /// it has, the platform is autonomous until the next uplink.
    pub fn update(&mut self, loss_of_signal_elapsed: bool)
        ensures
            final(self).is_autonomous_mode == (old(self).is_autonomous_mode
                || loss_of_signal_elapsed),
            final(self).blackbox_buffer@ == old(self).blackbox_buffer@,
            final(self).max_blackbox_entries == old(self).max_blackbox_entries,
            final(self).emergency_anomaly_detected == old(self).emergency_anomaly_detected,
            final(self).triggered_disaster_mode == old(self).triggered_disaster_mode,
    {
        if loss_of_signal_elapsed {
            self.is_autonomous_mode = true;
        }
    }

    /// Records a frame in the blackbox, dropping the oldest one when the buffer
    /// is full.
    pub fn log_blackbox(&mut self, packet: P)
        requires
            old(self).can_log(),
        ensures
            final(self).blackbox_buffer@ == blackbox_logged(
                old(self).blackbox_buffer@,
                old(self).max_blackbox_entries,
                packet,
            ),
            final(self).blackbox_buffer@.last() == packet,
            old(self).blackbox_buffer@.len() < old(self).max_blackbox_entries ==> final(self).blackbox_buffer@
                == old(self).blackbox_buffer@.push(packet),
            old(self).blackbox_buffer@.len() >= old(self).max_blackbox_entries ==> {
                &&& final(self).blackbox_buffer@.len() == old(self).blackbox_buffer@.len()
                &&& forall|i: int|
                    0 <= i < old(self).blackbox_buffer@.len() - 1 ==> final(self).blackbox_buffer@[i] == #[trigger] old(self).blackbox_buffer@[i + 1]
            },
            final(self).is_autonomous_mode == old(self).is_autonomous_mode,
            final(self).max_blackbox_entries == old(self).max_blackbox_entries,
            final(self).emergency_anomaly_detected == old(self).emergency_anomaly_detected,
            final(self).triggered_disaster_mode == old(self).triggered_disaster_mode,
    {
        if self.blackbox_buffer.len() >= self.max_blackbox_entries {
            self.blackbox_buffer.remove(0);
        }
        self.blackbox_buffer.push(packet);
        proof {
            let b = old(self).blackbox_buffer@;
            if b.len() >= old(self).max_blackbox_entries {
                assert(b.remove(0) =~= b.drop_first());
            }
        }
    }

    /// Autonomous anomaly recognition: names the hazard the readings point to
    /// and latches it, without waiting for a ground command.
    pub fn evaluate_anomalies(&mut self, readings: AnomalyReadings) -> (detected: Option<
        DisasterType,
    >)
        ensures
            detected == anomaly_of(readings),
            readings.thermal_spike ==> detected == Some(DisasterType::Wildfire),
            !readings.thermal_spike && readings.water_rising_fast ==> detected == Some(
                DisasterType::Flood,
            ),
            !readings.thermal_spike && !readings.water_rising_fast && readings.steep_tilt
                ==> detected == Some(DisasterType::Landslide),
            !readings.thermal_spike && !readings.water_rising_fast && !readings.steep_tilt
                && readings.ground_shock ==> detected == Some(DisasterType::Earthquake),
            detected is None <==> (!readings.thermal_spike && !readings.water_rising_fast
                && !readings.steep_tilt && !readings.ground_shock),
            final(self).emergency_anomaly_detected == (old(self).emergency_anomaly_detected
                || detected is Some),
            final(self).triggered_disaster_mode == (if detected is Some {
                detected
            } else {
                old(self).triggered_disaster_mode
            }),
            final(self).is_autonomous_mode == old(self).is_autonomous_mode,
            final(self).blackbox_buffer@ == old(self).blackbox_buffer@,
            final(self).max_blackbox_entries == old(self).max_blackbox_entries,
    {
        let detected = if readings.thermal_spike {
            Some(DisasterType::Wildfire)
        } else if readings.water_rising_fast {
            Some(DisasterType::Flood)
        } else if readings.steep_tilt {
            Some(DisasterType::Landslide)
        } else if readings.ground_shock {
            Some(DisasterType::Earthquake)
        } else {
            None
        };
        if let Some(mode) = detected {
            self.emergency_anomaly_detected = true;
            self.triggered_disaster_mode = Some(mode);
        }
        detected
    }
}

impl<P> Default for FailsafeManager<P> {
    fn default() -> (f: Self)
        ensures
            !f.is_autonomous_mode,
            f.blackbox_buffer@ == Seq::<P>::empty(),
            f.max_blackbox_entries == DEFAULT_BLACKBOX_ENTRIES,
            !f.emergency_anomaly_detected,
            f.triggered_disaster_mode is None,
    {
        Self::new()
    }
}

/// The blackbox keeps the most recent frames, oldest first: starting from a
/// buffer within a nonzero limit, logging a run of frames leaves exactly the
/// last `max` frames of the old contents followed by the run (all of them when
/// fewer), and never more than `max`.
pub proof fn lemma_blackbox_keeps_latest<P>(buf: Seq<P>, max: usize, packets: Seq<P>)
    requires
        max > 0,
        buf.len() <= max,
    ensures
        ({
            let all = buf + packets;
            let keep = if all.len() > max { all.len() - max } else { 0 };
            blackbox_logged_all(buf, max, packets) == all.subrange(keep as int, all.len() as int)
        }),
        blackbox_logged_all(buf, max, packets).len() <= max,
    decreases packets.len(),
{
    let all = buf + packets;
    if packets.len() == 0 {
        assert(all =~= buf);
        assert(all.subrange(0, all.len() as int) =~= all);
    } else {
        let prev = packets.drop_last();
        lemma_blackbox_keeps_latest(buf, max, prev);
        let all_prev = buf + prev;
        assert(all.drop_last() =~= all_prev);
        let keep_prev = if all_prev.len() > max { all_prev.len() - max } else { 0 };
        let before = blackbox_logged_all(buf, max, prev);
        assert(before == all_prev.subrange(keep_prev as int, all_prev.len() as int));
        let keep = if all.len() > max { all.len() - max } else { 0 };
        if before.len() >= max {
            assert(before.drop_first().push(packets.last()) =~= all.subrange(
                keep as int,
                all.len() as int,
            ));
        } else {
            assert(before.push(packets.last()) =~= all.subrange(keep as int, all.len() as int));
        }
    }
}

} // verus!
