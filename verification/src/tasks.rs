//! One round of each periodic task, as a step on plain values: the caller
//! waits, talks to the hardware and drives the relay; the steps decide.

use vstd::prelude::*;
use crate::dht11::{remembered, verdict, Reading, SampleError, SensorState, DHT11};
use crate::distribution::{Broadcast, BroadcastView, ConfigSlot, StatusSlot};
use crate::temp_controller::{
    next_state, relay_action, relay_action_of, ConfigError, ControllerStatus, RelayAction,
    TempController, TempControllerConfig,
};
use crate::time::{clock_now, Instant};

verus! {

/// What one round of the sampling task did.
#[derive(Clone, Copy, Debug, PartialEq, Eq)]
pub struct MonitorReport {
    /// The reading, or why there is none.
    pub result: Result<Reading, SampleError>,
    /// Whether the reading went out on the broadcast.
    pub published: bool,
}

/// What one round of the control task did.
#[derive(Clone, Copy, Debug, PartialEq, Eq, Structural)]
pub struct ControlReport {
    /// Whether the controller changed state.
    pub changed: bool,
    /// What the relay has to do now.
    pub relay: RelayAction,
    /// Why the pending configuration was refused, if one was.
    pub refused: Option<ConfigError>,
}

/// Is a verdict published? A reading is, once the sensor has settled and
/// while the channel has sequence numbers left; a failure never is, so that
/// consumers keep the last good reading.
pub open spec fn goes_out(
    sensor: SensorState,
    verdict: Result<Reading, SampleError>,
    channel: BroadcastView,
) -> bool {
    verdict is Ok && sensor.settling == 0 && channel.history.len() < u64::MAX
}

/// The configuration in force after a pending one has been looked at: the
/// pending one if it is valid, the current one otherwise.
pub open spec fn applied(
    current: TempControllerConfig,
    pending: Option<TempControllerConfig>,
) -> TempControllerConfig {
    match pending {
        Some(config) => if config.is_valid() {
            config
        } else {
            current
        },
        None => current,
    }
}

/// What the status slot holds after a round: the snapshot taken in this
/// round if the controller changed state, what it held before otherwise.
pub open spec fn status_after(
    held: Option<ControllerStatus>,
    changed: bool,
    snapshot: ControllerStatus,
) -> Option<ControllerStatus> {
    if changed {
        Some(snapshot)
    } else {
        held
    }
}

/// Why a pending configuration is refused, if it is.
pub open spec fn refusal(pending: Option<TempControllerConfig>) -> Option<ConfigError> {
    match pending {
        Some(config) => config.fault(),
        None => None,
    }
}

/// The words of an exchange as a sequence.
pub open spec fn words_of(acquired: Option<[u32; 5]>) -> Option<Seq<u32>> {
    match acquired {
        Some(words) => Some(words@),
        None => None,
    }
}

/// One round of the sampling task: judges what the exchange delivered and
/// publishes a good reading. `acquired` holds the five words from the
/// receive queue, or `None` where the sensor did not answer.
pub fn monitor_tick(sensor: &mut DHT11, channel: &mut Broadcast, acquired: Option<[u32; 5]>) -> (report:
    MonitorReport)
    requires
        old(channel).wf(),
    ensures
        final(channel).wf(),
        report.result == verdict(words_of(acquired)),
        final(sensor)@ == remembered(old(sensor)@, report.result),
        report.published == goes_out(old(sensor)@, report.result, old(channel)@),
        report.published ==> (report.result matches Ok(reading) && final(channel)@ == old(
            channel,
        )@.published(reading)),
        !report.published ==> final(channel)@ == old(channel)@,
{
    let settled = sensor.settled();
    let result = sensor.get_temperature_humidity(acquired);
    let published = match result {
        Ok(reading) => {
            if settled && channel.sequence() < u64::MAX {
                channel.publish(reading);
                true
            } else {
                false
            }
        },
        Err(_) => false,
    };
    MonitorReport { result, published }
}

/// One round of the control task for a reading taken at `now`: evaluates
/// the controller; if its state changed, publishes a snapshot of the state
/// it is in now and the configuration it was evaluated under; then takes up
/// a pending configuration, which is applied if valid and dropped otherwise.
pub fn controller_tick_at(
    controller: &mut TempController,
    reading: Reading,
    now: Instant,
    status: &mut StatusSlot,
    updates: &mut ConfigSlot,
) -> (report: ControlReport)
    ensures
        final(controller)@.state == next_state(
            old(controller)@.state,
            old(controller)@.config,
            reading.temperature,
            now,
        ),
        final(controller)@.config == applied(old(controller)@.config, old(updates)@),
        final(status)@ == status_after(
            old(status)@,
            report.changed,
            ControllerStatus { state: final(controller)@.state, config: old(controller)@.config },
        ),
        final(updates)@ is None,
        report.changed == (final(controller)@.state != old(controller)@.state),
        report.relay == relay_action_of(old(controller)@.state, final(controller)@.state),
        report.refused == refusal(old(updates)@),
{
    let before = controller.get_state();
    let changed = controller.update_at(reading.temperature, now);
    let relay = relay_action(before, controller.get_state());
    if changed {
        status.publish(controller.status());
    }
    let refused = match updates.drain() {
        Some(config) => match controller.try_update_config(config) {
            Ok(()) => None,
            Err(e) => Some(e),
        },
        None => None,
    };
    ControlReport { changed, relay, refused }
}

/// One round of the control task at the current time.
pub fn controller_tick(
    controller: &mut TempController,
    reading: Reading,
    status: &mut StatusSlot,
    updates: &mut ConfigSlot,
) -> (report: ControlReport)
    ensures
        exists|now: Instant|
            final(controller)@.state == #[trigger] next_state(
                old(controller)@.state,
                old(controller)@.config,
                reading.temperature,
                now,
            ),
        final(controller)@.config == applied(old(controller)@.config, old(updates)@),
        final(status)@ == status_after(
            old(status)@,
            report.changed,
            ControllerStatus { state: final(controller)@.state, config: old(controller)@.config },
        ),
        final(updates)@ is None,
        report.changed == (final(controller)@.state != old(controller)@.state),
        report.relay == relay_action_of(old(controller)@.state, final(controller)@.state),
        report.refused == refusal(old(updates)@),
{
    let now = clock_now();
    controller_tick_at(controller, reading, now, status, updates)
}

} // verus!
