//! The thermostat: a three-state hysteresis controller that switches a relay
//! on when the temperature rises above a threshold, keeps it on for a minimum
//! runtime, and keeps it off for a cooldown before it may switch on again.

use vstd::prelude::*;
use crate::time::{clock_now, Duration, Instant};

verus! {

/// Where the controller stands. The relay is energized in `Running` only.
#[derive(Clone, Copy, Debug, PartialEq, Eq, Structural)]
pub enum ControllerState {
    Idle,
    Running { starttime: Instant },
    Cooldown { starttime: Instant },
}

/// The controller's settings.
#[derive(Clone, Copy, Debug, PartialEq, Eq, Structural)]
pub struct TempControllerConfig {
    /// The relay switches on above this temperature.
    pub threshold_temperature: i8,
    /// Once on, the relay stays on at least this long.
    pub minimum_runtime: Duration,
    /// Once off, the relay stays off at least this long.
    pub cooldown_time: Duration,
}

/// Why a configuration is refused.
#[derive(Clone, Copy, Debug, PartialEq, Eq, Structural)]
pub enum ConfigError {
    /// `minimum_runtime` is zero.
    ZeroMinimumRuntime,
    /// `cooldown_time` is zero.
    ZeroCooldownTime,
    /// A duration given in seconds does not fit the clock's range.
    DurationOverflow,
}

/// A snapshot of the controller for observers: state and configuration
/// taken together.
#[derive(Clone, Copy, Debug, PartialEq, Eq, Structural)]
pub struct ControllerStatus {
    pub state: ControllerState,
    pub config: TempControllerConfig,
}

/// What a state change asks of the relay.
#[derive(Clone, Copy, Debug, PartialEq, Eq, Structural)]
pub enum RelayAction {
    /// Leave the relay as it is.
    Hold,
    /// Energize the relay.
    SwitchOn,
    /// De-energize the relay.
    SwitchOff,
}

/// One evaluation of the controller as seen from outside: the configuration
/// in force, the sampled temperature and the time of the evaluation.
pub struct Tick {
    pub config: TempControllerConfig,
    pub temperature: i8,
    pub now: Instant,
}

/// The state that follows `state` when `temperature` is sampled at `now`.
pub open spec fn next_state(
    state: ControllerState,
    config: TempControllerConfig,
    temperature: i8,
    now: Instant,
) -> ControllerState {
    match state {
        ControllerState::Idle => if temperature > config.threshold_temperature {
            ControllerState::Running { starttime: now }
        } else {
            ControllerState::Idle
        },
        ControllerState::Running { starttime } => if now.is_past(
            starttime,
            config.minimum_runtime,
        ) {
            ControllerState::Cooldown { starttime: now }
        } else {
            state
        },
        ControllerState::Cooldown { starttime } => if now.is_past(starttime, config.cooldown_time) {
            ControllerState::Idle
        } else {
            state
        },
    }
}

/// The state reached from `state` after the evaluations `ticks`, in order.
pub open spec fn run(state: ControllerState, ticks: Seq<Tick>) -> ControllerState
    decreases ticks.len(),
{
    if ticks.len() == 0 {
        state
    } else {
        let last = ticks.last();
        next_state(run(state, ticks.drop_last()), last.config, last.temperature, last.now)
    }
}

impl RelayAction {
    /// The relay's level after the action, given its level before.
    pub open spec fn applied_to(self, on: bool) -> bool {
        match self {
            RelayAction::Hold => on,
            RelayAction::SwitchOn => true,
            RelayAction::SwitchOff => false,
        }
    }

    /// The relay's level after the action, given its level before.
    pub fn apply(self, on: bool) -> (level: bool)
        ensures
            level == self.applied_to(on),
    {
        match self {
            RelayAction::Hold => on,
            RelayAction::SwitchOn => true,
            RelayAction::SwitchOff => false,
        }
    }
}

/// What the relay has to do when the controller goes from `before` to `after`.
pub open spec fn relay_action_of(before: ControllerState, after: ControllerState) -> RelayAction {
    if !(before is Running) && after is Running {
        RelayAction::SwitchOn
    } else if before is Running && !(after is Running) {
        RelayAction::SwitchOff
    } else {
        RelayAction::Hold
    }
}

/// The evaluation times never go back.
pub open spec fn time_ordered(ticks: Seq<Tick>) -> bool {
    forall|i: int, j: int| 0 <= i <= j < ticks.len() ==> ticks[i].now.micros <= ticks[j].now.micros
}

impl TempControllerConfig {
    /// The configuration that the controller starts with: on above 20
    /// degrees, at least ten seconds on, at least ten seconds off.
    pub fn startup() -> (config: TempControllerConfig)
        ensures
            config == (TempControllerConfig {
                threshold_temperature: 20,
                minimum_runtime: Duration { micros: 10_000_000 },
                cooldown_time: Duration { micros: 10_000_000 },
            }),
            config.is_valid(),
    {
        TempControllerConfig {
            threshold_temperature: 20,
            minimum_runtime: Duration::from_secs(10),
            cooldown_time: Duration::from_secs(10),
        }
    }

    /// Both durations are positive.
    pub open spec fn is_valid(&self) -> bool {
        self.minimum_runtime.micros > 0 && self.cooldown_time.micros > 0
    }

    /// The error that `validate` reports, if any.
    pub open spec fn fault(&self) -> Option<ConfigError> {
        if self.minimum_runtime.micros == 0 {
            Some(ConfigError::ZeroMinimumRuntime)
        } else if self.cooldown_time.micros == 0 {
            Some(ConfigError::ZeroCooldownTime)
        } else {
            None
        }
    }

    /// Accepts a configuration whose durations are both positive.
    pub fn validate(&self) -> (result: Result<(), ConfigError>)
        ensures
            result is Ok <==> self.is_valid(),
            result matches Err(e) ==> self.fault() == Some(e),
    {
        if self.minimum_runtime.micros == 0 {
            Err(ConfigError::ZeroMinimumRuntime)
        } else if self.cooldown_time.micros == 0 {
            Err(ConfigError::ZeroCooldownTime)
        } else {
            Ok(())
        }
    }
}

/// The relay action for a state change.
pub fn relay_action(before: ControllerState, after: ControllerState) -> (action: RelayAction)
    ensures
        action == relay_action_of(before, after),
{
    let was_on = matches!(before, ControllerState::Running { .. });
    let is_on = matches!(after, ControllerState::Running { .. });
    if !was_on && is_on {
        RelayAction::SwitchOn
    } else if was_on && !is_on {
        RelayAction::SwitchOff
    } else {
        RelayAction::Hold
    }
}

/// The controller: its state and the configuration in force.
pub struct TempController {
    state: ControllerState,
    config: TempControllerConfig,
}

impl View for TempController {
    type V = ControllerStatus;

    closed spec fn view(&self) -> ControllerStatus {
        ControllerStatus { state: self.state, config: self.config }
    }
}

impl TempController {
    /// Creates a controller that starts its cooldown at the current time.
    pub fn new(config: TempControllerConfig) -> (controller: TempController)
        ensures
            controller@.config == config,
            controller@.state is Cooldown,
    {
        TempController::new_at(config, clock_now())
    }

    /// Creates a controller that starts its cooldown at `now`: the relay is
    /// off and stays off until one full cooldown has gone by.
    pub fn new_at(config: TempControllerConfig, now: Instant) -> (controller: TempController)
        ensures
            controller@ == (ControllerStatus {
                state: ControllerState::Cooldown { starttime: now },
                config,
            }),
    {
        TempController { state: ControllerState::Cooldown { starttime: now }, config }
    }

    /// Evaluates the controller at the current time. Returns whether the
    /// state changed.
    pub fn update(&mut self, current_temperature: i8) -> (changed: bool)
        ensures
            final(self)@.config == old(self)@.config,
            exists|now: Instant|
                final(self)@.state == #[trigger] next_state(
                    old(self)@.state,
                    old(self)@.config,
                    current_temperature,
                    now,
                ),
            changed == (final(self)@.state != old(self)@.state),
            old(self)@.state is Cooldown ==> !(final(self)@.state is Running),
    {
        let now = clock_now();
        self.update_at(current_temperature, now)
    }

    /// Evaluates the controller for a temperature sampled at `now`. Returns
    /// whether the state changed.
    pub fn update_at(&mut self, current_temperature: i8, now: Instant) -> (changed: bool)
        ensures
            final(self)@.config == old(self)@.config,
            final(self)@.state == next_state(
                old(self)@.state,
                old(self)@.config,
                current_temperature,
                now,
            ),
            changed == (final(self)@.state != old(self)@.state),
            old(self)@.state is Cooldown ==> !(final(self)@.state is Running),
    {
        match self.state {
            ControllerState::Idle => {
                if current_temperature > self.config.threshold_temperature {
                    self.state = ControllerState::Running { starttime: now };
                    true
                } else {
                    false
                }
            },
            ControllerState::Running { starttime } => {
                if now.has_passed(starttime, self.config.minimum_runtime) {
                    self.state = ControllerState::Cooldown { starttime: now };
                    true
                } else {
                    false
                }
            },
            ControllerState::Cooldown { starttime } => {
                if now.has_passed(starttime, self.config.cooldown_time) {
                    self.state = ControllerState::Idle;
                    true
                } else {
                    false
                }
            },
        }
    }

    /// Replaces the configuration. The state, and with it a recorded start
    /// time, stays as it is: only later evaluations see the new values.
    pub fn update_config(&mut self, config: TempControllerConfig)
        ensures
            final(self)@ == (ControllerStatus { state: old(self)@.state, config }),
    {
        self.config = config;
    }

    /// Replaces the configuration if it is valid; refuses it otherwise and
    /// keeps the one in force.
    pub fn try_update_config(&mut self, config: TempControllerConfig) -> (result: Result<
        (),
        ConfigError,
    >)
        ensures
            result is Ok <==> config.is_valid(),
            result is Ok ==> final(self)@ == (ControllerStatus {
                state: old(self)@.state,
                config,
            }),
            result matches Err(e) ==> final(self)@ == old(self)@ && config.fault() == Some(e),
    {
        match config.validate() {
            Ok(()) => {
                self.config = config;
                Ok(())
            },
            Err(e) => Err(e),
        }
    }

    /// The state and configuration taken together.
    pub fn status(&self) -> (status: ControllerStatus)
        ensures
            status == self@,
    {
        ControllerStatus { state: self.state, config: self.config }
    }

    pub fn get_config(&self) -> (config: TempControllerConfig)
        ensures
            config == self@.config,
    {
        self.config
    }

    pub fn get_state(&self) -> (state: ControllerState)
        ensures
            state == self@.state,
    {
        self.state
    }

    pub fn is_running(&self) -> (b: bool)
        ensures
            b == (self@.state is Running),
    {
        matches!(self.state, ControllerState::Running { .. })
    }

    pub fn is_idle(&self) -> (b: bool)
        ensures
            b == (self@.state is Idle),
    {
        matches!(self.state, ControllerState::Idle)
    }

    pub fn is_cooldown(&self) -> (b: bool)
        ensures
            b == (self@.state is Cooldown),
    {
        matches!(self.state, ControllerState::Cooldown { .. })
    }

    /// Is the relay energized? It is exactly while the controller runs.
    pub fn relay_on(&self) -> (on: bool)
        ensures
            on == (self@.state is Running),
    {
        self.is_running()
    }
}

/// Every configuration among `ticks` keeps the relay off for at least `floor`.
pub open spec fn cooldown_at_least(ticks: Seq<Tick>, floor: Duration) -> bool {
    forall|i: int| 0 <= i < ticks.len() ==> ticks[i].config.cooldown_time.micros >= floor.micros
}

/// Every configuration among `ticks` keeps the relay on for at least `floor`.
pub open spec fn runtime_at_least(ticks: Seq<Tick>, floor: Duration) -> bool {
    forall|i: int| 0 <= i < ticks.len() ==> ticks[i].config.minimum_runtime.micros >= floor.micros
}

/// `Running` is entered from `Idle` only, and at the time of the evaluation:
/// a controller in `Cooldown` never goes to `Running` in one step, and one
/// that stays in `Running` keeps its start time.
pub proof fn lemma_running_entered_from_idle(
    state: ControllerState,
    config: TempControllerConfig,
    temperature: i8,
    now: Instant,
)
    ensures
        state is Cooldown ==> !(next_state(state, config, temperature, now) is Running),
        next_state(state, config, temperature, now) is Running ==> state is Idle || state
            == next_state(state, config, temperature, now),
        state is Idle && next_state(state, config, temperature, now) is Running ==> next_state(
            state,
            config,
            temperature,
            now,
        ) == (ControllerState::Running { starttime: now }),
        state is Running && !(next_state(state, config, temperature, now) is Running)
            ==> next_state(state, config, temperature, now) == (ControllerState::Cooldown {
            starttime: now,
        }),
{
}

/// A relay that is driven by the actions is on exactly while the controller
/// runs: if that held before a state change, it holds after it.
pub proof fn lemma_relay_follows_state(before: ControllerState, after: ControllerState, on: bool)
    requires
        on == (before is Running),
    ensures
        relay_action_of(before, after).applied_to(on) == (after is Running),
{
}

/// Running a sequence of evaluations is running its first part and then the
/// rest from where the first part ended.
pub proof fn lemma_run_split(state: ControllerState, ticks: Seq<Tick>, k: int)
    requires
        0 <= k <= ticks.len(),
    ensures
        run(state, ticks) == run(run(state, ticks.take(k)), ticks.skip(k)),
    decreases ticks.len() - k,
{
    if k == ticks.len() {
        assert(ticks.take(k) == ticks);
        assert(ticks.skip(k).len() == 0);
    } else {
        let front = ticks.drop_last();
        lemma_run_split(state, front, k);
        assert(front.take(k) == ticks.take(k));
        assert(front.skip(k) == ticks.skip(k).drop_last());
        assert(ticks.skip(k).last() == ticks.last());
    }
}

/// From the moment the relay is switched off, at `off_at`, it is not switched
/// on again until more than the cooldown has gone by: if time does not go
/// back and every configuration in force asks for a cooldown of at least
/// `floor`, any later `Running` state started later than `off_at + floor`.
pub proof fn lemma_cooldown_respected(off_at: Instant, floor: Duration, ticks: Seq<Tick>)
    requires
        time_ordered(ticks),
        cooldown_at_least(ticks, floor),
    ensures
        run(ControllerState::Cooldown { starttime: off_at }, ticks) matches ControllerState::Running {
            starttime,
        } ==> starttime.micros > off_at.micros + floor.micros,
        run(ControllerState::Cooldown { starttime: off_at }, ticks) != (ControllerState::Cooldown {
            starttime: off_at,
        }) ==> ticks.len() > 0 && ticks.last().now.micros > off_at.micros + floor.micros,
    decreases ticks.len(),
{
    if ticks.len() > 0 {
        let front = ticks.drop_last();
        assert(time_ordered(front));
        assert(cooldown_at_least(front, floor));
        lemma_cooldown_respected(off_at, floor, front);
        if front.len() > 0 {
            assert(front.last() == ticks[ticks.len() - 2]);
            assert(ticks[ticks.len() - 2].now.micros <= ticks[ticks.len() - 1].now.micros);
        }
    }
}

/// Between switching the relay off and switching it on again lies more than
/// the cooldown. In a run from any state, if evaluation `i` takes the
/// controller out of `Running` and a later evaluation `j` takes it into
/// `Running`, then, time not going back and every configuration in force
/// after `i` asking for a cooldown of at least `floor`, evaluation `j`
/// happened later than `floor` after evaluation `i`.
pub proof fn lemma_relay_rests_for_cooldown(
    start: ControllerState,
    ticks: Seq<Tick>,
    i: int,
    j: int,
    floor: Duration,
)
    requires
        0 <= i < j < ticks.len(),
        time_ordered(ticks),
        cooldown_at_least(ticks.subrange(i + 1, j + 1), floor),
        run(start, ticks.take(i)) is Running,
        !(run(start, ticks.take(i + 1)) is Running),
        !(run(start, ticks.take(j)) is Running),
        run(start, ticks.take(j + 1)) is Running,
    ensures
        ticks[j].now.micros > ticks[i].now.micros + floor.micros,
{
    let upto_i = ticks.take(i + 1);
    assert(upto_i.drop_last() == ticks.take(i));
    assert(upto_i.last() == ticks[i]);
    let off_at = ticks[i].now;
    assert(run(start, upto_i) == (ControllerState::Cooldown { starttime: off_at }));

    let upto_j = ticks.take(j + 1);
    assert(upto_j.drop_last() == ticks.take(j));
    assert(upto_j.last() == ticks[j]);
    assert(run(start, upto_j) == (ControllerState::Running { starttime: ticks[j].now }));

    let rest = ticks.subrange(i + 1, j + 1);
    lemma_run_split(start, upto_j, i + 1);
    assert(upto_j.take(i + 1) == upto_i);
    assert(upto_j.skip(i + 1) == rest);
    assert(time_ordered(rest)) by {
        assert forall|a: int, b: int| 0 <= a <= b < rest.len() implies rest[a].now.micros
            <= rest[b].now.micros by {
            assert(rest[a] == ticks[i + 1 + a]);
            assert(rest[b] == ticks[i + 1 + b]);
        }
    }
    lemma_cooldown_respected(off_at, floor, rest);
}

/// Once the relay is on it stays on for the minimum runtime, whatever the
/// temperature does: from `Running` started at `start`, evaluations that all
/// happen no later than `start + floor`, under configurations that ask for a
/// runtime of at least `floor`, leave the state as it is.
pub proof fn lemma_minimum_runtime_held(start: Instant, floor: Duration, ticks: Seq<Tick>)
    requires
        runtime_at_least(ticks, floor),
        forall|i: int| 0 <= i < ticks.len() ==> ticks[i].now.micros <= start.micros + floor.micros,
    ensures
        run(ControllerState::Running { starttime: start }, ticks) == (ControllerState::Running {
            starttime: start,
        }),
    decreases ticks.len(),
{
    if ticks.len() > 0 {
        let front = ticks.drop_last();
        assert(runtime_at_least(front, floor));
        lemma_minimum_runtime_held(start, floor, front);
    }
}

/// A controller that has just been created holds the relay off through its
/// first cooldown, whatever is sampled: evaluations no later than
/// `created + floor`, under configurations with a cooldown of at least
/// `floor`, leave it in the cooldown it started with.
pub proof fn lemma_startup_cooldown_held(created: Instant, floor: Duration, ticks: Seq<Tick>)
    requires
        cooldown_at_least(ticks, floor),
        forall|i: int| 0 <= i < ticks.len() ==> ticks[i].now.micros <= created.micros + floor.micros,
    ensures
        run(ControllerState::Cooldown { starttime: created }, ticks) == (ControllerState::Cooldown {
            starttime: created,
        }),
    decreases ticks.len(),
{
    if ticks.len() > 0 {
        let front = ticks.drop_last();
        assert(cooldown_at_least(front, floor));
        lemma_startup_cooldown_held(created, floor, front);
    }
}

} // verus!
