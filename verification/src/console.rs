//! What the operator console computes: a new configuration from the fields
//! that a command gives, and the time that a running interval has left.

use vstd::prelude::*;
use crate::temp_controller::{ConfigError, ControllerState, ControllerStatus, TempControllerConfig};
use crate::time::{Duration, Instant, MICROS_PER_SEC};

verus! {

/// The number of seconds asked for: the one given, or the whole seconds of
/// the current duration.
pub open spec fn wanted_secs(given: Option<u64>, current: Duration) -> int {
    match given {
        Some(secs) => secs as int,
        None => current.micros as int / MICROS_PER_SEC as int,
    }
}

/// The configuration that a command asks for, before it is checked.
pub open spec fn requested(
    current: TempControllerConfig,
    set_temp: Option<i8>,
    min_runtime_secs: Option<u64>,
    min_cooldown_secs: Option<u64>,
) -> TempControllerConfig {
    TempControllerConfig {
        threshold_temperature: match set_temp {
            Some(t) => t,
            None => current.threshold_temperature,
        },
        minimum_runtime: Duration {
            micros: (wanted_secs(min_runtime_secs, current.minimum_runtime) * MICROS_PER_SEC) as u64,
        },
        cooldown_time: Duration {
            micros: (wanted_secs(min_cooldown_secs, current.cooldown_time) * MICROS_PER_SEC) as u64,
        },
    }
}

/// The outcome of a command that sets some of the configuration's fields.
pub open spec fn merged(
    current: TempControllerConfig,
    set_temp: Option<i8>,
    min_runtime_secs: Option<u64>,
    min_cooldown_secs: Option<u64>,
) -> Result<TempControllerConfig, ConfigError> {
    if wanted_secs(min_runtime_secs, current.minimum_runtime) * MICROS_PER_SEC > u64::MAX
        || wanted_secs(min_cooldown_secs, current.cooldown_time) * MICROS_PER_SEC > u64::MAX {
        Err(ConfigError::DurationOverflow)
    } else {
        let config = requested(current, set_temp, min_runtime_secs, min_cooldown_secs);
        match config.fault() {
            Some(e) => Err(e),
            None => Ok(config),
        }
    }
}

/// Builds the configuration asked for by a command that names some of the
/// fields: a field that is not given keeps its current value, durations in
/// whole seconds. A duration of zero, or one beyond the clock's range, is
/// refused.
pub fn merged_config(
    current: &TempControllerConfig,
    set_temp: Option<i8>,
    min_runtime_secs: Option<u64>,
    min_cooldown_secs: Option<u64>,
) -> (result: Result<TempControllerConfig, ConfigError>)
    ensures
        result == merged(*current, set_temp, min_runtime_secs, min_cooldown_secs),
{
    let runtime_secs = match min_runtime_secs {
        Some(secs) => secs,
        None => current.minimum_runtime.as_secs(),
    };
    let cooldown_secs = match min_cooldown_secs {
        Some(secs) => secs,
        None => current.cooldown_time.as_secs(),
    };
    let minimum_runtime = match Duration::try_from_secs(runtime_secs) {
        Some(d) => d,
        None => {
            return Err(ConfigError::DurationOverflow);
        },
    };
    let cooldown_time = match Duration::try_from_secs(cooldown_secs) {
        Some(d) => d,
        None => {
            return Err(ConfigError::DurationOverflow);
        },
    };
    let config = TempControllerConfig {
        threshold_temperature: match set_temp {
            Some(t) => t,
            None => current.threshold_temperature,
        },
        minimum_runtime,
        cooldown_time,
    };
    match config.validate() {
        Ok(()) => Ok(config),
        Err(e) => Err(e),
    }
}

/// `period` less the time from `start` to `now`, never below zero.
pub open spec fn left_of(period: Duration, start: Instant, now: Instant) -> Duration {
    let elapsed = if now.micros >= start.micros {
        now.micros - start.micros
    } else {
        0
    };
    Duration {
        micros: if period.micros >= elapsed {
            (period.micros - elapsed) as u64
        } else {
            0
        },
    }
}

/// The time that the interval of a status has left at `now`: of the minimum
/// runtime while running, of the cooldown while cooling down, none in idle.
pub open spec fn remaining(status: ControllerStatus, now: Instant) -> Option<Duration> {
    match status.state {
        ControllerState::Idle => None,
        ControllerState::Running { starttime } => Some(
            left_of(status.config.minimum_runtime, starttime, now),
        ),
        ControllerState::Cooldown { starttime } => Some(
            left_of(status.config.cooldown_time, starttime, now),
        ),
    }
}

/// How much of the running or cooldown interval is left at `now`; zero once
/// it is over, `None` in idle.
pub fn time_remaining(status: &ControllerStatus, now: Instant) -> (left: Option<Duration>)
    ensures
        left == remaining(*status, now),
{
    match status.state {
        ControllerState::Idle => None,
        ControllerState::Running { starttime } => Some(
            status.config.minimum_runtime.saturating_sub(now.saturating_duration_since(starttime)),
        ),
        ControllerState::Cooldown { starttime } => Some(
            status.config.cooldown_time.saturating_sub(now.saturating_duration_since(starttime)),
        ),
    }
}

} // verus!
