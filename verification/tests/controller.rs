use thermostat::temp_controller::{
    relay_action, ConfigError, ControllerState, ControllerStatus, RelayAction, TempController,
    TempControllerConfig,
};
use thermostat::time::{Duration, Instant};

fn config(threshold: i8, runtime_secs: u64, cooldown_secs: u64) -> TempControllerConfig {
    TempControllerConfig {
        threshold_temperature: threshold,
        minimum_runtime: Duration::from_secs(runtime_secs),
        cooldown_time: Duration::from_secs(cooldown_secs),
    }
}

fn at(micros: u64) -> Instant {
    Instant::from_micros(micros)
}

fn idle_controller(config: TempControllerConfig) -> TempController {
    let mut controller = TempController::new_at(config, at(0));
    let expiry = config.cooldown_time.as_micros() + 1;
    assert!(controller.update_at(i8::MIN, at(expiry)));
    assert!(controller.is_idle());
    controller
}

#[test]
fn startup_configuration() {
    let startup = TempControllerConfig::startup();
    assert_eq!(startup, config(20, 10, 10));
    assert_eq!(startup.minimum_runtime.as_micros(), 10_000_000);
    assert_eq!(startup.cooldown_time.as_micros(), 10_000_000);
    assert_eq!(startup.validate(), Ok(()));
}

#[test]
fn starts_in_cooldown() {
    let controller = TempController::new_at(config(20, 10, 10), at(42));
    assert_eq!(controller.get_state(), ControllerState::Cooldown { starttime: at(42) });
    assert!(controller.is_cooldown());
    assert!(!controller.is_running());
    assert!(!controller.is_idle());
    assert!(!controller.relay_on());
    assert_eq!(controller.get_config(), config(20, 10, 10));
}

#[test]
fn starts_in_cooldown_whatever_is_sampled_first() {
    for temperature in [i8::MIN, 0, 20, 21, 99, i8::MAX] {
        let mut controller = TempController::new_at(config(20, 10, 10), at(0));
        assert!(!controller.update_at(temperature, at(1_000_000)));
        assert_eq!(controller.get_state(), ControllerState::Cooldown { starttime: at(0) });
        assert!(!controller.update_at(temperature, at(10_000_000)));
        assert!(controller.is_cooldown());
        assert!(!controller.relay_on());
    }
}

#[test]
fn cooldown_never_leads_straight_to_running() {
    let mut controller = TempController::new_at(config(20, 10, 10), at(0));
    assert!(controller.update_at(100, at(10_000_001)));
    assert_eq!(controller.get_state(), ControllerState::Idle);
    assert!(controller.update_at(100, at(10_000_002)));
    assert_eq!(controller.get_state(), ControllerState::Running { starttime: at(10_000_002) });
}

#[test]
fn idle_switches_on_above_the_threshold_only() {
    let mut controller = idle_controller(config(20, 10, 10));
    assert!(!controller.update_at(19, at(20_000_000)));
    assert!(!controller.update_at(20, at(21_000_000)));
    assert!(controller.is_idle());
    assert!(controller.update_at(21, at(22_000_000)));
    assert_eq!(controller.get_state(), ControllerState::Running { starttime: at(22_000_000) });
    assert!(controller.relay_on());
}

#[test]
fn scenario_one_cycle_at_one_hertz() {
    // The loop takes a little longer than its one-second sleep.
    let tick = |k: u64| at(11_000_000 + k * 1_000_050);
    let temperatures = [18i8, 22, 23, 19, 15];
    let temperature = |k: u64| if (1..=5).contains(&k) { temperatures[(k - 1) as usize] } else { 15 };

    let mut controller = TempController::new_at(config(20, 10, 10), at(0));
    let mut relay = false;
    assert!(controller.update_at(18, tick(0)));
    assert!(controller.is_idle());

    assert!(!controller.update_at(temperature(1), tick(1)));
    assert!(controller.is_idle());

    let before = controller.get_state();
    assert!(controller.update_at(temperature(2), tick(2)));
    assert_eq!(controller.get_state(), ControllerState::Running { starttime: tick(2) });
    relay = relay_action(before, controller.get_state()).apply(relay);
    assert!(relay);

    for k in 3..=11 {
        assert!(!controller.update_at(temperature(k), tick(k)));
        assert_eq!(controller.get_state(), ControllerState::Running { starttime: tick(2) });
        assert!(controller.relay_on());
    }

    let before = controller.get_state();
    assert!(controller.update_at(temperature(12), tick(12)));
    assert_eq!(controller.get_state(), ControllerState::Cooldown { starttime: tick(12) });
    relay = relay_action(before, controller.get_state()).apply(relay);
    assert!(!relay);

    for k in 13..=21 {
        assert!(!controller.update_at(30, tick(k)));
        assert_eq!(controller.get_state(), ControllerState::Cooldown { starttime: tick(12) });
        assert!(!controller.relay_on());
    }

    assert!(controller.update_at(30, tick(22)));
    assert_eq!(controller.get_state(), ControllerState::Idle);
    assert!(!controller.relay_on());
}

#[test]
fn exact_seconds_need_one_tick_more() {
    let tick = |k: u64| at(k * 1_000_000);
    let mut controller = TempController::new_at(config(20, 10, 10), at(0));
    assert!(!controller.update_at(18, tick(10)));
    assert!(controller.update_at(18, tick(11)));
    assert!(controller.update_at(22, tick(12)));
    for k in 13..=22 {
        assert!(!controller.update_at(15, tick(k)));
        assert!(controller.is_running());
    }
    assert!(controller.update_at(15, tick(23)));
    assert_eq!(controller.get_state(), ControllerState::Cooldown { starttime: tick(23) });
    for k in 24..=33 {
        assert!(!controller.update_at(40, tick(k)));
        assert!(controller.is_cooldown());
    }
    assert!(controller.update_at(40, tick(34)));
    assert!(controller.is_idle());
}

#[test]
fn runtime_is_held_whatever_the_temperature() {
    let mut controller = idle_controller(config(20, 10, 10));
    assert!(controller.update_at(21, at(50_000_000)));
    for (k, temperature) in [i8::MIN, -5, 0, 19, 20, 21, i8::MAX].into_iter().enumerate() {
        assert!(!controller.update_at(temperature, at(51_000_000 + k as u64 * 1_000_000)));
        assert_eq!(controller.get_state(), ControllerState::Running { starttime: at(50_000_000) });
    }
    assert!(!controller.update_at(0, at(60_000_000)));
    assert!(controller.update_at(100, at(60_000_001)));
    assert_eq!(controller.get_state(), ControllerState::Cooldown { starttime: at(60_000_001) });
}

#[test]
fn relay_rests_for_the_cooldown() {
    let mut controller = idle_controller(config(20, 5, 30));
    assert!(controller.update_at(25, at(100_000_000)));
    assert!(controller.update_at(25, at(105_000_001)));
    let off_at = 105_000_001;
    let mut now = off_at;
    let mut on_at = None;
    while on_at.is_none() && now < off_at + 60_000_000 {
        now += 1_000_000;
        controller.update_at(25, at(now));
        if controller.relay_on() {
            on_at = Some(now);
        }
    }
    let on_at = on_at.expect("the relay switches on again");
    assert!(on_at > off_at + 30_000_000);
    assert_eq!(on_at, off_at + 32_000_000);
}

#[test]
fn update_config_keeps_the_recorded_start() {
    let mut controller = idle_controller(config(20, 10, 10));
    assert!(controller.update_at(21, at(50_000_000)));
    controller.update_config(config(30, 3, 60));
    assert_eq!(controller.get_state(), ControllerState::Running { starttime: at(50_000_000) });
    assert_eq!(controller.get_config(), config(30, 3, 60));
    // The new runtime counts from the start recorded before the change.
    assert!(!controller.update_at(0, at(53_000_000)));
    assert!(controller.update_at(0, at(53_000_001)));
    assert_eq!(controller.get_state(), ControllerState::Cooldown { starttime: at(53_000_001) });
    controller.update_config(config(30, 3, 2));
    assert_eq!(controller.get_state(), ControllerState::Cooldown { starttime: at(53_000_001) });
    assert!(!controller.update_at(0, at(55_000_001)));
    assert!(controller.update_at(0, at(55_000_002)));
    assert!(controller.is_idle());
    // The new threshold decides from now on.
    assert!(!controller.update_at(30, at(56_000_000)));
    assert!(controller.update_at(31, at(57_000_000)));
}

#[test]
fn update_config_takes_any_configuration() {
    let mut controller = TempController::new_at(config(20, 10, 10), at(0));
    controller.update_config(config(5, 0, 0));
    assert_eq!(controller.get_config(), config(5, 0, 0));
    assert_eq!(controller.get_state(), ControllerState::Cooldown { starttime: at(0) });
}

#[test]
fn try_update_config_refuses_zero_durations() {
    let mut controller = TempController::new_at(config(20, 10, 10), at(7));
    assert_eq!(controller.try_update_config(config(25, 0, 10)), Err(ConfigError::ZeroMinimumRuntime));
    assert_eq!(controller.try_update_config(config(25, 10, 0)), Err(ConfigError::ZeroCooldownTime));
    assert_eq!(controller.try_update_config(config(25, 0, 0)), Err(ConfigError::ZeroMinimumRuntime));
    assert_eq!(controller.get_config(), config(20, 10, 10));
    assert_eq!(controller.get_state(), ControllerState::Cooldown { starttime: at(7) });
    assert_eq!(controller.try_update_config(config(25, 1, 1)), Ok(()));
    assert_eq!(controller.get_config(), config(25, 1, 1));
    assert_eq!(controller.get_state(), ControllerState::Cooldown { starttime: at(7) });
}

#[test]
fn validate_names_the_fault() {
    assert_eq!(config(0, 1, 1).validate(), Ok(()));
    assert_eq!(config(0, 0, 1).validate(), Err(ConfigError::ZeroMinimumRuntime));
    assert_eq!(config(0, 1, 0).validate(), Err(ConfigError::ZeroCooldownTime));
    let tiny = TempControllerConfig {
        threshold_temperature: -128,
        minimum_runtime: Duration::from_micros(1),
        cooldown_time: Duration::from_micros(1),
    };
    assert_eq!(tiny.validate(), Ok(()));
}

#[test]
fn status_is_state_and_config_together() {
    let mut controller = idle_controller(config(20, 10, 10));
    assert_eq!(
        controller.status(),
        ControllerStatus { state: ControllerState::Idle, config: config(20, 10, 10) }
    );
    controller.update_at(21, at(99_000_000));
    assert_eq!(
        controller.status(),
        ControllerStatus {
            state: ControllerState::Running { starttime: at(99_000_000) },
            config: config(20, 10, 10),
        }
    );
}

#[test]
fn relay_action_follows_running() {
    let idle = ControllerState::Idle;
    let running = ControllerState::Running { starttime: at(1) };
    let cooldown = ControllerState::Cooldown { starttime: at(2) };
    assert_eq!(relay_action(idle, running), RelayAction::SwitchOn);
    assert_eq!(relay_action(running, cooldown), RelayAction::SwitchOff);
    assert_eq!(relay_action(cooldown, idle), RelayAction::Hold);
    assert_eq!(relay_action(idle, idle), RelayAction::Hold);
    assert_eq!(relay_action(running, running), RelayAction::Hold);
    assert_eq!(relay_action(cooldown, cooldown), RelayAction::Hold);
    assert!(RelayAction::SwitchOn.apply(false));
    assert!(!RelayAction::SwitchOff.apply(true));
    assert!(RelayAction::Hold.apply(true));
    assert!(!RelayAction::Hold.apply(false));
}

#[test]
fn new_reads_the_clock_and_starts_in_cooldown() {
    let before = embassy_time::Instant::now().as_micros();
    let mut controller = TempController::new(config(20, 3600, 3600));
    let after = embassy_time::Instant::now().as_micros();
    match controller.get_state() {
        ControllerState::Cooldown { starttime } => {
            assert!(before <= starttime.as_micros());
            assert!(starttime.as_micros() <= after);
        }
        other => panic!("not in cooldown: {:?}", other),
    }
    assert!(!controller.update(100));
    assert!(controller.is_cooldown());
    assert_eq!(controller.get_config(), config(20, 3600, 3600));
}

#[test]
fn update_reads_the_clock() {
    let short = TempControllerConfig {
        threshold_temperature: 20,
        minimum_runtime: Duration::from_micros(1),
        cooldown_time: Duration::from_micros(1),
    };
    let mut controller = TempController::new_at(short, at(0));
    let mut changed = false;
    for _ in 0..1_000_000 {
        if controller.update(0) {
            changed = true;
            break;
        }
    }
    assert!(changed);
    assert!(controller.is_idle());
    assert!(controller.update(21));
    match controller.get_state() {
        ControllerState::Running { starttime } => {
            assert!(starttime.as_micros() <= embassy_time::Instant::now().as_micros())
        }
        other => panic!("not running: {:?}", other),
    }
}
