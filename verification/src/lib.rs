//! Thermostat core: sensor sample codec, hysteresis controller, and the
//! channels that hand readings, status and configuration between tasks.

pub mod console;
pub mod dht11;
pub mod distribution;
pub mod tasks;
pub mod temp_controller;
pub mod time;
pub mod wire;
