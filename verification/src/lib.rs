//! Control logic of an ESP32 RC car: servo and DC motor control, the PS2 and UART gamepad
//! protocols, and the decisions behind the Wi-Fi access point and its command endpoint.
//!
//! Everything here computes on plain values. Pins, timers, radios and clocks are driven by the
//! firmware around this library, which performs the actions these functions return and hands
//! the outcome back as events.
pub mod display;
pub mod gamepad;
pub mod gpio;
pub mod motor;
pub mod ps2;
pub mod ps2_controller_task;
pub mod text;
pub mod web;
pub mod wifi;
