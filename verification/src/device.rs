//! Devices: what is written to them, and what their readings mean.

pub mod boot_config;
pub mod button;
pub mod celsius;
pub mod clock_sync;
pub mod config;
pub mod control;
pub mod drift;
pub mod fan;
pub mod fan_control;
pub mod gauge;
pub mod lid;
pub mod mcu;
pub mod mode;
pub mod oled;
pub mod oled_page;
pub mod power;
pub mod safety;
pub mod shutdown_notice;
pub mod status;
pub mod ups;
pub mod ups_seen;
pub mod ups_service;
pub mod ups_time;
pub mod wake;
