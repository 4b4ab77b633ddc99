//! The daemon: the decisions of `argond`.

pub mod button;
pub mod control;
pub mod cpu_cap;
pub mod dbus;
pub mod exporter;
pub mod fan_loop;
pub mod gauge;
pub mod oled;
pub mod startup;
pub mod ups;
