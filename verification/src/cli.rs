//! The command line tool: what `argonctl` prints, and what it decides.

pub mod battery;
pub mod button;
pub mod doctor;
pub mod fan;
pub mod lid_agent;
pub mod notify;
pub mod oled;
pub mod poweroff;
pub mod rtc;
pub mod setup;
pub mod ups;
pub mod zigbee;
