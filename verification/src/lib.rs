//! Monitoring and control of Argon40 enclosures and the Argon PWR UPS.
//!
//! The rules of the daemon and of the command line tool: what the configuration may say, what a
//! reading means, which byte goes to which device, when a shutdown is scheduled and who may ask
//! for one. Nothing here touches a device, a file or a bus: the programs around this library do
//! that, hand in what they read, and perform what they are told.

pub mod cli;
pub mod daemon;
pub mod device;
pub mod json;
pub mod text;
pub mod time;
