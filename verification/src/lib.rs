//! Userspace control logic for TUXEDO laptops: fan curves, platform
//! detection, keyboard LED protocols and the register/attribute layouts of
//! the kernel shims. Every hardware access is described here as a plain value
//! (a register write, a sysfs attribute write, a HID report) that the daemon
//! performs; the decisions that lead to it are verified.
pub mod text;
pub mod config;
pub mod fan_curve;
pub mod dmi;
pub mod hid;
pub mod sysfs;
pub mod hwmon;
pub mod nb04;
pub mod tuxi;
pub mod uniwill;
pub mod clevo;
pub mod ec;
pub mod nb05;
pub mod dbus;
pub mod startup;
