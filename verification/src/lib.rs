//! Boot/update coordination core for a network-attached environmental sensor
//! node.
//!
//! The firmware is split into a minimal boot-stage image and an application
//! image. This library holds the logic both images must agree on: classifying
//! the hardware reset cause, the CRC-protected persisted records that select
//! the active application slot and track an in-flight update, the non-blocking
//! state machine that receives a new image over a byte stream, and the
//! orchestration rules that decide at boot and at runtime whether to proceed,
//! commit, reboot, or halt safely.
//!
//! Everything hardware-facing (flash programming, the network socket, the
//! reset latch, the watchdog, the scheduler) stays outside: callers hand this
//! library plain bytes and values and act on the decisions it returns.

pub mod boot_config;
pub mod crc32;
pub mod data_manager;
pub mod device_info;
pub mod manual_trigger;
pub mod orchestrator;
pub mod reset_reason;
pub mod schema;
pub mod sensor;
pub mod update_manager;
pub mod update_status;
