//! Telemetry broadcast decisions.
//!
//! The data-manager task is woken either by a fresh sensor reading or by the
//! periodic broadcast timer. The decisions — folding readings into the
//! current message state, counting down the warm-up period, advancing uptime,
//! and saying when a broadcast is due — live here; the caller owns the
//! socket, encodes the wire message from this state, and reports back when a
//! send actually went out so the sequence number advances.

use vstd::prelude::*;

use crate::sensor::Measurement;

verus! {

/// Broadcast-interval cycles to wait after boot before the first broadcast
/// goes out.
pub const WARM_UP_PERIOD_CYCLES: u32 = 24;

/// Seconds between two broadcast timer wake-ups.
pub const BCAST_INTERVAL_SEC: u32 = 5;

/// Why the data-manager task was woken.
#[derive(Clone, Copy, PartialEq, Eq, Structural, Debug, Hash)]
pub enum SpawnArg {
    /// Temperature and humidity measurement from the environmental sensor.
    Bme680Measurement(Measurement),
    /// Time to send the broadcast protocol data.
    SendBroadcastMessage,
}

/// The data manager's live state: the fields of the next broadcast message
/// that this subsystem decides, and the warm-up countdown.
#[derive(Clone, Copy, PartialEq, Eq, Structural, Debug)]
pub struct TaskState {
    /// The state has been initialized with the device serial number.
    pub initialized: bool,
    /// The device serial number reported in each broadcast.
    pub device_serial_number: u64,
    /// Last temperature reading, centidegrees Celsius.
    pub temperature: i32,
    /// Last humidity reading, centipercent.
    pub humidity: u16,
    /// A temperature reading has arrived.
    pub temperature_valid: bool,
    /// A humidity reading has arrived.
    pub humidity_valid: bool,
    /// Sequence number of the next broadcast message.
    pub sequence_number: u32,
    /// Seconds since boot, advanced by the broadcast timer.
    pub uptime_seconds: u32,
    /// Broadcast cycles left before the first message may go out.
    pub cycles_till_warmed_up: u32,
}

impl TaskState {
    /// The state at boot: nothing initialized, nothing valid, the full
    /// warm-up period ahead.
    pub fn new() -> (r: TaskState)
        ensures
            r == (TaskState {
                initialized: false,
                device_serial_number: 0,
                temperature: 0,
                humidity: 0,
                temperature_valid: false,
                humidity_valid: false,
                sequence_number: 0,
                uptime_seconds: 0,
                cycles_till_warmed_up: WARM_UP_PERIOD_CYCLES,
            }),
    {
        TaskState {
            initialized: false,
            device_serial_number: 0,
            temperature: 0,
            humidity: 0,
            temperature_valid: false,
            humidity_valid: false,
            sequence_number: 0,
            uptime_seconds: 0,
            cycles_till_warmed_up: WARM_UP_PERIOD_CYCLES,
        }
    }

    /// Handles one wake-up and says whether a broadcast is due now.
    ///
    /// The first wake-up adopts the device serial number. A sensor reading
    /// updates the measurement fields and marks them valid; it never triggers
    /// a send. The broadcast timer advances uptime and counts the warm-up
    /// period down; only once that period is over is a send due.
    pub fn step(&mut self, arg: SpawnArg, serial_number: u64) -> (send: bool)
        ensures
            final(self).initialized,
            final(self).device_serial_number == if old(self).initialized {
                old(self).device_serial_number
            } else {
                serial_number
            },
            arg matches SpawnArg::Bme680Measurement(m) ==> {
                &&& !send
                &&& final(self).temperature == m.temperature
                &&& final(self).humidity == m.humidity
                &&& final(self).temperature_valid
                &&& final(self).humidity_valid
                &&& final(self).sequence_number == old(self).sequence_number
                &&& final(self).uptime_seconds == old(self).uptime_seconds
                &&& final(self).cycles_till_warmed_up == old(self).cycles_till_warmed_up
            },
            arg == SpawnArg::SendBroadcastMessage ==> {
                &&& send == (old(self).cycles_till_warmed_up == 0)
                &&& final(self).cycles_till_warmed_up == if old(self).cycles_till_warmed_up > 0 {
                    (old(self).cycles_till_warmed_up - 1) as u32
                } else {
                    0u32
                }
                &&& final(self).uptime_seconds == old(self).uptime_seconds.wrapping_add(
                    BCAST_INTERVAL_SEC,
                )
                &&& final(self).sequence_number == old(self).sequence_number
                &&& final(self).temperature == old(self).temperature
                &&& final(self).humidity == old(self).humidity
                &&& final(self).temperature_valid == old(self).temperature_valid
                &&& final(self).humidity_valid == old(self).humidity_valid
            },
    {
        if !self.initialized {
            self.device_serial_number = serial_number;
            self.initialized = true;
        }
        match arg {
            SpawnArg::Bme680Measurement(m) => {
                self.temperature = m.temperature;
                self.humidity = m.humidity;
                self.temperature_valid = true;
                self.humidity_valid = true;
                false
            },
            SpawnArg::SendBroadcastMessage => {
                let mut send = false;
                if self.cycles_till_warmed_up != 0 {
                    self.cycles_till_warmed_up = self.cycles_till_warmed_up - 1;
                } else {
                    send = true;
                }
                self.uptime_seconds = self.uptime_seconds.wrapping_add(BCAST_INTERVAL_SEC);
                send
            },
        }
    }

    /// Records that a broadcast actually went out: the next message carries
    /// the next sequence number.
    pub fn record_sent(&mut self)
        ensures
            final(self).sequence_number == old(self).sequence_number.wrapping_add(1),
            *final(self) == (TaskState {
                sequence_number: final(self).sequence_number,
                ..*old(self)
            }),
    {
        self.sequence_number = self.sequence_number.wrapping_add(1);
    }
}

} // verus!
