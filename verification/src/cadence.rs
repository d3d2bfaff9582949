//! How often the IMU reports and how long the main loop pauses between polls.
use vstd::prelude::*;

verus! {

/// Rate at which the IMU is asked to report its fused rotation vector.
pub const IMU_REPORTING_RATE_HZ: u16 = 200;

/// Milliseconds between two rotation-vector reports at `IMU_REPORTING_RATE_HZ`.
pub const IMU_REPORTING_INTERVAL_MS: u16 = 1000 / IMU_REPORTING_RATE_HZ;

/// Longest wait, in milliseconds, for each message while draining the IMU.
pub const MESSAGE_TIMEOUT_MS: u8 = 1;

/// Milliseconds between two reports when the sensor reports `rate_hz` times a second.
pub open spec fn interval_ms_for_rate(rate_hz: int) -> int {
    1000int / rate_hz
}

/// The main loop's pause: the reporting interval narrowed to a byte, the way
/// the delay source takes it (the value modulo 256).
pub fn loop_interval_ms(report_interval_ms: u16) -> (pause: u8)
    ensures
        pause == report_interval_ms % 256,
{
    let pause = report_interval_ms as u8;
    assert(pause == report_interval_ms % 256) by (bit_vector)
        requires
            pause == report_interval_ms as u8,
    ;
    pause
}

/// The reporting interval is what the reporting rate gives, and it fits the
/// main loop's byte-sized pause unchanged.
pub proof fn lemma_reporting_interval()
    ensures
        IMU_REPORTING_INTERVAL_MS == interval_ms_for_rate(IMU_REPORTING_RATE_HZ as int),
        IMU_REPORTING_INTERVAL_MS == 5,
        IMU_REPORTING_INTERVAL_MS % 256 == IMU_REPORTING_INTERVAL_MS,
{
}

} // verus!
