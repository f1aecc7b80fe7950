//! Devices: how a file's device is named and how its bandwidth follows from
//! a timed read.

use vstd::prelude::*;
use crate::text::decimal_digits;
use crate::text::push_decimal;

verus! {

/// Bytes per MiB.
pub const MIB: u64 = 1_048_576;

/// The identifier of the device of a file on a POSIX system: the device
/// number of the file's metadata, in decimal.
pub fn device_id(st_dev: u64) -> (r: Result<String, String>)
    ensures
        r matches Ok(id) && id@ == decimal_digits(st_dev as nat),
{
    let mut id = String::new();
    push_decimal(&mut id, st_dev);
    assert(Seq::<char>::empty() + decimal_digits(st_dev as nat) == decimal_digits(st_dev as nat));
    Ok(id)
}

/// The bandwidth in whole MiB/s of a device from which `read_total` bytes
/// were read in `elapsed_nanos` nanoseconds. A read that took no time tells
/// nothing.
pub open spec fn bandwidth_mb_s(read_total: u64, elapsed_nanos: u64) -> Option<u64> {
    if elapsed_nanos == 0 {
        None
    } else {
        let speed = (read_total * 1_000_000_000) / (MIB * elapsed_nanos);
        if speed > u64::MAX {
            Some(u64::MAX)
        } else {
            Some(speed as u64)
        }
    }
}

/// Turns a timed read into a bandwidth.
pub fn measure_device_throughput(read_total: u64, elapsed_nanos: u64) -> (r: Option<u64>)
    ensures
        r == bandwidth_mb_s(read_total, elapsed_nanos),
{
    if elapsed_nanos == 0 {
        return None;
    }
    let bytes: u128 = (read_total as u128) * 1_000_000_000;
    let per: u128 = 1_048_576 * (elapsed_nanos as u128);
    let speed: u128 = bytes / per;
    if speed > u64::MAX as u128 {
        Some(u64::MAX)
    } else {
        Some(speed as u64)
    }
}

} // verus!
