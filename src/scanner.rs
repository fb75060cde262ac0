//! Scan settings and the decision of which advertisements become readings.

use vstd::prelude::*;

use crate::beacon::BeaconId;
use crate::ibeacon::{decoded, from_bytes};
use crate::signal::Signal;

verus! {

/// The UUID shared by every beacon of the fleet; advertisements of other
/// beacons are ignored.
pub const ETH_BEACON_UUID: &'static str = "58793564-459c-548d-bfcc-367ffd4fcd70";

/// Timing of the radio scan.
pub struct Scanner {
    pub scan_time_ms: i32,
    pub scan_interval_ms: u16,
    pub scan_window_ms: u16,
}

impl Scanner {
    /// Scans of five seconds, every 100 ms for 50 ms.
    pub fn new() -> (r: Self)
        ensures
            r.scan_time_ms == 5000,
            r.scan_interval_ms == 100,
            r.scan_window_ms == 50,
    {
        Scanner { scan_time_ms: 5000i32, scan_interval_ms: 100, scan_window_ms: 50 }
    }

    /// The reading an advertisement yields, received now with strength
    /// `rssi`: present when the payload decodes to a frame of the fleet.
    pub fn reading_from(&self, payload: &[u8], rssi: i8) -> (r: Option<Signal<BeaconId>>)
        ensures
            match decoded(payload@) {
                Some(f) => if f.uuid == ETH_BEACON_UUID@ {
                    r matches Some(s) && s.beacon.is(f.uuid, f.major, f.minor) && s.tx_power
                        == f.power && s.rssi == rssi
                } else {
                    r is None
                },
                None => r is None,
            },
    {
        match from_bytes(payload) {
            Some(frame) => {
                let fleet = ETH_BEACON_UUID.to_owned();
                if frame.uuid == fleet {
                    let id = BeaconId::new(frame.uuid.as_str(), frame.major, frame.minor);
                    Some(Signal::new(id, frame.power, rssi))
                } else {
                    None
                }
            },
            None => None,
        }
    }
}

} // verus!
