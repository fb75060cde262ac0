//! Signal readings: one observation of a beacon with its calibrated power,
//! received strength and reception time.

use vstd::prelude::*;

verus! {

/// Relies on chrono's `From<SystemTime> for DateTime<Utc>` and
/// `DateTime::timestamp_micros`: the current system time in microseconds
/// since the Unix epoch, negative for a clock set before the epoch. Nothing
/// is promised of the value, which depends on the clock.
#[verifier::external_body]
pub(crate) fn now_micros() -> (r: i64) {
    chrono::DateTime::<chrono::Utc>::from(std::time::SystemTime::now()).timestamp_micros()
}

/// One reading of a beacon. `rx_ts` is the reception time in microseconds
/// since the Unix epoch.
#[derive(Debug)]
pub struct Signal<T> {
    pub beacon: T,
    pub tx_power: i8,
    pub rssi: i8,
    pub rx_ts: i64,
}

/// The attenuation of a reading: calibrated power minus received strength.
/// The estimated distance grows strictly with it.
pub open spec fn path_loss_of<T>(s: Signal<T>) -> int {
    s.tx_power - s.rssi
}

/// `b` is a copy of the reading `a`, its beacon made by `T::clone`.
pub open spec fn same_reading<T: Clone>(a: Signal<T>, b: Signal<T>) -> bool {
    &&& cloned(a.beacon, b.beacon)
    &&& a.tx_power == b.tx_power
    &&& a.rssi == b.rssi
    &&& a.rx_ts == b.rx_ts
}

impl<T> Signal<T> {
    /// A reading received now.
    pub fn new(beacon: T, tx_power: i8, rssi: i8) -> (r: Self)
        ensures
            r.beacon == beacon,
            r.tx_power == tx_power,
            r.rssi == rssi,
    {
        Signal { beacon, tx_power, rssi, rx_ts: now_micros() }
    }

    /// Calibrated power minus received strength.
    pub fn path_loss(&self) -> (r: i16)
        ensures
            r == path_loss_of(*self),
    {
        self.tx_power as i16 - self.rssi as i16
    }
}

impl<T: Clone> Clone for Signal<T> {
    fn clone(&self) -> (r: Self)
        ensures
            same_reading(*self, r),
    {
        Signal {
            beacon: self.beacon.clone(),
            tx_power: self.tx_power,
            rssi: self.rssi,
            rx_ts: self.rx_ts,
        }
    }
}

} // verus!
