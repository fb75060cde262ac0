//! The remote positioning strategy: what is sent to the positioning service
//! and how its reply is judged. The transport and the JSON text are handled
//! by the caller.

use vstd::prelude::*;

use crate::beacon::{BeaconId, Room};
use crate::signal::Signal;
use crate::text::push_str;

verus! {

/// Path of the positioning resource under the service endpoint.
pub const POSITIONING_PATH: &'static str = "/location/v1/positioning";

/// Credentials and address of the positioning service.
pub struct Locator {
    pub service_key: String,
    pub service_client_id: String,
    pub service_endpoint: String,
}

/// One beacon of a positioning request.
#[derive(Debug)]
pub struct BeaconReport {
    pub uuid: String,
    pub major: u16,
    pub minor: u16,
    pub tx_power: i8,
    pub rssi: i8,
}

/// `b` reports the reading `s`.
pub open spec fn reports(s: Signal<BeaconId>, b: BeaconReport) -> bool {
    &&& b.uuid@ == s.beacon.uuid@
    &&& b.major == s.beacon.major
    &&& b.minor == s.beacon.minor
    &&& b.tx_power == s.tx_power
    &&& b.rssi == s.rssi
}

impl Locator {
    pub fn new(service_key: &str, service_client_id: &str, service_endpoint: &str) -> (r: Self)
        ensures
            r.service_key@ == service_key@,
            r.service_client_id@ == service_client_id@,
            r.service_endpoint@ == service_endpoint@,
    {
        Locator {
            service_key: service_key.to_owned(),
            service_client_id: service_client_id.to_owned(),
            service_endpoint: service_endpoint.to_owned(),
        }
    }

    /// The URL that positioning requests are posted to.
    pub fn positioning_url(&self) -> (r: String)
        ensures
            r@ == self.service_endpoint@ + POSITIONING_PATH@,
    {
        let mut url = self.service_endpoint.clone();
        push_str(&mut url, POSITIONING_PATH);
        url
    }
}

/// The beacons of a positioning request, one for each reading, in order.
pub fn beacon_reports(signals: &Vec<Signal<BeaconId>>) -> (r: Vec<BeaconReport>)
    ensures
        r@.len() == signals@.len(),
        forall|i: int| 0 <= i < r@.len() ==> reports(signals@[i], #[trigger] r@[i]),
{
    let n = signals.len();
    let mut out: Vec<BeaconReport> = Vec::new();
    let mut i: usize = 0;
    while i < n
        invariant
            i <= n == signals@.len(),
            out@.len() == i,
            forall|j: int| 0 <= j < i ==> reports(signals@[j], #[trigger] out@[j]),
        decreases n - i,
    {
        let s = &signals[i];
        out.push(
            BeaconReport {
                uuid: s.beacon.uuid.clone(),
                major: s.beacon.major,
                minor: s.beacon.minor,
                tx_power: s.tx_power,
                rssi: s.rssi,
            },
        );
        i = i + 1;
    }
    out
}

/// The room with no building, floor or room name.
pub open spec fn is_empty_room(r: Room) -> bool {
    r.building@.len() == 0 && r.floor@.len() == 0 && r.room@.len() == 0
}

/// Judges a reply of the positioning service and gives the position and
/// room to show. `status` is `None` when the request failed in transport,
/// `body_len` is the length of the reply body and `parsed` what was read from
/// it. The reply's fix is taken only from a status-200 reply with a non-empty
/// body that parsed; on every other reply the result is `origin` with an
/// empty room, and no failure is passed on.
pub fn settle_reply<P>(status: Option<u16>, body_len: usize, parsed: Option<(P, Room)>, origin: P) -> (r: (P, Room))
    ensures
        status == Some(200u16) && body_len > 0 && parsed is Some ==> r == parsed->0,
        !(status == Some(200u16) && body_len > 0 && parsed is Some) ==> r.0 == origin
            && is_empty_room(r.1),
{
    let accepted = match status {
        Some(code) => code == 200 && body_len > 0,
        None => false,
    };
    match parsed {
        Some(fix) => if accepted {
            fix
        } else {
            (origin, Room::default())
        },
        None => (origin, Room::default()),
    }
}

} // verus!
