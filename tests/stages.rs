use positioning::beacon::{BeaconId, Room};
use positioning::online::{beacon_reports, settle_reply, Locator};
use positioning::pipeline::{Event, Processor, StageState, BUFFER_CAPACITY};
use positioning::scanner::{Scanner, ETH_BEACON_UUID};
use positioning::signal::Signal;

fn reading(minor: u16, rx_ts: i64) -> Signal<BeaconId> {
    Signal { beacon: BeaconId::new(ETH_BEACON_UUID, 1, minor), tx_power: -59, rssi: -70, rx_ts }
}

fn advert(uuid: [u8; 16]) -> Vec<u8> {
    let mut p = vec![0x02, 0x01, 0x06, 0x1a, 0xff, 0x4c, 0x00, 0x02, 0x15];
    p.extend_from_slice(&uuid);
    p.extend_from_slice(&[0x00, 0x05, 0x00, 0x07, 0xc5]);
    p
}

const FLEET: [u8; 16] = [
    0x58, 0x79, 0x35, 0x64, 0x45, 0x9c, 0x54, 0x8d, 0xbf, 0xcc, 0x36, 0x7f, 0xfd, 0x4f, 0xcd, 0x70,
];

#[test]
fn scanner_defaults() {
    let s = Scanner::new();
    assert_eq!((s.scan_time_ms, s.scan_interval_ms, s.scan_window_ms), (5000, 100, 50));
}

#[test]
fn scanner_accepts_fleet_frames() {
    let r = Scanner::new().reading_from(&advert(FLEET), -81).expect("fleet beacon");
    assert_eq!(r.beacon.uuid, ETH_BEACON_UUID);
    assert_eq!((r.beacon.major, r.beacon.minor), (5, 7));
    assert_eq!((r.tx_power, r.rssi), (-59, -81));
    assert!(r.rx_ts > 0);
}

#[test]
fn scanner_ignores_other_frames() {
    let mut other = FLEET;
    other[15] = 0x71;
    assert!(Scanner::new().reading_from(&advert(other), -81).is_none());
    assert!(Scanner::new().reading_from(&[0x02, 0x01, 0x06], -81).is_none());
}

#[test]
fn processor_buffers_and_emits_on_tick() {
    let mut p = Processor::new();
    assert_eq!(p.state(), StageState::Idle);
    assert!(p.handle(Event::Reading(reading(1, 1_000_000))).is_none());
    assert_eq!(p.state(), StageState::Running);
    assert!(p.handle(Event::Reading(reading(2, 4_000_000))).is_none());
    let batch = p.handle(Event::Tick(5_000_000)).expect("a tick emits");
    assert_eq!(batch.iter().map(|s| s.beacon.minor).collect::<Vec<_>>(), vec![2, 1]);
    let batch = p.handle(Event::Tick(7_000_000)).unwrap();
    assert_eq!(batch.iter().map(|s| s.beacon.minor).collect::<Vec<_>>(), vec![2]);
}

#[test]
fn processor_emits_empty_batch() {
    let mut p = Processor::new();
    let batch = p.handle(Event::Tick(5_000_000)).expect("an empty batch is emitted");
    assert!(batch.is_empty());
    assert_eq!(p.state(), StageState::Running);
}

#[test]
fn processor_keeps_capacity_readings() {
    let mut p = Processor::new();
    for m in 0..(BUFFER_CAPACITY as u16 + 1) {
        p.handle(Event::Reading(reading(m, 1_000)));
    }
    let batch = p.handle(Event::Tick(2_000)).unwrap();
    assert_eq!(batch.len(), BUFFER_CAPACITY);
    assert_eq!(batch[0].beacon.minor, BUFFER_CAPACITY as u16);
    assert_eq!(batch[BUFFER_CAPACITY - 1].beacon.minor, 1);
}

#[test]
fn processor_terminates_on_close() {
    let mut p = Processor::new();
    p.handle(Event::Reading(reading(1, 1_000)));
    assert!(p.handle(Event::Closed).is_none());
    assert_eq!(p.state(), StageState::Terminated);
    assert!(p.handle(Event::Tick(2_000)).is_none());
    assert!(p.handle(Event::Reading(reading(2, 1_500))).is_none());
    assert_eq!(p.state(), StageState::Terminated);
}

#[test]
fn online_locator_url() {
    let l = Locator::new("SECRET-REDACTED", "client-1", "https://example.org");
    assert_eq!(l.positioning_url(), "https://example.org/location/v1/positioning");
    assert_eq!(l.service_key, "SECRET-REDACTED");
    assert_eq!(l.service_client_id, "client-1");
}

#[test]
fn reports_follow_readings() {
    let r = beacon_reports(&vec![reading(3, 0), reading(4, 0)]);
    assert_eq!(r.len(), 2);
    assert_eq!(r[0].uuid, ETH_BEACON_UUID);
    assert_eq!((r[0].major, r[0].minor, r[0].tx_power, r[0].rssi), (1, 3, -59, -70));
    assert_eq!(r[1].minor, 4);
}

fn fix() -> Option<((i32, i32), Room)> {
    Some(((47, 8), Room::new("HG", "E", "41")))
}

#[test]
fn reply_with_fix_is_taken() {
    let (pos, room) = settle_reply(Some(200), 120, fix(), (0, 0));
    assert_eq!(pos, (47, 8));
    assert_eq!(room.identifier(), "HG/E/41");
}

#[test]
fn failed_replies_fall_back_to_origin() {
    for (status, len, parsed) in [
        (Some(500u16), 120usize, fix()),
        (Some(404), 0, None),
        (Some(200), 0, fix()),
        (Some(200), 120, None),
        (None, 0, None),
    ] {
        let (pos, room) = settle_reply(status, len, parsed, (0, 0));
        assert_eq!(pos, (0, 0));
        assert_eq!(room.identifier(), "//");
    }
}
