use positioning::beacon::{Beacon, BeaconId, Room};
use positioning::locator::{order_by_path_loss, Locator, PositioningError};
use positioning::pipeline::{LocatorStage, StageState, Step};
use positioning::signal::Signal;

const UUID: &str = "58793564-459c-548d-bfcc-367ffd4fcd70";

fn catalog() -> Vec<Beacon<(i32, i32)>> {
    vec![
        Beacon::new(BeaconId::new(UUID, 1, 1), Room::new("HG", "E", "41"), (10, 10)),
        Beacon::new(BeaconId::new(UUID, 1, 2), Room::new("HG", "E", "42"), (10, 20)),
        Beacon::new(BeaconId::new(UUID, 1, 3), Room::new("HG", "F", "1"), (20, 10)),
    ]
}

fn reading(minor: u16, rssi: i8) -> Signal<BeaconId> {
    Signal { beacon: BeaconId::new(UUID, 1, minor), tx_power: -59, rssi, rx_ts: 42 }
}

#[test]
fn resolution_drops_unknown_beacons() {
    let l = Locator::new(catalog());
    let r = l.resolve_beacons(&vec![reading(2, -70), reading(9, -60), reading(1, -80)]);
    assert_eq!(r.len(), 2);
    assert_eq!(r[0].beacon.location.identifier(), "HG/E/42");
    assert_eq!(r[0].beacon.position, (10, 20));
    assert_eq!((r[0].tx_power, r[0].rssi, r[0].rx_ts), (-59, -70, 42));
    assert_eq!(r[1].beacon.location.identifier(), "HG/E/41");
}

#[test]
fn nearest_beacon_comes_first() {
    let l = Locator::new(catalog());
    let v = l.rank_readings(&vec![reading(1, -85), reading(2, -65), reading(3, -75)]).unwrap();
    let rooms: Vec<String> = v.iter().map(|s| s.beacon.location.identifier()).collect();
    assert_eq!(rooms, vec!["HG/E/42", "HG/F/1", "HG/E/41"]);
}

#[test]
fn batch_without_known_beacons_fails() {
    let l = Locator::new(catalog());
    assert_eq!(l.rank_readings(&vec![]).unwrap_err(), PositioningError::InsufficientMeasurements);
    assert_eq!(
        l.rank_readings(&vec![reading(7, -60)]).unwrap_err(),
        PositioningError::InsufficientMeasurements
    );
}

#[test]
fn equal_path_loss_keeps_batch_order() {
    let s = |tag: u8, rssi: i8| Signal { beacon: tag, tx_power: -59, rssi, rx_ts: 0 };
    let v = order_by_path_loss(vec![s(1, -70), s(2, -60), s(3, -70), s(4, -60), s(5, -50)]);
    let tags: Vec<u8> = v.iter().map(|x| x.beacon).collect();
    assert_eq!(tags, vec![5, 2, 4, 1, 3]);
}

#[test]
fn ordering_empty_batch() {
    assert!(order_by_path_loss(Vec::<Signal<u8>>::new()).is_empty());
}

#[test]
fn locator_stage_ranks_skips_and_stops() {
    let mut stage = LocatorStage::new(Locator::new(catalog()));
    assert_eq!(stage.state(), StageState::Idle);
    match stage.handle(Some(vec![reading(3, -75), reading(1, -60)])) {
        Step::Solve(v) => {
            assert_eq!(v.len(), 2);
            assert_eq!(v[0].beacon.location.identifier(), "HG/E/41");
            assert_eq!(v[1].beacon.location.identifier(), "HG/F/1");
        }
        _ => panic!("a batch of known beacons is solved"),
    }
    assert_eq!(stage.state(), StageState::Running);
    match stage.handle(Some(vec![reading(8, -60)])) {
        Step::Skip(e) => assert_eq!(e, PositioningError::InsufficientMeasurements),
        _ => panic!("a batch of unknown beacons is skipped"),
    }
    assert_eq!(stage.state(), StageState::Running);
    assert!(matches!(stage.handle(None), Step::Stop));
    assert_eq!(stage.state(), StageState::Terminated);
    assert!(matches!(stage.handle(Some(vec![reading(1, -60)])), Step::Stop));
}
