use positioning::ibeacon::{format_uuid, from_bytes};
use positioning::text::hex_char;

const FLEET_UUID: [u8; 16] = [
    0x58, 0x79, 0x35, 0x64, 0x45, 0x9c, 0x54, 0x8d, 0xbf, 0xcc, 0x36, 0x7f, 0xfd, 0x4f, 0xcd, 0x70,
];

fn frame(uuid: &[u8; 16], major: u16, minor: u16, power: i8) -> Vec<u8> {
    let mut p = vec![0x4c, 0x00, 0x02, 0x15];
    p.extend_from_slice(uuid);
    p.extend_from_slice(&major.to_be_bytes());
    p.extend_from_slice(&minor.to_be_bytes());
    p.push(power as u8);
    p
}

#[test]
fn decodes_encoded_frame_exactly() {
    let p = frame(&FLEET_UUID, 0x0102, 0xa0b1, -59);
    let d = from_bytes(&p).expect("a whole frame decodes");
    assert_eq!(d.uuid, "58793564-459c-548d-bfcc-367ffd4fcd70");
    assert_eq!(d.major, 0x0102);
    assert_eq!(d.minor, 0xa0b1);
    assert_eq!(d.power, -59);
}

#[test]
fn decodes_frame_after_leading_bytes() {
    let mut p = vec![0x02, 0x01, 0x06, 0x1a, 0xff];
    p.extend(frame(&FLEET_UUID, 7, 9, 127));
    let d = from_bytes(&p).expect("the frame follows the flags");
    assert_eq!(d.uuid, "58793564-459c-548d-bfcc-367ffd4fcd70");
    assert_eq!((d.major, d.minor, d.power), (7, 9, 127));
}

#[test]
fn power_byte_is_signed() {
    let p = frame(&[0u8; 16], 0, 0, -128);
    let d = from_bytes(&p).unwrap();
    assert_eq!(d.uuid, "00000000-0000-0000-0000-000000000000");
    assert_eq!(d.power, -128);
}

#[test]
fn frame_with_twenty_trailing_bytes_is_rejected() {
    let mut p = frame(&FLEET_UUID, 1, 2, -60);
    p.pop();
    assert!(from_bytes(&p).is_none());
}

#[test]
fn trailing_bytes_after_frame_are_ignored() {
    let mut p = frame(&FLEET_UUID, 1, 2, -60);
    p.extend_from_slice(&[0xaa, 0xbb]);
    let d = from_bytes(&p).unwrap();
    assert_eq!((d.major, d.minor, d.power), (1, 2, -60));
}

#[test]
fn payload_without_signature_is_rejected() {
    let p = vec![0x4c, 0x00, 0x02, 0x16, 1, 2, 3, 4, 5, 6, 7, 8, 9, 10, 11, 12, 13, 14, 15, 16, 17, 18, 19, 20, 21];
    assert!(from_bytes(&p).is_none());
}

#[test]
fn short_payloads_are_rejected() {
    assert!(from_bytes(&[]).is_none());
    assert!(from_bytes(&[0x4c]).is_none());
    assert!(from_bytes(&[0x4c, 0x00, 0x02]).is_none());
    assert!(from_bytes(&[0x4c, 0x00, 0x02, 0x15]).is_none());
}

#[test]
fn first_signature_decides() {
    // A truncated frame after the first signature: the decoder does not
    // look further.
    let mut p = vec![0x4c, 0x00, 0x02, 0x15, 0x00];
    p.extend(frame(&FLEET_UUID, 1, 2, -60));
    let d = from_bytes(&p).unwrap();
    // The body starts right after the first signature.
    assert_eq!(&d.uuid[..8], "004c0002");
}

#[test]
fn formats_uuid_in_groups() {
    let u = [
        0x01, 0x23, 0x45, 0x67, 0x89, 0xab, 0xcd, 0xef, 0xfe, 0xdc, 0xba, 0x98, 0x76, 0x54, 0x32, 0x10,
    ];
    assert_eq!(format_uuid(&u), "01234567-89ab-cdef-fedc-ba9876543210");
}

#[test]
fn hex_digits() {
    assert_eq!(hex_char(0), '0');
    assert_eq!(hex_char(9), '9');
    assert_eq!(hex_char(10), 'a');
    assert_eq!(hex_char(15), 'f');
}
