//! Beacon identities, rooms and catalog entries.

use vstd::prelude::*;

use crate::text::push_str;

verus! {

/// The identity of a beacon: its UUID text and its major and minor numbers.
#[derive(Debug)]
pub struct BeaconId {
    pub uuid: String,
    pub major: u16,
    pub minor: u16,
}

impl BeaconId {
    pub fn new(uuid: &str, major: u16, minor: u16) -> (r: Self)
        ensures
            r.uuid@ == uuid@,
            r.major == major,
            r.minor == minor,
    {
        BeaconId { uuid: uuid.to_owned(), major, minor }
    }

    /// This identity is the triple `(uuid, major, minor)`.
    pub open spec fn is(&self, uuid: Seq<char>, major: u16, minor: u16) -> bool {
        self.uuid@ == uuid && self.major == major && self.minor == minor
    }
}

impl Clone for BeaconId {
    fn clone(&self) -> (r: Self)
        ensures
            r == *self,
    {
        BeaconId { uuid: self.uuid.clone(), major: self.major, minor: self.minor }
    }
}

/// A labelled place: building, floor and room.
#[derive(Debug)]
pub struct Room {
    pub building: String,
    pub floor: String,
    pub room: String,
}

/// The text `building/floor/room`.
pub open spec fn room_identifier(building: Seq<char>, floor: Seq<char>, room: Seq<char>) -> Seq<
    char,
> {
    building + seq!['/'] + floor + seq!['/'] + room
}

impl Room {
    pub fn new(building: &str, floor: &str, room: &str) -> (r: Self)
        ensures
            r.building@ == building@,
            r.floor@ == floor@,
            r.room@ == room@,
    {
        Room { building: building.to_owned(), floor: floor.to_owned(), room: room.to_owned() }
    }

    /// The room's label, `building/floor/room`.
    pub fn identifier(&self) -> (r: String)
        ensures
            r@ == room_identifier(self.building@, self.floor@, self.room@),
    {
        let mut s = self.building.clone();
        push_str(&mut s, "/");
        push_str(&mut s, self.floor.as_str());
        push_str(&mut s, "/");
        push_str(&mut s, self.room.as_str());
        proof {
            reveal_strlit("/");
        }
        s
    }
}

impl Clone for Room {
    fn clone(&self) -> (r: Self)
        ensures
            r == *self,
    {
        Room { building: self.building.clone(), floor: self.floor.clone(), room: self.room.clone() }
    }
}

impl Default for Room {
    /// The empty room: every part is the empty string.
    fn default() -> (r: Self)
        ensures
            r.building@.len() == 0,
            r.floor@.len() == 0,
            r.room@.len() == 0,
    {
        Room { building: String::new(), floor: String::new(), room: String::new() }
    }
}

/// A catalog entry: a beacon's identity, the room it is in and its position.
/// The position type is chosen by the caller; nothing here reads it.
#[derive(Debug)]
pub struct Beacon<P> {
    pub id: BeaconId,
    pub location: Room,
    pub position: P,
}

impl<P> Beacon<P> {
    pub fn new(id: BeaconId, location: Room, position: P) -> (r: Self)
        ensures
            r.id == id,
            r.location == location,
            r.position == position,
    {
        Beacon { id, location, position }
    }
}

impl<P: Copy> Clone for Beacon<P> {
    fn clone(&self) -> (r: Self)
        ensures
            r == *self,
    {
        Beacon { id: self.id.clone(), location: self.location.clone(), position: self.position }
    }
}

} // verus!
