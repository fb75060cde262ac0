//! Lookup of beacon identities in a catalog of known beacons.

use vstd::prelude::*;

use crate::beacon::Beacon;

verus! {

/// The first entry of `catalog` whose identity is `(uuid, major, minor)`.
pub open spec fn lookup<P>(catalog: Seq<Beacon<P>>, uuid: Seq<char>, major: u16, minor: u16) -> Option<
    Beacon<P>,
>
    decreases catalog.len(),
{
    if catalog.len() == 0 {
        None
    } else if catalog[0].id.is(uuid, major, minor) {
        Some(catalog[0])
    } else {
        lookup(catalog.drop_first(), uuid, major, minor)
    }
}

/// Finds the catalog entry of an identity by a linear scan.
pub fn find_beacon_by_id<'a, P>(catalog: &'a Vec<Beacon<P>>, uuid: &str, major: u16, minor: u16) -> (r:
    Option<&'a Beacon<P>>)
    ensures
        r matches Some(b) ==> lookup(catalog@, uuid@, major, minor) == Some(*b),
        r is None ==> lookup(catalog@, uuid@, major, minor) is None,
{
    let key = uuid.to_owned();
    let n = catalog.len();
    let mut i: usize = 0;
    assert(catalog@.subrange(0, n as int) == catalog@);
    while i < n
        invariant
            i <= n == catalog@.len(),
            key@ == uuid@,
            lookup(catalog@, uuid@, major, minor) == lookup(
                catalog@.subrange(i as int, n as int),
                uuid@,
                major,
                minor,
            ),
        decreases n - i,
    {
        let entry = &catalog[i];
        assert(catalog@.subrange(i as int, n as int).drop_first() == catalog@.subrange(
            i + 1,
            n as int,
        ));
        if entry.id.uuid == key && entry.id.major == major && entry.id.minor == minor {
            return Some(entry);
        }
        i = i + 1;
    }
    None
}

} // verus!
