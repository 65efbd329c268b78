//! Privacy zones and the first-match geofence check.
//!
//! A coordinate is held in integer microdegrees and a zone radius in whole
//! millimeters: the great-circle distance is defined to be rounded to
//! millimeter precision, so millimeter integers carry the zone-boundary
//! comparison exactly, and the floating-point distance evaluation itself can
//! stay with the caller.

use vstd::prelude::*;

verus! {

/// A point on the globe in integer microdegrees.
/// One microdegree of latitude is about 0.11 m on the ground.
#[derive(Clone, Copy, PartialEq, Eq, Structural, Debug)]
pub struct Coordinate {
    pub lat_udeg: i64,
    pub lon_udeg: i64,
}

impl Coordinate {
    /// Latitude within [-90, 90] degrees and longitude within [-180, 180]
    /// degrees, both expressed in microdegrees.
    pub open spec fn valid(self) -> bool {
        -90_000_000 <= self.lat_udeg <= 90_000_000
            && -180_000_000 <= self.lon_udeg <= 180_000_000
    }
}

/// A named circular exclusion region: center plus radius in millimeters.
pub struct PrivacyZone {
    pub name: String,
    pub center: Coordinate,
    pub radius_mm: u64,
}

impl PrivacyZone {
    /// A usable zone: non-empty diagnostic name, center on the globe.
    pub open spec fn valid(self) -> bool {
        self.name@.len() > 0 && self.center.valid()
    }
}

/// Whether the point whose distance to zone `i`'s center is `distances_mm[i]`
/// lies inside zone `i`.
pub open spec fn zone_contains(zones: Seq<PrivacyZone>, distances_mm: Seq<u64>, i: int) -> bool {
    distances_mm[i] <= zones[i].radius_mm
}

/// Name of the first zone at index `i` or later that contains the point, in
/// configured order; `None` when no zone from `i` on contains it.
pub open spec fn first_zone_match(
    zones: Seq<PrivacyZone>,
    distances_mm: Seq<u64>,
    i: int,
) -> Option<Seq<char>>
    decreases zones.len() - i,
{
    if i < 0 || i >= zones.len() {
        None
    } else if zone_contains(zones, distances_mm, i) {
        Some(zones[i].name@)
    } else {
        first_zone_match(zones, distances_mm, i + 1)
    }
}

/// The view of an optional zone name.
pub open spec fn name_view(r: Option<String>) -> Option<Seq<char>> {
    match r {
        Some(n) => Some(n@),
        None => None,
    }
}

/// Returns the name of the first zone, in configured order, whose center is
/// within that zone's radius of the point; `distances_mm[i]` is the distance
/// from the point to `zones[i].center`, rounded to millimeters. An empty zone
/// list means geofencing is disabled and the point is always outside.
pub fn is_inside_any_zone(zones: &Vec<PrivacyZone>, distances_mm: &Vec<u64>) -> (r: Option<
    String,
>)
    requires
        distances_mm@.len() == zones@.len(),
    ensures
        name_view(r) == first_zone_match(zones@, distances_mm@, 0),
{
    let mut i: usize = 0;
    while i < zones.len()
        invariant
            distances_mm@.len() == zones@.len(),
            i <= zones@.len(),
            first_zone_match(zones@, distances_mm@, 0) == first_zone_match(
                zones@,
                distances_mm@,
                i as int,
            ),
        decreases zones@.len() - i,
    {
        if distances_mm[i] <= zones[i].radius_mm {
            return Some(zones[i].name.clone());
        }
        i = i + 1;
    }
    None
}

/// A point at distance zero from some zone's center is inside that zone,
/// whatever its radius, and the geofence check reports a match.
pub proof fn lemma_center_always_matches(zones: Seq<PrivacyZone>, distances_mm: Seq<u64>, i: int)
    requires
        zones.len() == distances_mm.len(),
        0 <= i < zones.len(),
        distances_mm[i] == 0,
    ensures
        zone_contains(zones, distances_mm, i),
        first_zone_match(zones, distances_mm, 0) is Some,
{
    lemma_match_before(zones, distances_mm, 0, i);
}

/// If zone `i` contains the point, a match is reported from any start index
/// at or before `i` (though an earlier zone may be the one named).
pub proof fn lemma_match_before(zones: Seq<PrivacyZone>, distances_mm: Seq<u64>, j: int, i: int)
    requires
        zones.len() == distances_mm.len(),
        0 <= j <= i < zones.len(),
        zone_contains(zones, distances_mm, i),
    ensures
        first_zone_match(zones, distances_mm, j) is Some,
    decreases i - j,
{
    if j < i && !zone_contains(zones, distances_mm, j) {
        lemma_match_before(zones, distances_mm, j + 1, i);
    }
}

/// The earliest-listed zone wins: when zone `i` contains the point and no
/// earlier zone does, the geofence check names zone `i`, whatever later
/// zones contain.
pub proof fn lemma_earliest_listed_zone_wins(
    zones: Seq<PrivacyZone>,
    distances_mm: Seq<u64>,
    i: int,
)
    requires
        zones.len() == distances_mm.len(),
        0 <= i < zones.len(),
        zone_contains(zones, distances_mm, i),
        forall|j: int| 0 <= j < i ==> !zone_contains(zones, distances_mm, j),
    ensures
        first_zone_match(zones, distances_mm, 0) == Some(zones[i].name@),
{
    lemma_earliest_from(zones, distances_mm, 0, i);
}

/// Helper for `lemma_earliest_listed_zone_wins`, generalized over the start
/// index of the scan.
proof fn lemma_earliest_from(zones: Seq<PrivacyZone>, distances_mm: Seq<u64>, j: int, i: int)
    requires
        zones.len() == distances_mm.len(),
        0 <= j <= i < zones.len(),
        zone_contains(zones, distances_mm, i),
        forall|k: int| j <= k < i ==> !zone_contains(zones, distances_mm, k),
    ensures
        first_zone_match(zones, distances_mm, j) == Some(zones[i].name@),
    decreases i - j,
{
    if j < i {
        lemma_earliest_from(zones, distances_mm, j + 1, i);
    }
}

/// With no zones configured the geofence check never reports a match.
pub proof fn lemma_empty_zones_never_match(zones: Seq<PrivacyZone>, distances_mm: Seq<u64>)
    requires
        zones.len() == 0,
    ensures
        first_zone_match(zones, distances_mm, 0) is None,
{
}

/// The geofence check reports no match exactly when no zone contains the
/// point.
pub proof fn lemma_none_means_outside_every_zone(zones: Seq<PrivacyZone>, distances_mm: Seq<u64>)
    requires
        zones.len() == distances_mm.len(),
    ensures
        first_zone_match(zones, distances_mm, 0) is None <==> (forall|i: int|
            0 <= i < zones.len() ==> !zone_contains(zones, distances_mm, i)),
{
    lemma_none_from(zones, distances_mm, 0);
}

/// Helper for `lemma_none_means_outside_every_zone`, generalized over the
/// start index of the scan.
proof fn lemma_none_from(zones: Seq<PrivacyZone>, distances_mm: Seq<u64>, j: int)
    requires
        zones.len() == distances_mm.len(),
        0 <= j,
    ensures
        first_zone_match(zones, distances_mm, j) is None <==> (forall|i: int|
            j <= i < zones.len() ==> !zone_contains(zones, distances_mm, i)),
    decreases zones.len() - j,
{
    if j < zones.len() {
        lemma_none_from(zones, distances_mm, j + 1);
    }
}

} // verus!
