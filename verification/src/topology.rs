use vstd::prelude::*;
use crate::constants::{Destination, MAX_LEDS_FOR_STRIP};
use crate::display::Route;
use crate::stations::{ln1_map_idx, ln1_map_idx_lookup, ln2_map_idx, ln2_map_idx_lookup, Station};

verus! {

// The topology table, read per direction family.  A family is a (route,
// destination) pair: it decides whether the line-1 or the line-2 table is
// used and which half of each entry applies.  Lynnwood-bound and South
// Bellevue-bound line-2 trains share the north/west family; the junction
// station, where line 2 joins line 1's track, is the one special case.

/// Whether the tables carry this station for this direction family.
pub open spec fn spec_station_valid(route: Route, destination: Destination, s: Station) -> bool {
    match destination {
        Destination::LynnwoodCC => match route {
            Route::Line1 => ln1_map_idx(s) is Some,
            Route::Line2 => ln2_map_idx(s) is Some,
        },
        Destination::AngleLake => ln1_map_idx(s) is Some,
        Destination::RedmondTech => ln2_map_idx(s) is Some,
        Destination::SouthBellevue => ln2_map_idx(s) is Some,
    }
}

/// The anchor index: the cell lit when a train sits exactly at the station.
/// Meaningful only for valid (route, destination, station) triples.
pub open spec fn spec_anchor_idx(route: Route, destination: Destination, s: Station) -> int {
    match destination {
        Destination::LynnwoodCC => match route {
            Route::Line1 => match ln1_map_idx(s) {
                Some(e) => e.1.0 as int,
                None => 0,
            },
            Route::Line2 => match ln2_map_idx(s) {
                Some(e) => e.0.0 as int,
                None => 0,
            },
        },
        Destination::AngleLake => match ln1_map_idx(s) {
            Some(e) => e.0.0 as int,
            None => 0,
        },
        Destination::RedmondTech => match ln2_map_idx(s) {
            Some(e) => e.1.0 as int,
            None => 0,
        },
        Destination::SouthBellevue => match ln2_map_idx(s) {
            Some(e) => e.0.0 as int,
            None => 0,
        },
    }
}

/// The number of cells strictly between this station and the previous one in
/// the family's direction: the capacity of the band before the station.
pub open spec fn spec_leds_between(route: Route, destination: Destination, s: Station) -> int {
    match destination {
        Destination::LynnwoodCC => match route {
            Route::Line1 => match ln1_map_idx(s) {
                Some(e) => e.1.1 as int,
                None => 0,
            },
            Route::Line2 => match ln2_map_idx(s) {
                Some(e) => e.1.1 as int,
                None => 0,
            },
        },
        Destination::AngleLake => match ln1_map_idx(s) {
            Some(e) => e.0.1 as int,
            None => 0,
        },
        Destination::RedmondTech => match ln2_map_idx(s) {
            Some(e) => e.0.1 as int,
            None => 0,
        },
        Destination::SouthBellevue => match ln2_map_idx(s) {
            Some(e) => e.1.1 as int,
            None => 0,
        },
    }
}

/// The cell a band starts from: the one right beside the station's anchor on
/// the approaching side.  At the junction station, a westbound line-2 train's
/// band is counted from the last line-2-only station instead, because the
/// cells past it are shared with line 1.
pub open spec fn spec_idx_before(route: Route, destination: Destination, s: Station) -> int {
    match destination {
        Destination::LynnwoodCC => match route {
            Route::Line1 => match ln1_map_idx(s) {
                Some(e) => e.1.0 + 1,
                None => 0,
            },
            Route::Line2 => spec_idx_before_westbound(s),
        },
        Destination::AngleLake => match ln1_map_idx(s) {
            Some(e) => e.0.0 + 1,
            None => 0,
        },
        Destination::RedmondTech => match ln2_map_idx(s) {
            Some(e) => if ln1_map_idx(s) is Some {
                e.1.0 + 1
            } else {
                e.1.0 - 1
            },
            None => 0,
        },
        Destination::SouthBellevue => spec_idx_before_westbound(s),
    }
}

/// The westbound line-2 band start, with the junction special case.
pub open spec fn spec_idx_before_westbound(s: Station) -> int {
    match ln2_map_idx(s) {
        Some(e) => if s == Station::IntlDistChinatown {
            (match ln2_map_idx(Station::JudkinsPark) {
                Some(j) => j.1.0 as int,
                None => 0,
            }) + e.1.1
        } else {
            e.0.0 as int
        },
        None => 0,
    }
}

/// Whether a band fills toward higher indices (true) or lower ones (false).
pub open spec fn spec_step_up(route: Route, destination: Destination, s: Station) -> bool {
    match destination {
        Destination::LynnwoodCC => match route {
            Route::Line1 => true,
            Route::Line2 => ln1_map_idx(s) is Some && s != Station::IntlDistChinatown,
        },
        Destination::AngleLake => true,
        Destination::RedmondTech => ln1_map_idx(s) is Some,
        Destination::SouthBellevue => ln1_map_idx(s) is Some && s != Station::IntlDistChinatown,
    }
}

/// Executable check that the tables carry the station for this family.
pub fn station_valid(route: Route, destination: Destination, s: Station) -> (res: bool)
    ensures
        res == spec_station_valid(route, destination, s),
{
    match destination {
        Destination::LynnwoodCC => match route {
            Route::Line1 => ln1_map_idx_lookup(s).is_some(),
            Route::Line2 => ln2_map_idx_lookup(s).is_some(),
        },
        Destination::AngleLake => ln1_map_idx_lookup(s).is_some(),
        Destination::RedmondTech => ln2_map_idx_lookup(s).is_some(),
        Destination::SouthBellevue => ln2_map_idx_lookup(s).is_some(),
    }
}

/// Executable anchor lookup.
pub fn anchor_idx(route: Route, destination: Destination, s: Station) -> (res: usize)
    requires
        spec_station_valid(route, destination, s),
    ensures
        res == spec_anchor_idx(route, destination, s),
{
    match destination {
        Destination::LynnwoodCC => match route {
            Route::Line1 => match ln1_map_idx_lookup(s) {
                Some(e) => e.1.0,
                None => 0,
            },
            Route::Line2 => match ln2_map_idx_lookup(s) {
                Some(e) => e.0.0,
                None => 0,
            },
        },
        Destination::AngleLake => match ln1_map_idx_lookup(s) {
            Some(e) => e.0.0,
            None => 0,
        },
        Destination::RedmondTech => match ln2_map_idx_lookup(s) {
            Some(e) => e.1.0,
            None => 0,
        },
        Destination::SouthBellevue => match ln2_map_idx_lookup(s) {
            Some(e) => e.0.0,
            None => 0,
        },
    }
}

/// Executable band-capacity lookup.
pub fn leds_between(route: Route, destination: Destination, s: Station) -> (res: usize)
    requires
        spec_station_valid(route, destination, s),
    ensures
        res == spec_leds_between(route, destination, s),
{
    match destination {
        Destination::LynnwoodCC => match route {
            Route::Line1 => match ln1_map_idx_lookup(s) {
                Some(e) => e.1.1,
                None => 0,
            },
            Route::Line2 => match ln2_map_idx_lookup(s) {
                Some(e) => e.1.1,
                None => 0,
            },
        },
        Destination::AngleLake => match ln1_map_idx_lookup(s) {
            Some(e) => e.0.1,
            None => 0,
        },
        Destination::RedmondTech => match ln2_map_idx_lookup(s) {
            Some(e) => e.0.1,
            None => 0,
        },
        Destination::SouthBellevue => match ln2_map_idx_lookup(s) {
            Some(e) => e.1.1,
            None => 0,
        },
    }
}

/// Executable band-start lookup.
pub fn idx_before(route: Route, destination: Destination, s: Station) -> (res: usize)
    requires
        spec_station_valid(route, destination, s),
    ensures
        res == spec_idx_before(route, destination, s),
{
    proof {
        lemma_ln1_bounds(s);
        lemma_ln2_bounds(s);
        lemma_ln2_bounds(Station::JudkinsPark);
    }
    match destination {
        Destination::LynnwoodCC => match route {
            Route::Line1 => match ln1_map_idx_lookup(s) {
                Some(e) => e.1.0 + 1,
                None => 0,
            },
            Route::Line2 => idx_before_westbound(s),
        },
        Destination::AngleLake => match ln1_map_idx_lookup(s) {
            Some(e) => e.0.0 + 1,
            None => 0,
        },
        Destination::RedmondTech => match ln2_map_idx_lookup(s) {
            Some(e) => if ln1_map_idx_lookup(s).is_some() {
                e.1.0 + 1
            } else {
                e.1.0 - 1
            },
            None => 0,
        },
        Destination::SouthBellevue => idx_before_westbound(s),
    }
}

/// Executable westbound band start.
fn idx_before_westbound(s: Station) -> (res: usize)
    requires
        ln2_map_idx(s) is Some,
    ensures
        res == spec_idx_before_westbound(s),
{
    proof {
        lemma_ln2_bounds(s);
        lemma_ln2_bounds(Station::JudkinsPark);
    }
    match ln2_map_idx_lookup(s) {
        Some(e) => if s == Station::IntlDistChinatown {
            match ln2_map_idx_lookup(Station::JudkinsPark) {
                Some(j) => j.1.0 + e.1.1,
                None => 0,
            }
        } else {
            e.0.0
        },
        None => 0,
    }
}

/// Executable sweep direction.
pub fn step_up(route: Route, destination: Destination, s: Station) -> (res: bool)
    ensures
        res == spec_step_up(route, destination, s),
{
    let on_ln1 = ln1_map_idx_lookup(s).is_some();
    let is_junction = s == Station::IntlDistChinatown;
    match destination {
        Destination::LynnwoodCC => match route {
            Route::Line1 => true,
            Route::Line2 => on_ln1 && !is_junction,
        },
        Destination::AngleLake => true,
        Destination::RedmondTech => on_ln1,
        Destination::SouthBellevue => on_ln1 && !is_junction,
    }
}

/// Ranges of the line-1 table's values.
pub proof fn lemma_ln1_bounds(s: Station)
    ensures
        match ln1_map_idx(s) {
            Some(e) => 1 <= e.0.0 <= 103 && 1 <= e.0.1 <= 8 && 106 <= e.1.0 <= 209 && 1 <= e.1.1
                <= 8,
            None => true,
        },
{
}

/// Ranges of the line-2 table's values, split by table half and by whether the
/// station also lies on line 1.
pub proof fn lemma_ln2_bounds(s: Station)
    ensures
        match ln2_map_idx(s) {
            Some(e) => 56 <= e.0.0 <= 300 && 1 <= e.0.1 <= 7 && 106 <= e.1.0 <= 248 && 1 <= e.1.1
                <= 7 && (ln1_map_idx(s) is Some ==> e.0.0 <= 103 && e.1.0 <= 152) && (ln1_map_idx(
                s,
            ) is None ==> e.0.0 >= 261 && e.1.0 >= 212),
            None => true,
        },
{
}

/// Every valid band lies inside the strip: its anchor, its start cell, and
/// every cell it can fill are in range, and its capacity is at least one.
pub proof fn lemma_band_in_range(route: Route, destination: Destination, s: Station)
    requires
        spec_station_valid(route, destination, s),
    ensures
        0 <= spec_anchor_idx(route, destination, s) < MAX_LEDS_FOR_STRIP,
        1 <= spec_leds_between(route, destination, s) <= 8,
        0 <= spec_idx_before(route, destination, s) < MAX_LEDS_FOR_STRIP,
        spec_step_up(route, destination, s) ==> spec_idx_before(route, destination, s)
            + spec_leds_between(route, destination, s) <= MAX_LEDS_FOR_STRIP,
        !spec_step_up(route, destination, s) ==> spec_idx_before(route, destination, s) + 1
            >= spec_leds_between(route, destination, s),
{
    lemma_ln1_bounds(s);
    lemma_ln2_bounds(s);
    lemma_ln2_bounds(Station::JudkinsPark);
}

/// No two stations of one direction family share an anchor index.
pub proof fn lemma_anchor_injective(
    route: Route,
    destination: Destination,
    s1: Station,
    s2: Station,
)
    requires
        spec_station_valid(route, destination, s1),
        spec_station_valid(route, destination, s2),
        spec_anchor_idx(route, destination, s1) == spec_anchor_idx(route, destination, s2),
    ensures
        s1 == s2,
{
}

} // verus!
