use vstd::prelude::*;
use crate::constants::Destination;
use crate::display::Route;
use crate::led::Led;
use crate::stations::{
    ln1_map_idx, ln1_relative_idx, ln1_relative_idx_lookup, ln2_relative_idx,
    ln2_relative_idx_lookup, station_of_name, Station,
};
use crate::topology::{
    anchor_idx, idx_before, lemma_ln1_bounds, lemma_ln2_bounds, spec_anchor_idx, spec_idx_before,
    spec_station_valid,
};

verus! {

/// One in-flight train of the current snapshot.  Trains are rebuilt every
/// cycle and carry no identity across cycles.
#[derive(Debug)]
pub struct Train {
    /// Name of the next station the train will reach.
    pub next_stop_name: String,
    pub route: Route,
    pub destination: Destination,
    /// Seconds until the train reaches its next stop.
    pub next_stop_time_offset: i64,
    /// Seconds since or until the train's closest station event.
    pub closest_stop_time_offset: i64,
}

impl Clone for Train {
    fn clone(&self) -> (res: Self)
        ensures
            res == *self,
    {
        Train {
            next_stop_name: self.next_stop_name.clone(),
            route: self.route,
            destination: self.destination,
            next_stop_time_offset: self.next_stop_time_offset,
            closest_stop_time_offset: self.closest_stop_time_offset,
        }
    }
}

impl Train {
    pub fn new(
        next_stop_name: String,
        route: Route,
        destination: Destination,
        next_stop_time_offset: i64,
        closest_stop_time_offset: i64,
    ) -> (res: Self)
        ensures
            res == (Train {
                next_stop_name,
                route,
                destination,
                next_stop_time_offset,
                closest_stop_time_offset,
            }),
    {
        Self { next_stop_name, route, destination, next_stop_time_offset, closest_stop_time_offset }
    }

    pub fn route(&self) -> (res: Route)
        ensures
            res == self.route,
    {
        self.route
    }

    pub fn destination(&self) -> (res: Destination)
        ensures
            res == self.destination,
    {
        self.destination
    }

    pub fn next_stop_time_offset(&self) -> (res: i64)
        ensures
            res == self.next_stop_time_offset,
    {
        self.next_stop_time_offset
    }

    /// A train is at a station exactly when both time offsets are zero.
    pub open spec fn spec_at_station(&self) -> bool {
        self.next_stop_time_offset == 0 && self.closest_stop_time_offset == 0
    }

    pub fn at_station(&self) -> (res: bool)
        ensures
            res == self.spec_at_station(),
    {
        self.next_stop_time_offset == 0 && self.closest_stop_time_offset == 0
    }

    /// The station the train's stop name denotes, if the name is known.
    pub open spec fn spec_station(&self) -> Option<Station> {
        station_of_name(self.next_stop_name@)
    }

    /// Whether the topology tables can place this train: its stop name is a
    /// station of its direction family, and its arrival time is not negative.
    /// Anything else is a per-train fault and stays out of the frame.
    pub open spec fn is_renderable(&self) -> bool {
        &&& self.next_stop_time_offset >= 0
        &&& match self.spec_station() {
            Some(s) => spec_station_valid(self.route, self.destination, s),
            None => false,
        }
    }

    /// The color this train paints, by line and by whether it sits at a
    /// station.  With `stations_only` set, trains between stations go dark.
    pub open spec fn spec_led_rgb(&self, stations_only: bool) -> Led {
        if self.spec_at_station() {
            match self.route {
                Route::Line1 => Led::spec_green(),
                Route::Line2 => Led::spec_blue(),
            }
        } else if stations_only {
            Led::spec_off()
        } else {
            match self.route {
                Route::Line1 => Led::spec_dull_yellow(),
                Route::Line2 => Led::spec_dull_cyan(),
            }
        }
    }

    pub fn get_led_rgb(&self, stations_only: bool) -> (res: Led)
        ensures
            res == self.spec_led_rgb(stations_only),
    {
        if self.at_station() {
            match self.route {
                Route::Line1 => Led::green(),
                Route::Line2 => Led::blue(),
            }
        } else if stations_only {
            Led::off()
        } else {
            match self.route {
                Route::Line1 => Led::dull_yellow(),
                Route::Line2 => Led::dull_cyan(),
            }
        }
    }

    /// The anchor index of the train's next stop in its direction family.
    pub open spec fn spec_next_stop_idx(&self) -> int {
        match self.spec_station() {
            Some(s) => spec_anchor_idx(self.route, self.destination, s),
            None => 0,
        }
    }

    /// The cell this train occupies when read directly: its anchor when it is
    /// at the station, otherwise the cell beside the anchor on the
    /// approaching side.
    pub open spec fn spec_map_idx(&self) -> int {
        match self.spec_station() {
            Some(s) => if self.spec_at_station() {
                spec_anchor_idx(self.route, self.destination, s)
            } else {
                match self.route {
                    Route::Line1 => spec_anchor_idx(self.route, self.destination, s) + 1,
                    Route::Line2 => if ln1_map_idx(s) is Some {
                        spec_anchor_idx(self.route, self.destination, s) + 1
                    } else {
                        spec_anchor_idx(self.route, self.destination, s) - 1
                    },
                }
            },
            None => 0,
        }
    }

    /// Whether the topology tables know this train's next stop.
    pub open spec fn has_station(&self) -> bool {
        match self.spec_station() {
            Some(s) => spec_station_valid(self.route, self.destination, s),
            None => false,
        }
    }

    pub fn next_stop_idx(&self) -> (res: usize)
        requires
            self.has_station(),
        ensures
            res == self.spec_next_stop_idx(),
    {
        match Station::from_name(self.next_stop_name.as_str()) {
            Some(s) => anchor_idx(self.route, self.destination, s),
            None => 0,
        }
    }

    pub fn get_map_idx(&self) -> (res: usize)
        requires
            self.has_station(),
        ensures
            res == self.spec_map_idx(),
            res < 302,
    {
        let next_stop_idx = self.next_stop_idx();
        match Station::from_name(self.next_stop_name.as_str()) {
            Some(s) => {
                proof {
                    lemma_ln1_bounds(s);
                    lemma_ln2_bounds(s);
                }
                if self.at_station() {
                    next_stop_idx
                } else {
                    match self.route {
                        Route::Line1 => next_stop_idx + 1,
                        Route::Line2 => {
                            if ln1_map_idx_contains(s) {
                                next_stop_idx + 1
                            } else {
                                next_stop_idx - 1
                            }
                        },
                    }
                }
            },
            None => 0,
        }
    }

    /// The cell just before the train's next stop on the approaching side:
    /// the first cell of the band this train contends for.
    pub fn idx_before_next_stop(&self) -> (res: usize)
        requires
            self.has_station(),
        ensures
            res == self.spec_idx_before_next_stop(),
    {
        match Station::from_name(self.next_stop_name.as_str()) {
            Some(s) => idx_before(self.route, self.destination, s),
            None => 0,
        }
    }

    pub open spec fn spec_idx_before_next_stop(&self) -> int {
        match self.spec_station() {
            Some(s) => spec_idx_before(self.route, self.destination, s),
            None => 0,
        }
    }

    /// The raw single-line station offset, counted from the first served
    /// station of the train's line.
    pub open spec fn spec_relative_raw(&self) -> int {
        match self.spec_station() {
            Some(s) => match self.route {
                Route::Line1 => match ln1_relative_idx(s) {
                    Some(i) => i - 3,
                    None => 0,
                },
                Route::Line2 => match ln2_relative_idx(s) {
                    Some(i) => i - 15,
                    None => 0,
                },
            },
            None => 0,
        }
    }

    /// Whether the single-line index tables place this train: its next stop
    /// is listed for its line, at or past the first served station.
    pub open spec fn has_relative_idx(&self) -> bool {
        match self.spec_station() {
            Some(s) => match self.route {
                Route::Line1 => match ln1_relative_idx(s) {
                    Some(i) => i >= 3,
                    None => false,
                },
                Route::Line2 => match ln2_relative_idx(s) {
                    Some(i) => i >= 15,
                    None => false,
                },
            },
            None => false,
        }
    }

    /// The single-line layouts' cell offset: stations sit on even cells, the
    /// gaps before them on odd ones, shifted by direction of travel.
    pub open spec fn spec_relative_idx(&self, stations_only: bool) -> int {
        let raw_idx = self.spec_relative_raw();
        if stations_only {
            raw_idx
        } else if self.spec_at_station() {
            raw_idx * 2
        } else if self.destination == Destination::LynnwoodCC {
            if raw_idx > 0 {
                raw_idx * 2 - 1
            } else {
                raw_idx * 2
            }
        } else {
            raw_idx * 2 + 1
        }
    }

    pub fn get_relative_idx(&self, stations_only: bool) -> (res: usize)
        requires
            self.has_relative_idx(),
        ensures
            res == self.spec_relative_idx(stations_only),
    {
        proof {
            lemma_relative_idx_bounds();
        }
        let raw_idx: usize = match Station::from_name(self.next_stop_name.as_str()) {
            Some(s) => match self.route {
                Route::Line1 => match ln1_relative_idx_lookup(s) {
                    Some(i) => i - 3,
                    None => 0,
                },
                Route::Line2 => match ln2_relative_idx_lookup(s) {
                    Some(i) => i - 15,
                    None => 0,
                },
            },
            None => 0,
        };
        if stations_only {
            raw_idx
        } else if self.at_station() {
            raw_idx * 2
        } else if matches!(self.destination, Destination::LynnwoodCC) {
            if raw_idx > 0 {
                (raw_idx * 2) - 1
            } else {
                raw_idx * 2
            }
        } else {
            (raw_idx * 2) + 1
        }
    }
}

/// Executable membership test against the line-1 map table.
pub fn ln1_map_idx_contains(s: Station) -> (res: bool)
    ensures
        res == (ln1_map_idx(s) is Some),
{
    crate::stations::ln1_map_idx_lookup(s).is_some()
}

/// The single-line index tables never reach past the last listed station.
pub proof fn lemma_relative_idx_bounds()
    ensures
        forall|s: Station|
            #![trigger ln1_relative_idx(s)]
            match ln1_relative_idx(s) {
                Some(i) => i <= 25,
                None => true,
            },
        forall|s: Station|
            #![trigger ln2_relative_idx(s)]
            match ln2_relative_idx(s) {
                Some(i) => i <= 24,
                None => true,
            },
{
    assert forall|s: Station| #[trigger] ln1_relative_idx(s) == ln1_relative_idx(s) implies match ln1_relative_idx(s) {
        Some(i) => i <= 25,
        None => true,
    } by {
        lemma_ln_relative_bounds(s);
    }
    assert forall|s: Station| #[trigger] ln2_relative_idx(s) == ln2_relative_idx(s) implies match ln2_relative_idx(s) {
        Some(i) => i <= 24,
        None => true,
    } by {
        lemma_ln_relative_bounds(s);
    }
}

/// Per-station ranges of the single-line index tables.
proof fn lemma_ln_relative_bounds(s: Station)
    ensures
        match ln1_relative_idx(s) {
            Some(i) => i <= 25,
            None => true,
        },
        match ln2_relative_idx(s) {
            Some(i) => i <= 24,
            None => true,
        },
{
}

} // verus!
