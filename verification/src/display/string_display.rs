use vstd::prelude::*;
use crate::constants::PIXELS_FOR_STATIONS;
use crate::display::{index_line_trains, LinkBoardDisplay};
use crate::led::Led;
use crate::spi_adapter::SpiWriter;
use crate::train::Train;

verus! {

pub const NORTH_TRAIN_INIT_IDX: usize = 0;

/// One cell past the northbound section's last station.
pub const NORTH_TRAIN_STAGING_IDX: usize = NORTH_TRAIN_INIT_IDX + PIXELS_FOR_STATIONS;

pub const SOUTH_TRAIN_INIT_IDX: usize = NORTH_TRAIN_STAGING_IDX + 1;

/// One cell past the southbound section's last station.
pub const SOUTH_TRAIN_STAGING_IDX: usize = SOUTH_TRAIN_INIT_IDX + PIXELS_FOR_STATIONS;

pub const MAX_LEDS_NEEDED: usize = SOUTH_TRAIN_STAGING_IDX + 1;

/// The bare single-line layout: a northbound and a southbound section, no
/// buffer cells around them.
pub struct StringDisplay<W: SpiWriter> {
    adapter: W,
    /// With this set, only trains sitting at a station are drawn.
    pub stations_only: bool,
}

impl<W: SpiWriter> StringDisplay<W> {
    pub fn new(adapter: W) -> (res: Self) {
        StringDisplay { adapter, stations_only: false }
    }
}

impl<W: SpiWriter> LinkBoardDisplay for StringDisplay<W> {
    open spec fn spec_1n_init(&self) -> usize {
        NORTH_TRAIN_INIT_IDX
    }

    open spec fn spec_1n_staging(&self) -> usize {
        NORTH_TRAIN_STAGING_IDX
    }

    open spec fn spec_1s_init(&self) -> usize {
        SOUTH_TRAIN_INIT_IDX
    }

    open spec fn spec_1s_staging(&self) -> usize {
        SOUTH_TRAIN_STAGING_IDX
    }

    fn update_trains(&mut self, trains: Vec<Train>) -> Result<(), String> {
        let mut led_strip: Vec<Led> = Vec::new();
        let mut i: usize = 0;
        while i < MAX_LEDS_NEEDED
            invariant
                led_strip@.len() == i,
                i <= MAX_LEDS_NEEDED,
            decreases MAX_LEDS_NEEDED - i,
        {
            led_strip.push(Led::off());
            i = i + 1;
        }
        let placeable = crate::display::placeable_trains(trains);
        index_line_trains(
            &mut led_strip,
            placeable,
            NORTH_TRAIN_INIT_IDX,
            NORTH_TRAIN_STAGING_IDX,
            SOUTH_TRAIN_INIT_IDX,
            SOUTH_TRAIN_STAGING_IDX,
            self.stations_only,
        );
        self.adapter.write_rgb(led_strip)
    }

    fn clear_trains(&mut self) {
        self.adapter.clear(MAX_LEDS_NEEDED);
    }

    fn init_red(&mut self) -> Result<(), String> {
        let mut led_strip: Vec<Led> = Vec::new();
        let mut i: usize = 0;
        while i < MAX_LEDS_NEEDED
            invariant
                led_strip@.len() == i,
                i <= MAX_LEDS_NEEDED,
            decreases MAX_LEDS_NEEDED - i,
        {
            led_strip.push(Led::red());
            i = i + 1;
        }
        self.adapter.write_rgb(led_strip)
    }

    fn get_1n_init_idx(&self) -> (r: usize) {
        NORTH_TRAIN_INIT_IDX
    }

    fn get_1n_staging_idx(&self) -> (r: usize) {
        NORTH_TRAIN_STAGING_IDX
    }

    fn get_1s_init_idx(&self) -> (r: usize) {
        SOUTH_TRAIN_INIT_IDX
    }

    fn get_1s_staging_idx(&self) -> (r: usize) {
        SOUTH_TRAIN_STAGING_IDX
    }

    fn show_2_line(&self) -> bool {
        false
    }
}

} // verus!
