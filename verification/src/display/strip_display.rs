use vstd::prelude::*;
use crate::constants::PIXELS_FOR_STATIONS;
use crate::display::{index_line_trains, LinkBoardDisplay};
use crate::led::Led;
use crate::spi_adapter::SpiWriter;
use crate::train::Train;

verus! {

pub const MAX_LEDS_FOR_STRING: usize = 144;

pub const LED_BUFFER_COUNT: usize = 3;

// The strip starts with a red buffer, carries the northbound section with its
// staging cell, an orange mid buffer, the southbound staging cell and
// section, and ends with a blue buffer.
pub const START_BUF_INIT_IDX: usize = 0;

pub const NORTH_TRAIN_INIT_IDX: usize = START_BUF_INIT_IDX + LED_BUFFER_COUNT;

/// One cell past the northbound section's last station.
pub const NORTH_TRAIN_STAGING_IDX: usize = NORTH_TRAIN_INIT_IDX + PIXELS_FOR_STATIONS;

pub const MID_BUF_INIT_IDX: usize = NORTH_TRAIN_STAGING_IDX + 1;

/// One cell before the southbound section's first station.
pub const SOUTH_TRAIN_STAGING_IDX: usize = MID_BUF_INIT_IDX + LED_BUFFER_COUNT;

pub const SOUTH_TRAIN_INIT_IDX: usize = SOUTH_TRAIN_STAGING_IDX + 1;

pub const END_BUF_INIT_IDX: usize = SOUTH_TRAIN_INIT_IDX + PIXELS_FOR_STATIONS;

pub const MAX_LEDS_NEEDED: usize = END_BUF_INIT_IDX + LED_BUFFER_COUNT;

/// The single-line layout on a physical strip, with colored buffer runs
/// separating its sections.
pub struct StripDisplay<W: SpiWriter> {
    adapter: W,
    /// With this set, only trains sitting at a station are drawn.
    pub stations_only: bool,
}

impl<W: SpiWriter> StripDisplay<W> {
    pub fn new(adapter: W) -> (res: Self) {
        proof {
            assert(MAX_LEDS_NEEDED <= MAX_LEDS_FOR_STRING);
        }
        StripDisplay { adapter, stations_only: false }
    }
}

/// Writes one buffer run of fixed color, returning how many cells it filled.
pub fn prepare_buffer_leds(led_strip: &mut Vec<Led>, init_idx: usize, led_val: Led) -> (count:
    usize)
    requires
        init_idx + LED_BUFFER_COUNT <= old(led_strip)@.len(),
    ensures
        final(led_strip)@ == Seq::new(
            old(led_strip)@.len(),
            |cell: int|
                if init_idx <= cell < init_idx + LED_BUFFER_COUNT {
                    led_val
                } else {
                    old(led_strip)@[cell]
                },
        ),
        count == LED_BUFFER_COUNT,
{
    let ghost orig = led_strip@;
    let strip_len = led_strip.len();
    let mut count_written: usize = 0;
    while count_written < LED_BUFFER_COUNT
        invariant
            count_written <= LED_BUFFER_COUNT,
            init_idx + LED_BUFFER_COUNT <= orig.len(),
            orig.len() == strip_len,
            led_strip@.len() == orig.len(),
            led_strip@ == Seq::new(
                orig.len(),
                |cell: int|
                    if init_idx <= cell < init_idx + count_written {
                        led_val
                    } else {
                        orig[cell]
                    },
            ),
        decreases LED_BUFFER_COUNT - count_written,
    {
        led_strip.set(init_idx + count_written, led_val);
        count_written = count_written + 1;
        proof {
            assert(led_strip@ =~= Seq::new(
                orig.len(),
                |cell: int|
                    if init_idx <= cell < init_idx + count_written {
                        led_val
                    } else {
                        orig[cell]
                    },
            ));
        }
    }
    count_written
}

impl<W: SpiWriter> LinkBoardDisplay for StripDisplay<W> {
    open spec fn spec_1n_init(&self) -> usize {
        NORTH_TRAIN_INIT_IDX
    }

    open spec fn spec_1n_staging(&self) -> usize {
        NORTH_TRAIN_STAGING_IDX
    }

    open spec fn spec_1s_init(&self) -> usize {
        SOUTH_TRAIN_INIT_IDX
    }

    open spec fn spec_1s_staging(&self) -> usize {
        SOUTH_TRAIN_STAGING_IDX
    }

    fn update_trains(&mut self, trains: Vec<Train>) -> Result<(), String> {
        let mut led_strip: Vec<Led> = Vec::new();
        let mut i: usize = 0;
        while i < MAX_LEDS_FOR_STRING
            invariant
                led_strip@.len() == i,
                i <= MAX_LEDS_FOR_STRING,
            decreases MAX_LEDS_FOR_STRING - i,
        {
            led_strip.push(Led::off());
            i = i + 1;
        }
        let start_buffered = prepare_buffer_leds(&mut led_strip, START_BUF_INIT_IDX, Led::red());
        let placeable = crate::display::placeable_trains(trains);
        let placed = index_line_trains(
            &mut led_strip,
            placeable,
            NORTH_TRAIN_INIT_IDX,
            NORTH_TRAIN_STAGING_IDX,
            SOUTH_TRAIN_INIT_IDX,
            SOUTH_TRAIN_STAGING_IDX,
            self.stations_only,
        );
        let mid_buffered = prepare_buffer_leds(&mut led_strip, MID_BUF_INIT_IDX, Led::orange());
        let end_buffered = prepare_buffer_leds(&mut led_strip, END_BUF_INIT_IDX, Led::blue());
        let _ = start_buffered;
        let _ = placed;
        let _ = mid_buffered;
        let _ = end_buffered;
        self.adapter.write_rgb(led_strip)
    }

    fn clear_trains(&mut self) {
        self.adapter.clear(MAX_LEDS_FOR_STRING);
    }

    fn init_red(&mut self) -> Result<(), String> {
        let mut led_strip: Vec<Led> = Vec::new();
        let mut i: usize = 0;
        while i < MAX_LEDS_FOR_STRING
            invariant
                led_strip@.len() == i,
                i <= MAX_LEDS_FOR_STRING,
            decreases MAX_LEDS_FOR_STRING - i,
        {
            led_strip.push(Led::red());
            i = i + 1;
        }
        self.adapter.write_rgb(led_strip)
    }

    fn get_1n_init_idx(&self) -> (r: usize) {
        NORTH_TRAIN_INIT_IDX
    }

    fn get_1n_staging_idx(&self) -> (r: usize) {
        NORTH_TRAIN_STAGING_IDX
    }

    fn get_1s_init_idx(&self) -> (r: usize) {
        SOUTH_TRAIN_INIT_IDX
    }

    fn get_1s_staging_idx(&self) -> (r: usize) {
        SOUTH_TRAIN_STAGING_IDX
    }

    fn show_2_line(&self) -> bool {
        false
    }
}

} // verus!
