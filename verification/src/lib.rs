pub mod constants;
pub mod data_parser;
pub mod display;
pub mod error;
pub mod led;
pub mod led_adapter;
mod pq;
pub mod spi_adapter;
pub mod stations;
pub mod topology;
pub mod train;

pub use constants::{Destination, CID, JUDKINS_PARK, MAX_LEDS_FOR_STRIP, PIXELS_FOR_STATIONS};
pub use data_parser::dir_id_to_destination;
pub use display::{LinkBoardDisplay, Route};
pub use display::map_display::{
    collect_faults, get_next_inbetween_idx, index_trains, num_leds_between_stops, render,
    station_markers, write_stations_as_dim_white, BandKey, MapDisplay,
};
pub use error::{TrainFault, TripParseErr};
pub use led::Led;
pub use led_adapter::{EmptyImplLedAdapter, LedAdapter};
pub use spi_adapter::SpiWriter;
pub use stations::{
    all_stations, ln1_map_idx_lookup, ln1_relative_idx_lookup, ln2_map_idx_lookup,
    ln2_relative_idx_lookup, Station,
};
pub use topology::{anchor_idx, idx_before, leds_between, station_valid, step_up};
pub use train::Train;
