use vstd::prelude::*;

verus! {

/// Name of the station where the two lines merge.
pub const CID: &'static str = "Int'l Dist/Chinatown";

/// Name of the last line-2-only station before the merge.
pub const JUDKINS_PARK: &'static str = "Judkins Park";

/// Length of the strip that the map layout fills: both lines' spans plus the
/// shared segment.
pub const MAX_LEDS_FOR_STRIP: usize = 302;

/// Cells needed by the single-line layouts: one per station, one per gap,
/// and one leading buffer cell.
pub const PIXELS_FOR_STATIONS: usize = 26 * 2 - 1;

/// A terminal endpoint a train is bound for.  Together with the train's line
/// it picks the direction family used in the topology tables.
#[derive(Clone, Copy, Debug, Eq, Hash, PartialEq, Structural)]
pub enum Destination {
    LynnwoodCC,
    AngleLake,
    RedmondTech,
    SouthBellevue,
}

impl Default for Destination {
    fn default() -> (res: Self)
        ensures
            res == Destination::LynnwoodCC,
    {
        Destination::LynnwoodCC
    }
}

} // verus!
