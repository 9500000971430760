use vstd::prelude::*;
use crate::constants::Destination;
use crate::display::Route;

verus! {

/// What went wrong while turning one upstream trip into a train.
#[derive(Clone, Copy, Debug, Eq, PartialEq, Structural)]
pub enum TripParseErr {
    Id,
    NextStop,
    ClosestStopTimeOffset,
    NotInProgress,
    BeyondLastStop,
}

/// A per-train fault the layout engine reports instead of guessing an index:
/// the train is left out of the frame and named here.
#[derive(Clone, Debug)]
pub struct TrainFault {
    /// The stop name the faulting train carried.
    pub next_stop_name: String,
    pub route: Route,
    pub destination: Destination,
    pub kind: TripParseErr,
}

} // verus!
