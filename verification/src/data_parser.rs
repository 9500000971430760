use vstd::prelude::*;
use crate::constants::Destination;
use crate::display::Route;
use crate::stations::str_cmp;

verus! {

/// Reads an upstream trip's direction flag into the destination its line's
/// trains head for.  The flag can only be "0" or "1"; anything else is
/// rejected.
pub fn dir_id_to_destination(dir_id: Option<&str>, route: Route) -> (res: Option<Destination>)
    ensures
        res == (match dir_id {
            Some(d) => if d@ == "0"@ {
                match route {
                    Route::Line1 => Some(Destination::AngleLake),
                    Route::Line2 => Some(Destination::RedmondTech),
                }
            } else if d@ == "1"@ {
                match route {
                    Route::Line1 => Some(Destination::LynnwoodCC),
                    Route::Line2 => Some(Destination::SouthBellevue),
                }
            } else {
                None::<Destination>
            },
            None => None::<Destination>,
        }),
{
    match dir_id {
        Some(d) => {
            if str_cmp(d, "0") {
                match route {
                    Route::Line1 => Some(Destination::AngleLake),
                    Route::Line2 => Some(Destination::RedmondTech),
                }
            } else if str_cmp(d, "1") {
                match route {
                    Route::Line1 => Some(Destination::LynnwoodCC),
                    Route::Line2 => Some(Destination::SouthBellevue),
                }
            } else {
                None
            }
        },
        None => None,
    }
}

} // verus!
