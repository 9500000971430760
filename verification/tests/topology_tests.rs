use link_board::dir_id_to_destination;
use link_board::{
    anchor_idx, idx_before, leds_between, ln1_map_idx_lookup, ln2_map_idx_lookup, station_valid,
    step_up, Destination, Route, Station, Train, CID,
};

/// test that shared stops on the 1 and 2 line (except CID) match values
#[test]
fn test_line_map_vals_match() {
    let cid = Station::from_name("Int'l Dist/Chinatown").unwrap();
    for s in link_board::all_stations() {
        if let Some(v1) = ln1_map_idx_lookup(s) {
            if let Some(v2) = ln2_map_idx_lookup(s) {
                if s != cid {
                    assert_eq!(v1, v2);
                }
            }
        }
    }
}

#[test]
fn test_cid_idx_before_next_stop() {
    let train = Train::new(
        String::from(CID),
        Route::Line2,
        Destination::LynnwoodCC,
        234,
        2134,
    );

    assert_eq!(train.idx_before_next_stop(), 254);
}

/// No two stations of one direction family share an anchor index.
#[test]
fn test_anchor_injective_per_family() {
    let families = [
        (Route::Line1, Destination::LynnwoodCC),
        (Route::Line2, Destination::LynnwoodCC),
        (Route::Line1, Destination::AngleLake),
        (Route::Line2, Destination::RedmondTech),
        (Route::Line2, Destination::SouthBellevue),
    ];
    for (route, destination) in families {
        let mut anchors: Vec<usize> = Vec::new();
        for s in link_board::all_stations() {
            if station_valid(route, destination, s) {
                let a = anchor_idx(route, destination, s);
                assert!(!anchors.contains(&a), "anchor reused in one family");
                anchors.push(a);
            }
        }
        assert!(anchors.len() >= 25);
    }
}

#[test]
fn test_station_from_name() {
    assert_eq!(
        Station::from_name("Angle Lake"),
        Some(Station::AngleLake)
    );
    assert_eq!(Station::from_name("Judkins Park"), Some(Station::JudkinsPark));
    assert_eq!(Station::from_name("Nowhere"), None);
    assert_eq!(Station::from_name(""), None);
}

#[test]
fn test_table_lookups() {
    let westlake = Station::from_name("Westlake").unwrap();
    assert_eq!(ln1_map_idx_lookup(westlake), Some(((62, 3), (146, 1))));
    assert_eq!(ln2_map_idx_lookup(westlake), Some(((62, 3), (146, 1))));
    let judkins = Station::from_name("Judkins Park").unwrap();
    assert_eq!(ln1_map_idx_lookup(judkins), None);
    assert_eq!(ln2_map_idx_lookup(judkins), Some(((261, 6), (248, 7))));
}

#[test]
fn test_band_parameters_by_family() {
    let rainier = Station::from_name("Rainier Beach").unwrap();
    // northbound line 1: band starts right past the anchor and walks up
    assert_eq!(anchor_idx(Route::Line1, Destination::LynnwoodCC, rainier), 173);
    assert_eq!(idx_before(Route::Line1, Destination::LynnwoodCC, rainier), 174);
    assert_eq!(leds_between(Route::Line1, Destination::LynnwoodCC, rainier), 8);
    assert!(step_up(Route::Line1, Destination::LynnwoodCC, rainier));
    // southbound line 1
    assert_eq!(anchor_idx(Route::Line1, Destination::AngleLake, rainier), 36);
    assert_eq!(idx_before(Route::Line1, Destination::AngleLake, rainier), 37);
    assert_eq!(leds_between(Route::Line1, Destination::AngleLake, rainier), 2);
    // eastbound line 2 past the junction walks down
    let judkins = Station::from_name("Judkins Park").unwrap();
    assert_eq!(anchor_idx(Route::Line2, Destination::RedmondTech, judkins), 248);
    assert_eq!(idx_before(Route::Line2, Destination::RedmondTech, judkins), 247);
    assert_eq!(leds_between(Route::Line2, Destination::RedmondTech, judkins), 6);
    assert!(!step_up(Route::Line2, Destination::RedmondTech, judkins));
}

#[test]
fn test_junction_band_walks_down() {
    let cid_name = String::from(CID);
    // the junction band starts at the verified constant and walks down
    assert_eq!(
        link_board::get_next_inbetween_idx(254, Route::Line2, Destination::LynnwoodCC, &cid_name),
        253
    );
    assert_eq!(
        link_board::num_leds_between_stops(Route::Line2, Destination::LynnwoodCC, CID),
        6
    );
}

#[test]
fn test_get_map_idx() {
    // at a station the map index is the anchor itself
    let at = Train::new(String::from("Westlake"), Route::Line1, Destination::LynnwoodCC, 0, 0);
    assert_eq!(at.get_map_idx(), 146);
    assert!(at.at_station());
    // in transit it is the cell on the approaching side
    let moving = Train::new(String::from("Westlake"), Route::Line1, Destination::LynnwoodCC, 90, 30);
    assert_eq!(moving.get_map_idx(), 147);
    assert!(!moving.at_station());
    // a line-2 train past the junction approaches from above
    let east = Train::new(String::from("Judkins Park"), Route::Line2, Destination::RedmondTech, 90, 30);
    assert_eq!(east.get_map_idx(), 247);
}

#[test]
fn test_get_relative_idx() {
    // Westlake is 13 stations past Angle Lake; at a station cells are doubled
    let at = Train::new(String::from("Westlake"), Route::Line1, Destination::LynnwoodCC, 0, 0);
    assert_eq!(at.get_relative_idx(false), 26);
    assert_eq!(at.get_relative_idx(true), 13);
    // northbound in transit sits one cell before its next stop
    let north = Train::new(String::from("Westlake"), Route::Line1, Destination::LynnwoodCC, 90, 30);
    assert_eq!(north.get_relative_idx(false), 25);
    // southbound in transit sits one cell past its next stop
    let south = Train::new(String::from("Westlake"), Route::Line1, Destination::AngleLake, 90, 30);
    assert_eq!(south.get_relative_idx(false), 27);
}

#[test]
fn test_dir_id_to_destination() {
    assert_eq!(dir_id_to_destination(Some("0"), Route::Line1), Some(Destination::AngleLake));
    assert_eq!(dir_id_to_destination(Some("0"), Route::Line2), Some(Destination::RedmondTech));
    assert_eq!(dir_id_to_destination(Some("1"), Route::Line1), Some(Destination::LynnwoodCC));
    assert_eq!(dir_id_to_destination(Some("1"), Route::Line2), Some(Destination::SouthBellevue));
    assert_eq!(dir_id_to_destination(Some("2"), Route::Line1), None);
    assert_eq!(dir_id_to_destination(None, Route::Line1), None);
}
