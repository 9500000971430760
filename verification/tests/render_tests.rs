use std::cell::RefCell;
use std::rc::Rc;

use link_board::{
    collect_faults, render, station_markers, Destination, Led, LinkBoardDisplay, MapDisplay, Route,
    SpiWriter, Train, TrainFault, TripParseErr, CID, MAX_LEDS_FOR_STRIP,
};

fn train(name: &str, route: Route, destination: Destination, next: i64, closest: i64) -> Train {
    Train::new(String::from(name), route, destination, next, closest)
}

/// The empty snapshot renders the backdrop alone.
#[test]
fn test_render_empty_is_backdrop() {
    let frame = render(Vec::new());
    let markers = station_markers();
    assert_eq!(frame.len(), MAX_LEDS_FOR_STRIP);
    assert_eq!(frame, markers);
}

#[test]
fn test_station_markers_backdrop() {
    let markers = station_markers();
    assert_eq!(markers.len(), 302);
    // Federal Way Downtown's southbound anchor
    assert_eq!(markers[1], Led::dull_white());
    // Downtown Redmond's eastbound anchor
    assert_eq!(markers[300], Led::dull_white());
    // no station anchors here
    assert_eq!(markers[0], Led::off());
    assert_eq!(markers[301], Led::off());
}

/// A lone at-station train keeps its own color on its anchor.
#[test]
fn test_sole_at_station_train_keeps_color() {
    let trains = vec![train("Westlake", Route::Line1, Destination::LynnwoodCC, 0, 0)];
    let frame = render(trains);
    let markers = station_markers();
    assert_eq!(frame[146], Led::green());
    for cell in 0..302 {
        if cell != 146 {
            assert_eq!(frame[cell], markers[cell]);
        }
    }
}

/// Two trains sharing an anchor turn it into the multiple-occupant color.
#[test]
fn test_shared_anchor_goes_mixed() {
    let trains = vec![
        train("Westlake", Route::Line1, Destination::LynnwoodCC, 0, 0),
        train("Westlake", Route::Line1, Destination::LynnwoodCC, 0, 0),
    ];
    let frame = render(trains);
    assert_eq!(frame[146], Led::at_station_mixed());
    assert_eq!(frame[146], Led::purple());
}

/// With room for every train each one gets its own distinct cell.
#[test]
fn test_band_all_trains_fit() {
    let trains = vec![
        train("Rainier Beach", Route::Line1, Destination::LynnwoodCC, 30, 9),
        train("Rainier Beach", Route::Line1, Destination::LynnwoodCC, 10, 9),
        train("Rainier Beach", Route::Line1, Destination::LynnwoodCC, 20, 9),
    ];
    let frame = render(trains);
    let markers = station_markers();
    // band capacity is 8 starting at cell 174, walking up
    for cell in 174..177 {
        assert_eq!(frame[cell], Led::dull_yellow());
    }
    for cell in 177..182 {
        assert_eq!(frame[cell], markers[cell]);
    }
    // the anchor itself keeps its backdrop marker
    assert_eq!(frame[173], Led::dull_white());
}

/// With twice the capacity or more, the whole band shows the overflow color.
#[test]
fn test_band_overflow_all_doubled() {
    // the gap before Westlake northbound holds a single cell
    let trains = vec![
        train("Westlake", Route::Line1, Destination::LynnwoodCC, 10, 9),
        train("Westlake", Route::Line1, Destination::LynnwoodCC, 20, 9),
    ];
    let frame = render(trains);
    assert_eq!(frame[147], Led::dull_orange());
    assert_eq!(frame[147], Led::between_stations_mixed());
}

/// Between capacity and twice capacity the band splits: the soonest trains
/// keep single cells near the station, the rest double up farther out.
#[test]
fn test_band_split_singles_and_doubles() {
    // the gap before the junction station northbound holds two cells
    let trains = vec![
        train(CID, Route::Line1, Destination::LynnwoodCC, 30, 9),
        train(CID, Route::Line1, Destination::LynnwoodCC, 10, 9),
        train(CID, Route::Line1, Destination::LynnwoodCC, 20, 9),
    ];
    let frame = render(trains);
    // n = 3, c = 2: one single cell nearest the station, one doubled cell
    assert_eq!(frame[153], Led::dull_yellow());
    assert_eq!(frame[154], Led::dull_orange());
}

/// A westbound line-2 band at the junction starts at the verified constant
/// cell and walks down.
#[test]
fn test_junction_band_render() {
    let trains = vec![
        train(CID, Route::Line2, Destination::LynnwoodCC, 10, 9),
        train(CID, Route::Line2, Destination::LynnwoodCC, 20, 9),
    ];
    let frame = render(trains);
    assert_eq!(frame[254], Led::dull_cyan());
    assert_eq!(frame[253], Led::dull_cyan());
    assert_eq!(frame[252], station_markers()[252]);
}

/// Input order does not matter: the frame depends only on which trains came.
#[test]
fn test_render_order_independent() {
    let a = vec![
        train("Rainier Beach", Route::Line1, Destination::LynnwoodCC, 30, 9),
        train("Westlake", Route::Line1, Destination::LynnwoodCC, 0, 0),
        train("Rainier Beach", Route::Line1, Destination::LynnwoodCC, 10, 9),
        train(CID, Route::Line2, Destination::LynnwoodCC, 15, 9),
        train("Rainier Beach", Route::Line1, Destination::LynnwoodCC, 20, 9),
    ];
    let mut b: Vec<Train> = a.iter().cloned().collect();
    b.reverse();
    assert_eq!(render(a), render(b));
}

/// A tie in arrival times stays deterministic: the same snapshot always
/// yields the same assignment, in either tie order.
#[test]
fn test_tie_is_deterministic() {
    let a = vec![
        train("Rainier Beach", Route::Line1, Destination::LynnwoodCC, 10, 9),
        train("Rainier Beach", Route::Line1, Destination::LynnwoodCC, 10, 9),
        train("Rainier Beach", Route::Line1, Destination::LynnwoodCC, 20, 9),
    ];
    let b = vec![a[1].clone(), a[0].clone(), a[2].clone()];
    let first = render(a.clone());
    let again = render(a);
    let swapped = render(b);
    assert_eq!(first, again);
    assert_eq!(first, swapped);
}

/// Faulting trains are left out of the frame and reported by name.
#[test]
fn test_faults_reported_and_skipped() {
    let trains = vec![
        train("Nowhere", Route::Line1, Destination::LynnwoodCC, 5, 5),
        train("Westlake", Route::Line1, Destination::LynnwoodCC, -3, 0),
        train("Judkins Park", Route::Line1, Destination::LynnwoodCC, 5, 5),
        train("Westlake", Route::Line1, Destination::LynnwoodCC, 0, 0),
    ];
    let faults: Vec<TrainFault> = collect_faults(&trains);
    assert_eq!(faults.len(), 3);
    assert_eq!(faults[0].next_stop_name, "Nowhere");
    assert!(matches!(faults[0].kind, TripParseErr::NextStop));
    assert_eq!(faults[1].next_stop_name, "Westlake");
    assert!(matches!(faults[1].kind, TripParseErr::NotInProgress));
    assert_eq!(faults[2].next_stop_name, "Judkins Park");
    assert!(matches!(faults[2].kind, TripParseErr::NextStop));
    assert!(matches!(faults[0].route, Route::Line1));
    assert!(matches!(faults[0].destination, Destination::LynnwoodCC));

    // only the valid train is placed
    let frame = render(trains);
    let markers = station_markers();
    assert_eq!(frame[146], Led::green());
    for cell in 0..302 {
        if cell != 146 {
            assert_eq!(frame[cell], markers[cell]);
        }
    }
}

struct CaptureWriter {
    frames: Rc<RefCell<Vec<Vec<Led>>>>,
    cleared: Rc<RefCell<Vec<usize>>>,
}

impl SpiWriter for CaptureWriter {
    fn write_rgb(&mut self, rgb_vec: Vec<Led>) -> Result<(), String> {
        self.frames.borrow_mut().push(rgb_vec);
        Ok(())
    }

    fn clear(&mut self, num_to_clear: usize) {
        self.cleared.borrow_mut().push(num_to_clear);
    }
}

#[test]
fn test_map_display_flushes_rendered_frame() {
    let frames = Rc::new(RefCell::new(Vec::new()));
    let cleared = Rc::new(RefCell::new(Vec::new()));
    let writer = CaptureWriter { frames: frames.clone(), cleared: cleared.clone() };
    let mut display = MapDisplay::new(writer);

    let trains = vec![train("Westlake", Route::Line1, Destination::LynnwoodCC, 0, 0)];
    let expected = render(trains.clone());
    display.update_trains(trains).unwrap();
    display.show_static_stations().unwrap();
    display.init_red().unwrap();
    display.clear_trains();

    let got = frames.borrow();
    assert_eq!(got.len(), 3);
    assert_eq!(got[0], expected);
    assert_eq!(got[1], station_markers());
    assert_eq!(got[2].len(), MAX_LEDS_FOR_STRIP);
    assert!(got[2].iter().all(|led| *led == Led::red()));
    assert_eq!(cleared.borrow().as_slice(), &[MAX_LEDS_FOR_STRIP]);
    assert!(display.show_2_line());
    assert_eq!(display.get_1n_init_idx(), 0);
}
