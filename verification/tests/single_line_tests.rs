use std::cell::RefCell;
use std::rc::Rc;

use link_board::display::index_line_trains;
use link_board::display::string_display::StringDisplay;
use link_board::display::strip_display::StripDisplay;
use link_board::{Destination, Led, LinkBoardDisplay, Route, SpiWriter, Train};

fn train(name: &str, route: Route, destination: Destination, next: i64, closest: i64) -> Train {
    Train::new(String::from(name), route, destination, next, closest)
}

struct CaptureWriter {
    frames: Rc<RefCell<Vec<Vec<Led>>>>,
}

impl SpiWriter for CaptureWriter {
    fn write_rgb(&mut self, rgb_vec: Vec<Led>) -> Result<(), String> {
        self.frames.borrow_mut().push(rgb_vec);
        Ok(())
    }

    fn clear(&mut self, _num_to_clear: usize) {}
}

fn capture() -> (Rc<RefCell<Vec<Vec<Led>>>>, CaptureWriter) {
    let frames = Rc::new(RefCell::new(Vec::new()));
    let writer = CaptureWriter { frames: frames.clone() };
    (frames, writer)
}

#[test]
fn test_string_display_places_trains() {
    let (frames, writer) = capture();
    let mut display = StringDisplay::new(writer);
    let trains = vec![
        // at Westlake, 13 stations past Angle Lake: northbound cell 26
        train("Westlake", Route::Line1, Destination::LynnwoodCC, 0, 0),
        // southbound in transit toward Westlake: southbound cell 52 + 27
        train("Westlake", Route::Line1, Destination::AngleLake, 90, 30),
        // line-2 trains are not drawn by this layout
        train("Judkins Park", Route::Line2, Destination::RedmondTech, 90, 30),
    ];
    display.update_trains(trains).unwrap();
    let got = frames.borrow();
    assert_eq!(got.len(), 1);
    let frame = &got[0];
    assert_eq!(frame.len(), 104);
    assert_eq!(frame[0 + 26], Led::green());
    assert_eq!(frame[52 + 27], Led::dull_yellow());
    let lit: Vec<usize> = (0..frame.len()).filter(|&c| frame[c] != Led::off()).collect();
    assert_eq!(lit, vec![26, 79]);
}

#[test]
fn test_string_display_mixes_shared_cell() {
    let (frames, writer) = capture();
    let mut display = StringDisplay::new(writer);
    let trains = vec![
        train("Westlake", Route::Line1, Destination::LynnwoodCC, 0, 0),
        train("Westlake", Route::Line1, Destination::LynnwoodCC, 0, 0),
    ];
    display.update_trains(trains).unwrap();
    let got = frames.borrow();
    // the second train lands on an occupied cell: extra blue is mixed in
    assert_eq!(got[0][26].as_tuple(), (0, 30, 100));
}

#[test]
fn test_string_display_drops_unknown_stop() {
    let (frames, writer) = capture();
    let mut display = StringDisplay::new(writer);
    let trains = vec![train("Nowhere", Route::Line1, Destination::LynnwoodCC, 0, 0)];
    display.update_trains(trains).unwrap();
    let got = frames.borrow();
    assert!(got[0].iter().all(|led| *led == Led::off()));
}

#[test]
fn test_strip_display_buffers() {
    let (frames, writer) = capture();
    let mut display = StripDisplay::new(writer);
    display.update_trains(Vec::new()).unwrap();
    let got = frames.borrow();
    let frame = &got[0];
    assert_eq!(frame.len(), 144);
    for c in 0..3 {
        assert_eq!(frame[c], Led::red());
    }
    for c in 55..58 {
        assert_eq!(frame[c], Led::orange());
    }
    for c in 110..113 {
        assert_eq!(frame[c], Led::blue());
    }
    // everything else stays dark on an empty snapshot
    let lit: Vec<usize> = (0..144).filter(|&c| frame[c] != Led::off()).collect();
    assert_eq!(lit.len(), 9);
    // section offsets are shifted past the start buffer
    assert_eq!(display.get_1n_init_idx(), 3);
    assert_eq!(display.get_1n_staging_idx(), 54);
    assert_eq!(display.get_1s_init_idx(), 59);
    assert_eq!(display.get_1s_staging_idx(), 58);
    assert!(!display.show_2_line());
}

#[test]
fn test_strip_display_places_train_past_buffer() {
    let (frames, writer) = capture();
    let mut display = StripDisplay::new(writer);
    let trains = vec![train("Westlake", Route::Line1, Destination::LynnwoodCC, 0, 0)];
    display.update_trains(trains).unwrap();
    let got = frames.borrow();
    assert_eq!(got[0][3 + 26], Led::green());
}

#[test]
fn test_staging_cell_shows_staged_train() {
    // a section laid out so that the at-station train lands on the staging cell
    let mut strip = vec![Led::off(); 104];
    let trains = vec![train("Westlake", Route::Line1, Destination::LynnwoodCC, 0, 0)];
    let count = index_line_trains(&mut strip, trains, 10, 36, 52, 103, false);
    assert_eq!(count, 1);
    assert_eq!(strip[36], Led::purple());
}

#[test]
fn test_stations_only_skips_moving_trains() {
    let mut strip = vec![Led::off(); 104];
    let trains = vec![
        train("Westlake", Route::Line1, Destination::LynnwoodCC, 90, 30),
        train("Westlake", Route::Line1, Destination::AngleLake, 0, 0),
    ];
    let count = index_line_trains(&mut strip, trains, 0, 51, 52, 103, true);
    // both line-1 trains are counted, only the at-station one is drawn
    assert_eq!(count, 2);
    let lit: Vec<usize> = (0..104).filter(|&c| strip[c] != Led::off()).collect();
    assert_eq!(lit, vec![52 + 13]);
    assert_eq!(strip[65], Led::green());
}
