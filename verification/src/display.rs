pub mod laws;
pub mod map_display;
pub mod string_display;
pub mod strip_display;

use vstd::prelude::*;
use vstd::seq_lib::*;
use crate::constants::Destination;
use crate::led::Led;
use crate::train::Train;

verus! {

/// One of the two transit lines.
#[derive(Clone, Copy, Debug, Eq, Hash, PartialEq, Structural)]
pub enum Route {
    Line1,
    Line2,
}

impl Default for Route {
    fn default() -> (res: Self)
        ensures
            res == Route::Line1,
    {
        Route::Line1
    }
}

/// A layout engine that turns a train snapshot into lit cells.  The four
/// index methods name the cells the single-line layouts build on; the map
/// layout has no use for them and reports zero throughout.
pub trait LinkBoardDisplay {
    /// First cell of the northbound section.
    spec fn spec_1n_init(&self) -> usize;

    /// Staging cell past the northbound section's last station.
    spec fn spec_1n_staging(&self) -> usize;

    /// First cell of the southbound section.
    spec fn spec_1s_init(&self) -> usize;

    /// Staging cell past the southbound section's last station.
    spec fn spec_1s_staging(&self) -> usize;

    fn update_trains(&mut self, trains: Vec<Train>) -> Result<(), String>;

    fn clear_trains(&mut self);

    fn init_red(&mut self) -> Result<(), String>;

    fn get_1n_init_idx(&self) -> (r: usize)
        ensures
            r == self.spec_1n_init(),
    ;

    fn get_1n_staging_idx(&self) -> (r: usize)
        ensures
            r == self.spec_1n_staging(),
    ;

    fn get_1s_init_idx(&self) -> (r: usize)
        ensures
            r == self.spec_1s_init(),
    ;

    fn get_1s_staging_idx(&self) -> (r: usize)
        ensures
            r == self.spec_1s_staging(),
    ;

    fn show_2_line(&self) -> bool;
}

// ---------------------------------------------------------------------------
// The single-line engine shared by the string and strip layouts: line-1
// trains only, placed on one northbound and one southbound section.
// ---------------------------------------------------------------------------

/// Which trains this engine draws: line-1 trains, and with `stations_only`
/// set only those sitting at a station.
pub open spec fn drawn(t: Train, stations_only: bool) -> bool {
    t.route == Route::Line1 && !(stations_only && !t.spec_at_station())
}

/// The cell a drawn train lands on: its relative offset from its section's
/// first cell.
pub open spec fn line_target_cell(t: Train, init_1n: usize, init_1s: usize, stations_only: bool) -> int {
    if t.destination == Destination::LynnwoodCC {
        init_1n + t.spec_relative_idx(stations_only)
    } else {
        init_1s + t.spec_relative_idx(stations_only)
    }
}

/// A second train on an occupied cell has extra blue mixed into its color.
pub open spec fn mixed_line_color(c: Led) -> Led {
    Led { red: c.red, green: c.green, blue: c.blue.saturating_add(100) }
}

/// One drawn train landing on a cell.
pub open spec fn line_step(cur: Led, c: Led) -> Led {
    if cur == Led::spec_off() {
        c
    } else {
        mixed_line_color(c)
    }
}

/// All of a cell's drawn trains folded onto it, in input order.
pub open spec fn fold_line(init: Led, cs: Seq<Led>) -> Led
    decreases cs.len(),
{
    if cs.len() == 0 {
        init
    } else {
        line_step(fold_line(init, cs.drop_last()), cs.last())
    }
}

/// The colors of the drawn trains landing on one cell, in input order.
pub open spec fn line_colors(
    trains: Seq<Train>,
    cell: int,
    init_1n: usize,
    init_1s: usize,
    stations_only: bool,
) -> Seq<Led> {
    trains.filter(
        |t: Train| drawn(t, stations_only) && line_target_cell(t, init_1n, init_1s, stations_only)
            == cell,
    ).map_values(|t: Train| t.spec_led_rgb(stations_only))
}

/// One cell after a single-line pass: a staging cell holding any train shows
/// the staging color, every other cell folds its trains over its old value.
pub open spec fn line_cell_value(
    init: Led,
    trains: Seq<Train>,
    cell: int,
    init_1n: usize,
    staging_1n: usize,
    init_1s: usize,
    staging_1s: usize,
    stations_only: bool,
) -> Led {
    let cs = line_colors(trains, cell, init_1n, init_1s, stations_only);
    if cell == staging_1n || cell == staging_1s {
        if cs.len() > 0 {
            Led::spec_purple()
        } else {
            init
        }
    } else {
        fold_line(init, cs)
    }
}

/// The strip after a full single-line pass.
pub open spec fn spec_line_frame(
    frame: Seq<Led>,
    trains: Seq<Train>,
    init_1n: usize,
    staging_1n: usize,
    init_1s: usize,
    staging_1s: usize,
    stations_only: bool,
) -> Seq<Led> {
    Seq::new(
        frame.len(),
        |cell: int|
            line_cell_value(
                frame[cell],
                trains,
                cell,
                init_1n,
                staging_1n,
                init_1s,
                staging_1s,
                stations_only,
            ),
    )
}

/// Appending a train extends a cell's colors exactly when the train is drawn
/// and lands there.
proof fn lemma_line_colors_push(
    trains: Seq<Train>,
    t: Train,
    cell: int,
    init_1n: usize,
    init_1s: usize,
    stations_only: bool,
)
    ensures
        line_colors(trains.push(t), cell, init_1n, init_1s, stations_only) == if drawn(
            t,
            stations_only,
        ) && line_target_cell(t, init_1n, init_1s, stations_only) == cell {
            line_colors(trains, cell, init_1n, init_1s, stations_only).push(
                t.spec_led_rgb(stations_only),
            )
        } else {
            line_colors(trains, cell, init_1n, init_1s, stations_only)
        },
{
    broadcast use Seq::lemma_filter_push;

    let p = |tt: Train| drawn(tt, stations_only) && line_target_cell(
        tt,
        init_1n,
        init_1s,
        stations_only,
    ) == cell;
    if p(t) {
        assert(line_colors(trains.push(t), cell, init_1n, init_1s, stations_only) =~= line_colors(
            trains,
            cell,
            init_1n,
            init_1s,
            stations_only,
        ).push(t.spec_led_rgb(stations_only)));
    } else {
        assert(line_colors(trains.push(t), cell, init_1n, init_1s, stations_only) =~= line_colors(
            trains,
            cell,
            init_1n,
            init_1s,
            stations_only,
        ));
    }
}

/// Folding one more color onto a cell.
proof fn lemma_fold_line_push(init: Led, cs: Seq<Led>, c: Led)
    ensures
        fold_line(init, cs.push(c)) == line_step(fold_line(init, cs), c),
{
    assert(cs.push(c).drop_last() =~= cs);
}

/// Lays line-1 trains onto their single-line sections: Lynnwood-bound trains
/// on the northbound section, Angle Lake-bound trains on the southbound one,
/// a train reaching a staging cell shown as staged.  Line-2 trains are not
/// drawn.  Returns how many line-1 trains the snapshot held.
pub fn index_trains(
    display: &impl LinkBoardDisplay,
    led_strip: &mut Vec<Led>,
    trains: Vec<Train>,
    stations_only: bool,
) -> (count: usize)
    requires
        old(led_strip)@.len() >= display.spec_1n_init() + 52,
        old(led_strip)@.len() >= display.spec_1s_init() + 52,
        forall|i: int|
            0 <= i < trains@.len() && (#[trigger] trains@[i]).route == Route::Line1 ==> trains@[i].has_relative_idx()
                && (trains@[i].destination == Destination::LynnwoodCC || trains@[i].destination
                == Destination::AngleLake),
    ensures
        final(led_strip)@ == spec_line_frame(
            old(led_strip)@,
            trains@,
            display.spec_1n_init(),
            display.spec_1n_staging(),
            display.spec_1s_init(),
            display.spec_1s_staging(),
            stations_only,
        ),
        count == trains@.filter(|t: Train| t.route == Route::Line1).len(),
{
    let init_1n = display.get_1n_init_idx();
    let staging_1n = display.get_1n_staging_idx();
    let init_1s = display.get_1s_init_idx();
    let staging_1s = display.get_1s_staging_idx();
    index_line_trains(led_strip, trains, init_1n, staging_1n, init_1s, staging_1s, stations_only)
}

/// The single-line engine over explicit section indices.
#[verifier::rlimit(30)]
pub fn index_line_trains(
    led_strip: &mut Vec<Led>,
    trains: Vec<Train>,
    init_1n_p: usize,
    staging_1n_p: usize,
    init_1s_p: usize,
    staging_1s_p: usize,
    stations_only: bool,
) -> (count: usize)
    requires
        old(led_strip)@.len() >= init_1n_p + 52,
        old(led_strip)@.len() >= init_1s_p + 52,
        forall|i: int|
            0 <= i < trains@.len() && (#[trigger] trains@[i]).route == Route::Line1 ==> trains@[i].has_relative_idx()
                && (trains@[i].destination == Destination::LynnwoodCC || trains@[i].destination
                == Destination::AngleLake),
    ensures
        final(led_strip)@ == spec_line_frame(
            old(led_strip)@,
            trains@,
            init_1n_p,
            staging_1n_p,
            init_1s_p,
            staging_1s_p,
            stations_only,
        ),
        count == trains@.filter(|t: Train| t.route == Route::Line1).len(),
{
    let ghost orig = led_strip@;
    let strip_len = led_strip.len();
    let init_1n = init_1n_p;
    let staging_1n = staging_1n_p;
    let init_1s = init_1s_p;
    let staging_1s = staging_1s_p;
    let mut count: usize = 0;
    let mut i: usize = 0;
    proof {
        assert(trains@.take(0) =~= Seq::<Train>::empty());
        assert(trains@.take(0).filter(|t: Train| t.route == Route::Line1) =~= Seq::<Train>::empty());
        assert(led_strip@ =~= Seq::new(
            orig.len(),
            |cell: int|
                line_cell_value(
                    orig[cell],
                    trains@.take(0),
                    cell,
                    init_1n,
                    staging_1n,
                    init_1s,
                    staging_1s,
                    stations_only,
                ),
        ));
    }
    while i < trains.len()
        invariant
            i <= trains@.len(),
            init_1n == init_1n_p,
            staging_1n == staging_1n_p,
            init_1s == init_1s_p,
            staging_1s == staging_1s_p,
            orig.len() >= init_1n + 52,
            orig.len() >= init_1s + 52,
            orig.len() == strip_len,
            led_strip@.len() == orig.len(),
            forall|l: int|
                0 <= l < trains@.len() && (#[trigger] trains@[l]).route == Route::Line1
                    ==> trains@[l].has_relative_idx() && (trains@[l].destination
                    == Destination::LynnwoodCC || trains@[l].destination == Destination::AngleLake),
            led_strip@ == Seq::new(
                orig.len(),
                |cell: int|
                    line_cell_value(
                        orig[cell],
                        trains@.take(i as int),
                        cell,
                        init_1n,
                        staging_1n,
                        init_1s,
                        staging_1s,
                        stations_only,
                    ),
            ),
            count as int == trains@.take(i as int).filter(|t: Train| t.route == Route::Line1).len(),
        decreases trains@.len() - i,
    {
        let ghost prefix = trains@.take(i as int);
        let ghost tt = trains@[i as int];
        proof {
            assert(trains@.take(i as int + 1) =~= prefix.push(tt));
            broadcast use Seq::lemma_filter_push;
            broadcast use Seq::lemma_filter_len;

        }
        let t = &trains[i];
        let is_line_1 = match t.route() {
            Route::Line1 => true,
            Route::Line2 => false,
        };
        let skipped = !is_line_1 || (stations_only && !t.at_station());
        if is_line_1 {
            count = count + 1;
        }
        if !skipped {
            proof {
                lemma_relative_idx_bounds_for(tt, stations_only);
            }
            let rel = t.get_relative_idx(stations_only);
            let idx = if matches!(t.destination(), Destination::LynnwoodCC) {
                init_1n + rel
            } else {
                init_1s + rel
            };
            proof {
                assert(drawn(tt, stations_only));
                assert(idx as int == line_target_cell(tt, init_1n, init_1s, stations_only));
            }
            let cur = led_strip[idx];
            let final_color = if idx == staging_1n || idx == staging_1s {
                Led::purple()
            } else {
                let new_color = t.get_led_rgb(stations_only);
                if cur.eq(&Led::off()) {
                    new_color
                } else {
                    let mut mixed = new_color;
                    mixed.add_tuple((0, 0, 100));
                    mixed
                }
            };
            led_strip.set(idx, final_color);
            proof {
                assert forall|cell: int| cell != idx as int implies #[trigger] line_colors(
                    prefix.push(tt),
                    cell,
                    init_1n,
                    init_1s,
                    stations_only,
                ) == line_colors(prefix, cell, init_1n, init_1s, stations_only) by {
                    lemma_line_colors_push(prefix, tt, cell, init_1n, init_1s, stations_only);
                }
                lemma_line_colors_push(prefix, tt, idx as int, init_1n, init_1s, stations_only);
                lemma_fold_line_push(
                    orig[idx as int],
                    line_colors(prefix, idx as int, init_1n, init_1s, stations_only),
                    tt.spec_led_rgb(stations_only),
                );
                assert(led_strip@ =~= Seq::new(
                    orig.len(),
                    |cell: int|
                        line_cell_value(
                            orig[cell],
                            trains@.take(i as int + 1),
                            cell,
                            init_1n,
                            staging_1n,
                            init_1s,
                            staging_1s,
                            stations_only,
                        ),
                ));
            }
        } else {
            proof {
                assert(!drawn(tt, stations_only));
                assert forall|cell: int| #[trigger] line_colors(
                    prefix.push(tt),
                    cell,
                    init_1n,
                    init_1s,
                    stations_only,
                ) == line_colors(prefix, cell, init_1n, init_1s, stations_only) by {
                    lemma_line_colors_push(prefix, tt, cell, init_1n, init_1s, stations_only);
                }
                assert(led_strip@ =~= Seq::new(
                    orig.len(),
                    |cell: int|
                        line_cell_value(
                            orig[cell],
                            trains@.take(i as int + 1),
                            cell,
                            init_1n,
                            staging_1n,
                            init_1s,
                            staging_1s,
                            stations_only,
                        ),
                ));
            }
        }
        i = i + 1;
    }
    proof {
        assert(trains@.take(trains@.len() as int) =~= trains@);
    }
    count
}

/// A drawn line-1 train's cell offset stays inside its section.
proof fn lemma_relative_idx_bounds_for(t: Train, stations_only: bool)
    requires
        t.route == Route::Line1,
        t.has_relative_idx(),
    ensures
        0 <= t.spec_relative_idx(stations_only) <= 51,
{
    crate::train::lemma_relative_idx_bounds();
}

/// Whether the single-line engine can place a train: line-2 trains pass
/// through undrawn; a line-1 train needs its stop on the line-1 table at or
/// past the first served station, bound for one of the line's termini.
pub open spec fn line_placeable(t: Train) -> bool {
    t.route == Route::Line2 || (t.has_relative_idx() && (t.destination == Destination::LynnwoodCC
        || t.destination == Destination::AngleLake))
}

/// Keeps the trains the single-line engine can place, dropping the rest.
pub fn placeable_trains(trains: Vec<Train>) -> (res: Vec<Train>)
    ensures
        res@ == trains@.filter(|t: Train| line_placeable(t)),
        forall|i: int|
            0 <= i < res@.len() && (#[trigger] res@[i]).route == Route::Line1 ==> res@[i].has_relative_idx()
                && (res@[i].destination == Destination::LynnwoodCC || res@[i].destination
                == Destination::AngleLake),
{
    let mut res: Vec<Train> = Vec::new();
    let mut i: usize = 0;
    proof {
        assert(trains@.take(0) =~= Seq::<Train>::empty());
        assert(res@ =~= trains@.take(0).filter(|t: Train| line_placeable(t)));
    }
    while i < trains.len()
        invariant
            i <= trains@.len(),
            res@ == trains@.take(i as int).filter(|t: Train| line_placeable(t)),
        decreases trains@.len() - i,
    {
        let ghost prefix = trains@.take(i as int);
        let ghost tt = trains@[i as int];
        proof {
            assert(trains@.take(i as int + 1) =~= prefix.push(tt));
            broadcast use Seq::lemma_filter_push;

        }
        let t = &trains[i];
        let ok = match t.route() {
            Route::Line2 => true,
            Route::Line1 => {
                let dest_ok = matches!(t.destination(), Destination::LynnwoodCC) || matches!(
                    t.destination(),
                    Destination::AngleLake,
                );
                let rel_ok = match crate::stations::Station::from_name(t.next_stop_name.as_str()) {
                    Some(s) => match crate::stations::ln1_relative_idx_lookup(s) {
                        Some(v) => v >= 3,
                        None => false,
                    },
                    None => false,
                };
                dest_ok && rel_ok
            },
        };
        if ok {
            res.push(t.clone());
        }
        i = i + 1;
    }
    proof {
        assert(trains@.take(trains@.len() as int) =~= trains@);
        broadcast use group_filter_ensures;

    }
    res
}

} // verus!
