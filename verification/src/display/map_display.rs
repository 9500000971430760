use vstd::prelude::*;
use vstd::seq_lib::*;
use priority_queue::PriorityQueue;
use std::collections::hash_map::RandomState;

use crate::constants::{Destination, MAX_LEDS_FOR_STRIP};
use crate::display::{LinkBoardDisplay, Route};
use crate::error::{TrainFault, TripParseErr};
use crate::led::Led;
use crate::pq::{pq_len, pq_new, pq_pop, pq_push, queue_entries};
use crate::spi_adapter::SpiWriter;
use crate::stations::{
    all_stations, all_stations_seq, lemma_all_stations_complete, lemma_station_order_injective,
    ln1_map_idx, ln1_map_idx_lookup, ln2_map_idx, ln2_map_idx_lookup, station_of_name, Station,
};
use crate::topology::{
    lemma_band_in_range, leds_between, spec_idx_before, spec_leds_between, spec_station_valid,
    spec_step_up, station_valid, step_up,
};
use crate::train::Train;

verus! {

// ---------------------------------------------------------------------------
// The frame model.  `spec_index_trains` says, cell by cell, what one layout
// pass leaves on the strip: first every at-station train is folded onto its
// anchor cell, then each contested band is written, bands in a fixed key
// order.  The executable code below is proved equal to this model.
// ---------------------------------------------------------------------------

/// What a band is keyed by: trains agreeing on all four parts contend for the
/// same run of cells.
#[derive(Clone, Copy, Debug, Eq, Hash, PartialEq, Structural)]
pub struct BandKey {
    pub station: Station,
    pub destination: Destination,
    pub route: Route,
    pub idx_before: usize,
}

pub open spec fn dest_order(d: Destination) -> int {
    match d {
        Destination::LynnwoodCC => 0,
        Destination::AngleLake => 1,
        Destination::RedmondTech => 2,
        Destination::SouthBellevue => 3,
    }
}

pub open spec fn route_order(r: Route) -> int {
    match r {
        Route::Line1 => 0,
        Route::Line2 => 1,
    }
}

/// The fixed order in which bands are flushed to the strip.
pub open spec fn key_order(k: BandKey) -> int {
    (k.station.order() * 4 + dest_order(k.destination)) * 2 + route_order(k.route)
}

/// A key as the engine builds it: its station is valid for its family and its
/// start cell is the table's.
pub open spec fn key_wf(k: BandKey) -> bool {
    &&& spec_station_valid(k.route, k.destination, k.station)
    &&& k.idx_before == spec_idx_before(k.route, k.destination, k.station)
}

/// Two well-formed keys with one order position are the same key.
pub proof fn lemma_key_order_injective(k1: BandKey, k2: BandKey)
    requires
        key_wf(k1),
        key_wf(k2),
        key_order(k1) == key_order(k2),
    ensures
        k1 == k2,
{
    lemma_station_order_injective(k1.station, k2.station);
}

/// A train's band key, read off its fields.  Meaningful only for renderable
/// trains between stations.
pub open spec fn spec_transit_key(t: Train) -> BandKey {
    BandKey {
        station: match station_of_name(t.next_stop_name@) {
            Some(s) => s,
            None => Station::FederalWayDowntown,
        },
        destination: t.destination,
        route: t.route,
        idx_before: t.spec_idx_before_next_stop() as usize,
    }
}

/// A renderable train sitting at a station.
pub open spec fn is_at_station_train(t: Train) -> bool {
    t.is_renderable() && t.spec_at_station()
}

/// A renderable train between stations.
pub open spec fn is_transit_train(t: Train) -> bool {
    t.is_renderable() && !t.spec_at_station()
}

/// The colors of the at-station trains anchored on one cell, in input order.
pub open spec fn at_colors(trains: Seq<Train>, cell: int) -> Seq<Led> {
    trains.filter(|t: Train| is_at_station_train(t) && t.spec_map_idx() == cell).map_values(
        |t: Train| t.spec_led_rgb(false),
    )
}

/// One at-station train landing on a cell: a free or backdrop cell takes the
/// train's color, an occupied one turns into the multiple-occupant marker.
pub open spec fn occupant_step(cur: Led, c: Led) -> Led {
    if cur == Led::spec_off() || cur == Led::spec_dull_white() {
        c
    } else {
        Led::spec_purple()
    }
}

/// All of a cell's at-station trains folded onto it, in order.
pub open spec fn fold_occupants(init: Led, cs: Seq<Led>) -> Led
    decreases cs.len(),
{
    if cs.len() == 0 {
        init
    } else {
        occupant_step(fold_occupants(init, cs.drop_last()), cs.last())
    }
}

/// The strip after every at-station train is placed.
pub open spec fn apply_at_station(frame: Seq<Led>, trains: Seq<Train>) -> Seq<Led> {
    Seq::new(frame.len(), |cell: int| fold_occupants(frame[cell], at_colors(trains, cell)))
}

/// How many trains contend for one band.
pub open spec fn band_count(trains: Seq<Train>, k: BandKey) -> int {
    trains.filter(|t: Train| is_transit_train(t) && spec_transit_key(t) == k).len() as int
}

/// Insert a key into an ordered key list, keeping it sorted and duplicate
/// free.
pub open spec fn key_insert(ks: Seq<BandKey>, k: BandKey) -> Seq<BandKey>
    decreases ks.len(),
{
    if ks.len() == 0 {
        seq![k]
    } else if ks[0] == k {
        ks
    } else if key_order(ks[0]) < key_order(k) {
        seq![ks[0]] + key_insert(ks.drop_first(), k)
    } else {
        seq![k] + ks
    }
}

/// The keys of all contested bands, in flushing order.
pub open spec fn keys_of(trains: Seq<Train>) -> Seq<BandKey>
    decreases trains.len(),
{
    if trains.len() == 0 {
        Seq::empty()
    } else {
        let prev = keys_of(trains.drop_last());
        if is_transit_train(trains.last()) {
            key_insert(prev, spec_transit_key(trains.last()))
        } else {
            prev
        }
    }
}

/// The color the transit trains of a line paint.
pub open spec fn transit_color(r: Route) -> Led {
    match r {
        Route::Line1 => Led::spec_dull_yellow(),
        Route::Line2 => Led::spec_dull_cyan(),
    }
}

/// How many of a band's cells carry one train's own color: all trains fit
/// when `n <= c`; none stays single once every cell is at least doubled; in
/// between, the soonest `c - (n % c)` trains keep their own cells.
pub open spec fn band_singles(n: int, c: int) -> int {
    if n <= c {
        n
    } else if n >= 2 * c {
        0
    } else {
        c - (n % c)
    }
}

/// How many cells a band fills: one per train, at most the capacity.
pub open spec fn band_fill(n: int, c: int) -> int {
    if n <= c {
        n
    } else {
        c
    }
}

/// The j-th cell of a band, walking away from the next station.
pub open spec fn band_cell(k: BandKey, j: int) -> int {
    if spec_step_up(k.route, k.destination, k.station) {
        k.idx_before + j
    } else {
        k.idx_before - j
    }
}

/// The color of the j-th cell of a band holding n trains.
pub open spec fn band_cell_color(k: BandKey, n: int, j: int) -> Led {
    if j < band_singles(n, spec_leds_between(k.route, k.destination, k.station)) {
        transit_color(k.route)
    } else {
        Led::spec_dull_orange()
    }
}

/// The strip after the first j cells of one band are written.
pub open spec fn band_write_upto(frame: Seq<Led>, k: BandKey, n: int, j: int) -> Seq<Led>
    decreases j,
{
    if j <= 0 {
        frame
    } else {
        band_write_upto(frame, k, n, j - 1).update(band_cell(k, j - 1), band_cell_color(k, n, j - 1))
    }
}

/// The strip after one band holding n trains is written in full.
pub open spec fn band_write(frame: Seq<Led>, k: BandKey, n: int) -> Seq<Led> {
    band_write_upto(frame, k, n, band_fill(n, spec_leds_between(k.route, k.destination, k.station)))
}

/// The strip after the listed bands are written, first key first.
pub open spec fn apply_bands(frame: Seq<Led>, trains: Seq<Train>, ks: Seq<BandKey>) -> Seq<Led>
    decreases ks.len(),
{
    if ks.len() == 0 {
        frame
    } else {
        apply_bands(band_write(frame, ks[0], band_count(trains, ks[0])), trains, ks.drop_first())
    }
}

/// One full layout pass over a given backdrop.
pub open spec fn spec_index_trains(frame: Seq<Led>, trains: Seq<Train>) -> Seq<Led> {
    apply_bands(apply_at_station(frame, trains), trains, keys_of(trains))
}

// ---------------------------------------------------------------------------
// The backdrop: every station anchor lit as a dim marker.
// ---------------------------------------------------------------------------

/// Whether one station's tables put an anchor on this cell.
pub open spec fn marks_station(s: Station, cell: int) -> bool {
    ||| match ln1_map_idx(s) {
        Some(e) => cell == e.0.0 || cell == e.1.0,
        None => false,
    }
    ||| match ln2_map_idx(s) {
        Some(e) => cell == e.0.0 || cell == e.1.0,
        None => false,
    }
}

/// Whether any of the first j stations of the station list marks this cell.
pub open spec fn marks_upto(j: int, cell: int) -> bool {
    exists|i: int| 0 <= i < j && marks_station(all_stations_seq()[i], cell)
}

/// Whether some station anchor lies on this cell.
pub open spec fn is_station_cell(cell: int) -> bool {
    exists|s: Station| marks_station(s, cell)
}

/// The backdrop frame: every station cell dim white, all else dark.
pub open spec fn spec_markers() -> Seq<Led> {
    Seq::new(
        MAX_LEDS_FOR_STRIP as nat,
        |cell: int|
            if is_station_cell(cell) {
                Led::spec_dull_white()
            } else {
                Led::spec_off()
            },
    )
}

/// Marks every station's anchors on the strip as dim white placeholders,
/// leaving every other cell as it was.
pub fn write_stations_as_dim_white(led_strip: &mut Vec<Led>)
    requires
        old(led_strip)@.len() == MAX_LEDS_FOR_STRIP,
    ensures
        final(led_strip)@ == Seq::new(
            old(led_strip)@.len(),
            |cell: int|
                if is_station_cell(cell) {
                    Led::spec_dull_white()
                } else {
                    old(led_strip)@[cell]
                },
        ),
{
    let ghost orig = led_strip@;
    let stations = all_stations();
    let mut i: usize = 0;
    while i < stations.len()
        invariant
            stations@ == all_stations_seq(),
            led_strip@.len() == MAX_LEDS_FOR_STRIP,
            i <= stations@.len(),
            orig.len() == MAX_LEDS_FOR_STRIP,
            led_strip@ == Seq::new(
                orig.len(),
                |cell: int|
                    if marks_upto(i as int, cell) {
                        Led::spec_dull_white()
                    } else {
                        orig[cell]
                    },
            ),
        decreases stations@.len() - i,
    {
        let s = stations[i];
        proof {
            crate::topology::lemma_ln1_bounds(s);
            crate::topology::lemma_ln2_bounds(s);
        }
        let ghost before = led_strip@;
        match ln2_map_idx_lookup(s) {
            Some(e) => {
                led_strip.set(e.0.0, Led::dull_white());
                led_strip.set(e.1.0, Led::dull_white());
            },
            None => {},
        }
        match ln1_map_idx_lookup(s) {
            Some(e) => {
                led_strip.set(e.0.0, Led::dull_white());
                led_strip.set(e.1.0, Led::dull_white());
            },
            None => {},
        }
        proof {
            let j = i as int;
            assert forall|cell: int| 0 <= cell < orig.len() implies led_strip@[cell] == (
            if marks_upto(j + 1, cell) {
                Led::spec_dull_white()
            } else {
                orig[cell]
            }) by {
                if marks_upto(j + 1, cell) {
                    if !marks_upto(j, cell) {
                        // the witness index must be j itself
                        let w = choose|w: int|
                            0 <= w < j + 1 && marks_station(all_stations_seq()[w], cell);
                        assert(w == j);
                        assert(marks_station(s, cell));
                    }
                } else {
                    assert(!marks_station(s, cell));
                    assert(!marks_upto(j, cell));
                }
            }
            assert(led_strip@ =~= Seq::new(
                orig.len(),
                |cell: int|
                    if marks_upto(j + 1, cell) {
                        Led::spec_dull_white()
                    } else {
                        orig[cell]
                    },
            ));
        }
        i = i + 1;
    }
    proof {
        let n = stations@.len() as int;
        assert forall|cell: int| marks_upto(n, cell) == is_station_cell(cell) by {
            if marks_upto(n, cell) {
                let w = choose|w: int| 0 <= w < n && marks_station(all_stations_seq()[w], cell);
                assert(marks_station(all_stations_seq()[w], cell));
            }
            if is_station_cell(cell) {
                let s = choose|s: Station| marks_station(s, cell);
                lemma_all_stations_complete(s);
                assert(marks_station(all_stations_seq()[s.order()], cell));
            }
        }
        assert(led_strip@ =~= Seq::new(
            orig.len(),
            |cell: int|
                if is_station_cell(cell) {
                    Led::spec_dull_white()
                } else {
                    orig[cell]
                },
        ));
    }
}

/// The all-stations, no-trains frame: the backdrop alone.
pub fn station_markers() -> (res: Vec<Led>)
    ensures
        res@ == spec_markers(),
{
    let mut led_strip: Vec<Led> = Vec::new();
    let mut i: usize = 0;
    while i < MAX_LEDS_FOR_STRIP
        invariant
            i <= MAX_LEDS_FOR_STRIP,
            led_strip@.len() == i,
            forall|c: int| 0 <= c < i ==> led_strip@[c] == Led::spec_off(),
        decreases MAX_LEDS_FOR_STRIP - i,
    {
        led_strip.push(Led::off());
        i = i + 1;
    }
    write_stations_as_dim_white(&mut led_strip);
    proof {
        assert(led_strip@ =~= spec_markers());
    }
    led_strip
}

// ---------------------------------------------------------------------------
// Helper lemmas connecting the loop bodies to the frame model.
// ---------------------------------------------------------------------------

/// Appending a train extends a cell's occupant colors exactly when the train
/// is an at-station train anchored there.
proof fn lemma_at_colors_push(trains: Seq<Train>, t: Train, cell: int)
    ensures
        at_colors(trains.push(t), cell) == if is_at_station_train(t) && t.spec_map_idx() == cell {
            at_colors(trains, cell).push(t.spec_led_rgb(false))
        } else {
            at_colors(trains, cell)
        },
{
    broadcast use Seq::lemma_filter_push;

    let p = |tt: Train| is_at_station_train(tt) && tt.spec_map_idx() == cell;
    if p(t) {
        assert(at_colors(trains.push(t), cell) =~= at_colors(trains, cell).push(
            t.spec_led_rgb(false),
        ));
    } else {
        assert(at_colors(trains.push(t), cell) =~= at_colors(trains, cell));
    }
}

/// Appending a train raises exactly its own band's count, if it has one.
proof fn lemma_band_count_push(trains: Seq<Train>, t: Train, k: BandKey)
    ensures
        band_count(trains.push(t), k) == band_count(trains, k) + (
        if is_transit_train(t) && spec_transit_key(t) == k {
            1int
        } else {
            0int
        }),
{
    broadcast use Seq::lemma_filter_push;

}

/// Appending a train inserts its key, if it is a transit train.
proof fn lemma_keys_of_push(trains: Seq<Train>, t: Train)
    ensures
        keys_of(trains.push(t)) == if is_transit_train(t) {
            key_insert(keys_of(trains), spec_transit_key(t))
        } else {
            keys_of(trains)
        },
{
    assert(trains.push(t).drop_last() =~= trains);
}

/// Folding one more occupant color onto a cell.
proof fn lemma_fold_occupants_push(init: Led, cs: Seq<Led>, c: Led)
    ensures
        fold_occupants(init, cs.push(c)) == occupant_step(fold_occupants(init, cs), c),
{
    assert(cs.push(c).drop_last() =~= cs);
}

/// Key lists stay strictly ordered.
pub open spec fn keys_sorted(ks: Seq<BandKey>) -> bool {
    forall|p: int, q: int|
        #![trigger ks[p], ks[q]]
        0 <= p < q < ks.len() ==> key_order(ks[p]) < key_order(ks[q])
}

/// `key_insert` lands at the scan position: before the first key of equal or
/// higher order, or on the equal key already present.
proof fn lemma_key_insert_at(ks: Seq<BandKey>, k: BandKey, pos: int)
    requires
        keys_sorted(ks),
        0 <= pos <= ks.len(),
        forall|q: int| 0 <= q < pos ==> key_order(#[trigger] ks[q]) < key_order(k),
        pos < ks.len() ==> key_order(ks[pos as int]) >= key_order(k),
    ensures
        key_insert(ks, k) == if pos < ks.len() && ks[pos as int] == k {
            ks
        } else {
            ks.insert(pos, k)
        },
    decreases ks.len(),
{
    if ks.len() == 0 {
        assert(key_insert(ks, k) =~= ks.insert(0, k));
    } else if ks[0] == k {
        assert(pos == 0);
    } else if key_order(ks[0]) < key_order(k) {
        let rest = ks.drop_first();
        assert(keys_sorted(rest)) by {
            assert forall|p: int, q: int|
                #![trigger rest[p], rest[q]]
                0 <= p < q < rest.len() implies key_order(rest[p]) < key_order(rest[q]) by {
                assert(rest[p] == ks[p + 1]);
                assert(rest[q] == ks[q + 1]);
            }
        }
        assert(pos >= 1);
        lemma_key_insert_at(rest, k, pos - 1);
        if pos < ks.len() && ks[pos as int] == k {
            assert(rest[pos - 1] == k);
            assert(key_insert(ks, k) =~= ks);
        } else {
            assert(key_insert(ks, k) =~= ks.insert(pos, k));
        }
    } else {
        assert(pos == 0);
        if pos < ks.len() && ks[pos as int] == k {
            assert(false);
        }
        assert(key_insert(ks, k) =~= ks.insert(0, k));
    }
}

/// Inserting below the first equal-or-higher position keeps the order strict.
proof fn lemma_insert_keeps_sorted(ks: Seq<BandKey>, k: BandKey, pos: int)
    requires
        keys_sorted(ks),
        0 <= pos <= ks.len(),
        forall|q: int| 0 <= q < pos ==> key_order(#[trigger] ks[q]) < key_order(k),
        pos < ks.len() ==> key_order(ks[pos as int]) > key_order(k),
    ensures
        keys_sorted(ks.insert(pos, k)),
{
    let ks2 = ks.insert(pos, k);
    assert forall|p: int, q: int|
        #![trigger ks2[p], ks2[q]]
        0 <= p < q < ks2.len() implies key_order(ks2[p]) < key_order(ks2[q]) by {
        if p < pos {
            assert(ks2[p] == ks[p]);
        } else if p == pos {
            assert(ks2[p] == k);
        } else {
            assert(ks2[p] == ks[p - 1]);
        }
        if q < pos {
            assert(ks2[q] == ks[q]);
        } else if q == pos {
            assert(ks2[q] == k);
        } else {
            assert(ks2[q] == ks[q - 1]);
        }
    }
}

// ---------------------------------------------------------------------------
// The slot allocator's working state: one entry per contested band.
// ---------------------------------------------------------------------------

/// One contested band while a pass is being laid out: its key and the queue
/// of trains contending for it, soonest arrival at the top.
struct Band {
    key: BandKey,
    queue: PriorityQueue<u64, i64, RandomState>,
    next_id: u64,
}

/// Executable key order.
fn key_order_index(k: &BandKey) -> (res: usize)
    ensures
        res == key_order(*k),
{
    let d: usize = match k.destination {
        Destination::LynnwoodCC => 0,
        Destination::AngleLake => 1,
        Destination::RedmondTech => 2,
        Destination::SouthBellevue => 3,
    };
    let r: usize = match k.route {
        Route::Line1 => 0,
        Route::Line2 => 1,
    };
    (k.station.order_index() * 4 + d) * 2 + r
}

/// Membership in an inserted key list.
pub proof fn lemma_key_insert_membership(ks: Seq<BandKey>, k: BandKey, x: BandKey)
    ensures
        key_insert(ks, k).contains(x) <==> (ks.contains(x) || x == k),
    decreases ks.len(),
{
    if ks.len() == 0 {
        assert(key_insert(ks, k) =~= seq![k]);
        if key_insert(ks, k).contains(x) {
            let w = choose|w: int| 0 <= w < key_insert(ks, k).len() && key_insert(ks, k)[w] == x;
            assert(x == k);
        }
        if x == k {
            assert(key_insert(ks, k)[0] == x);
        }
    } else if ks[0] == k {
    } else if key_order(ks[0]) < key_order(k) {
        let rest = ks.drop_first();
        lemma_key_insert_membership(rest, k, x);
        let out = key_insert(ks, k);
        assert(out == seq![ks[0]] + key_insert(rest, k));
        assert(out.contains(x) <==> (x == ks[0] || key_insert(rest, k).contains(x))) by {
            if out.contains(x) {
                let w = choose|w: int| 0 <= w < out.len() && out[w] == x;
                if w > 0 {
                    assert(key_insert(rest, k)[w - 1] == x);
                }
            }
            if x == ks[0] {
                assert(out[0] == x);
            }
            if key_insert(rest, k).contains(x) {
                let w = choose|w: int|
                    0 <= w < key_insert(rest, k).len() && key_insert(rest, k)[w] == x;
                assert(out[w + 1] == x);
            }
        }
        assert(ks.contains(x) <==> (x == ks[0] || rest.contains(x))) by {
            if ks.contains(x) {
                let w = choose|w: int| 0 <= w < ks.len() && ks[w] == x;
                if w > 0 {
                    assert(rest[w - 1] == x);
                }
            }
            if rest.contains(x) {
                let w = choose|w: int| 0 <= w < rest.len() && rest[w] == x;
                assert(ks[w + 1] == x);
            }
        }
    } else {
        let out = key_insert(ks, k);
        assert(out == seq![k] + ks);
        assert(out.contains(x) <==> (x == k || ks.contains(x))) by {
            if out.contains(x) {
                let w = choose|w: int| 0 <= w < out.len() && out[w] == x;
                if w > 0 {
                    assert(ks[w - 1] == x);
                }
            }
            if x == k {
                assert(out[0] == x);
            }
            if ks.contains(x) {
                let w = choose|w: int| 0 <= w < ks.len() && ks[w] == x;
                assert(out[w + 1] == x);
            }
        }
    }
}

/// A band with contending trains has its key listed.
proof fn lemma_count_in_keys(trains: Seq<Train>, k: BandKey)
    ensures
        band_count(trains, k) > 0 ==> keys_of(trains).contains(k),
    decreases trains.len(),
{
    broadcast use Seq::lemma_filter_push;

    if trains.len() > 0 {
        let prev = trains.drop_last();
        let t = trains.last();
        lemma_count_in_keys(prev, k);
        assert(prev.push(t) =~= trains);
        if is_transit_train(t) {
            lemma_key_insert_membership(keys_of(prev), spec_transit_key(t), k);
        }
    }
}

// ---------------------------------------------------------------------------
// The layout pass itself.
// ---------------------------------------------------------------------------

/// Lays one snapshot of trains onto the strip: at-station trains onto their
/// anchor cells, trains between stations into their bands, band by band in
/// key order.  A train whose stop name has no table entry for its line and
/// destination, or whose arrival time is negative, is left out.  Returns how
/// many trains were placed.
#[verifier::rlimit(100)]
pub fn index_trains(led_strip: &mut Vec<Led>, trains: Vec<Train>) -> (count: usize)
    requires
        old(led_strip)@.len() == MAX_LEDS_FOR_STRIP,
    ensures
        final(led_strip)@ == spec_index_trains(old(led_strip)@, trains@),
        count == trains@.filter(|t: Train| t.is_renderable()).len(),
{
    let ghost orig = led_strip@;
    let mut bands: Vec<Band> = Vec::new();
    let mut count: usize = 0;
    let n_trains = trains.len();
    let mut i: usize = 0;
    proof {
        assert(trains@.take(0) =~= Seq::<Train>::empty());
        assert(bands@.map_values(|b: Band| b.key) =~= keys_of(trains@.take(0)));
        assert(led_strip@ =~= Seq::new(
            orig.len(),
            |cell: int| fold_occupants(orig[cell], at_colors(trains@.take(0), cell)),
        ));
        assert(trains@.take(0).filter(|t: Train| t.is_renderable()) =~= Seq::<Train>::empty());
    }
    while i < n_trains
        invariant
            i <= n_trains,
            n_trains == trains@.len(),
            orig.len() == MAX_LEDS_FOR_STRIP,
            led_strip@.len() == MAX_LEDS_FOR_STRIP,
            led_strip@ == Seq::new(
                orig.len(),
                |cell: int| fold_occupants(orig[cell], at_colors(trains@.take(i as int), cell)),
            ),
            keys_sorted(bands@.map_values(|b: Band| b.key)),
            bands@.map_values(|b: Band| b.key) == keys_of(trains@.take(i as int)),
            forall|bi: int| 0 <= bi < bands@.len() ==> key_wf((#[trigger] bands@[bi]).key),
            forall|bi: int|
                0 <= bi < bands@.len() ==> queue_entries(&(#[trigger] bands@[bi]).queue).len()
                    == band_count(trains@.take(i as int), bands@[bi].key),
            forall|bi: int|
                0 <= bi < bands@.len() ==> (#[trigger] bands@[bi]).next_id as int <= i as int,
            forall|bi: int, e: (u64, i64)|
                0 <= bi < bands@.len() && #[trigger] queue_entries(&bands@[bi].queue).count(e) > 0
                    ==> e.0 < bands@[bi].next_id,
            count as int == trains@.take(i as int).filter(|t: Train| t.is_renderable()).len(),
        decreases n_trains - i,
    {
        let ghost prefix = trains@.take(i as int);
        let ghost tt = trains@[i as int];
        proof {
            assert(trains@.take(i as int + 1) =~= prefix.push(tt));
            broadcast use Seq::lemma_filter_push;
            broadcast use Seq::lemma_filter_len;

        }
        let t = &trains[i];
        let st_opt = Station::from_name(t.next_stop_name.as_str());
        let renderable = match st_opt {
            Some(s) => t.next_stop_time_offset() >= 0 && station_valid(t.route, t.destination, s),
            None => false,
        };
        if !renderable {
            proof {
                assert(!tt.is_renderable());
                assert forall|cell: int| #[trigger] at_colors(prefix.push(tt), cell) == at_colors(
                    prefix,
                    cell,
                ) by {
                    lemma_at_colors_push(prefix, tt, cell);
                }
                assert(led_strip@ =~= Seq::new(
                    orig.len(),
                    |cell: int|
                        fold_occupants(orig[cell], at_colors(trains@.take(i as int + 1), cell)),
                ));
                lemma_keys_of_push(prefix, tt);
                assert forall|bi: int| 0 <= bi < bands@.len() implies queue_entries(
                    &(#[trigger] bands@[bi]).queue,
                ).len() == band_count(trains@.take(i as int + 1), bands@[bi].key) by {
                    lemma_band_count_push(prefix, tt, bands@[bi].key);
                }
            }
        } else {
            count = count + 1;
            if t.at_station() {
                let idx = t.get_map_idx();
                let cur = led_strip[idx];
                let color = t.get_led_rgb(false);
                let off = Led::off();
                let white = Led::dull_white();
                let newc = if cur.eq(&off) || cur.eq(&white) {
                    color
                } else {
                    Led::purple()
                };
                led_strip.set(idx, newc);
                proof {
                    assert(is_at_station_train(tt));
                    assert(tt.spec_map_idx() == idx as int);
                    assert forall|cell: int| cell != idx as int implies #[trigger] at_colors(
                        prefix.push(tt),
                        cell,
                    ) == at_colors(prefix, cell) by {
                        lemma_at_colors_push(prefix, tt, cell);
                    }
                    lemma_at_colors_push(prefix, tt, idx as int);
                    lemma_fold_occupants_push(
                        orig[idx as int],
                        at_colors(prefix, idx as int),
                        tt.spec_led_rgb(false),
                    );
                    assert(cur == fold_occupants(orig[idx as int], at_colors(prefix, idx as int)));
                    assert(newc == occupant_step(cur, tt.spec_led_rgb(false)));
                    assert(led_strip@ =~= Seq::new(
                        orig.len(),
                        |cell: int|
                            fold_occupants(orig[cell], at_colors(trains@.take(i as int + 1), cell)),
                    ));
                    lemma_keys_of_push(prefix, tt);
                    assert forall|bi: int| 0 <= bi < bands@.len() implies queue_entries(
                        &(#[trigger] bands@[bi]).queue,
                    ).len() == band_count(trains@.take(i as int + 1), bands@[bi].key) by {
                        lemma_band_count_push(prefix, tt, bands@[bi].key);
                    }
                }
            } else {
                let s = match st_opt {
                    Some(s) => s,
                    None => Station::FederalWayDowntown,
                };
                let ib = t.idx_before_next_stop();
                let key = BandKey {
                    station: s,
                    destination: t.destination(),
                    route: t.route(),
                    idx_before: ib,
                };
                proof {
                    lemma_band_in_range(key.route, key.destination, key.station);
                    assert(key == spec_transit_key(tt));
                    assert(key_wf(key));
                    assert(is_transit_train(tt));
                }
                let ghost old_keys = bands@.map_values(|b: Band| b.key);
                let ko = key_order_index(&key);
                let mut pos: usize = 0;
                while pos < bands.len() && key_order_index(&bands[pos].key) < ko
                    invariant
                        pos <= bands@.len(),
                        ko == key_order(key),
                        forall|q: int|
                            0 <= q < pos ==> key_order((#[trigger] bands@[q]).key) < key_order(key),
                    decreases bands@.len() - pos,
                {
                    pos = pos + 1;
                }
                proof {
                    assert(forall|q: int|
                        0 <= q < old_keys.len() ==> #[trigger] old_keys[q] == bands@[q].key);
                    if pos < bands@.len() {
                        assert(key_order(bands@[pos as int].key) >= key_order(key));
                    }
                }
                let found = pos < bands.len() && bands[pos].key == key;
                proof {
                    // the key can only already stand at the scan position
                    if !found && old_keys.contains(key) {
                        let w = choose|w: int| 0 <= w < old_keys.len() && old_keys[w] == key;
                        if w < pos {
                            assert(key_order(old_keys[w]) < key_order(key));
                        } else if w > pos {
                            assert(key_order(old_keys[pos as int]) < key_order(old_keys[w]));
                        }
                        assert(false);
                    }
                    if !found {
                        lemma_count_in_keys(prefix, key);
                        assert(band_count(prefix, key) == 0);
                    }
                    lemma_keys_of_push(prefix, tt);
                    lemma_key_insert_at(old_keys, key, pos as int);
                }
                if found {
                    let ghost pre_bands = bands@;
                    let mut b = bands.remove(pos);
                    pq_push(&mut b.queue, b.next_id, 0i64 - t.next_stop_time_offset());
                    b.next_id = b.next_id + 1;
                    bands.insert(pos, b);
                    proof {
                        assert forall|bi: int|
                            0 <= bi < bands@.len() && bi != pos as int implies #[trigger] bands@[bi]
                            == pre_bands[bi] by {
                            if bi < pos as int {
                                assert(bands@[bi] == pre_bands.remove(pos as int).insert(
                                    pos as int,
                                    b,
                                )[bi]);
                            } else {
                                assert(bands@[bi] == pre_bands.remove(pos as int)[bi - 1]);
                                assert(pre_bands.remove(pos as int)[bi - 1] == pre_bands[bi]);
                            }
                        }
                        assert(bands@[pos as int] == b);
                        assert(bands@.map_values(|b: Band| b.key) =~= old_keys);
                        assert(key_insert(old_keys, key) == old_keys);
                        broadcast use vstd::multiset::lemma_insert_len;

                        assert forall|bi: int| 0 <= bi < bands@.len() implies queue_entries(
                            &(#[trigger] bands@[bi]).queue,
                        ).len() == band_count(trains@.take(i as int + 1), bands@[bi].key) by {
                            lemma_band_count_push(prefix, tt, bands@[bi].key);
                            assert(trains@.take(i as int + 1) == prefix.push(tt));
                            assert(band_count(trains@.take(i as int + 1), bands@[bi].key)
                                == band_count(prefix, bands@[bi].key) + (
                            if is_transit_train(tt) && spec_transit_key(tt) == bands@[bi].key {
                                1int
                            } else {
                                0int
                            }));
                            if bi == pos as int {
                                assert(b.key == key);
                                assert(bands@[bi] == b);
                                assert(queue_entries(&b.queue).len() == queue_entries(
                                    &pre_bands[pos as int].queue,
                                ).len() + 1);
                                assert(queue_entries(&pre_bands[pos as int].queue).len()
                                    == band_count(prefix, key));
                                assert(queue_entries(&bands@[bi].queue).len() == band_count(
                                    prefix,
                                    key,
                                ) + 1);
                                assert(spec_transit_key(tt) == bands@[bi].key);
                            }
                            if bi != pos as int {
                                assert(bands@[bi] == pre_bands[bi]);
                                assert(bands@[bi].key != key) by {
                                    if bands@[bi].key == key {
                                        assert(old_keys[bi] == key);
                                        assert(old_keys[pos as int] == key);
                                        assert(keys_sorted(old_keys));
                                    }
                                }
                            }
                        }
                    }
                } else {
                    proof {
                        if pos < bands@.len() {
                            if key_order(bands@[pos as int].key) == key_order(key) {
                                lemma_key_order_injective(bands@[pos as int].key, key);
                                assert(false);
                            }
                        }
                        lemma_insert_keeps_sorted(old_keys, key, pos as int);
                    }
                    let ghost pre_bands = bands@;
                    let mut q = pq_new();
                    pq_push(&mut q, 0, 0i64 - t.next_stop_time_offset());
                    let fresh = Band { key, queue: q, next_id: 1 };
                    bands.insert(pos, fresh);
                    proof {
                        broadcast use vstd::multiset::lemma_insert_len;

                        assert(bands@.map_values(|b: Band| b.key) =~= old_keys.insert(
                            pos as int,
                            key,
                        ));
                        assert forall|bi: int| 0 <= bi < bands@.len() implies queue_entries(
                            &(#[trigger] bands@[bi]).queue,
                        ).len() == band_count(trains@.take(i as int + 1), bands@[bi].key) by {
                            lemma_band_count_push(prefix, tt, bands@[bi].key);
                            assert(trains@.take(i as int + 1) == prefix.push(tt));
                            if bi == pos as int {
                                assert(bands@[bi] == fresh);
                                assert(queue_entries(&fresh.queue).len() == 1);
                            } else {
                                let old_bi = if bi < pos as int {
                                    bi
                                } else {
                                    bi - 1
                                };
                                assert(bands@[bi] == pre_bands[old_bi]);
                                assert(bands@[bi].key == old_keys[old_bi]);
                                assert(old_keys.contains(old_keys[old_bi]));
                                assert(bands@[bi].key != key);
                                assert(queue_entries(&pre_bands[old_bi].queue).len() == band_count(
                                    prefix,
                                    pre_bands[old_bi].key,
                                ));
                            }
                        }
                    }
                }
                proof {
                    assert forall|cell: int| #[trigger] at_colors(prefix.push(tt), cell)
                        == at_colors(prefix, cell) by {
                        lemma_at_colors_push(prefix, tt, cell);
                    }
                    assert(led_strip@ =~= Seq::new(
                        orig.len(),
                        |cell: int|
                            fold_occupants(orig[cell], at_colors(trains@.take(i as int + 1), cell)),
                    ));
                }
            }
        }
        i = i + 1;
    }
    proof {
        assert(trains@.take(n_trains as int) =~= trains@);
    }
    // flush the bands, first key first
    while bands.len() > 0
        invariant
            led_strip@.len() == MAX_LEDS_FOR_STRIP,
            forall|bi: int| 0 <= bi < bands@.len() ==> key_wf((#[trigger] bands@[bi]).key),
            forall|bi: int|
                0 <= bi < bands@.len() ==> queue_entries(&(#[trigger] bands@[bi]).queue).len()
                    == band_count(trains@, bands@[bi].key),
            apply_bands(led_strip@, trains@, bands@.map_values(|b: Band| b.key))
                == spec_index_trains(orig, trains@),
        decreases bands@.len(),
    {
        let ghost old_keys = bands@.map_values(|b: Band| b.key);
        let ghost entry_strip = led_strip@;
        let mut b = bands.remove(0);
        let ghost k0 = b.key;
        proof {
            assert(bands@.map_values(|b: Band| b.key) =~= old_keys.drop_first());
            assert(old_keys[0] == k0);
        }
        let n = pq_len(&b.queue);
        let cap = leds_between(b.key.route, b.key.destination, b.key.station);
        let up = step_up(b.key.route, b.key.destination, b.key.station);
        proof {
            lemma_band_in_range(b.key.route, b.key.destination, b.key.station);
        }
        let m = if n <= cap {
            n
        } else {
            cap
        };
        let singles = if n <= cap {
            n
        } else if n >= 2 * cap {
            0
        } else {
            cap - (n % cap)
        };
        let color = match b.key.route {
            Route::Line1 => Led::dull_yellow(),
            Route::Line2 => Led::dull_cyan(),
        };
        let ghost nn = n as int;
        let mut j: usize = 0;
        while j < m
            invariant
                j <= m,
                nn == n as int,
                b.key == k0,
                key_wf(k0),
                cap as int == spec_leds_between(k0.route, k0.destination, k0.station),
                1 <= cap <= 8,
                up == spec_step_up(k0.route, k0.destination, k0.station),
                m as int == band_fill(nn, cap as int),
                m <= cap,
                singles as int == band_singles(nn, cap as int),
                singles <= n,
                color == transit_color(k0.route),
                entry_strip.len() == MAX_LEDS_FOR_STRIP,
                led_strip@.len() == MAX_LEDS_FOR_STRIP,
                0 <= k0.idx_before < MAX_LEDS_FOR_STRIP,
                up ==> k0.idx_before + cap <= MAX_LEDS_FOR_STRIP,
                !up ==> k0.idx_before + 1 >= cap,
                queue_entries(&b.queue).len() == nn - (
                if j <= singles {
                    j as int
                } else {
                    singles as int
                }),
                led_strip@ == band_write_upto(entry_strip, k0, nn, j as int),
            decreases m - j,
        {
            if j < singles {
                let popped = pq_pop(&mut b.queue);
            }
            let cell = if up {
                b.key.idx_before + j
            } else {
                b.key.idx_before - j
            };
            let cc = if j < singles {
                color
            } else {
                Led::dull_orange()
            };
            led_strip.set(cell, cc);
            proof {
                assert(cell as int == band_cell(k0, j as int));
                assert(cc == band_cell_color(k0, nn, j as int));
            }
            j = j + 1;
        }
        proof {
            assert(led_strip@ == band_write(entry_strip, k0, nn));
            assert(apply_bands(entry_strip, trains@, old_keys) == apply_bands(
                band_write(entry_strip, k0, band_count(trains@, k0)),
                trains@,
                old_keys.drop_first(),
            ));
        }
    }
    proof {
        assert(apply_bands(led_strip@, trains@, bands@.map_values(|b: Band| b.key)) == led_strip@);
    }
    count
}

/// One full rendering pass over the backdrop.
pub open spec fn spec_render(trains: Seq<Train>) -> Seq<Led> {
    spec_index_trains(spec_markers(), trains)
}

/// Produces one complete frame: the station backdrop with every placeable
/// train laid onto it.
pub fn render(trains: Vec<Train>) -> (res: Vec<Led>)
    ensures
        res@ == spec_render(trains@),
{
    let mut led_strip = station_markers();
    index_trains(&mut led_strip, trains);
    led_strip
}

/// The fault a non-placeable train is reported as.
pub open spec fn spec_fault_of(t: Train) -> TrainFault {
    TrainFault {
        next_stop_name: t.next_stop_name,
        route: t.route,
        destination: t.destination,
        kind: if !t.has_station() {
            TripParseErr::NextStop
        } else {
            TripParseErr::NotInProgress
        },
    }
}

/// Names every train a rendering pass leaves out, in input order: trains
/// whose stop name has no table entry for their line and destination, and
/// trains whose arrival time is negative.
pub fn collect_faults(trains: &Vec<Train>) -> (res: Vec<TrainFault>)
    ensures
        res@ == trains@.filter(|t: Train| !t.is_renderable()).map_values(
            |t: Train| spec_fault_of(t),
        ),
{
    let mut faults: Vec<TrainFault> = Vec::new();
    let mut i: usize = 0;
    proof {
        assert(trains@.take(0) =~= Seq::<Train>::empty());
        assert(faults@ =~= trains@.take(0).filter(|t: Train| !t.is_renderable()).map_values(
            |t: Train| spec_fault_of(t),
        ));
    }
    while i < trains.len()
        invariant
            i <= trains@.len(),
            faults@ == trains@.take(i as int).filter(|t: Train| !t.is_renderable()).map_values(
                |t: Train| spec_fault_of(t),
            ),
        decreases trains@.len() - i,
    {
        let ghost prefix = trains@.take(i as int);
        let ghost tt = trains@[i as int];
        proof {
            assert(trains@.take(i as int + 1) =~= prefix.push(tt));
            broadcast use Seq::lemma_filter_push;

        }
        let t = &trains[i];
        let st_opt = Station::from_name(t.next_stop_name.as_str());
        let has_station = match st_opt {
            Some(s) => station_valid(t.route, t.destination, s),
            None => false,
        };
        if !has_station || t.next_stop_time_offset() < 0 {
            let kind = if !has_station {
                TripParseErr::NextStop
            } else {
                TripParseErr::NotInProgress
            };
            faults.push(
                TrainFault {
                    next_stop_name: t.next_stop_name.clone(),
                    route: t.route,
                    destination: t.destination,
                    kind,
                },
            );
            proof {
                let p = |t: Train| !t.is_renderable();
                assert(p(tt));
                assert(faults@ =~= prefix.push(tt).filter(p).map_values(
                    |t: Train| spec_fault_of(t),
                ));
            }
        } else {
            proof {
                let p = |t: Train| !t.is_renderable();
                assert(!p(tt));
                assert(faults@ =~= prefix.push(tt).filter(p).map_values(
                    |t: Train| spec_fault_of(t),
                ));
            }
        }
        i = i + 1;
    }
    proof {
        assert(trains@.take(trains@.len() as int) =~= trains@);
    }
    faults
}

/// The cells strictly between the given stop and the previous one in the
/// direction the destination implies.
pub fn num_leds_between_stops(route: Route, destination: Destination, next_stop_name: &str) -> (res:
    usize)
    requires
        match station_of_name(next_stop_name@) {
            Some(s) => spec_station_valid(route, destination, s),
            None => false,
        },
    ensures
        res == (match station_of_name(next_stop_name@) {
            Some(s) => spec_leds_between(route, destination, s),
            None => 0,
        }),
{
    match Station::from_name(next_stop_name) {
        Some(s) => leds_between(route, destination, s),
        None => 0,
    }
}

/// The next cell of a band after the given one, walking away from the next
/// station in the direction the family implies.
pub fn get_next_inbetween_idx(
    idx: usize,
    route: Route,
    destination: Destination,
    next_stop_name: &String,
) -> (res: usize)
    requires
        match station_of_name(next_stop_name@) {
            Some(s) => spec_station_valid(route, destination, s),
            None => false,
        },
        (match station_of_name(next_stop_name@) {
            Some(s) => spec_step_up(route, destination, s),
            None => false,
        }) ==> idx < usize::MAX,
        !(match station_of_name(next_stop_name@) {
            Some(s) => spec_step_up(route, destination, s),
            None => false,
        }) ==> idx >= 1,
    ensures
        res == (match station_of_name(next_stop_name@) {
            Some(s) => if spec_step_up(route, destination, s) {
                idx + 1
            } else {
                idx - 1
            },
            None => 0,
        }),
{
    match Station::from_name(next_stop_name.as_str()) {
        Some(s) => {
            if step_up(route, destination, s) {
                idx + 1
            } else {
                idx - 1
            }
        },
        None => 0,
    }
}

// ---------------------------------------------------------------------------
// The map display: the layout engine wired to a strip writer.
// ---------------------------------------------------------------------------

/// The two-line map layout over a physical strip writer.
pub struct MapDisplay<W: SpiWriter> {
    adapter: W,
}

impl<W: SpiWriter> MapDisplay<W> {
    pub fn new(adapter: W) -> (res: Self) {
        MapDisplay { adapter }
    }

    /// Flushes the backdrop-only frame, as a strip self test.
    pub fn show_static_stations(&mut self) -> Result<(), String> {
        let led_strip = station_markers();
        self.adapter.write_rgb(led_strip)
    }
}

impl<W: SpiWriter> LinkBoardDisplay for MapDisplay<W> {
    open spec fn spec_1n_init(&self) -> usize {
        0
    }

    open spec fn spec_1n_staging(&self) -> usize {
        0
    }

    open spec fn spec_1s_init(&self) -> usize {
        0
    }

    open spec fn spec_1s_staging(&self) -> usize {
        0
    }

    fn update_trains(&mut self, trains: Vec<Train>) -> Result<(), String> {
        let led_strip = render(trains);
        self.adapter.write_rgb(led_strip)
    }

    fn clear_trains(&mut self) {
        self.adapter.clear(MAX_LEDS_FOR_STRIP);
    }

    fn init_red(&mut self) -> Result<(), String> {
        let mut led_strip: Vec<Led> = Vec::new();
        let mut i: usize = 0;
        while i < MAX_LEDS_FOR_STRIP
            invariant
                i <= MAX_LEDS_FOR_STRIP,
                led_strip@.len() == i,
            decreases MAX_LEDS_FOR_STRIP - i,
        {
            led_strip.push(Led::red());
            i = i + 1;
        }
        self.adapter.write_rgb(led_strip)
    }

    /// The map layout keeps no single-line init or staging cells.
    fn get_1n_init_idx(&self) -> usize {
        0
    }

    fn get_1n_staging_idx(&self) -> usize {
        0
    }

    fn get_1s_init_idx(&self) -> usize {
        0
    }

    fn get_1s_staging_idx(&self) -> usize {
        0
    }

    fn show_2_line(&self) -> bool {
        true
    }
}

} // verus!
