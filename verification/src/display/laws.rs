use vstd::prelude::*;
use vstd::multiset::Multiset;
use vstd::seq_lib::*;

use crate::constants::MAX_LEDS_FOR_STRIP;
use crate::display::map_display::{
    apply_at_station, apply_bands, at_colors, band_cell, band_cell_color, band_count, band_fill,
    band_singles, band_write, band_write_upto, fold_occupants, is_at_station_train,
    is_transit_train, key_insert, key_order, key_wf, keys_of, keys_sorted, lemma_key_order_injective,
    lemma_key_insert_membership, spec_index_trains, spec_markers, spec_render, spec_transit_key,
    transit_color, BandKey,
};
use crate::display::Route;
use crate::led::Led;
use crate::topology::{lemma_band_in_range, spec_leds_between, spec_step_up};
use crate::train::Train;

verus! {

// ---------------------------------------------------------------------------
// General sequence and multiset facts the laws rest on.
// ---------------------------------------------------------------------------

/// Filtering counts each element exactly when the predicate admits it.
proof fn lemma_filter_count<A>(s: Seq<A>, p: spec_fn(A) -> bool, x: A)
    ensures
        s.filter(p).to_multiset().count(x) == if p(x) {
            s.to_multiset().count(x)
        } else {
            0
        },
    decreases s.len(),
{
    broadcast use group_to_multiset_ensures;
    broadcast use Seq::lemma_filter_push;
    broadcast use vstd::multiset::group_multiset_properties;
    broadcast use vstd::multiset::group_multiset_axioms;

    if s.len() == 0 {
        assert(s.filter(p) =~= s);
        assert(!s.contains(x));
        assert(!s.filter(p).contains(x));
    } else {
        let pre = s.drop_last();
        let t = s.last();
        assert(pre.push(t) =~= s);
        lemma_filter_count(pre, p, x);
        assert(s.to_multiset() =~= pre.to_multiset().insert(t));
        if p(t) {
            assert(s.filter(p) == pre.filter(p).push(t));
            assert(s.filter(p).to_multiset() =~= pre.filter(p).to_multiset().insert(t));
        } else {
            assert(s.filter(p) == pre.filter(p));
        }
    }
}

/// Sequences holding the same elements filter to the same elements.
proof fn lemma_filter_multiset_equal<A>(s1: Seq<A>, s2: Seq<A>, p: spec_fn(A) -> bool)
    requires
        s1.to_multiset() == s2.to_multiset(),
    ensures
        s1.filter(p).to_multiset() == s2.filter(p).to_multiset(),
        s1.filter(p).len() == s2.filter(p).len(),
{
    broadcast use group_to_multiset_ensures;
    broadcast use vstd::multiset::group_multiset_axioms;

    assert(s1.filter(p).to_multiset() =~= s2.filter(p).to_multiset()) by {
        assert forall|x: A| #[trigger] s1.filter(p).to_multiset().count(x) == s2.filter(
            p,
        ).to_multiset().count(x) by {
            lemma_filter_count(s1, p, x);
            lemma_filter_count(s2, p, x);
        }
    }
    assert(s1.filter(p).len() == s1.filter(p).to_multiset().len());
    assert(s2.filter(p).len() == s2.filter(p).to_multiset().len());
}

/// A sequence with exactly one admitted element filters to just it.
proof fn lemma_filter_single<A>(s: Seq<A>, p: spec_fn(A) -> bool, i: int)
    requires
        0 <= i < s.len(),
        p(s[i]),
        forall|l: int| 0 <= l < s.len() && l != i ==> !p(s[l]),
    ensures
        s.filter(p) == seq![s[i]],
    decreases s.len(),
{
    broadcast use Seq::lemma_filter_push;

    let pre = s.drop_last();
    assert(pre.push(s.last()) =~= s);
    if i == s.len() - 1 {
        pre.lemma_all_neg_filter_empty(p);
        assert(s.filter(p) =~= seq![s[i]]);
    } else {
        lemma_filter_single(pre, p, i);
        assert(!p(s.last()));
    }
}

// ---------------------------------------------------------------------------
// What one band write leaves on the strip.
// ---------------------------------------------------------------------------

/// Band writes keep the strip's length.
proof fn lemma_band_write_upto_len(frame: Seq<Led>, k: BandKey, n: int, m: int)
    requires
        key_wf(k),
        frame.len() == MAX_LEDS_FOR_STRIP,
        m <= spec_leds_between(k.route, k.destination, k.station),
    ensures
        band_write_upto(frame, k, n, m).len() == frame.len(),
    decreases m,
{
    if m > 0 {
        lemma_band_write_upto_len(frame, k, n, m - 1);
        lemma_band_in_range(k.route, k.destination, k.station);
    }
}

/// After m cells of a band are written, the j-th holds its color.
proof fn lemma_band_write_upto_cell(frame: Seq<Led>, k: BandKey, n: int, m: int, j: int)
    requires
        key_wf(k),
        frame.len() == MAX_LEDS_FOR_STRIP,
        0 <= j < m,
        m <= spec_leds_between(k.route, k.destination, k.station),
    ensures
        band_write_upto(frame, k, n, m)[band_cell(k, j)] == band_cell_color(k, n, j),
    decreases m,
{
    lemma_band_in_range(k.route, k.destination, k.station);
    lemma_band_write_upto_len(frame, k, n, m - 1);
    if j < m - 1 {
        lemma_band_write_upto_cell(frame, k, n, m - 1, j);
    }
}

/// Cells a band does not reach keep their value.
proof fn lemma_band_write_upto_untouched(frame: Seq<Led>, k: BandKey, n: int, m: int, cell: int)
    requires
        key_wf(k),
        frame.len() == MAX_LEDS_FOR_STRIP,
        m <= spec_leds_between(k.route, k.destination, k.station),
        0 <= cell < frame.len(),
        forall|j: int| 0 <= j < m ==> band_cell(k, j) != cell,
    ensures
        band_write_upto(frame, k, n, m)[cell] == frame[cell],
    decreases m,
{
    if m > 0 {
        lemma_band_in_range(k.route, k.destination, k.station);
        lemma_band_write_upto_len(frame, k, n, m - 1);
        lemma_band_write_upto_untouched(frame, k, n, m - 1, cell);
    }
}

/// The cells of one band never coincide.
pub proof fn lemma_band_cells_distinct(k: BandKey, j1: int, j2: int)
    requires
        j1 != j2,
    ensures
        band_cell(k, j1) != band_cell(k, j2),
{
}

/// With room for every train, each of the n contending trains gets its own
/// cell: the n cells written are pairwise distinct and each carries the
/// line's own transit color, not the overflow marker.
pub proof fn lemma_band_all_fit(frame: Seq<Led>, k: BandKey, n: int)
    requires
        key_wf(k),
        frame.len() == MAX_LEDS_FOR_STRIP,
        0 <= n <= spec_leds_between(k.route, k.destination, k.station),
    ensures
        forall|j: int|
            0 <= j < n ==> band_write(frame, k, n)[#[trigger] band_cell(k, j)] == transit_color(
                k.route,
            ),
        forall|j1: int, j2: int|
            0 <= j1 < n && 0 <= j2 < n && j1 != j2 ==> #[trigger] band_cell(k, j1)
                != #[trigger] band_cell(k, j2),
        transit_color(k.route) != Led::spec_dull_orange(),
{
    let c = spec_leds_between(k.route, k.destination, k.station);
    assert(band_fill(n, c) == n);
    assert(band_singles(n, c) == n);
    assert forall|j: int| 0 <= j < n implies band_write(frame, k, n)[#[trigger] band_cell(k, j)]
        == transit_color(k.route) by {
        lemma_band_write_upto_cell(frame, k, n, n, j);
    }
}

/// With at least twice as many trains as cells, every cell of the band
/// carries the overflow indicator color.
pub proof fn lemma_band_overflow(frame: Seq<Led>, k: BandKey, n: int)
    requires
        key_wf(k),
        frame.len() == MAX_LEDS_FOR_STRIP,
        n >= 2 * spec_leds_between(k.route, k.destination, k.station),
    ensures
        forall|j: int|
            0 <= j < spec_leds_between(k.route, k.destination, k.station) ==> band_write(
                frame,
                k,
                n,
            )[#[trigger] band_cell(k, j)] == Led::spec_dull_orange(),
{
    let c = spec_leds_between(k.route, k.destination, k.station);
    lemma_band_in_range(k.route, k.destination, k.station);
    assert(band_fill(n, c) == c);
    assert(band_singles(n, c) == 0);
    assert forall|j: int| 0 <= j < c implies band_write(frame, k, n)[#[trigger] band_cell(k, j)]
        == Led::spec_dull_orange() by {
        lemma_band_write_upto_cell(frame, k, n, c, j);
    }
}

/// With more trains than cells but not twice as many, exactly `c - (n % c)`
/// cells nearest the next station carry single-train colors and the remaining
/// `n % c` cells carry the overflow indicator; all c cells are written and
/// pairwise distinct.
pub proof fn lemma_band_split(frame: Seq<Led>, k: BandKey, n: int)
    requires
        key_wf(k),
        frame.len() == MAX_LEDS_FOR_STRIP,
        spec_leds_between(k.route, k.destination, k.station) < n,
        n < 2 * spec_leds_between(k.route, k.destination, k.station),
    ensures
        band_singles(n, spec_leds_between(k.route, k.destination, k.station))
            == spec_leds_between(k.route, k.destination, k.station) - (n % spec_leds_between(
            k.route,
            k.destination,
            k.station,
        )),
        forall|j: int|
            0 <= j < band_singles(n, spec_leds_between(k.route, k.destination, k.station))
                ==> band_write(frame, k, n)[#[trigger] band_cell(k, j)] == transit_color(k.route),
        forall|j: int|
            band_singles(n, spec_leds_between(k.route, k.destination, k.station)) <= j
                < spec_leds_between(k.route, k.destination, k.station) ==> band_write(
                frame,
                k,
                n,
            )[#[trigger] band_cell(k, j)] == Led::spec_dull_orange(),
        band_fill(n, spec_leds_between(k.route, k.destination, k.station)) == spec_leds_between(
            k.route,
            k.destination,
            k.station,
        ),
        transit_color(k.route) != Led::spec_dull_orange(),
{
    let c = spec_leds_between(k.route, k.destination, k.station);
    lemma_band_in_range(k.route, k.destination, k.station);
    assert forall|j: int| 0 <= j < c implies band_write(frame, k, n)[#[trigger] band_cell(k, j)]
        == band_cell_color(k, n, j) by {
        lemma_band_write_upto_cell(frame, k, n, c, j);
    }
}

// ---------------------------------------------------------------------------
// A lone at-station train keeps its own color on its anchor.
// ---------------------------------------------------------------------------

/// Whether a band's written cells reach the given cell.
pub open spec fn band_covers(trains: Seq<Train>, k: BandKey, cell: int) -> bool {
    exists|j: int|
        0 <= j < band_fill(
            band_count(trains, k),
            spec_leds_between(k.route, k.destination, k.station),
        ) && band_cell(k, j) == cell
}

/// Bands that do not reach a cell leave it alone.
proof fn lemma_apply_bands_untouched(frame: Seq<Led>, trains: Seq<Train>, ks: Seq<BandKey>, cell: int)
    requires
        frame.len() == MAX_LEDS_FOR_STRIP,
        0 <= cell < frame.len(),
        forall|x: int| 0 <= x < ks.len() ==> key_wf(#[trigger] ks[x]),
        forall|x: int| 0 <= x < ks.len() ==> !band_covers(trains, #[trigger] ks[x], cell),
    ensures
        apply_bands(frame, trains, ks)[cell] == frame[cell],
        apply_bands(frame, trains, ks).len() == frame.len(),
    decreases ks.len(),
{
    if ks.len() > 0 {
        let k = ks[0];
        let n = band_count(trains, k);
        let c = spec_leds_between(k.route, k.destination, k.station);
        lemma_band_in_range(k.route, k.destination, k.station);
        lemma_band_write_upto_len(frame, k, n, band_fill(n, c));
        lemma_band_write_upto_untouched(frame, k, n, band_fill(n, c), cell);
        let rest = ks.drop_first();
        assert(forall|x: int| 0 <= x < rest.len() ==> #[trigger] rest[x] == ks[x + 1]);
        lemma_apply_bands_untouched(band_write(frame, k, n), trains, rest, cell);
    }
}

/// Every key the engine builds is well formed.
pub proof fn lemma_transit_key_wf(t: Train)
    requires
        is_transit_train(t),
    ensures
        key_wf(spec_transit_key(t)),
{
    let k = spec_transit_key(t);
    lemma_band_in_range(k.route, k.destination, k.station);
}

/// Membership in an inserted key list, over every key at once.
proof fn lemma_key_insert_membership_all(ks: Seq<BandKey>, k: BandKey)
    ensures
        forall|x: BandKey| key_insert(ks, k).contains(x) <==> (ks.contains(x) || x == k),
{
    assert forall|x: BandKey| key_insert(ks, k).contains(x) <==> (ks.contains(x) || x == k) by {
        lemma_key_insert_membership(ks, k, x);
    }
}

/// `key_insert` keeps key lists sorted and well formed, and only adds the
/// inserted key.
proof fn lemma_key_insert_sorted(ks: Seq<BandKey>, k: BandKey)
    requires
        keys_sorted(ks),
        key_wf(k),
        forall|x: int| 0 <= x < ks.len() ==> key_wf(#[trigger] ks[x]),
    ensures
        keys_sorted(key_insert(ks, k)),
        forall|x: int| 0 <= x < key_insert(ks, k).len() ==> key_wf(#[trigger] key_insert(ks, k)[x]),
        forall|x: BandKey| key_insert(ks, k).contains(x) <==> (ks.contains(x) || x == k),
    decreases ks.len(),
{
    lemma_key_insert_membership_all(ks, k);
    if ks.len() == 0 {
    } else if ks[0] == k {
    } else if key_order(ks[0]) < key_order(k) {
        let rest = ks.drop_first();
        assert(forall|x: int| 0 <= x < rest.len() ==> #[trigger] rest[x] == ks[x + 1]);
        assert(keys_sorted(rest)) by {
            assert forall|p: int, q: int|
                #![trigger rest[p], rest[q]]
                0 <= p < q < rest.len() implies key_order(rest[p]) < key_order(rest[q]) by {
                assert(rest[p] == ks[p + 1]);
                assert(rest[q] == ks[q + 1]);
            }
        }
        lemma_key_insert_sorted(rest, k);
        let ins = key_insert(rest, k);
        let out = key_insert(ks, k);
        assert(out == seq![ks[0]] + ins);
        assert(forall|x: int| 1 <= x < out.len() ==> #[trigger] out[x] == ins[x - 1]);
        assert(out[0] == ks[0]);
        assert forall|p: int, q: int|
            #![trigger out[p], out[q]]
            0 <= p < q < out.len() implies key_order(out[p]) < key_order(out[q]) by {
            if p == 0 {
                let e = ins[q - 1];
                assert(ins.contains(e));
                if e == k {
                } else {
                    assert(rest.contains(e));
                    let w = choose|w: int| 0 <= w < rest.len() && rest[w] == e;
                    assert(rest[w] == ks[w + 1]);
                    if w + 1 > 0 {
                        assert(key_order(ks[0]) < key_order(ks[w + 1]));
                    }
                }
            } else {
                assert(out[p] == ins[p - 1] && out[q] == ins[q - 1]);
            }
        }
    } else {
        assert(key_order(k) < key_order(ks[0])) by {
            if key_order(k) == key_order(ks[0]) {
                lemma_key_order_injective(k, ks[0]);
            }
        }
        let out = key_insert(ks, k);
        assert(out == seq![k] + ks);
        assert(forall|x: int| 1 <= x < out.len() ==> #[trigger] out[x] == ks[x - 1]);
        assert forall|p: int, q: int|
            #![trigger out[p], out[q]]
            0 <= p < q < out.len() implies key_order(out[p]) < key_order(out[q]) by {
            if p == 0 {
                assert(out[q] == ks[q - 1]);
                if q - 1 > 0 {
                    assert(key_order(ks[0]) < key_order(ks[q - 1]));
                }
            }
        }
    }
}

/// The key list of any snapshot is sorted and well formed.
pub proof fn lemma_keys_of_sorted_wf(trains: Seq<Train>)
    ensures
        keys_sorted(keys_of(trains)),
        forall|x: int| 0 <= x < keys_of(trains).len() ==> key_wf(#[trigger] keys_of(trains)[x]),
    decreases trains.len(),
{
    if trains.len() > 0 {
        let pre = trains.drop_last();
        lemma_keys_of_sorted_wf(pre);
        if is_transit_train(trains.last()) {
            lemma_transit_key_wf(trains.last());
            lemma_key_insert_sorted(keys_of(pre), spec_transit_key(trains.last()));
        }
    }
}

/// A key is listed exactly when some train contends for it.
pub proof fn lemma_keys_iff_count(trains: Seq<Train>, k: BandKey)
    ensures
        keys_of(trains).contains(k) <==> band_count(trains, k) > 0,
    decreases trains.len(),
{
    broadcast use Seq::lemma_filter_push;

    if trains.len() == 0 {
        broadcast use Seq::lemma_filter_len;

        assert(band_count(trains, k) == 0);
    } else {
        let pre = trains.drop_last();
        let t = trains.last();
        assert(pre.push(t) =~= trains);
        lemma_keys_iff_count(pre, k);
        if is_transit_train(t) {
            lemma_key_insert_membership(keys_of(pre), spec_transit_key(t), k);
        }
    }
}

/// Two sorted key lists with the same members are the same list.
proof fn lemma_sorted_keys_equal(a: Seq<BandKey>, b: Seq<BandKey>)
    requires
        keys_sorted(a),
        keys_sorted(b),
        forall|x: BandKey| a.contains(x) <==> b.contains(x),
    ensures
        a == b,
    decreases a.len(),
{
    if a.len() == 0 {
        if b.len() > 0 {
            assert(b.contains(b[0]));
            assert(a.contains(b[0]));
        }
        assert(a =~= b);
    } else {
        assert(a.contains(a[0]));
        assert(b.contains(a[0]));
        assert(b.len() > 0);
        assert(b.contains(b[0]));
        assert(a.contains(b[0]));
        let w = choose|w: int| 0 <= w < b.len() && b[w] == a[0];
        let v = choose|v: int| 0 <= v < a.len() && a[v] == b[0];
        assert(key_order(a[0]) == key_order(b[0])) by {
            if w > 0 {
                assert(key_order(b[0]) < key_order(b[w]));
            }
            if v > 0 {
                assert(key_order(a[0]) < key_order(a[v]));
            }
        }
        assert(a[0] == b[0]) by {
            if w > 0 {
                assert(key_order(b[0]) < key_order(b[w]));
            }
        }
        let at = a.drop_first();
        let bt = b.drop_first();
        assert(forall|x: int| 0 <= x < at.len() ==> #[trigger] at[x] == a[x + 1]);
        assert(forall|x: int| 0 <= x < bt.len() ==> #[trigger] bt[x] == b[x + 1]);
        assert(keys_sorted(at)) by {
            assert forall|p: int, q: int|
                #![trigger at[p], at[q]]
                0 <= p < q < at.len() implies key_order(at[p]) < key_order(at[q]) by {
                assert(at[p] == a[p + 1] && at[q] == a[q + 1]);
            }
        }
        assert(keys_sorted(bt)) by {
            assert forall|p: int, q: int|
                #![trigger bt[p], bt[q]]
                0 <= p < q < bt.len() implies key_order(bt[p]) < key_order(bt[q]) by {
                assert(bt[p] == b[p + 1] && bt[q] == b[q + 1]);
            }
        }
        assert forall|x: BandKey| at.contains(x) <==> bt.contains(x) by {
            if at.contains(x) {
                let u = choose|u: int| 0 <= u < at.len() && at[u] == x;
                assert(a[u + 1] == x);
                assert(key_order(a[0]) < key_order(x));
                assert(a.contains(x));
                assert(b.contains(x));
                let z = choose|z: int| 0 <= z < b.len() && b[z] == x;
                assert(z > 0) by {
                    if z == 0 {
                        assert(x == b[0]);
                    }
                }
                assert(bt[z - 1] == x);
            }
            if bt.contains(x) {
                let u = choose|u: int| 0 <= u < bt.len() && bt[u] == x;
                assert(b[u + 1] == x);
                assert(key_order(b[0]) < key_order(x));
                assert(b.contains(x));
                assert(a.contains(x));
                let z = choose|z: int| 0 <= z < a.len() && a[z] == x;
                assert(z > 0) by {
                    if z == 0 {
                        assert(x == a[0]);
                    }
                }
                assert(at[z - 1] == x);
            }
        }
        lemma_sorted_keys_equal(at, bt);
        assert forall|x: int| 0 <= x < a.len() implies a[x] == b[x] by {
            if x > 0 {
                assert(a[x] == at[x - 1]);
                assert(b[x] == bt[x - 1]);
            }
        }
        assert(a =~= b);
    }
}

/// Band contents decide band writes: equal counts give equal passes.
proof fn lemma_apply_bands_count_eq(
    frame: Seq<Led>,
    t1: Seq<Train>,
    t2: Seq<Train>,
    ks: Seq<BandKey>,
)
    requires
        forall|x: int| 0 <= x < ks.len() ==> band_count(t1, #[trigger] ks[x]) == band_count(t2, ks[x]),
    ensures
        apply_bands(frame, t1, ks) == apply_bands(frame, t2, ks),
    decreases ks.len(),
{
    if ks.len() > 0 {
        let rest = ks.drop_first();
        assert(forall|x: int| 0 <= x < rest.len() ==> #[trigger] rest[x] == ks[x + 1]);
        lemma_apply_bands_count_eq(band_write(frame, ks[0], band_count(t1, ks[0])), t1, t2, rest);
    }
}

/// Occupant colors are the at-station line colors.
proof fn lemma_at_colors_elements(trains: Seq<Train>, cell: int)
    ensures
        forall|x: int|
            0 <= x < at_colors(trains, cell).len() ==> #[trigger] at_colors(trains, cell)[x]
                == Led::spec_green() || at_colors(trains, cell)[x] == Led::spec_blue(),
{
    broadcast use group_filter_ensures;

    let p = |t: Train| is_at_station_train(t) && t.spec_map_idx() == cell;
    assert forall|x: int| 0 <= x < at_colors(trains, cell).len() implies #[trigger] at_colors(
        trains,
        cell,
    )[x] == Led::spec_green() || at_colors(trains, cell)[x] == Led::spec_blue() by {
        let t = trains.filter(p)[x];
        assert(p(t));
        assert(at_colors(trains, cell)[x] == t.spec_led_rgb(false));
    }
}

/// Folding two or more at-station trains onto one cell gives the
/// multiple-occupant marker, whatever their order.
proof fn lemma_fold_occupants_multi(init: Led, cs: Seq<Led>)
    requires
        cs.len() >= 1,
        forall|x: int|
            0 <= x < cs.len() ==> #[trigger] cs[x] == Led::spec_green() || cs[x]
                == Led::spec_blue(),
    ensures
        fold_occupants(init, cs) != Led::spec_off(),
        fold_occupants(init, cs) != Led::spec_dull_white(),
        cs.len() >= 2 ==> fold_occupants(init, cs) == Led::spec_purple(),
    decreases cs.len(),
{
    let pre = cs.drop_last();
    if cs.len() >= 2 {
        assert(forall|x: int| 0 <= x < pre.len() ==> #[trigger] pre[x] == cs[x]);
        lemma_fold_occupants_multi(init, pre);
    }
}

// ---------------------------------------------------------------------------
// The laws themselves.
// ---------------------------------------------------------------------------

/// An at-station train that shares its anchor with no other train, and whose
/// anchor no band reaches, keeps its own color on the finished frame.
pub proof fn lemma_sole_at_station_pixel(trains: Seq<Train>, i: int)
    requires
        0 <= i < trains.len(),
        is_at_station_train(trains[i]),
        forall|l: int|
            0 <= l < trains.len() && l != i ==> !(is_at_station_train(#[trigger] trains[l])
                && trains[l].spec_map_idx() == trains[i].spec_map_idx()),
        forall|k: BandKey|
            keys_of(trains).contains(k) ==> !band_covers(trains, k, trains[i].spec_map_idx()),
    ensures
        spec_render(trains)[trains[i].spec_map_idx()] == trains[i].spec_led_rgb(false),
{
    let t = trains[i];
    let cell = t.spec_map_idx();
    match crate::stations::station_of_name(t.next_stop_name@) {
        Some(s) => {
            lemma_band_in_range(t.route, t.destination, s);
        },
        None => {
            assert(false);
        },
    }
    assert(0 <= cell < MAX_LEDS_FOR_STRIP);
    let p = |tt: Train| is_at_station_train(tt) && tt.spec_map_idx() == cell;
    lemma_filter_single(trains, p, i);
    assert(at_colors(trains, cell) =~= seq![t.spec_led_rgb(false)]);
    let markers = spec_markers();
    let base = apply_at_station(markers, trains);
    assert(fold_occupants(markers[cell], at_colors(trains, cell)) == t.spec_led_rgb(false)) by {
        let cs = at_colors(trains, cell);
        assert(cs.drop_last() =~= Seq::<Led>::empty());
        assert(fold_occupants(markers[cell], cs.drop_last()) == markers[cell]);
    }
    assert(base[cell] == t.spec_led_rgb(false));
    lemma_keys_of_sorted_wf(trains);
    let ks = keys_of(trains);
    assert forall|x: int| 0 <= x < ks.len() implies !band_covers(trains, #[trigger] ks[x], cell) by {
        assert(ks.contains(ks[x]));
    }
    lemma_apply_bands_untouched(base, trains, ks, cell);
}

/// Rendering no trains gives exactly the backdrop frame.
pub proof fn lemma_render_empty()
    ensures
        spec_render(Seq::<Train>::empty()) == spec_markers(),
{
    let e = Seq::<Train>::empty();
    broadcast use Seq::lemma_filter_len;

    assert(keys_of(e) =~= Seq::<BandKey>::empty());
    assert forall|cell: int| #[trigger] at_colors(e, cell) =~= Seq::<Led>::empty() by {
        e.lemma_filter_len(|t: Train| is_at_station_train(t) && t.spec_map_idx() == cell);
    }
    assert(apply_at_station(spec_markers(), e) =~= spec_markers());
}

/// Rendering does not depend on the order trains arrive in: two snapshots
/// holding the same trains give the same frame.
pub proof fn lemma_render_order_independent(t1: Seq<Train>, t2: Seq<Train>)
    requires
        t1.to_multiset() == t2.to_multiset(),
    ensures
        spec_render(t1) == spec_render(t2),
{
    broadcast use group_to_multiset_ensures;
    broadcast use vstd::multiset::group_multiset_axioms;

    let markers = spec_markers();
    // the at-station layer agrees cell by cell
    assert forall|cell: int| #[trigger] fold_occupants(markers[cell], at_colors(t1, cell))
        == fold_occupants(markers[cell], at_colors(t2, cell)) by {
        let p = |tt: Train| is_at_station_train(tt) && tt.spec_map_idx() == cell;
        lemma_filter_multiset_equal(t1, t2, p);
        let f1 = t1.filter(p);
        let f2 = t2.filter(p);
        assert(f1.len() == f2.len());
        lemma_at_colors_elements(t1, cell);
        lemma_at_colors_elements(t2, cell);
        if f1.len() == 0 {
            assert(at_colors(t1, cell) =~= at_colors(t2, cell));
        } else if f1.len() == 1 {
            assert(f1.contains(f1[0]));
            assert(f1.to_multiset().count(f1[0]) > 0);
            assert(f2.to_multiset().count(f1[0]) > 0);
            assert(f2.contains(f1[0]));
            let w = choose|w: int| 0 <= w < f2.len() && f2[w] == f1[0];
            assert(w == 0);
            assert(at_colors(t1, cell) =~= at_colors(t2, cell));
        } else {
            lemma_fold_occupants_multi(markers[cell], at_colors(t1, cell));
            lemma_fold_occupants_multi(markers[cell], at_colors(t2, cell));
        }
    }
    assert(apply_at_station(markers, t1) =~= apply_at_station(markers, t2));
    // the bands and their contents agree
    lemma_keys_of_sorted_wf(t1);
    lemma_keys_of_sorted_wf(t2);
    assert forall|k: BandKey| #[trigger] band_count(t1, k) == band_count(t2, k) by {
        lemma_filter_multiset_equal(
            t1,
            t2,
            |tt: Train| is_transit_train(tt) && spec_transit_key(tt) == k,
        );
    }
    assert forall|x: BandKey| keys_of(t1).contains(x) <==> keys_of(t2).contains(x) by {
        lemma_keys_iff_count(t1, x);
        lemma_keys_iff_count(t2, x);
    }
    lemma_sorted_keys_equal(keys_of(t1), keys_of(t2));
    lemma_apply_bands_count_eq(apply_at_station(markers, t1), t1, t2, keys_of(t1));
}

/// The junction regression fixture: a westbound line-2 train whose next stop
/// is the shared junction station gets its band start from the last
/// line-2-only station's cell plus the junction gap, landing on cell 254.
pub proof fn lemma_junction_band_start()
    ensures
        crate::topology::spec_idx_before(
            Route::Line2,
            crate::constants::Destination::LynnwoodCC,
            crate::stations::Station::IntlDistChinatown,
        ) == 254,
{
}

} // verus!
