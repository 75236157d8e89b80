//! The bounded neighbor lookup: the Moore neighborhood of a coordinate,
//! filtered to the grid — no wraparound, so edge and corner cells have fewer
//! candidate neighbors.

use vstd::prelude::*;

use crate::grid::{in_bounds, live_flag, neighbor_count, OutOfBounds};

verus! {

/// The singleton `[c]` if `c` lies inside the `w × h` grid, else empty.
pub open spec fn cand_one(w: int, h: int, c: (int, int)) -> Seq<(int, int)> {
    if in_bounds(w, h, c.0, c.1) {
        seq![c]
    } else {
        seq![]
    }
}

/// The in-bounds Moore neighborhood of `(x, y)` in a fixed scan order:
/// the row above, then the two horizontal neighbors, then the row below.
pub open spec fn candidate_seq(w: int, h: int, x: int, y: int) -> Seq<(int, int)> {
    cand_one(w, h, (x - 1, y - 1)) + cand_one(w, h, (x, y - 1)) + cand_one(w, h, (x + 1, y - 1))
        + cand_one(w, h, (x - 1, y)) + cand_one(w, h, (x + 1, y)) + cand_one(w, h, (x - 1, y + 1))
        + cand_one(w, h, (x, y + 1)) + cand_one(w, h, (x + 1, y + 1))
}

/// 1 if `(x, y)` lies inside the `w × h` grid, 0 otherwise.
pub open spec fn bound_flag(w: int, h: int, x: int, y: int) -> nat {
    if in_bounds(w, h, x, y) {
        1
    } else {
        0
    }
}

/// How many of the up-to-8 Moore neighbors of `(x, y)` lie inside the grid.
pub open spec fn candidate_count(w: int, h: int, x: int, y: int) -> nat {
    bound_flag(w, h, x - 1, y - 1) + bound_flag(w, h, x, y - 1) + bound_flag(w, h, x + 1, y - 1)
        + bound_flag(w, h, x - 1, y) + bound_flag(w, h, x + 1, y) + bound_flag(w, h, x - 1, y + 1)
        + bound_flag(w, h, x, y + 1) + bound_flag(w, h, x + 1, y + 1)
}

/// The candidate sequence has exactly `candidate_count` entries.
pub proof fn lemma_candidate_seq_len(w: int, h: int, x: int, y: int)
    ensures
        candidate_seq(w, h, x, y).len() == candidate_count(w, h, x, y),
{
}

/// Corner cells have 3 candidate neighbors, non-corner edge cells 5, and
/// interior cells 8, on any grid of at least 2×2.
pub proof fn lemma_boundary_candidate_counts(w: int, h: int, x: int, y: int)
    requires
        w >= 2,
        h >= 2,
        in_bounds(w, h, x, y),
    ensures
        (x == 0 || x == w - 1) && (y == 0 || y == h - 1) ==> candidate_count(w, h, x, y) == 3,
        ((x == 0 || x == w - 1) && 0 < y < h - 1) || ((y == 0 || y == h - 1) && 0 < x < w - 1)
            ==> candidate_count(w, h, x, y) == 5,
        0 < x < w - 1 && 0 < y < h - 1 ==> candidate_count(w, h, x, y) == 8,
{
}

/// How many coordinates of `cands` hold a live cell of the committed
/// generation `g` of a grid `w` cells wide.
pub open spec fn live_count_in(g: Seq<bool>, w: int, cands: Seq<(int, int)>) -> nat
    decreases cands.len(),
{
    if cands.len() == 0 {
        0
    } else {
        (if g[cands[0].1 * w + cands[0].0] {
            1nat
        } else {
            0nat
        }) + live_count_in(g, w, cands.drop_first())
    }
}

/// Counting live cells distributes over concatenation of candidate lists.
proof fn lemma_live_count_concat(g: Seq<bool>, w: int, a: Seq<(int, int)>, b: Seq<(int, int)>)
    ensures
        live_count_in(g, w, a + b) == live_count_in(g, w, a) + live_count_in(g, w, b),
    decreases a.len(),
{
    if a.len() == 0 {
        assert(a + b =~= b);
    } else {
        assert((a + b).drop_first() =~= a.drop_first() + b);
        lemma_live_count_concat(g, w, a.drop_first(), b);
    }
}

/// Counting live cells along one conditional singleton yields that
/// coordinate's live flag.
proof fn lemma_live_count_one(g: Seq<bool>, w: int, h: int, c: (int, int))
    ensures
        live_count_in(g, w, cand_one(w, h, c)) == live_flag(g, w, h, c.0, c.1),
{
    let s = cand_one(w, h, c);
    if in_bounds(w, h, c.0, c.1) {
        assert(s[0] == c);
        assert(s.drop_first() =~= Seq::<(int, int)>::empty());
        assert(live_count_in(g, w, s.drop_first()) == 0);
    } else {
        assert(live_count_in(g, w, s) == 0);
    }
}

/// The live-neighbor count of a cell is exactly the number of its candidate
/// neighbors — the bounded Moore neighborhood — that are alive in the
/// committed generation.
pub proof fn lemma_neighbor_count_via_candidates(g: Seq<bool>, w: int, h: int, x: int, y: int)
    ensures
        live_count_in(g, w, candidate_seq(w, h, x, y)) == neighbor_count(g, w, h, x, y),
{
    let c1 = cand_one(w, h, (x - 1, y - 1));
    let c2 = cand_one(w, h, (x, y - 1));
    let c3 = cand_one(w, h, (x + 1, y - 1));
    let c4 = cand_one(w, h, (x - 1, y));
    let c5 = cand_one(w, h, (x + 1, y));
    let c6 = cand_one(w, h, (x - 1, y + 1));
    let c7 = cand_one(w, h, (x, y + 1));
    let c8 = cand_one(w, h, (x + 1, y + 1));
    lemma_live_count_concat(g, w, c1 + c2 + c3 + c4 + c5 + c6 + c7, c8);
    lemma_live_count_concat(g, w, c1 + c2 + c3 + c4 + c5 + c6, c7);
    lemma_live_count_concat(g, w, c1 + c2 + c3 + c4 + c5, c6);
    lemma_live_count_concat(g, w, c1 + c2 + c3 + c4, c5);
    lemma_live_count_concat(g, w, c1 + c2 + c3, c4);
    lemma_live_count_concat(g, w, c1 + c2, c3);
    lemma_live_count_concat(g, w, c1, c2);
    lemma_live_count_one(g, w, h, (x - 1, y - 1));
    lemma_live_count_one(g, w, h, (x, y - 1));
    lemma_live_count_one(g, w, h, (x + 1, y - 1));
    lemma_live_count_one(g, w, h, (x - 1, y));
    lemma_live_count_one(g, w, h, (x + 1, y));
    lemma_live_count_one(g, w, h, (x - 1, y + 1));
    lemma_live_count_one(g, w, h, (x, y + 1));
    lemma_live_count_one(g, w, h, (x + 1, y + 1));
}

/// The coordinates of the candidate neighbors of `(x, y)`: the Moore
/// neighborhood clipped to the grid, in the fixed scan order of
/// `candidate_seq`. Out-of-bounds inputs are rejected with `OutOfBounds`.
pub fn neighbors_of(width: usize, height: usize, x: usize, y: usize) -> (r: Result<
    Vec<(usize, usize)>,
    OutOfBounds,
>)
    ensures
        in_bounds(width as int, height as int, x as int, y as int) ==> {
            &&& r is Ok
            &&& r->Ok_0@.map_values(|c: (usize, usize)| (c.0 as int, c.1 as int))
                == candidate_seq(width as int, height as int, x as int, y as int)
            &&& r->Ok_0@.len() == candidate_count(width as int, height as int, x as int, y as int)
        },
        !in_bounds(width as int, height as int, x as int, y as int) ==> r == Err::<
            Vec<(usize, usize)>,
            OutOfBounds,
        >(OutOfBounds),
{
    let ghost w = width as int;
    let ghost h = height as int;
    let ghost xi = x as int;
    let ghost yi = y as int;
    let ghost to_int = |c: (usize, usize)| (c.0 as int, c.1 as int);
    if !(x < width && y < height) {
        return Err(OutOfBounds);
    }
    let mut v: Vec<(usize, usize)> = Vec::new();
    if x > 0 && y > 0 {
        v.push((x - 1, y - 1));
    }
    proof {
        assert(v@.map_values(to_int) =~= cand_one(w, h, (xi - 1, yi - 1)));
    }
    let ghost m1 = v@.map_values(to_int);
    if y > 0 {
        v.push((x, y - 1));
    }
    proof {
        assert(v@.map_values(to_int) =~= m1 + cand_one(w, h, (xi, yi - 1)));
    }
    let ghost m2 = v@.map_values(to_int);
    if x + 1 < width && y > 0 {
        v.push((x + 1, y - 1));
    }
    proof {
        assert(v@.map_values(to_int) =~= m2 + cand_one(w, h, (xi + 1, yi - 1)));
    }
    let ghost m3 = v@.map_values(to_int);
    if x > 0 {
        v.push((x - 1, y));
    }
    proof {
        assert(v@.map_values(to_int) =~= m3 + cand_one(w, h, (xi - 1, yi)));
    }
    let ghost m4 = v@.map_values(to_int);
    if x + 1 < width {
        v.push((x + 1, y));
    }
    proof {
        assert(v@.map_values(to_int) =~= m4 + cand_one(w, h, (xi + 1, yi)));
    }
    let ghost m5 = v@.map_values(to_int);
    if x > 0 && y + 1 < height {
        v.push((x - 1, y + 1));
    }
    proof {
        assert(v@.map_values(to_int) =~= m5 + cand_one(w, h, (xi - 1, yi + 1)));
    }
    let ghost m6 = v@.map_values(to_int);
    if y + 1 < height {
        v.push((x, y + 1));
    }
    proof {
        assert(v@.map_values(to_int) =~= m6 + cand_one(w, h, (xi, yi + 1)));
    }
    let ghost m7 = v@.map_values(to_int);
    if x + 1 < width && y + 1 < height {
        v.push((x + 1, y + 1));
    }
    proof {
        assert(v@.map_values(to_int) =~= m7 + cand_one(w, h, (xi + 1, yi + 1)));
        assert(v@.map_values(to_int) =~= candidate_seq(w, h, xi, yi));
        lemma_candidate_seq_len(w, h, xi, yi);
        assert(v@.len() == v@.map_values(to_int).len());
    }
    Ok(v)
}

} // verus!
