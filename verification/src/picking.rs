//! A model of what the identity pass leaves at a pixel, and the rules the
//! picking resolver relies on.
//!
//! The identity pass renders opaquely: no blending, no averaging of ids. So
//! at every pixel the integer target holds exactly the id of the last draw
//! whose quad covered that pixel — last-drawn-wins — and the clear sentinel
//! where no draw covered it. A draw's screen coverage is modelled by the
//! bounding rectangle the host computes when it projects the quad.

use vstd::prelude::*;

use crate::render::NO_PICK_ID;

verus! {

/// One identity-pass draw, reduced to what decides picking: the drawing
/// entity's id and the screen-space rectangle of pixels it covers.
#[derive(Clone, Copy, PartialEq, Eq, Structural, Debug)]
pub struct IdDraw {
    pub id: u32,
    pub min_x: i64,
    pub min_y: i64,
    pub max_x: i64,
    pub max_y: i64,
}

/// Whether a draw covers the pixel.
pub open spec fn covers(d: IdDraw, x: int, y: int) -> bool {
    d.min_x <= x <= d.max_x && d.min_y <= y <= d.max_y
}

/// The index of the last draw covering the pixel, or -1 when none does.
pub open spec fn last_cover_index(s: Seq<IdDraw>, x: int, y: int) -> int
    decreases s.len(),
{
    if s.len() == 0 {
        -1
    } else if covers(s.last(), x, y) {
        s.len() - 1
    } else {
        last_cover_index(s.drop_last(), x, y)
    }
}

/// The last covering index is always a real index or -1.
pub proof fn lemma_last_cover_index_range(s: Seq<IdDraw>, x: int, y: int)
    ensures
        -1 <= last_cover_index(s, x, y) < s.len(),
    decreases s.len(),
{
    if s.len() > 0 && !covers(s.last(), x, y) {
        lemma_last_cover_index_range(s.drop_last(), x, y);
    }
}

/// The id the identity target holds at the pixel after the draws ran in
/// order.
pub open spec fn resolved_id(s: Seq<IdDraw>, x: int, y: int) -> u32 {
    if last_cover_index(s, x, y) == -1 {
        NO_PICK_ID
    } else {
        s[last_cover_index(s, x, y)].id
    }
}

/// Replays the identity pass at one pixel: draws run in order, each covered
/// pixel is overwritten whole, so the last covering draw's id remains.
pub fn identity_at(draws: &Vec<IdDraw>, x: i64, y: i64) -> (id: u32)
    ensures
        id == resolved_id(draws@, x as int, y as int),
{
    let mut id = NO_PICK_ID;
    let mut k: usize = 0;
    while k < draws.len()
        invariant
            k <= draws@.len(),
            id == resolved_id(draws@.take(k as int), x as int, y as int),
        decreases draws@.len() - k,
    {
        let d = draws[k];
        if d.min_x <= x && x <= d.max_x && d.min_y <= y && y <= d.max_y {
            id = d.id;
        }
        proof {
            let s1 = draws@.take(k + 1);
            let s0 = draws@.take(k as int);
            assert(s1.drop_last() =~= s0);
            assert(s1.last() == draws@[k as int]);
            if covers(draws@[k as int], x as int, y as int) {
                assert(last_cover_index(s1, x as int, y as int) == k as int);
            } else {
                assert(last_cover_index(s1, x as int, y as int) == last_cover_index(
                    s0,
                    x as int,
                    y as int,
                ));
                lemma_last_cover_index_range(s0, x as int, y as int);
                let idx = last_cover_index(s0, x as int, y as int);
                if idx >= 0 {
                    assert(s1[idx] == s0[idx]);
                }
            }
        }
        k = k + 1;
    }
    proof {
        assert(draws@.take(draws@.len() as int) =~= draws@);
    }
    id
}

/// Last-drawn-wins: when two or more draws overlap at a pixel, the identity
/// pass reports the id of whichever is drawn last in the queried draw order —
/// the draw at `k`, when nothing after `k` covers the pixel.
pub proof fn lemma_last_drawn_wins(s: Seq<IdDraw>, x: int, y: int, k: int)
    requires
        0 <= k < s.len(),
        covers(s[k], x, y),
        forall|j: int| k < j < s.len() ==> !covers(#[trigger] s[j], x, y),
    ensures
        last_cover_index(s, x, y) == k,
        resolved_id(s, x, y) == s[k].id,
    decreases s.len(),
{
    if k == s.len() - 1 {
    } else {
        assert(!covers(s.last(), x, y));
        lemma_last_drawn_wins(s.drop_last(), x, y, k);
    }
}

/// A pixel outside every drawn quad resolves to the sentinel: picking on an
/// empty or background area reports "nothing picked".
pub proof fn lemma_nothing_picked(s: Seq<IdDraw>, x: int, y: int)
    requires
        forall|j: int| 0 <= j < s.len() ==> !covers(#[trigger] s[j], x, y),
    ensures
        last_cover_index(s, x, y) == -1,
        resolved_id(s, x, y) == NO_PICK_ID,
    decreases s.len(),
{
    if s.len() > 0 {
        assert(!covers(s.last(), x, y));
        lemma_nothing_picked(s.drop_last(), x, y);
    }
}

} // verus!
