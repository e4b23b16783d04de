use crate::error::StarError;
use vstd::prelude::*;

verus! {

/// A corner of a wedge: a position in the vertex ring, or the star's center.
#[derive(Clone, Copy, Debug, PartialEq, Eq, Structural)]
pub enum Corner {
    Ring(usize),
    Center,
}

/// One triangular wedge of a segmented star, with its corners in drawing
/// order and its fill.
#[derive(Clone, Copy, Debug)]
pub struct Wedge<C> {
    pub a: Corner,
    pub b: Corner,
    pub c: Corner,
    pub fill: C,
}

/// The two ring positions of wedge `w` in a ring of `len` vertices, in
/// drawing order. The wedge spans the edge from vertex `w` to the vertex
/// after it, the last one wrapping round to the first. Counting the later
/// vertex of the edge from one, the later vertex comes first at an odd count
/// and second at an even one.
pub open spec fn fan_corners(w: int, len: int) -> (int, int) {
    let next = (w + 1) % len;
    if (w + 1) % 2 == 1 {
        (next, w)
    } else {
        (w, next)
    }
}

/// The fill of wedge `w`: the palette read cyclically.
pub open spec fn wedge_fill<C>(colors: Seq<C>, w: int) -> C {
    colors[w % (colors.len() as int)]
}

/// Wedge `w` of a ring of `len` vertices, filled from `colors`.
pub open spec fn wedge_at<C>(w: int, len: int, colors: Seq<C>) -> Wedge<C> {
    Wedge {
        a: Corner::Ring(fan_corners(w, len).0 as usize),
        b: Corner::Ring(fan_corners(w, len).1 as usize),
        c: Corner::Center,
        fill: wedge_fill(colors, w),
    }
}

/// The ring edges that the wedges of a ring of `ring_len` vertices span,
/// one wedge per edge, each as the pair of its two ring corners in drawing
/// order.
pub fn wedge_fan(ring_len: usize) -> (fan: Vec<(usize, usize)>)
    ensures
        fan.len() == ring_len,
        forall|w: int|
            0 <= w < ring_len ==> fan[w].0 == fan_corners(w, ring_len as int).0 && fan[w].1
                == fan_corners(w, ring_len as int).1,
{
    let mut fan: Vec<(usize, usize)> = Vec::with_capacity(ring_len);
    for w in 0..ring_len
        invariant
            fan.len() == w,
            forall|v: int|
                0 <= v < w ==> fan[v].0 == fan_corners(v, ring_len as int).0 && fan[v].1
                    == fan_corners(v, ring_len as int).1,
    {
        let next: usize = if w + 1 < ring_len {
            w + 1
        } else {
            0
        };
        proof {
            if w + 1 < ring_len {
                vstd::arithmetic::div_mod::lemma_small_mod((w + 1) as nat, ring_len as nat);
            } else {
                vstd::arithmetic::div_mod::lemma_mod_self_0(ring_len as int);
            }
        }
        if (w + 1) % 2 == 1 {
            fan.push((next, w));
        } else {
            fan.push((w, next));
        }
    }
    fan
}

/// The fills of `count` wedges, taken from `colors` in turn and starting
/// over when the palette runs out. An empty palette is refused.
pub fn cycle_colors<C: Copy>(colors: &Vec<C>, count: usize) -> (fills: Result<
    Vec<C>,
    StarError,
>)
    ensures
        colors.len() == 0 <==> fills is Err,
        fills is Err ==> fills->Err_0 == StarError::InvalidConfiguration,
        fills matches Ok(f) ==> f.len() == count && forall|w: int|
            0 <= w < count ==> f[w] == wedge_fill(colors@, w),
{
    if colors.len() == 0 {
        return Err(StarError::InvalidConfiguration);
    }
    let mut fills: Vec<C> = Vec::with_capacity(count);
    for w in 0..count
        invariant
            colors.len() > 0,
            fills.len() == w,
            forall|v: int| 0 <= v < w ==> fills[v] == wedge_fill(colors@, v),
    {
        fills.push(colors[w % colors.len()]);
    }
    Ok(fills)
}

/// Wedge fills cycle through a palette of `k` colors: wedge `w` gets color
/// `w mod k`. With one color every wedge gets that color. With at least as
/// many colors as wedges, wedge `w` gets color `w`, so a palette of distinct
/// colors gives every wedge a fill of its own.
pub proof fn lemma_fills_cycle<C>(colors: Seq<C>, count: nat)
    requires
        colors.len() > 0,
    ensures
        forall|w: int|
            0 <= w < count ==> #[trigger] wedge_fill(colors, w) == colors[w % (
            colors.len() as int)],
        colors.len() == 1 ==> forall|w: int|
            0 <= w < count ==> #[trigger] wedge_fill(colors, w) == colors[0],
        colors.len() >= count ==> forall|w: int|
            0 <= w < count ==> #[trigger] wedge_fill(colors, w) == colors[w],
        colors.len() >= count && colors.no_duplicates() ==> forall|v: int, w: int|
            0 <= v < w < count ==> wedge_fill(colors, v) != wedge_fill(colors, w),
{
    let k = colors.len();
    assert forall|w: int| 0 <= w < count implies {
        &&& k == 1 ==> #[trigger] wedge_fill(colors, w) == colors[0]
        &&& k >= count ==> wedge_fill(colors, w) == colors[w]
    } by {
        if k == 1 {
            assert(w % 1 == 0);
        }
        if k >= count {
            vstd::arithmetic::div_mod::lemma_small_mod(w as nat, k);
        }
    }
}

/// Every wedge of a ring of `len` vertices has the center as its third
/// corner, and its other two corners are the ends of one edge of the ring:
/// vertex `w` and the vertex after it, the last joined back to the first.
pub proof fn lemma_wedges_share_center<C>(len: usize, colors: Seq<C>)
    requires
        len > 0,
    ensures
        forall|w: int|
            0 <= w < len ==> {
                let wedge = #[trigger] wedge_at(w, len as int, colors);
                let next = if w + 1 < len {
                    w + 1
                } else {
                    0
                };
                &&& wedge.c == Corner::Center
                &&& (wedge.a == Corner::Ring(w as usize) && wedge.b == Corner::Ring(
                    next as usize,
                )) || (wedge.a == Corner::Ring(next as usize) && wedge.b == Corner::Ring(
                    w as usize,
                ))
            },
{
    assert forall|w: int|
        #![trigger wedge_at(w, len as int, colors)]
        0 <= w < len implies (w + 1) % (len as int) == if w + 1 < len {
        w + 1
    } else {
        0
    } by {
        if w + 1 < len {
            vstd::arithmetic::div_mod::lemma_small_mod((w + 1) as nat, len as nat);
        } else {
            vstd::arithmetic::div_mod::lemma_mod_self_0(len as int);
        }
    }
}

} // verus!
