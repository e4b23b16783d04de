use crate::error::StarError;
use crate::fan::{cycle_colors, wedge_at, wedge_fan, Corner, Wedge};
use crate::ring::{ring_vertex, vertex_ring, RingVertex};
use vstd::prelude::*;

verus! {

/// The fewest spokes from which an inner radius can be solved. With one
/// spoke the two outer vertices of the chord coincide; with two the chord
/// meets the vertical axis on the far side of the center.
pub const MIN_SPOKES: usize = 3;

/// A star silhouette: one closed polygon through the whole ring, with one
/// fill. The last vertex joins back to the first.
#[derive(Debug)]
pub struct Outline<C> {
    pub ring: Vec<RingVertex>,
    pub fill: C,
}

/// A star filled as a pinwheel: its ring and the wedges fanned from the
/// center over the ring's edges, drawn in order.
#[derive(Debug)]
pub struct Segments<C> {
    pub ring: Vec<RingVertex>,
    pub wedges: Vec<Wedge<C>>,
}

/// Accepts a spoke count from which a star can be built.
pub fn check_spokes(spokes: usize) -> (r: Result<(), StarError>)
    ensures
        r is Ok <==> spokes >= MIN_SPOKES,
        r is Err ==> r->Err_0 == StarError::DegenerateGeometry,
{
    if spokes < MIN_SPOKES {
        Err(StarError::DegenerateGeometry)
    } else {
        Ok(())
    }
}

/// The outline of a star with `spokes` spokes and a single fill.
pub fn outline_layout<C>(spokes: usize, fill: C) -> (r: Result<Outline<C>, StarError>)
    requires
        spokes <= usize::MAX / 2,
    ensures
        r is Ok <==> spokes >= MIN_SPOKES,
        r is Err ==> r->Err_0 == StarError::DegenerateGeometry,
        r matches Ok(o) ==> {
            &&& o.fill == fill
            &&& o.ring.len() == 2 * spokes
            &&& forall|k: int| 0 <= k < o.ring.len() ==> o.ring[k] == ring_vertex(k)
        },
{
    match check_spokes(spokes) {
        Err(e) => Err(e),
        Ok(()) => Ok(Outline { ring: vertex_ring(spokes), fill }),
    }
}

/// The wedges of a star with `spokes` spokes, filled from `colors` in turn.
/// A spoke count below the minimum is refused before the palette is looked
/// at; an empty palette is refused next.
pub fn segment_layout<C: Copy>(spokes: usize, colors: &Vec<C>) -> (r: Result<
    Segments<C>,
    StarError,
>)
    requires
        spokes <= usize::MAX / 2,
    ensures
        r is Ok <==> spokes >= MIN_SPOKES && colors.len() > 0,
        spokes < MIN_SPOKES ==> r is Err && r->Err_0 == StarError::DegenerateGeometry,
        spokes >= MIN_SPOKES && colors.len() == 0 ==> r is Err && r->Err_0
            == StarError::InvalidConfiguration,
        r matches Ok(s) ==> {
            &&& s.ring.len() == 2 * spokes
            &&& forall|k: int| 0 <= k < s.ring.len() ==> s.ring[k] == ring_vertex(k)
            &&& s.wedges.len() == 2 * spokes
            &&& forall|w: int|
                0 <= w < s.wedges.len() ==> s.wedges[w] == wedge_at(
                    w,
                    2 * spokes as int,
                    colors@,
                )
        },
{
    if let Err(e) = check_spokes(spokes) {
        return Err(e);
    }
    let ring = vertex_ring(spokes);
    let len = ring.len();
    let fills = match cycle_colors(colors, len) {
        Err(e) => {
            return Err(e);
        },
        Ok(f) => f,
    };
    let fan = wedge_fan(len);
    let mut wedges: Vec<Wedge<C>> = Vec::with_capacity(len);
    for w in 0..len
        invariant
            len == 2 * spokes,
            fan.len() == len,
            fills.len() == len,
            colors.len() > 0,
            forall|v: int|
                0 <= v < len ==> fan[v].0 == wedge_at(v, len as int, colors@).a->Ring_0
                    && fan[v].1 == wedge_at(v, len as int, colors@).b->Ring_0,
            forall|v: int| 0 <= v < len ==> fills[v] == wedge_at(v, len as int, colors@).fill,
            wedges.len() == w,
            forall|v: int| 0 <= v < w ==> wedges[v] == wedge_at(v, len as int, colors@),
    {
        let (a, b) = fan[w];
        wedges.push(Wedge { a: Corner::Ring(a), b: Corner::Ring(b), c: Corner::Center, fill: fills[w] });
    }
    Ok(Segments { ring, wedges })
}

} // verus!
