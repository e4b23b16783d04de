use vstd::arithmetic::div_mod::{lemma_mod_self_0, lemma_small_mod};
use vstd::prelude::*;

verus! {

/// Which radius a vertex of the ring sits on.
#[derive(Clone, Copy, Debug, PartialEq, Eq, Structural)]
pub enum VertexKind {
    /// The tip of a spoke, on the outer radius.
    Outer,
    /// The notch between a spoke and the next, on the inner radius.
    Inner,
}

/// One vertex of the star's ring.
///
/// With `step` the angular step between two spokes, an `Outer` vertex is the
/// negated outer start vector turned by `spoke * step`; an `Inner` vertex is
/// the inner start vector turned by `spoke * step + step / 2`.
#[derive(Clone, Copy, Debug, PartialEq, Eq, Structural)]
pub struct RingVertex {
    pub spoke: usize,
    pub kind: VertexKind,
}

/// The vertex at position `k` of a ring: tips at even positions, each
/// followed by the notch of the same spoke.
pub open spec fn ring_vertex(k: int) -> RingVertex {
    RingVertex {
        spoke: (k / 2) as usize,
        kind: if k % 2 == 0 {
            VertexKind::Outer
        } else {
            VertexKind::Inner
        },
    }
}

/// The ring of a star with `spokes` spokes: `2 * spokes` vertices, tip and
/// notch in turn, in the order in which the outline visits them.
pub fn vertex_ring(spokes: usize) -> (ring: Vec<RingVertex>)
    requires
        spokes <= usize::MAX / 2,
    ensures
        ring.len() == 2 * spokes,
        forall|k: int| 0 <= k < ring.len() ==> ring[k] == ring_vertex(k),
{
    let mut ring: Vec<RingVertex> = Vec::with_capacity(2 * spokes);
    for i in 0..spokes
        invariant
            ring.len() == 2 * i,
            forall|k: int| 0 <= k < ring.len() ==> ring[k] == ring_vertex(k),
    {
        ring.push(RingVertex { spoke: i, kind: VertexKind::Outer });
        ring.push(RingVertex { spoke: i, kind: VertexKind::Inner });
    }
    ring
}

/// The ring is a closed cycle: read around, tips and notches alternate, a
/// tip is followed by the notch of its own spoke, a notch by the tip of the
/// next spoke, and the last notch by the first tip.
pub proof fn lemma_ring_closes(spokes: usize)
    requires
        1 <= spokes <= usize::MAX / 2,
    ensures
        forall|k: int|
            #![trigger ring_vertex(k)]
            0 <= k < 2 * spokes ==> {
                let here = ring_vertex(k);
                let next = ring_vertex((k + 1) % (2 * spokes as int));
                &&& here.kind != next.kind
                &&& here.kind == VertexKind::Outer ==> next.spoke == here.spoke
                &&& here.kind == VertexKind::Inner ==> next.spoke as int == (here.spoke + 1)
                    % (spokes as int)
            },
{
    assert forall|k: int| 0 <= k < 2 * spokes implies {
        let here = #[trigger] ring_vertex(k);
        let next = ring_vertex((k + 1) % (2 * spokes as int));
        &&& here.kind != next.kind
        &&& here.kind == VertexKind::Outer ==> next.spoke == here.spoke
        &&& here.kind == VertexKind::Inner ==> next.spoke as int == (here.spoke + 1) % (
        spokes as int)
    } by {
        let m = 2 * spokes as int;
        if k + 1 < m {
            lemma_small_mod((k + 1) as nat, m as nat);
            if k % 2 == 1 {
                lemma_small_mod((k / 2 + 1) as nat, spokes as nat);
            }
        } else {
            lemma_mod_self_0(m);
            lemma_mod_self_0(spokes as int);
        }
    }
}

} // verus!
