use star_badge::{
    check_spokes, cycle_colors, outline_layout, segment_layout, vertex_ring, wedge_fan, Corner,
    RingVertex, StarError, VertexKind, MIN_SPOKES,
};

const PALETTE: [&str; 10] = [
    "#fdffe7",
    "#fcfdeb",
    "#f8d28f",
    "#fefde8",
    "#f3d090",
    "#c89262",
    "#f5ce8d",
    "#c49963",
    "url(#gradient1)",
    "#f8cf90",
];

fn ring_position(corner: Corner) -> usize {
    match corner {
        Corner::Ring(k) => k,
        Corner::Center => panic!("expected a ring corner"),
    }
}

#[test]
fn ring_alternates_tips_and_notches() {
    let ring = vertex_ring(3);
    assert_eq!(
        ring,
        vec![
            RingVertex { spoke: 0, kind: VertexKind::Outer },
            RingVertex { spoke: 0, kind: VertexKind::Inner },
            RingVertex { spoke: 1, kind: VertexKind::Outer },
            RingVertex { spoke: 1, kind: VertexKind::Inner },
            RingVertex { spoke: 2, kind: VertexKind::Outer },
            RingVertex { spoke: 2, kind: VertexKind::Inner },
        ]
    );
    assert!(vertex_ring(0).is_empty());
}

#[test]
fn outline_has_two_vertices_per_spoke() {
    for spokes in 3..20usize {
        let outline = outline_layout(spokes, "#000000").unwrap();
        assert_eq!(outline.ring.len(), 2 * spokes);
        let last = outline.ring[2 * spokes - 1];
        assert_eq!(last, RingVertex { spoke: spokes - 1, kind: VertexKind::Inner });
        assert_eq!(outline.ring[0], RingVertex { spoke: 0, kind: VertexKind::Outer });
    }
}

#[test]
fn outline_five_spokes_single_color() {
    let outline = outline_layout(5, "#fefac9").unwrap();
    assert_eq!(outline.ring.len(), 10);
    assert_eq!(outline.ring[0], RingVertex { spoke: 0, kind: VertexKind::Outer });
    assert_eq!(outline.fill, "#fefac9");
}

#[test]
fn segments_five_spokes_ten_colors() {
    let palette = PALETTE.to_vec();
    let segments = segment_layout(5, &palette).unwrap();
    assert_eq!(segments.ring.len(), 10);
    assert_eq!(segments.wedges.len(), 10);
    let fills: Vec<&str> = segments.wedges.iter().map(|w| w.fill).collect();
    assert_eq!(fills, palette);
}

#[test]
fn segments_refuse_empty_palette() {
    let palette: Vec<&str> = Vec::new();
    let r = segment_layout(5, &palette);
    assert_eq!(r.err(), Some(StarError::InvalidConfiguration));
}

#[test]
fn degenerate_spoke_counts_are_refused() {
    for spokes in 0..MIN_SPOKES {
        assert_eq!(check_spokes(spokes), Err(StarError::DegenerateGeometry));
        assert_eq!(outline_layout(spokes, 0u8).err(), Some(StarError::DegenerateGeometry));
        let palette = vec![1u8, 2];
        assert_eq!(
            segment_layout(spokes, &palette).err(),
            Some(StarError::DegenerateGeometry)
        );
    }
    assert_eq!(check_spokes(3), Ok(()));
}

#[test]
fn spoke_count_is_checked_before_palette() {
    let palette: Vec<u8> = Vec::new();
    assert_eq!(segment_layout(1, &palette).err(), Some(StarError::DegenerateGeometry));
}

#[test]
fn every_wedge_has_the_center_as_third_corner() {
    for spokes in 3..16usize {
        let segments = segment_layout(spokes, &vec![7u32]).unwrap();
        assert_eq!(segments.wedges.len(), 2 * spokes);
        for (w, wedge) in segments.wedges.iter().enumerate() {
            assert_eq!(wedge.c, Corner::Center);
            let mut ends = [ring_position(wedge.a), ring_position(wedge.b)];
            ends.sort();
            if w + 1 < 2 * spokes {
                assert_eq!(ends, [w, w + 1]);
            } else {
                assert_eq!(ends, [0, w]);
            }
        }
    }
}

#[test]
fn fan_alternates_drawing_order() {
    assert_eq!(wedge_fan(4), vec![(1, 0), (1, 2), (3, 2), (3, 0)]);
    assert_eq!(
        wedge_fan(6),
        vec![(1, 0), (1, 2), (3, 2), (3, 4), (5, 4), (5, 0)]
    );
    assert!(wedge_fan(0).is_empty());
}

#[test]
fn segment_wedges_follow_the_fan() {
    let segments = segment_layout(3, &vec!['a', 'b']).unwrap();
    let corners: Vec<(usize, usize)> = segments
        .wedges
        .iter()
        .map(|w| (ring_position(w.a), ring_position(w.b)))
        .collect();
    assert_eq!(corners, wedge_fan(6));
}

#[test]
fn colors_cycle_through_palette() {
    assert_eq!(cycle_colors(&vec![1, 2, 3], 7), Ok(vec![1, 2, 3, 1, 2, 3, 1]));
    assert_eq!(cycle_colors(&vec![9], 4), Ok(vec![9, 9, 9, 9]));
    assert_eq!(cycle_colors(&vec![1, 2], 0), Ok(vec![]));
    assert_eq!(cycle_colors::<u8>(&vec![], 3), Err(StarError::InvalidConfiguration));
}

#[test]
fn single_color_fills_every_wedge() {
    let segments = segment_layout(7, &vec!["#ffffff"]).unwrap();
    assert_eq!(segments.wedges.len(), 14);
    assert!(segments.wedges.iter().all(|w| w.fill == "#ffffff"));
}

#[test]
fn large_palette_gives_distinct_fills() {
    let palette: Vec<u32> = (0..25).collect();
    let segments = segment_layout(6, &palette).unwrap();
    let fills: Vec<u32> = segments.wedges.iter().map(|w| w.fill).collect();
    assert_eq!(fills, (0..12).collect::<Vec<u32>>());
}

#[test]
fn short_palette_repeats_in_order() {
    let segments = segment_layout(4, &vec![10u8, 20, 30]).unwrap();
    let fills: Vec<u8> = segments.wedges.iter().map(|w| w.fill).collect();
    assert_eq!(fills, vec![10, 20, 30, 10, 20, 30, 10, 20]);
}
