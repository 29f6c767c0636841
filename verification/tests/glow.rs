use openlogi::glow::{load_glow_geometry, GlowGeometry, GlowMask, GlowSeg, MAX_MASK_DIM};

#[test]
fn from_mask_extracts_on_runs_as_normalized_segments() {
    // 4x2 mask, runs alternate off/on starting off: off2, on2, off3, on1.
    // Row-major idx 2..4 on (row 0, cols 2-3); idx 7 on (row 1, col 3).
    let mask = GlowMask {
        width: 4,
        height: 2,
        runs: vec![2, 2, 3, 1],
    };
    let geom = GlowGeometry::from_mask(&mask).expect("valid mask");
    let aspect = f64::from(geom.width) / f64::from(geom.height);
    let x = |s: GlowSeg| f64::from(s.col) / f64::from(geom.width);
    let y = |s: GlowSeg| f64::from(s.row) / f64::from(geom.height);
    let w = |s: GlowSeg| f64::from(s.len) / f64::from(geom.width);
    assert!((aspect - 2.0).abs() < 1e-6);
    assert_eq!(geom.segments.len(), 2);
    let first = geom.segments[0];
    assert!((x(first) - 0.5).abs() < 1e-6); // col 2 / 4
    assert!((y(first) - 0.0).abs() < 1e-6); // row 0
    assert!((w(first) - 0.5).abs() < 1e-6); // len 2 / 4
    let second = geom.segments[1];
    assert!((x(second) - 0.75).abs() < 1e-6); // col 3 / 4
    assert!((y(second) - 0.5).abs() < 1e-6); // row 1 / 2
}

#[test]
fn from_mask_splits_a_run_across_rows() {
    // 2x2, runs off1 on3: idx 1 (row 0 col 1) and idx 2..4 (row 1).
    let mask = GlowMask {
        width: 2,
        height: 2,
        runs: vec![1, 3],
    };
    let geom = GlowGeometry::from_mask(&mask).expect("valid mask");
    assert_eq!(geom.segments.len(), 2);
}

#[test]
fn from_mask_rejects_bad_run_total() {
    let mask = GlowMask {
        width: 4,
        height: 4,
        runs: vec![3, 2], // sums to 5, not 16
    };
    assert!(GlowGeometry::from_mask(&mask).is_none());
}

#[test]
fn from_mask_rejects_degenerate_dimensions() {
    for (width, height) in [(0, 4), (4, 0), (MAX_MASK_DIM + 1, 1)] {
        let mask = GlowMask {
            width,
            height,
            runs: vec![width * height],
        };
        assert!(GlowGeometry::from_mask(&mask).is_none());
    }
}

#[test]
fn segments_paint_exactly_the_gaps() {
    let mask = GlowMask {
        width: 3,
        height: 3,
        runs: vec![1, 4, 2, 2],
    };
    let geom = GlowGeometry::from_mask(&mask).expect("valid mask");
    let mut painted = [false; 9];
    for s in &geom.segments {
        for i in 0..s.len {
            painted[(s.row * 3 + s.col + i) as usize] = true;
        }
    }
    assert_eq!(
        painted,
        [false, true, true, true, true, false, false, true, true]
    );
}

#[test]
fn the_first_mask_of_the_metadata_counts() {
    let mask = |runs| {
        Some(GlowMask {
            width: 2,
            height: 2,
            runs,
        })
    };
    assert!(load_glow_geometry(&[]).is_none());
    let geom = load_glow_geometry(&[None, mask(vec![1, 3]), mask(vec![9])]);
    assert_eq!(geom.map(|g| g.segments.len()), Some(2));
    assert!(load_glow_geometry(&[mask(vec![9]), mask(vec![1, 3])]).is_none());
}
