//! The gaps between the keys of a light-up keyboard, from a baked mask.
//!
//! A keyboard picture has many small transparent gaps. Painting them in the
//! lighting colour reads as light shining through. The gaps come as a run-length
//! encoded mask and become horizontal segments, in the mask's own pixels; dividing
//! by the mask's size scales them to any picture.

use vstd::prelude::*;

verus! {

/// The largest accepted side of a mask. Anything larger is a corrupt file.
pub const MAX_MASK_DIM: u32 = 8192;

/// A run-length encoded mask, row by row. Runs alternate between outside and
/// inside the gaps, beginning outside.
#[derive(Debug)]
pub struct GlowMask {
    /// Pixels per row.
    pub width: u32,
    /// Rows.
    pub height: u32,
    /// The lengths of the runs.
    pub runs: Vec<u32>,
}

/// One horizontal stretch of gaps.
#[derive(Debug, Clone, Copy, PartialEq, Eq, Structural)]
pub struct GlowSeg {
    /// The first pixel in its row.
    pub col: u32,
    /// The row.
    pub row: u32,
    /// How many pixels.
    pub len: u32,
}

/// The gaps of a mask, and the mask's size.
#[derive(Debug)]
pub struct GlowGeometry {
    /// Pixels per row.
    pub width: u32,
    /// Rows.
    pub height: u32,
    /// The gaps.
    pub segments: Vec<GlowSeg>,
}

impl Clone for GlowGeometry {
    fn clone(&self) -> (out: Self)
        ensures
            out.width == self.width,
            out.height == self.height,
            out.segments@ == self.segments@,
    {
        let mut segments: Vec<GlowSeg> = Vec::new();
        segments.extend_from_slice(self.segments.as_slice());
        assert(segments@ =~= self.segments@);
        GlowGeometry { width: self.width, height: self.height, segments }
    }
}

/// Where run `n` begins: the sum of the runs before it.
pub open spec fn run_start(runs: Seq<u32>, n: int) -> int
    decreases n,
{
    if n <= 0 {
        0
    } else {
        run_start(runs, n - 1) + runs[n - 1]
    }
}

/// The mask has an accepted size, and its runs cover it exactly.
pub open spec fn is_valid_mask(mask: GlowMask) -> bool {
    &&& 0 < mask.width <= MAX_MASK_DIM
    &&& 0 < mask.height <= MAX_MASK_DIM
    &&& run_start(mask.runs@, mask.runs@.len() as int) == mask.width * mask.height
}

/// The pixels from `start` to `end` as stretches that each stay in one row.
pub open spec fn stretches(start: int, end: int, width: int) -> Seq<GlowSeg>
    decreases end - start,
{
    if start >= end || width <= 0 || start < 0 {
        Seq::empty()
    } else {
        let row = start / width;
        let row_end = (row + 1) * width;
        let stop = if end < row_end {
            end
        } else {
            row_end
        };
        proof {
            assert(row_end > start) by (nonlinear_arith)
                requires
                    row == start / width,
                    row_end == (row + 1) * width,
                    width > 0,
                    start >= 0,
            ;
        }
        seq![
            GlowSeg { col: (start % width) as u32, row: row as u32, len: (stop - start) as u32 },
        ] + stretches(stop, end, width)
    }
}

/// The gaps in the first `n` runs: those of every second run.
pub open spec fn gaps(runs: Seq<u32>, width: int, n: int) -> Seq<GlowSeg>
    decreases n,
{
    if n <= 0 {
        Seq::empty()
    } else if n % 2 == 0 {
        gaps(runs, width, n - 1) + stretches(run_start(runs, n - 1), run_start(runs, n), width)
    } else {
        gaps(runs, width, n - 1)
    }
}

proof fn lemma_run_start_grows(runs: Seq<u32>, a: int, b: int)
    requires
        0 <= a <= b <= runs.len(),
    ensures
        0 <= run_start(runs, a) <= run_start(runs, b),
    decreases b,
{
    if a < b {
        lemma_run_start_grows(runs, a, b - 1);
    } else if a > 0 {
        lemma_run_start_grows(runs, a - 1, b - 1);
    }
}

fn covers(mask: &GlowMask, total: u64) -> (yes: bool)
    requires
        total <= 0x1_0000_0000,
    ensures
        yes == (run_start(mask.runs@, mask.runs@.len() as int) == total),
{
    let n: usize = mask.runs.len();
    let mut sum: u64 = 0;
    let mut i: usize = 0;
    while i < n
        invariant
            i <= n,
            n == mask.runs@.len(),
            total <= 0x1_0000_0000,
            sum <= total,
            sum == run_start(mask.runs@, i as int),
        decreases n - i,
    {
        sum = sum + mask.runs[i] as u64;
        i = i + 1;
        if sum > total {
            proof {
                lemma_run_start_grows(mask.runs@, i as int, n as int);
            }
            return false;
        }
    }
    sum == total
}

fn push_stretches(segments: &mut Vec<GlowSeg>, from: u64, end: u64, width: u64, height: u64)
    requires
        0 < width <= MAX_MASK_DIM,
        0 < height <= MAX_MASK_DIM,
        from <= end <= width * height,
    ensures
        final(segments)@ == old(segments)@ + stretches(from as int, end as int, width as int),
{
    let ghost before = segments@;
    let mut start: u64 = from;
    proof {
        assert(width * height <= 8192 * 8192) by (nonlinear_arith)
            requires
                0 < width <= 8192,
                0 < height <= 8192,
        ;
    }
    while start < end
        invariant
            0 < width <= MAX_MASK_DIM,
            0 < height <= MAX_MASK_DIM,
            start <= end <= width * height,
            width * height <= 8192 * 8192,
            before + stretches(from as int, end as int, width as int) == segments@ + stretches(
                start as int,
                end as int,
                width as int,
            ),
        decreases end - start,
    {
        let row: u64 = start / width;
        let col: u64 = start % width;
        proof {
            assert(row <= start && col < width) by (nonlinear_arith)
                requires
                    row == start / width,
                    col == start % width,
                    width > 0,
            ;
            assert((row + 1) * width > start && (row + 1) * width <= start + width)
                by (nonlinear_arith)
                requires
                    row == start / width,
                    width > 0,
                    start >= 0,
            ;
        }
        let row_end: u64 = (row + 1) * width;
        let stop: u64 = if end < row_end {
            end
        } else {
            row_end
        };
        let ghost rest = stretches(stop as int, end as int, width as int);
        let seg = GlowSeg { col: col as u32, row: row as u32, len: (stop - start) as u32 };
        let ghost here = segments@;
        segments.push(seg);
        proof {
            assert(stretches(start as int, end as int, width as int) == seq![seg] + rest);
            assert(here + (seq![seg] + rest) =~= segments@ + rest);
        }
        start = stop;
    }
    assert(segments@ + stretches(start as int, end as int, width as int) =~= segments@);
}

impl GlowGeometry {
    /// Decode a mask. A run that crosses a row boundary is split, so every segment
    /// stays in one row. `None` if the size is out of range or the runs do not
    /// cover the mask exactly.
    pub fn from_mask(mask: &GlowMask) -> (out: Option<Self>)
        ensures
            match out {
                Some(g) => is_valid_mask(*mask) && g.width == mask.width && g.height == mask.height
                    && g.segments@ == gaps(
                    mask.runs@,
                    mask.width as int,
                    mask.runs@.len() as int,
                ),
                None => !is_valid_mask(*mask),
            },
    {
        if mask.width == 0 || mask.height == 0 || mask.width > MAX_MASK_DIM || mask.height
            > MAX_MASK_DIM {
            return None;
        }
        let width: u64 = mask.width as u64;
        let height: u64 = mask.height as u64;
        proof {
            assert(width * height <= 8192 * 8192) by (nonlinear_arith)
                requires
                    0 < width <= 8192,
                    0 < height <= 8192,
            ;
        }
        let total: u64 = width * height;
        if !covers(mask, total) {
            return None;
        }
        let mut segments: Vec<GlowSeg> = Vec::new();
        let n: usize = mask.runs.len();
        let mut at: u64 = 0;
        let mut on: bool = false;
        let mut i: usize = 0;
        while i < n
            invariant
                i <= n,
                n == mask.runs@.len(),
                0 < width <= MAX_MASK_DIM,
                0 < height <= MAX_MASK_DIM,
                width == mask.width,
                total == width * height,
                total <= 8192 * 8192,
                run_start(mask.runs@, n as int) == total,
                at == run_start(mask.runs@, i as int),
                on == (i % 2 == 1),
                segments@ == gaps(mask.runs@, mask.width as int, i as int),
            decreases n - i,
        {
            let run: u32 = mask.runs[i];
            proof {
                lemma_run_start_grows(mask.runs@, i as int + 1, n as int);
            }
            let end: u64 = at + run as u64;
            if on && run > 0 {
                push_stretches(&mut segments, at, end, width, height);
            }
            proof {
                if on && run == 0 {
                    assert(stretches(at as int, end as int, width as int)
                        =~= Seq::<GlowSeg>::empty());
                    assert(segments@ + Seq::<GlowSeg>::empty() =~= segments@);
                }
            }
            at = end;
            on = !on;
            i = i + 1;
        }
        Some(GlowGeometry { width: mask.width, height: mask.height, segments })
    }
}

// ── What the segments cover ─────────────────────────────────────────────────

/// The segment covers pixel `p`, counted row by row.
pub open spec fn covers_pixel(seg: GlowSeg, width: int, p: int) -> bool {
    seg.row * width + seg.col <= p < seg.row * width + seg.col + seg.len
}

/// A segment of the list covers pixel `p`.
pub open spec fn is_painted(segments: Seq<GlowSeg>, width: int, p: int) -> bool {
    exists|i: int| 0 <= i < segments.len() && #[trigger] covers_pixel(segments[i], width, p)
}

/// Pixel `p` is inside a gap: a run with an odd number holds it.
pub open spec fn is_gap(runs: Seq<u32>, p: int) -> bool {
    exists|i: int|
        0 <= i < runs.len() && i % 2 == 1 && #[trigger] run_start(runs, i) <= p < run_start(
            runs,
            i,
        ) + runs[i]
}

proof fn lemma_painted_sum(a: Seq<GlowSeg>, b: Seq<GlowSeg>, width: int, p: int)
    ensures
        is_painted(a + b, width, p) == (is_painted(a, width, p) || is_painted(b, width, p)),
{
    let s = a + b;
    if is_painted(a, width, p) {
        let i = choose|i: int| 0 <= i < a.len() && #[trigger] covers_pixel(a[i], width, p);
        assert(s[i] == a[i]);
        assert(covers_pixel(s[i], width, p));
    }
    if is_painted(b, width, p) {
        let i = choose|i: int| 0 <= i < b.len() && #[trigger] covers_pixel(b[i], width, p);
        assert(s[a.len() + i] == b[i]);
        assert(covers_pixel(s[a.len() + i], width, p));
    }
    if is_painted(s, width, p) {
        let i = choose|i: int| 0 <= i < s.len() && #[trigger] covers_pixel(s[i], width, p);
        if i < a.len() {
            assert(covers_pixel(a[i], width, p));
        } else {
            assert(s[i] == b[i - a.len()]);
            assert(covers_pixel(b[i - a.len()], width, p));
        }
    }
}

proof fn lemma_stretches_cover(start: int, end: int, width: int, height: int, p: int)
    requires
        0 < width <= MAX_MASK_DIM,
        0 < height <= MAX_MASK_DIM,
        0 <= start,
        end <= width * height,
    ensures
        is_painted(stretches(start, end, width), width, p) == (start <= p < end),
        forall|i: int|
            0 <= i < stretches(start, end, width).len() ==> (#[trigger] stretches(
                start,
                end,
                width,
            )[i]).len > 0 && stretches(start, end, width)[i].col + stretches(
                start,
                end,
                width,
            )[i].len <= width,
    decreases end - start,
{
    if start < end {
        let row = start / width;
        let row_end = (row + 1) * width;
        let stop = if end < row_end {
            end
        } else {
            row_end
        };
        assert(row_end > start && row * width + start % width == start && 0 <= start % width
            && row_end == row * width + width && row >= 0 && row <= start) by (nonlinear_arith)
            requires
                row == start / width,
                row_end == (row + 1) * width,
                width > 0,
                start >= 0,
        ;
        assert(width * height <= 8192 * 8192) by (nonlinear_arith)
            requires
                0 < width <= 8192,
                0 < height <= 8192,
        ;
        let seg = GlowSeg {
            col: (start % width) as u32,
            row: row as u32,
            len: (stop - start) as u32,
        };
        let rest = stretches(stop, end, width);
        lemma_stretches_cover(stop, end, width, height, p);
        assert(stretches(start, end, width) == seq![seg] + rest);
        lemma_painted_sum(seq![seg], rest, width, p);
        assert(covers_pixel(seg, width, p) == (start <= p < stop));
        if covers_pixel(seg, width, p) {
            assert(covers_pixel(seq![seg][0], width, p));
        }
        if is_painted(seq![seg], width, p) {
            let i = choose|i: int|
                0 <= i < seq![seg].len() && #[trigger] covers_pixel(seq![seg][i], width, p);
            assert(i == 0);
        }
        assert forall|i: int| 0 <= i < stretches(start, end, width).len() implies (
        #[trigger] stretches(start, end, width)[i]).len > 0 && stretches(start, end, width)[i].col
            + stretches(start, end, width)[i].len <= width by {
            if i > 0 {
                assert(stretches(start, end, width)[i] == rest[i - 1]);
            }
        }
    } else {
        assert(stretches(start, end, width) =~= Seq::<GlowSeg>::empty());
    }
}

proof fn lemma_gaps_cover(runs: Seq<u32>, width: int, height: int, n: int, p: int)
    requires
        0 < width <= MAX_MASK_DIM,
        0 < height <= MAX_MASK_DIM,
        0 <= n <= runs.len(),
        run_start(runs, runs.len() as int) <= width * height,
    ensures
        is_painted(gaps(runs, width, n), width, p) == is_gap(runs.take(n), p),
        forall|i: int|
            0 <= i < gaps(runs, width, n).len() ==> (#[trigger] gaps(runs, width, n)[i]).len > 0
                && gaps(runs, width, n)[i].col + gaps(runs, width, n)[i].len <= width,
    decreases n,
{
    if n > 0 {
        lemma_gaps_cover(runs, width, height, n - 1, p);
        lemma_run_start_grows(runs, 0, n - 1);
        lemma_run_start_grows(runs, n, runs.len() as int);
        let few = runs.take(n - 1);
        let many = runs.take(n);
        lemma_same_starts(few, many, n - 1);
        lemma_same_starts(many, runs, n);
        let before = gaps(runs, width, n - 1);
        if n % 2 == 0 {
            let more = stretches(run_start(runs, n - 1), run_start(runs, n), width);
            lemma_stretches_cover(run_start(runs, n - 1), run_start(runs, n), width, height, p);
            lemma_painted_sum(before, more, width, p);
            assert forall|i: int| 0 <= i < gaps(runs, width, n).len() implies (
            #[trigger] gaps(runs, width, n)[i]).len > 0 && gaps(runs, width, n)[i].col + gaps(
                runs,
                width,
                n,
            )[i].len <= width by {
                if i < before.len() {
                    assert(gaps(runs, width, n)[i] == before[i]);
                } else {
                    assert(gaps(runs, width, n)[i] == more[i - before.len()]);
                }
            }
        }
        if is_gap(few, p) {
            let i = choose|i: int|
                0 <= i < few.len() && i % 2 == 1 && #[trigger] run_start(few, i) <= p < run_start(
                    few,
                    i,
                ) + few[i];
            lemma_same_starts(few, many, i);
            assert(run_start(many, i) <= p < run_start(many, i) + many[i]);
        }
        if is_gap(many, p) {
            let i = choose|i: int|
                0 <= i < many.len() && i % 2 == 1 && #[trigger] run_start(many, i) <= p < run_start(
                    many,
                    i,
                ) + many[i];
            lemma_same_starts(few, many, if i < n - 1 { i } else { n - 1 });
            if i < n - 1 {
                assert(run_start(few, i) <= p < run_start(few, i) + few[i]);
            }
        }
        if n % 2 == 0 && run_start(runs, n - 1) <= p < run_start(runs, n) {
            lemma_same_starts(many, runs, n - 1);
            assert(run_start(many, n - 1) <= p < run_start(many, n - 1) + many[n - 1]);
        }
        lemma_same_starts(many, runs, n - 1);
    }
}

proof fn lemma_same_starts(a: Seq<u32>, b: Seq<u32>, n: int)
    requires
        0 <= n <= a.len(),
        n <= b.len(),
        forall|i: int| 0 <= i < n ==> a[i] == b[i],
    ensures
        run_start(a, n) == run_start(b, n),
    decreases n,
{
    if n > 0 {
        lemma_same_starts(a, b, n - 1);
    }
}

/// The segments of a mask paint exactly its gaps, and each stays in its row.
pub proof fn segments_paint_the_gaps(mask: GlowMask, geometry: GlowGeometry, p: int)
    requires
        is_valid_mask(mask),
        geometry.segments@ == gaps(mask.runs@, mask.width as int, mask.runs@.len() as int),
    ensures
        is_painted(geometry.segments@, mask.width as int, p) == is_gap(mask.runs@, p),
        forall|i: int|
            0 <= i < geometry.segments@.len() ==> (#[trigger] geometry.segments@[i]).len > 0
                && geometry.segments@[i].col + geometry.segments@[i].len <= mask.width,
{
    let n = mask.runs@.len() as int;
    lemma_gaps_cover(mask.runs@, mask.width as int, mask.height as int, n, p);
    assert(mask.runs@.take(n) =~= mask.runs@);
}

/// The first mask that the metadata files hold.
pub open spec fn first_mask(masks: Seq<Option<GlowMask>>) -> Option<GlowMask>
    decreases masks.len(),
{
    if masks.len() == 0 {
        None
    } else if masks[0] is Some {
        masks[0]
    } else {
        first_mask(masks.skip(1))
    }
}

/// The geometry of a device from its metadata files, of which the first with a mask
/// counts. There is none without a mask or for one that is malformed.
pub fn load_glow_geometry(masks: &[Option<GlowMask>]) -> (out: Option<GlowGeometry>)
    ensures
        match (out, first_mask(masks@)) {
            (Some(g), Some(mask)) => is_valid_mask(mask) && g.width == mask.width && g.height
                == mask.height && g.segments@ == gaps(
                mask.runs@,
                mask.width as int,
                mask.runs@.len() as int,
            ),
            (None, Some(mask)) => !is_valid_mask(mask),
            (Some(_), None) => false,
            (None, None) => true,
        },
{
    let n: usize = masks.len();
    let mut i: usize = 0;
    assert(masks@.skip(0) =~= masks@);
    while i < n
        invariant
            i <= n,
            n == masks@.len(),
            first_mask(masks@) == first_mask(masks@.skip(i as int)),
        decreases n - i,
    {
        match &masks[i] {
            Some(mask) => {
                return GlowGeometry::from_mask(mask);
            },
            None => {},
        }
        assert(masks@.skip(i as int).skip(1) =~= masks@.skip(i as int + 1));
        i = i + 1;
    }
    None
}

} // verus!
