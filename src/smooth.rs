use vstd::prelude::*;

verus! {

/// The four consecutive samples around one segment of a Catmull-Rom spline:
/// the segment runs from `p1` to `p2`; `p0` and `p3` are its neighbours,
/// clamped to the ends of the sequence. The cubic Bezier control points are
/// `(-p0 + 6 p1 + p2) / 6` and `(p1 + 6 p2 - p3) / 6`, and the curve ends
/// at `p2`.
#[derive(Clone, Copy, Debug)]
pub struct Segment<P> {
    pub p0: P,
    pub p1: P,
    pub p2: P,
    pub p3: P,
}

/// Index of the predecessor of sample `i`, the first sample standing for
/// its own predecessor.
pub open spec fn pred_index(i: int) -> int {
    if i == 0 {
        0
    } else {
        i - 1
    }
}

/// Index of the successor of sample `i + 1` in a sequence of `n` samples,
/// the last sample standing for its own successor.
pub open spec fn succ_index(n: int, i: int) -> int {
    if i + 2 > n - 1 {
        i + 1
    } else {
        i + 2
    }
}

/// The window of segment `i` (from sample `i` to sample `i + 1`).
pub open spec fn segment_at<P>(points: Seq<P>, i: int) -> Segment<P> {
    Segment {
        p0: points[pred_index(i)],
        p1: points[i],
        p2: points[i + 1],
        p3: points[succ_index(points.len() as int, i)],
    }
}

/// The windows of all segments of a sequence of samples, in order.
pub open spec fn segments_of<P>(points: Seq<P>) -> Seq<Segment<P>> {
    Seq::new((points.len() - 1) as nat, |i: int| segment_at(points, i))
}

/// The Catmull-Rom windows of a sequence of at least two samples: one per
/// pair of consecutive samples, in order.
pub fn catmull_segments<P: Copy>(points: &Vec<P>) -> (r: Vec<Segment<P>>)
    requires
        points.len() >= 2,
    ensures
        r@ == segments_of(points@),
{
    let mut res: Vec<Segment<P>> = Vec::new();
    let last: usize = points.len() - 1;
    let mut i: usize = 0;
    while i < last
        invariant
            last + 1 == points.len(),
            i <= last,
            res@ == segments_of(points@).take(i as int),
        decreases last - i,
    {
        let p0 = if i == 0 {
            points[0]
        } else {
            points[i - 1]
        };
        let p1 = points[i];
        let p2 = points[i + 1];
        let p3 = if i + 2 > last {
            points[i + 1]
        } else {
            points[i + 2]
        };
        res.push(Segment { p0, p1, p2, p3 });
        proof {
            assert(res@ =~= segments_of(points@).take(i + 1));
        }
        i = i + 1;
    }
    proof {
        assert(res@ =~= segments_of(points@));
    }
    res
}

/// Smoothing `n >= 2` samples gives `n - 1` segments; the first starts from
/// the first sample, clamped as its own predecessor; the last ends at the
/// last sample, clamped as its own successor; each segment ends at the next
/// sample. For two samples this is a single segment ending at the second.
pub proof fn lemma_segments_shape<P>(points: Seq<P>)
    requires
        points.len() >= 2,
    ensures
        segments_of(points).len() == points.len() - 1,
        segments_of(points)[0].p0 == points[0],
        segments_of(points)[0].p1 == points[0],
        segments_of(points).last().p2 == points.last(),
        segments_of(points).last().p3 == points.last(),
        forall|i: int|
            0 <= i < points.len() - 1 ==> #[trigger] segments_of(points)[i].p2 == points[i + 1],
        points.len() == 2 ==> segments_of(points).len() == 1 && segments_of(points)[0].p2
            == points[1],
{
}

} // verus!
