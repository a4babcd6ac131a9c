use vstd::prelude::*;

verus! {

/// A point in map space, in whole map units. Map coordinates are never negative.
#[derive(Clone, Copy, Debug, PartialEq, Eq, Structural)]
pub struct Pt {
    pub x: u64,
    pub y: u64,
}

/// Sum of the x coordinates of `pts`.
pub open spec fn sum_x(pts: Seq<Pt>) -> nat
    decreases pts.len(),
{
    if pts.len() == 0 {
        0
    } else {
        sum_x(pts.drop_last()) + pts.last().x as nat
    }
}

/// Sum of the y coordinates of `pts`.
pub open spec fn sum_y(pts: Seq<Pt>) -> nat
    decreases pts.len(),
{
    if pts.len() == 0 {
        0
    } else {
        sum_y(pts.drop_last()) + pts.last().y as nat
    }
}

/// The centroid of a non-empty list of points: the mean of each coordinate,
/// rounded down.
pub open spec fn centroid(pts: Seq<Pt>) -> Pt
    recommends
        pts.len() > 0,
{
    Pt { x: (sum_x(pts) / pts.len()) as u64, y: (sum_y(pts) / pts.len()) as u64 }
}

proof fn lemma_sums_bounded(pts: Seq<Pt>)
    ensures
        sum_x(pts) <= pts.len() * (u64::MAX as nat),
        sum_y(pts) <= pts.len() * (u64::MAX as nat),
    decreases pts.len(),
{
    if pts.len() > 0 {
        lemma_sums_bounded(pts.drop_last());
        assert(pts.len() * (u64::MAX as nat) == (pts.len() - 1) * (u64::MAX as nat) + u64::MAX)
            by (nonlinear_arith);
    }
}

proof fn lemma_mean_fits(sum: nat, n: nat)
    requires
        n > 0,
        sum <= n * (u64::MAX as nat),
    ensures
        sum / n <= u64::MAX,
{
    assert(sum / n <= u64::MAX) by (nonlinear_arith)
        requires
            n > 0,
            sum <= n * (u64::MAX as nat),
    {
        assert((n * (u64::MAX as nat)) / n == u64::MAX as nat) by (nonlinear_arith)
            requires n > 0;
        assert(sum / n <= (n * (u64::MAX as nat)) / n) by (nonlinear_arith)
            requires n > 0, sum <= n * (u64::MAX as nat);
    }
}

impl Pt {
    pub fn new(x: u64, y: u64) -> (r: Pt)
        ensures
            r == (Pt { x, y }),
    {
        Pt { x, y }
    }

    /// The centroid of `pts`, which must not be empty.
    pub fn center(pts: &Vec<Pt>) -> (r: Pt)
        requires
            pts@.len() > 0,
        ensures
            r == centroid(pts@),
    {
        let mut sx: u128 = 0;
        let mut sy: u128 = 0;
        let mut i: usize = 0;
        while i < pts.len()
            invariant
                i <= pts@.len(),
                sx == sum_x(pts@.take(i as int)),
                sy == sum_y(pts@.take(i as int)),
            decreases pts@.len() - i,
        {
            proof {
                let pre = pts@.take(i as int + 1);
                assert(pre.drop_last() =~= pts@.take(i as int));
                lemma_sums_bounded(pts@.take(i as int));
                assert(i * (u64::MAX as nat) <= 0x1_0000_0000_0000_0000 * (u64::MAX as nat))
                    by (nonlinear_arith)
                    requires i <= usize::MAX, usize::MAX < 0x1_0000_0000_0000_0000u128;
            }
            sx = sx + pts[i].x as u128;
            sy = sy + pts[i].y as u128;
            i = i + 1;
        }
        proof {
            assert(pts@.take(pts@.len() as int) =~= pts@);
            lemma_sums_bounded(pts@);
            lemma_mean_fits(sum_x(pts@), pts@.len());
            lemma_mean_fits(sum_y(pts@), pts@.len());
        }
        let n = pts.len() as u128;
        Pt { x: (sx / n) as u64, y: (sy / n) as u64 }
    }
}

} // verus!
