//! Affine transform matrices and axis-aligned bounding boxes.

use vstd::prelude::*;
use crate::scalar::Real;

verus! {

/// A point of the plane.
#[derive(Clone, Copy, Debug, PartialEq, Eq, Structural)]
pub struct Point {
    pub x: Real,
    pub y: Real,
}

/// A 2D affine map. A point `(x, y)` goes to
/// `(a*x + c*y + e, b*x + d*y + f)`.
#[derive(Clone, Copy, Debug, PartialEq, Eq, Structural)]
pub struct TransformMatrix {
    pub a: Real,
    pub b: Real,
    pub c: Real,
    pub d: Real,
    pub e: Real,
    pub f: Real,
}

/// An axis-aligned rectangle given by its extreme coordinates.
#[derive(Clone, Copy, Debug, PartialEq, Eq, Structural)]
pub struct BoundingBox {
    pub min_x: Real,
    pub min_y: Real,
    pub max_x: Real,
    pub max_y: Real,
}

impl TransformMatrix {
    pub open spec fn spec_identity() -> TransformMatrix {
        TransformMatrix {
            a: Real::one(),
            b: Real::zero(),
            c: Real::zero(),
            d: Real::one(),
            e: Real::zero(),
            f: Real::zero(),
        }
    }

    /// The image of a point.
    pub open spec fn spec_apply(self, p: Point) -> Point {
        Point {
            x: self.a.mul(p.x).add(self.c.mul(p.y)).add(self.e),
            y: self.b.mul(p.x).add(self.d.mul(p.y)).add(self.f),
        }
    }

    /// The map that applies `local` first and `self` afterwards.
    pub open spec fn spec_compose(self, local: TransformMatrix) -> TransformMatrix {
        TransformMatrix {
            a: self.a.mul(local.a).add(self.c.mul(local.b)),
            b: self.b.mul(local.a).add(self.d.mul(local.b)),
            c: self.a.mul(local.c).add(self.c.mul(local.d)),
            d: self.b.mul(local.c).add(self.d.mul(local.d)),
            e: self.a.mul(local.e).add(self.c.mul(local.f)).add(self.e),
            f: self.b.mul(local.e).add(self.d.mul(local.f)).add(self.f),
        }
    }

    /// The same linear part with the translation moved by `(x, y)`.
    pub open spec fn spec_translated(self, x: Real, y: Real) -> TransformMatrix {
        TransformMatrix { e: self.e.add(x), f: self.f.add(y), ..self }
    }

    /// The images of the four corners of a box, in the order
    /// (min, min), (min, max), (max, min), (max, max).
    pub open spec fn spec_corners(self, bound: BoundingBox) -> Seq<Point> {
        seq![
            self.spec_apply(Point { x: bound.min_x, y: bound.min_y }),
            self.spec_apply(Point { x: bound.min_x, y: bound.max_y }),
            self.spec_apply(Point { x: bound.max_x, y: bound.min_y }),
            self.spec_apply(Point { x: bound.max_x, y: bound.max_y }),
        ]
    }

    #[verifier::when_used_as_spec(spec_identity)]
    pub fn identity() -> (m: TransformMatrix)
        ensures
            m == TransformMatrix::spec_identity(),
    {
        TransformMatrix {
            a: Real::one(),
            b: Real::zero(),
            c: Real::zero(),
            d: Real::one(),
            e: Real::zero(),
            f: Real::zero(),
        }
    }

    #[verifier::when_used_as_spec(spec_apply)]
    pub fn apply(self, p: Point) -> (q: Point)
        ensures
            q == self.spec_apply(p),
    {
        Point {
            x: self.a.mul(p.x).add(self.c.mul(p.y)).add(self.e),
            y: self.b.mul(p.x).add(self.d.mul(p.y)).add(self.f),
        }
    }

    #[verifier::when_used_as_spec(spec_compose)]
    pub fn compose(self, local: TransformMatrix) -> (m: TransformMatrix)
        ensures
            m == self.spec_compose(local),
    {
        TransformMatrix {
            a: self.a.mul(local.a).add(self.c.mul(local.b)),
            b: self.b.mul(local.a).add(self.d.mul(local.b)),
            c: self.a.mul(local.c).add(self.c.mul(local.d)),
            d: self.b.mul(local.c).add(self.d.mul(local.d)),
            e: self.a.mul(local.e).add(self.c.mul(local.f)).add(self.e),
            f: self.b.mul(local.e).add(self.d.mul(local.f)).add(self.f),
        }
    }

    /// Moves the translation of the map by `(x, y)` in place.
    pub fn translate_add(&mut self, x: Real, y: Real)
        ensures
            *final(self) == old(self).spec_translated(x, y),
    {
        self.e = self.e.add(x);
        self.f = self.f.add(y);
    }

    /// Maps the four corners of a box.
    pub fn corners(self, bound: BoundingBox) -> (points: [Point; 4])
        ensures
            points@ == self.spec_corners(bound),
    {
        let points = [
            self.apply(Point { x: bound.min_x, y: bound.min_y }),
            self.apply(Point { x: bound.min_x, y: bound.max_y }),
            self.apply(Point { x: bound.max_x, y: bound.min_y }),
            self.apply(Point { x: bound.max_x, y: bound.max_y }),
        ];
        assert(points@ =~= self.spec_corners(bound));
        points
    }
}

impl Default for TransformMatrix {
    fn default() -> (m: TransformMatrix)
        ensures
            m == TransformMatrix::spec_identity(),
    {
        TransformMatrix::identity()
    }
}

/// The identity is neutral for composition on both sides and fixes every point.
pub proof fn lemma_identity_neutral(m: TransformMatrix, p: Point)
    ensures
        m.compose(TransformMatrix::identity()) == m,
        TransformMatrix::identity().compose(m) == m,
        TransformMatrix::identity().apply(p) == p,
{
    crate::scalar::lemma_mul_unit(m.a);
    crate::scalar::lemma_mul_unit(m.b);
    crate::scalar::lemma_mul_unit(m.c);
    crate::scalar::lemma_mul_unit(m.d);
    crate::scalar::lemma_mul_unit(m.e);
    crate::scalar::lemma_mul_unit(m.f);
    crate::scalar::lemma_mul_unit(p.x);
    crate::scalar::lemma_mul_unit(p.y);
}

impl BoundingBox {
    /// Neither axis is inverted.
    pub open spec fn wf(self) -> bool {
        self.min_x@ <= self.max_x@ && self.min_y@ <= self.max_y@
    }

    /// The zero-area box at the origin.
    pub open spec fn spec_zero() -> BoundingBox {
        BoundingBox { min_x: Real::zero(), min_y: Real::zero(), max_x: Real::zero(), max_y: Real::zero() }
    }

    pub open spec fn spec_width(&self) -> Real {
        self.max_x.sub(self.min_x)
    }

    pub open spec fn spec_height(&self) -> Real {
        self.max_y.sub(self.min_y)
    }

    /// The smallest box that covers both boxes.
    pub open spec fn spec_union(self, other: BoundingBox) -> BoundingBox {
        BoundingBox {
            min_x: self.min_x.min(other.min_x),
            min_y: self.min_y.min(other.min_y),
            max_x: self.max_x.max(other.max_x),
            max_y: self.max_y.max(other.max_y),
        }
    }

    /// The degenerate box that holds one point.
    pub open spec fn spec_at(p: Point) -> BoundingBox {
        BoundingBox { min_x: p.x, min_y: p.y, max_x: p.x, max_y: p.y }
    }

    /// The smallest box that covers every box of the sequence; the zero box for none.
    pub open spec fn union_all(boxes: Seq<BoundingBox>) -> BoundingBox
        decreases boxes.len(),
    {
        if boxes.len() == 0 {
            BoundingBox::spec_zero()
        } else if boxes.len() == 1 {
            boxes[0]
        } else {
            BoundingBox::union_all(boxes.drop_last()).spec_union(boxes.last())
        }
    }

    /// The smallest box that covers every point of the sequence; the zero box for none.
    pub open spec fn spec_enclosing(points: Seq<Point>) -> BoundingBox {
        BoundingBox::union_all(points.map_values(|p: Point| BoundingBox::spec_at(p)))
    }

    #[verifier::when_used_as_spec(spec_zero)]
    pub fn zero() -> (b: BoundingBox)
        ensures
            b == BoundingBox::spec_zero(),
            b.wf(),
    {
        BoundingBox { min_x: Real::zero(), min_y: Real::zero(), max_x: Real::zero(), max_y: Real::zero() }
    }

    #[verifier::when_used_as_spec(spec_width)]
    pub fn width(&self) -> (w: Real)
        ensures
            w == self.spec_width(),
            self.wf() ==> w@ >= 0,
    {
        self.max_x.sub(self.min_x)
    }

    #[verifier::when_used_as_spec(spec_height)]
    pub fn height(&self) -> (h: Real)
        ensures
            h == self.spec_height(),
            self.wf() ==> h@ >= 0,
    {
        self.max_y.sub(self.min_y)
    }

    #[verifier::when_used_as_spec(spec_union)]
    pub fn union(self, other: BoundingBox) -> (u: BoundingBox)
        ensures
            u == self.spec_union(other),
            self.wf() || other.wf() ==> u.wf(),
    {
        BoundingBox {
            min_x: self.min_x.min(other.min_x),
            min_y: self.min_y.min(other.min_y),
            max_x: self.max_x.max(other.max_x),
            max_y: self.max_y.max(other.max_y),
        }
    }

    /// The union of a list of boxes, the zero box for an empty list.
    pub fn union_of(boxes: &Vec<BoundingBox>) -> (u: BoundingBox)
        ensures
            u == BoundingBox::union_all(boxes@),
    {
        if boxes.len() == 0 {
            return BoundingBox::zero();
        }
        let mut acc = boxes[0];
        let mut i: usize = 1;
        assert(boxes@.take(1) =~= seq![boxes@[0]]);
        while i < boxes.len()
            invariant
                1 <= i <= boxes.len(),
                acc == BoundingBox::union_all(boxes@.take(i as int)),
            decreases boxes.len() - i,
        {
            assert(boxes@.take(i + 1).drop_last() =~= boxes@.take(i as int));
            acc = acc.union(boxes[i]);
            i += 1;
        }
        assert(boxes@.take(boxes.len() as int) =~= boxes@);
        acc
    }

    /// The smallest box that covers the four given points.
    pub fn enclosing(points: &[Point; 4]) -> (u: BoundingBox)
        ensures
            u == BoundingBox::spec_enclosing(points@),
            u.wf(),
    {
        let p0 = points[0];
        let p1 = points[1];
        let p2 = points[2];
        let p3 = points[3];
        let b0 = BoundingBox { min_x: p0.x, min_y: p0.y, max_x: p0.x, max_y: p0.y };
        let b1 = BoundingBox { min_x: p1.x, min_y: p1.y, max_x: p1.x, max_y: p1.y };
        let b2 = BoundingBox { min_x: p2.x, min_y: p2.y, max_x: p2.x, max_y: p2.y };
        let b3 = BoundingBox { min_x: p3.x, min_y: p3.y, max_x: p3.x, max_y: p3.y };
        proof {
            let boxes = points@.map_values(|p: Point| BoundingBox::spec_at(p));
            assert(boxes =~= seq![b0, b1, b2, b3]);
            assert(boxes.drop_last() =~= seq![b0, b1, b2]);
            assert(boxes.drop_last().drop_last() =~= seq![b0, b1]);
            assert(boxes.drop_last().drop_last().drop_last() =~= seq![b0]);
            reveal_with_fuel(BoundingBox::union_all, 4);
        }
        b0.union(b1).union(b2).union(b3)
    }
}

impl Default for BoundingBox {
    fn default() -> (b: BoundingBox)
        ensures
            b == BoundingBox::spec_zero(),
    {
        BoundingBox::zero()
    }
}

/// The union of two boxes does not depend on their order.
pub proof fn lemma_union_commutative(a: BoundingBox, b: BoundingBox)
    ensures
        a.union(b) == b.union(a),
{
}

/// The union of three boxes does not depend on how they are grouped.
pub proof fn lemma_union_associative(a: BoundingBox, b: BoundingBox, c: BoundingBox)
    ensures
        a.union(b).union(c) == a.union(b.union(c)),
{
}

/// The union of a box with itself is the box.
pub proof fn lemma_union_idempotent(a: BoundingBox)
    ensures
        a.union(a) == a,
{
}

/// The union of no boxes is the zero-area box at the origin.
pub proof fn lemma_union_all_empty()
    ensures
        BoundingBox::union_all(Seq::<BoundingBox>::empty()) == BoundingBox::zero(),
        BoundingBox::zero().wf(),
        BoundingBox::zero().width()@ == 0,
        BoundingBox::zero().height()@ == 0,
{
}

/// The union of a non-empty sequence is componentwise extreme: it bounds every member,
/// and each of its four coordinates is taken from some member.
pub proof fn lemma_union_all_extreme(boxes: Seq<BoundingBox>)
    requires
        boxes.len() > 0,
    ensures
        forall|i: int| 0 <= i < boxes.len() ==> {
            &&& BoundingBox::union_all(boxes).min_x@ <= (#[trigger] boxes[i]).min_x@
            &&& BoundingBox::union_all(boxes).min_y@ <= boxes[i].min_y@
            &&& BoundingBox::union_all(boxes).max_x@ >= boxes[i].max_x@
            &&& BoundingBox::union_all(boxes).max_y@ >= boxes[i].max_y@
        },
        exists|i: int| 0 <= i < boxes.len() && BoundingBox::union_all(boxes).min_x == (#[trigger] boxes[i]).min_x,
        exists|i: int| 0 <= i < boxes.len() && BoundingBox::union_all(boxes).min_y == (#[trigger] boxes[i]).min_y,
        exists|i: int| 0 <= i < boxes.len() && BoundingBox::union_all(boxes).max_x == (#[trigger] boxes[i]).max_x,
        exists|i: int| 0 <= i < boxes.len() && BoundingBox::union_all(boxes).max_y == (#[trigger] boxes[i]).max_y,
    decreases boxes.len(),
{
    if boxes.len() == 1 {
        assert(BoundingBox::union_all(boxes) == boxes[0]);
    } else {
        let front = boxes.drop_last();
        let last = boxes.len() - 1;
        lemma_union_all_extreme(front);
        let u = BoundingBox::union_all(boxes);
        let v = BoundingBox::union_all(front);
        assert(u == v.spec_union(boxes.last()));
        assert forall|i: int| 0 <= i < boxes.len() implies {
            &&& u.min_x@ <= (#[trigger] boxes[i]).min_x@
            &&& u.min_y@ <= boxes[i].min_y@
            &&& u.max_x@ >= boxes[i].max_x@
            &&& u.max_y@ >= boxes[i].max_y@
        } by {
            if i < last {
                assert(front[i] == boxes[i]);
            }
        }
        let i0 = choose|i: int| 0 <= i < front.len() && v.min_x == (#[trigger] front[i]).min_x;
        let i1 = choose|i: int| 0 <= i < front.len() && v.min_y == (#[trigger] front[i]).min_y;
        let i2 = choose|i: int| 0 <= i < front.len() && v.max_x == (#[trigger] front[i]).max_x;
        let i3 = choose|i: int| 0 <= i < front.len() && v.max_y == (#[trigger] front[i]).max_y;
        assert(front[i0] == boxes[i0] && front[i1] == boxes[i1] && front[i2] == boxes[i2] && front[i3] == boxes[i3]);
        assert(u.min_x == boxes[i0].min_x || u.min_x == boxes[last].min_x);
        assert(u.min_y == boxes[i1].min_y || u.min_y == boxes[last].min_y);
        assert(u.max_x == boxes[i2].max_x || u.max_x == boxes[last].max_x);
        assert(u.max_y == boxes[i3].max_y || u.max_y == boxes[last].max_y);
    }
}

/// The union of a sequence depends on which boxes it holds, and neither on their
/// order nor on how often each occurs.
pub proof fn lemma_union_all_of_a_set(a: Seq<BoundingBox>, b: Seq<BoundingBox>)
    requires
        forall|i: int| 0 <= i < a.len() ==> b.contains(#[trigger] a[i]),
        forall|j: int| 0 <= j < b.len() ==> a.contains(#[trigger] b[j]),
    ensures
        BoundingBox::union_all(a) == BoundingBox::union_all(b),
{
    if a.len() == 0 {
        if b.len() > 0 {
            assert(a.contains(b[0]));
        }
    } else {
        assert(b.contains(a[0]));
        lemma_union_all_extreme(a);
        lemma_union_all_extreme(b);
        let ua = BoundingBox::union_all(a);
        let ub = BoundingBox::union_all(b);
        lemma_bounded_below(a, b);
        lemma_bounded_below(b, a);
        assert(ua.min_x@ == ub.min_x@ && ua.min_y@ == ub.min_y@ && ua.max_x@ == ub.max_x@ && ua.max_y@ == ub.max_y@);
    }
}

/// Where every box of `b` occurs in `a`, the union of `a` reaches at least as far
/// as the union of `b` in every direction.
proof fn lemma_bounded_below(a: Seq<BoundingBox>, b: Seq<BoundingBox>)
    requires
        a.len() > 0,
        b.len() > 0,
        forall|j: int| 0 <= j < b.len() ==> a.contains(#[trigger] b[j]),
    ensures
        BoundingBox::union_all(a).min_x@ <= BoundingBox::union_all(b).min_x@,
        BoundingBox::union_all(a).min_y@ <= BoundingBox::union_all(b).min_y@,
        BoundingBox::union_all(a).max_x@ >= BoundingBox::union_all(b).max_x@,
        BoundingBox::union_all(a).max_y@ >= BoundingBox::union_all(b).max_y@,
{
    lemma_union_all_extreme(a);
    lemma_union_all_extreme(b);
    let ua = BoundingBox::union_all(a);
    let ub = BoundingBox::union_all(b);
    let j0 = choose|i: int| 0 <= i < b.len() && ub.min_x == (#[trigger] b[i]).min_x;
    let j1 = choose|i: int| 0 <= i < b.len() && ub.min_y == (#[trigger] b[i]).min_y;
    let j2 = choose|i: int| 0 <= i < b.len() && ub.max_x == (#[trigger] b[i]).max_x;
    let j3 = choose|i: int| 0 <= i < b.len() && ub.max_y == (#[trigger] b[i]).max_y;
    assert(a.contains(b[j0]) && a.contains(b[j1]) && a.contains(b[j2]) && a.contains(b[j3]));
    let i0 = choose|i: int| 0 <= i < a.len() && a[i] == b[j0];
    let i1 = choose|i: int| 0 <= i < a.len() && a[i] == b[j1];
    let i2 = choose|i: int| 0 <= i < a.len() && a[i] == b[j2];
    let i3 = choose|i: int| 0 <= i < a.len() && a[i] == b[j3];
    assert(ua.min_x@ <= a[i0].min_x@);
    assert(ua.min_y@ <= a[i1].min_y@);
    assert(ua.max_x@ >= a[i2].max_x@);
    assert(ua.max_y@ >= a[i3].max_y@);
}

/// The union of boxes of which none is inverted is not inverted.
pub proof fn lemma_union_all_wf(boxes: Seq<BoundingBox>)
    requires
        forall|i: int| 0 <= i < boxes.len() ==> (#[trigger] boxes[i]).wf(),
    ensures
        BoundingBox::union_all(boxes).wf(),
    decreases boxes.len(),
{
    if boxes.len() > 1 {
        let front = boxes.drop_last();
        assert forall|i: int| 0 <= i < front.len() implies (#[trigger] front[i]).wf() by {
            assert(front[i] == boxes[i]);
        }
        lemma_union_all_wf(front);
        assert(boxes.last() == boxes[boxes.len() - 1]);
    } else if boxes.len() == 1 {
        assert(boxes[0].wf());
    }
}

/// The union of a concatenation is the union of the unions of its non-empty parts.
pub proof fn lemma_union_all_concat(front: Seq<BoundingBox>, back: Seq<BoundingBox>)
    requires
        front.len() > 0,
        back.len() > 0,
    ensures
        BoundingBox::union_all(front + back) == BoundingBox::union_all(front).union(
            BoundingBox::union_all(back),
        ),
    decreases back.len(),
{
    let all = front + back;
    assert(all.last() == back.last());
    if back.len() == 1 {
        assert(all.drop_last() =~= front);
    } else {
        assert(all.drop_last() =~= front + back.drop_last());
        lemma_union_all_concat(front, back.drop_last());
        lemma_union_associative(
            BoundingBox::union_all(front),
            BoundingBox::union_all(back.drop_last()),
            back.last(),
        );
    }
}

} // verus!
