use crate::bounded::BoundedIndex;
use crate::primitive::Primitive;
use crate::style::ShapeStyle;
use vstd::math::min;
use vstd::prelude::*;

verus! {

/// How many primitives an emission produces for `pairs` stored samples and
/// the given marker radius: nothing when the series is empty, the path alone
/// when markers are disabled, and one marker per sample before the path
/// otherwise.
pub open spec fn primitive_count(pairs: nat, radius: u32) -> nat {
    if pairs == 0 {
        0
    } else if radius == 0 {
        1
    } else {
        pairs + 1
    }
}

/// A line series under construction: two equally long sequences of x and y
/// coordinates, a style, and a marker radius (0 disables markers). It is
/// built once, optionally reconfigured, and then consumed by [`Self::emit`].
pub struct MatLineSeries<X, Y> {
    style: ShapeStyle,
    y: Vec<Y>,
    x: Vec<X>,
    point_size: u32,
}

impl<X, Y> MatLineSeries<X, Y> {
    /// The stored sequences are always equally long.
    #[verifier::type_invariant]
    spec fn wf(self) -> bool {
        self.x@.len() == self.y@.len()
    }

    /// The stored x values.
    pub closed spec fn xs(self) -> Seq<X> {
        self.x@
    }

    /// The stored y values.
    pub closed spec fn ys(self) -> Seq<Y> {
        self.y@
    }

    /// The style every emitted primitive will carry.
    pub closed spec fn style_of(self) -> ShapeStyle {
        self.style
    }

    /// The configured marker radius; 0 means markers are disabled.
    pub closed spec fn marker_radius(self) -> u32 {
        self.point_size
    }

    /// The stored samples, as (x, y) pairs in original order.
    pub open spec fn pairs(self) -> Seq<(X, Y)> {
        Seq::new(self.xs().len(), |i: int| (self.xs()[i], self.ys()[i]))
    }

    /// Builds a series from paired x and y sequences. If their lengths
    /// differ, the longer one is silently truncated to the shorter: the
    /// stored sequences keep the matching prefixes, element for element, and
    /// both have length `min(x.len(), y.len())`. The style defaults to a
    /// neutral stroke and markers start disabled.
    pub fn from_xy(x: Vec<X>, y: Vec<Y>) -> (s: Self)
        ensures
            s.xs() == x@.take(min(x@.len() as int, y@.len() as int)),
            s.ys() == y@.take(min(x@.len() as int, y@.len() as int)),
            s.pairs().len() == min(x@.len() as int, y@.len() as int),
            forall|i: int|
                0 <= i < s.pairs().len() ==> #[trigger] s.pairs()[i] == (x@[i], y@[i]),
            s.style_of() == ShapeStyle::neutral_stroke_spec(),
            s.marker_radius() == 0,
    {
        let ghost gx = x@;
        let ghost gy = y@;
        let mut x = x;
        let mut y = y;
        if x.len() < y.len() {
            y.truncate(x.len());
        } else if x.len() > y.len() {
            x.truncate(y.len());
        }
        let s = MatLineSeries { style: ShapeStyle::neutral_stroke(), y, x, point_size: 0 };
        proof {
            let m = min(gx.len() as int, gy.len() as int);
            assert(s.xs() =~= gx.take(m));
            assert(s.ys() =~= gy.take(m));
        }
        s
    }

    /// Sets the radius, in pixels, of the markers drawn on every sample at
    /// emission time; 0 disables markers. The new value replaces whatever was
    /// configured before; the stored data and the style are untouched.
    pub fn point_size(self, size: u32) -> (s: Self)
        ensures
            s.xs() == self.xs(),
            s.ys() == self.ys(),
            s.style_of() == self.style_of(),
            s.marker_radius() == size,
    {
        proof {
            use_type_invariant(&self);
        }
        let MatLineSeries { style, y, x, point_size: _ } = self;
        MatLineSeries { style, y, x, point_size: size }
    }
}

impl<X: BoundedIndex, Y> MatLineSeries<X, Y> {
    /// Builds a series from y values alone, synthesizing the x-axis
    /// `0, 1, 2, …` in the bounded integer type `X`, one value per y element.
    /// When the indices outgrow `X`, the axis saturates: it ascends to
    /// `X`'s maximum and then repeats that maximum, so the two stored
    /// sequences are always equally long and construction never fails. The
    /// style defaults to a neutral stroke and markers start disabled.
    pub fn from_y(y: Vec<Y>) -> (s: Self)
        ensures
            s.ys() == y@,
            s.xs().len() == y@.len(),
            forall|i: int|
                0 <= i < y@.len() ==> (#[trigger] s.xs()[i]).as_int() == min(i, X::max_int()),
            y@.len() <= X::max_int() + 1 ==> forall|i: int|
                0 <= i < y@.len() ==> (#[trigger] s.xs()[i]).as_int() == i,
            s.style_of() == ShapeStyle::neutral_stroke_spec(),
            s.marker_radius() == 0,
    {
        let n = y.len();
        let mut x: Vec<X> = Vec::new();
        let mut i: usize = 0;
        while i < n
            invariant
                i <= n,
                x@.len() == i,
                forall|j: int|
                    0 <= j < i ==> (#[trigger] x@[j]).as_int() == min(j, X::max_int()),
            decreases n - i,
        {
            x.push(X::saturating_index(i));
            i = i + 1;
        }
        MatLineSeries { style: ShapeStyle::neutral_stroke(), y, x, point_size: 0 }
    }
}

impl<X: Copy, Y: Copy> MatLineSeries<X, Y> {
    /// Consumes the series and produces its drawable primitives, in draw
    /// order. An empty series produces nothing. Otherwise, if the marker
    /// radius is positive, one marker per stored sample comes first, in
    /// original data order; the last primitive is always the single path
    /// connecting every stored sample in order. Every primitive carries the
    /// stored style. Emission never fails.
    pub fn emit(self) -> (prims: Vec<Primitive<X, Y>>)
        ensures
            prims@.len() == primitive_count(self.pairs().len(), self.marker_radius()),
            self.pairs().len() > 0 ==> prims@.last().is_path_of(
                self.pairs(),
                self.style_of(),
            ),
            self.marker_radius() > 0 ==> forall|i: int|
                0 <= i < self.pairs().len() ==> (#[trigger] prims@[i]).is_marker_of(
                    self.pairs()[i],
                    self.marker_radius(),
                    self.style_of(),
                ),
    {
        proof {
            use_type_invariant(&self);
        }
        let ghost g = self;
        let MatLineSeries { style, y, x, point_size } = self;
        let n = x.len();
        let mut prims: Vec<Primitive<X, Y>> = Vec::new();
        if n == 0 {
            return prims;
        }
        if point_size > 0 {
            let mut i: usize = 0;
            while i < n
                invariant
                    i <= n,
                    n == x@.len(),
                    n == y@.len(),
                    prims@.len() == i,
                    forall|j: int|
                        0 <= j < i ==> (#[trigger] prims@[j]).is_marker_of(
                            (x@[j], y@[j]),
                            point_size,
                            style,
                        ),
                decreases n - i,
            {
                let cx = x[i];
                let cy = y[i];
                prims.push(Primitive::Marker { center: (cx, cy), radius: point_size, style });
                i = i + 1;
            }
        }
        let mut points: Vec<(X, Y)> = Vec::new();
        let mut i: usize = 0;
        while i < n
            invariant
                i <= n,
                n == x@.len(),
                n == y@.len(),
                points@.len() == i,
                forall|j: int| 0 <= j < i ==> #[trigger] points@[j] == (x@[j], y@[j]),
            decreases n - i,
        {
            let cx = x[i];
            let cy = y[i];
            points.push((cx, cy));
            i = i + 1;
        }
        proof {
            assert(points@ =~= g.pairs());
        }
        prims.push(Primitive::Path { points, style });
        prims
    }
}

} // verus!
