use crate::style::ShapeStyle;
use vstd::prelude::*;

verus! {

/// An abstract drawable shape, independent of any rasterization: either a
/// circular marker highlighting one sample, or a path connecting all samples
/// in order. A rendering backend is expected to draw the primitives in the
/// order they were emitted.
pub enum Primitive<X, Y> {
    /// A circular marker centered on one stored sample.
    Marker { center: (X, Y), radius: u32, style: ShapeStyle },
    /// A path that connects every stored sample, in original order.
    Path { points: Vec<(X, Y)>, style: ShapeStyle },
}

impl<X, Y> Primitive<X, Y> {
    /// Whether this primitive is a marker with exactly the given center,
    /// radius and style.
    pub open spec fn is_marker_of(self, center: (X, Y), radius: u32, style: ShapeStyle) -> bool {
        match self {
            Primitive::Marker { center: c, radius: r, style: s } => c == center && r == radius
                && s == style,
            Primitive::Path { .. } => false,
        }
    }

    /// Whether this primitive is a path through exactly the given points,
    /// with the given style.
    pub open spec fn is_path_of(self, points: Seq<(X, Y)>, style: ShapeStyle) -> bool {
        match self {
            Primitive::Path { points: p, style: s } => p@ == points && s == style,
            Primitive::Marker { .. } => false,
        }
    }
}

} // verus!
