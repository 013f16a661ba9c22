use vstd::prelude::*;

verus! {

/// A stroke/fill descriptor. The series builder never interprets it; it is
/// stored at construction time and carried through unchanged to every emitted
/// primitive.
#[derive(Clone, Copy, Debug, PartialEq, Eq, Structural)]
pub struct ShapeStyle {
    pub red: u8,
    pub green: u8,
    pub blue: u8,
    pub filled: bool,
    pub stroke_width: u32,
}

impl ShapeStyle {
    /// The default style of a freshly built series: a solid neutral (black)
    /// stroke of width 1, not filled.
    pub open spec fn neutral_stroke_spec() -> ShapeStyle {
        ShapeStyle { red: 0, green: 0, blue: 0, filled: false, stroke_width: 1 }
    }

    /// Builds the default neutral stroke style.
    pub fn neutral_stroke() -> (s: ShapeStyle)
        ensures
            s == ShapeStyle::neutral_stroke_spec(),
    {
        ShapeStyle { red: 0, green: 0, blue: 0, filled: false, stroke_width: 1 }
    }
}

} // verus!
