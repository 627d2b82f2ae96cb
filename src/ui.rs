use vstd::prelude::*;

use crate::registry::RegId;

verus! {

/// The identifier of a widget.
#[derive(Debug, PartialEq, Eq, Structural, PartialOrd, Ord, Hash, Clone, Copy)]
pub struct UiId(pub i64);

impl RegId for UiId {
    open spec fn id_value(&self) -> int {
        self.0 as int
    }

    fn new() -> (r: Self) {
        UiId(0)
    }

    fn increment(self) -> (r: Self) {
        UiId(self.0 + 1)
    }

    fn raw(&self) -> (r: i64) {
        self.0
    }
}

/// The named styles that widgets are drawn with.
#[derive(Debug, PartialEq, Eq, Structural, PartialOrd, Ord, Hash, Clone, Copy)]
pub enum StyleType {
    Default,
    Area,
    AreaText,
    Boundary,
    DropDown,
    DropDownHovered,
    Icon,
    IconHovered,
}

/// The key of a style: one per named style.
#[derive(Debug, PartialEq, Eq, Structural, PartialOrd, Ord, Hash, Clone, Copy)]
pub struct StyleId(pub StyleType);

/// How a line of text sits on its anchor point.
#[derive(Debug, PartialEq, Eq, Structural, Clone, Copy)]
pub enum TextAlignment {
    Left,
    Center,
    Right,
}

/// The icons of the constraint toolbar.
#[derive(Debug, PartialEq, Eq, Structural, PartialOrd, Ord, Hash, Clone, Copy)]
pub enum ImageId {
    IconAngle,
    IconCoincident,
    IconColinear,
    IconDistance,
    IconHorizontal,
    IconParallel,
    IconPerpendicular,
    IconTangent,
    IconVertical,
}

} // verus!
