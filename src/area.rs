use vstd::prelude::*;

use crate::registry::RegId;

verus! {

/// Where an area's texture is pinned when it is larger than the area.
#[derive(Debug, PartialEq, Eq, Structural, Clone, Copy)]
pub enum RenderAnchor {
    Left,
    Center,
    Right,
}

/// What an area of the window shows.
#[derive(Debug, PartialEq, Eq, Structural, Clone, Copy)]
pub enum AreaType {
    Empty,
    Viewport3d,
    ToolSelection,
    ContraintSelection,
    SketchViewer,
}

/// The identifier of an area of the window.
#[derive(Debug, PartialEq, Eq, Structural, PartialOrd, Ord, Hash, Clone, Copy)]
pub struct AreaId(pub i64);

impl RegId for AreaId {
    open spec fn id_value(&self) -> int {
        self.0 as int
    }

    fn new() -> (r: Self) {
        AreaId(0)
    }

    fn increment(self) -> (r: Self) {
        AreaId(self.0 + 1)
    }

    fn raw(&self) -> (r: i64) {
        self.0
    }
}

impl Default for AreaId {
    /// The sentinel that no registry ever hands out.
    fn default() -> (r: Self)
        ensures
            r.0 == -1,
    {
        AreaId(-1)
    }
}

} // verus!
