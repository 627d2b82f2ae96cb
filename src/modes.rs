use vstd::prelude::*;

verus! {

/// The interaction modes of the editor.
#[derive(Debug, PartialEq, Eq, Structural, Hash, Clone, Copy)]
pub enum ModeId {
    Global,
    Sketch,
    Point,
    Line,
    Circle,
    Command,
    CappedLine,
    ArcThreePoint,
    DataEntry,
}

/// The modifier keys held down during an input event.
#[derive(Debug, PartialEq, Eq, Structural, Clone, Copy)]
pub struct KeyMods {
    pub shift: bool,
    pub ctrl: bool,
    pub l_alt: bool,
    pub r_alt: bool,
}

} // verus!
