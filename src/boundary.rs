use vstd::prelude::*;

use crate::area::AreaId;
use crate::registry::RegId;

verus! {

/// Whether a boundary between areas runs across or down the window.
#[derive(Debug, PartialEq, Eq, Structural, Clone, Copy)]
pub enum BoundaryOrientation {
    Horizontal,
    Vertical,
}

/// The identifier of a boundary between areas.
#[derive(Debug, PartialEq, Eq, Structural, PartialOrd, Ord, Hash, Clone, Copy)]
pub struct BoundaryId(pub i64);

impl RegId for BoundaryId {
    open spec fn id_value(&self) -> int {
        self.0 as int
    }

    fn new() -> (r: Self) {
        BoundaryId(0)
    }

    fn increment(self) -> (r: Self) {
        BoundaryId(self.0 + 1)
    }

    fn raw(&self) -> (r: i64) {
        self.0
    }
}

impl Default for BoundaryId {
    /// The sentinel that no registry ever hands out.
    fn default() -> (r: Self)
        ensures
            r.0 == -1,
    {
        BoundaryId(-1)
    }
}

/// A boundary between the areas on its two sides.
#[derive(Debug)]
pub struct Boundary {
    pub id: BoundaryId,
    pub orientation: BoundaryOrientation,
    pub active: bool,
    pub thickness: i32,
    pub hovered_thickness: i32,
    pub hovered: bool,
    /// The areas to the left of, or above, the boundary.
    pub side1: Vec<AreaId>,
    /// The areas to the right of, or below, the boundary.
    pub side2: Vec<AreaId>,
}

/// `i` is the first position of `x` in `s`.
pub open spec fn is_first_index(s: Seq<AreaId>, x: AreaId, i: int) -> bool {
    &&& 0 <= i < s.len()
    &&& s[i] == x
    &&& forall|j: int| 0 <= j < i ==> s[j] != x
}

/// `s` with the first occurrence of `x` taken out, or `s` itself when `x` is not in it.
pub open spec fn without_first(s: Seq<AreaId>, x: AreaId) -> Seq<AreaId>
    decreases s.len(),
{
    if s.len() == 0 {
        s
    } else if s[0] == x {
        s.drop_first()
    } else {
        seq![s[0]] + without_first(s.drop_first(), x)
    }
}

proof fn lemma_without_first_at(s: Seq<AreaId>, x: AreaId, i: int)
    requires
        is_first_index(s, x, i),
    ensures
        without_first(s, x) == s.remove(i),
    decreases s.len(),
{
    if i > 0 {
        assert(s[0] != x);
        assert(is_first_index(s.drop_first(), x, i - 1));
        lemma_without_first_at(s.drop_first(), x, i - 1);
        assert(seq![s[0]] + s.drop_first().remove(i - 1) =~= s.remove(i));
    } else {
        assert(s.drop_first() =~= s.remove(0));
    }
}

proof fn lemma_without_absent(s: Seq<AreaId>, x: AreaId)
    requires
        !s.contains(x),
    ensures
        without_first(s, x) == s,
    decreases s.len(),
{
    if s.len() > 0 {
        assert(s[0] != x);
        assert(!s.drop_first().contains(x)) by {
            if s.drop_first().contains(x) {
                let j = choose|j: int| 0 <= j < s.len() - 1 && s.drop_first()[j] == x;
                assert(s[j + 1] == x);
            }
        }
        lemma_without_absent(s.drop_first(), x);
        assert(seq![s[0]] + s.drop_first() =~= s);
    }
}

/// The first position of `x` in `v`.
fn position(v: &Vec<AreaId>, x: AreaId) -> (r: Option<usize>)
    ensures
        r is Some ==> is_first_index(v@, x, r->Some_0 as int),
        r is None ==> !v@.contains(x),
{
    let mut i: usize = 0;
    while i < v.len()
        invariant
            i <= v.len(),
            forall|j: int| 0 <= j < i ==> v@[j] != x,
        decreases v.len() - i,
    {
        if v[i] == x {
            return Some(i);
        }
        i = i + 1;
    }
    None
}

/// Takes the first occurrence of `x` out of `v`, if there is one.
fn remove_first(v: &mut Vec<AreaId>, x: AreaId)
    ensures
        final(v)@ == without_first(old(v)@, x),
{
    match position(v, x) {
        Some(i) => {
            proof {
                lemma_without_first_at(old(v)@, x, i as int);
            }
            v.remove(i);
        },
        None => {
            proof {
                lemma_without_absent(old(v)@, x);
            }
        },
    }
}

impl Boundary {
    pub fn new(id: BoundaryId, orientation: BoundaryOrientation) -> (r: Self)
        ensures
            r.id == id,
            r.orientation == orientation,
            !r.active,
            r.thickness == 3,
            r.hovered_thickness == 6,
            r.side1@ == Seq::<AreaId>::empty(),
            r.side2@ == Seq::<AreaId>::empty(),
            !r.hovered,
    {
        Boundary {
            id,
            orientation,
            active: false,
            thickness: 3,
            hovered_thickness: 6,
            side1: Vec::new(),
            side2: Vec::new(),
            hovered: false,
        }
    }

    /// Two areas can be merged across this boundary when it has exactly one on each side.
    pub fn can_collapse(&self) -> (r: bool)
        ensures
            r == (self.side1.len() == 1 && self.side2.len() == 1),
    {
        self.side1.len() == 1 && self.side2.len() == 1
    }

    /// Forgets the area `to_delete` on both sides of the boundary.
    pub fn delete_area(&mut self, to_delete: &AreaId)
        ensures
            final(self).side1@ == without_first(old(self).side1@, *to_delete),
            final(self).side2@ == without_first(old(self).side2@, *to_delete),
            final(self).id == old(self).id,
            final(self).orientation == old(self).orientation,
            final(self).active == old(self).active,
            final(self).thickness == old(self).thickness,
            final(self).hovered_thickness == old(self).hovered_thickness,
            final(self).hovered == old(self).hovered,
    {
        remove_first(&mut self.side1, *to_delete);
        remove_first(&mut self.side2, *to_delete);
    }
}

/// Two boundaries are the same boundary when their identifiers agree.
impl PartialEq for Boundary {
    fn eq(&self, other: &Self) -> (r: bool) {
        self.id == other.id
    }
}

impl vstd::std_specs::cmp::PartialEqSpecImpl for Boundary {
    open spec fn obeys_eq_spec() -> bool {
        true
    }

    open spec fn eq_spec(&self, other: &Boundary) -> bool {
        self.id == other.id
    }
}

} // verus!
