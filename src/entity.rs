use vstd::prelude::*;

use crate::registry::RegId;

verus! {

/// The identifier of an entity in a sketch.
#[derive(Debug, PartialEq, Eq, Structural, PartialOrd, Ord, Hash, Clone, Copy)]
pub struct EntityId(pub i64);

impl RegId for EntityId {
    open spec fn id_value(&self) -> int {
        self.0 as int
    }

    fn new() -> (r: Self) {
        EntityId(0)
    }

    fn increment(self) -> (r: Self) {
        EntityId(self.0 + 1)
    }

    fn raw(&self) -> (r: i64) {
        self.0
    }
}

impl Default for EntityId {
    /// The sentinel that no registry ever hands out.
    fn default() -> (r: Self)
        ensures
            r.0 == -1,
    {
        EntityId(-1)
    }
}

/// The three kinds of geometric primitive.
#[derive(Debug, PartialEq, Eq, Structural, Clone, Copy)]
pub enum EntityKind {
    Point,
    Line,
    Circle,
}

/// The kinds of binary constraint, without the scalar target that `Distance` and `Angle`
/// carry.
#[derive(Debug, PartialEq, Eq, Structural, Clone, Copy)]
pub enum ConstraintKind {
    Coincident,
    Horizontal,
    Vertical,
    Tangent,
    Parallel,
    Perpendicular,
    Colinear,
    Distance,
    Angle,
}

/// The compatibility matrix: which constraint kinds a pair of entity kinds supports, in
/// either order.
pub open spec fn allowed(a: EntityKind, b: EntityKind, c: ConstraintKind) -> bool {
    match (a, b) {
        (EntityKind::Point, EntityKind::Point) => c is Coincident || c is Distance || c is Vertical
            || c is Horizontal,
        (EntityKind::Point, EntityKind::Line) | (EntityKind::Line, EntityKind::Point) => c
            is Coincident || c is Distance,
        (EntityKind::Point, EntityKind::Circle) | (EntityKind::Circle, EntityKind::Point) => c
            is Coincident || c is Distance || c is Vertical || c is Horizontal,
        (EntityKind::Line, EntityKind::Line) => c is Parallel || c is Perpendicular || c
            is Colinear || c is Distance || c is Angle,
        (EntityKind::Circle, EntityKind::Line) | (EntityKind::Line, EntityKind::Circle) => c
            is Coincident || c is Tangent || c is Distance,
        (EntityKind::Circle, EntityKind::Circle) => c is Coincident || c is Distance || c
            is Tangent || c is Vertical || c is Horizontal,
    }
}

/// 1 for an ordered pair that the compatibility table lists only the other way round.
pub open spec fn table_swap_rank(a: EntityKind, b: EntityKind) -> nat {
    match (a, b) {
        (EntityKind::Line, EntityKind::Point) | (EntityKind::Circle, EntityKind::Point) | (
            EntityKind::Line,
            EntityKind::Circle,
        ) => 1,
        _ => 0,
    }
}

/// Whether constraint kind `c` can relate an entity of kind `e1` to one of kind `e2`. Pairs
/// that the table lists only in the other order are looked up with their arguments swapped.
pub fn possible(e1: EntityKind, e2: EntityKind, c: ConstraintKind) -> (r: bool)
    ensures
        r == allowed(e1, e2, c),
    decreases table_swap_rank(e1, e2),
{
    match (e1, e2) {
        (EntityKind::Point, EntityKind::Point) => matches!(
            c,
            ConstraintKind::Coincident | ConstraintKind::Distance | ConstraintKind::Vertical
                | ConstraintKind::Horizontal
        ),
        (EntityKind::Point, EntityKind::Line) => matches!(
            c,
            ConstraintKind::Coincident | ConstraintKind::Distance
        ),
        (EntityKind::Point, EntityKind::Circle) => matches!(
            c,
            ConstraintKind::Coincident | ConstraintKind::Distance | ConstraintKind::Vertical
                | ConstraintKind::Horizontal
        ),
        (EntityKind::Line, EntityKind::Line) => matches!(
            c,
            ConstraintKind::Parallel | ConstraintKind::Perpendicular | ConstraintKind::Colinear
                | ConstraintKind::Distance | ConstraintKind::Angle
        ),
        (EntityKind::Circle, EntityKind::Line) => matches!(
            c,
            ConstraintKind::Coincident | ConstraintKind::Tangent | ConstraintKind::Distance
        ),
        (EntityKind::Circle, EntityKind::Circle) => matches!(
            c,
            ConstraintKind::Coincident | ConstraintKind::Distance | ConstraintKind::Tangent
                | ConstraintKind::Vertical | ConstraintKind::Horizontal
        ),
        (_, _) => possible(e2, e1, c),
    }
}

/// The ordered entity-kind pairs that have a penalty formula of their own. Every other
/// ordered pair is evaluated through the formula of its swapped pair.
#[derive(Debug, PartialEq, Eq, Structural, Clone, Copy)]
pub enum Pairing {
    PointPoint,
    PointLine,
    PointCircle,
    LineLine,
    LineCircle,
    CircleCircle,
}

/// The kinds of the first and second entity that a pairing's formula takes.
pub open spec fn pairing_kinds(p: Pairing) -> (EntityKind, EntityKind) {
    match p {
        Pairing::PointPoint => (EntityKind::Point, EntityKind::Point),
        Pairing::PointLine => (EntityKind::Point, EntityKind::Line),
        Pairing::PointCircle => (EntityKind::Point, EntityKind::Circle),
        Pairing::LineLine => (EntityKind::Line, EntityKind::Line),
        Pairing::LineCircle => (EntityKind::Line, EntityKind::Circle),
        Pairing::CircleCircle => (EntityKind::Circle, EntityKind::Circle),
    }
}

/// Points before lines before circles: a pair has a formula of its own when its kinds come
/// in this order.
pub open spec fn kind_rank(k: EntityKind) -> int {
    match k {
        EntityKind::Point => 0,
        EntityKind::Line => 1,
        EntityKind::Circle => 2,
    }
}

/// How the penalty of a constraint is evaluated: by the formula of `pairing`, with the two
/// entities in their given order, or swapped.
#[derive(Debug, PartialEq, Eq, Structural, Clone, Copy)]
pub struct Dispatch {
    pub pairing: Pairing,
    pub swapped: bool,
}

/// Picks the penalty formula for a constraint of kind `c` from an entity of kind `e1` to one
/// of kind `e2`. `None` when the constraint is not possible for these kinds, whose penalty is
/// then zero; otherwise the pair's own formula, falling back to the swapped pair's.
pub fn dispatch(e1: EntityKind, e2: EntityKind, c: ConstraintKind) -> (r: Option<Dispatch>)
    ensures
        r is None <==> !allowed(e1, e2, c),
        r is Some ==> r->Some_0.swapped == (kind_rank(e1) > kind_rank(e2)),
        r is Some ==> pairing_kinds(r->Some_0.pairing) == if r->Some_0.swapped {
            (e2, e1)
        } else {
            (e1, e2)
        },
    decreases
            if kind_rank(e1) > kind_rank(e2) {
                1int
            } else {
                0int
            },
{
    if !possible(e1, e2, c) {
        return None;
    }
    match (e1, e2) {
        (EntityKind::Point, EntityKind::Point) => Some(
            Dispatch { pairing: Pairing::PointPoint, swapped: false },
        ),
        (EntityKind::Point, EntityKind::Line) => Some(
            Dispatch { pairing: Pairing::PointLine, swapped: false },
        ),
        (EntityKind::Point, EntityKind::Circle) => Some(
            Dispatch { pairing: Pairing::PointCircle, swapped: false },
        ),
        (EntityKind::Line, EntityKind::Line) => Some(
            Dispatch { pairing: Pairing::LineLine, swapped: false },
        ),
        (EntityKind::Line, EntityKind::Circle) => Some(
            Dispatch { pairing: Pairing::LineCircle, swapped: false },
        ),
        (EntityKind::Circle, EntityKind::Circle) => Some(
            Dispatch { pairing: Pairing::CircleCircle, swapped: false },
        ),
        (_, _) => {
            proof {
                lemma_possible_symmetric(e1, e2, c);
            }
            match dispatch(e2, e1, c) {
                Some(d) => Some(Dispatch { pairing: d.pairing, swapped: !d.swapped }),
                None => None,
            }
        },
    }
}

/// Why a constraint cannot be created between two entities.
#[derive(Debug, PartialEq, Eq, Structural, Clone, Copy)]
pub enum LinkError {
    /// One of the identifiers names no entity.
    NotFound,
    /// Both ends are the same entity, which could not be moved against itself.
    SameEntity,
    /// The constraint kind does not apply to these kinds of entity.
    NotPossible,
}

/// Decides whether a constraint of kind `c` may be created from entity `e1` to entity `e2`,
/// given the kinds of the entities found under those identifiers (`None` for an identifier
/// that names no entity). A missing entity is reported first, then a constraint of an entity
/// with itself, then an impossible kind.
pub fn check_link(
    e1: EntityId,
    k1: Option<EntityKind>,
    e2: EntityId,
    k2: Option<EntityKind>,
    c: ConstraintKind,
) -> (r: Result<(), LinkError>)
    ensures
        r == Err::<(), LinkError>(LinkError::NotFound) <==> (k1 is None || k2 is None),
        r == Err::<(), LinkError>(LinkError::SameEntity) <==> (k1 is Some && k2 is Some && e1
            == e2),
        r == Err::<(), LinkError>(LinkError::NotPossible) <==> (k1 is Some && k2 is Some && e1
            != e2 && !allowed(k1->Some_0, k2->Some_0, c)),
        r is Ok <==> (k1 is Some && k2 is Some && e1 != e2 && allowed(
            k1->Some_0,
            k2->Some_0,
            c,
        )),
{
    match (k1, k2) {
        (Some(a), Some(b)) => {
            if e1 == e2 {
                Err(LinkError::SameEntity)
            } else if !possible(a, b, c) {
                Err(LinkError::NotPossible)
            } else {
                Ok(())
            }
        },
        _ => Err(LinkError::NotFound),
    }
}

/// Compatibility does not depend on the order of the two entities.
pub proof fn lemma_possible_symmetric(e1: EntityKind, e2: EntityKind, c: ConstraintKind)
    ensures
        allowed(e1, e2, c) == allowed(e2, e1, c),
{
}

} // verus!
