use vstd::prelude::*;

use crate::entity::{allowed, check_link, ConstraintKind, EntityId, EntityKind, LinkError};
use crate::registry::{RegId, Registry};

verus! {

/// A binary constraint: a relation `c` from entity `e1` to entity `e2`.
#[derive(Debug, Clone, Copy)]
pub struct BiConstraint<C> {
    pub e1: EntityId,
    pub e2: EntityId,
    pub c: C,
}

/// An entity that can take one descent step on a constraint against another, fixed entity.
/// What the step computes is the implementor's numerical business; what is relied on here is
/// that it is a function of its inputs alone and that it keeps the entity's kind.
pub trait Relax<C, P>: Shape + Sized {
    /// The entity after one step on `c` against `fixed`. The library knows it only through
    /// the contract of `relax`; the default body lets implementations outside verified code
    /// leave it out, and is never assumed of a generic implementor.
    open spec fn relaxed(&self, fixed: Self, c: C, params: P) -> Self {
        arbitrary()
    }

    /// Moves `self` to lower the penalty of `c` between `self` and `fixed`.
    fn relax(&mut self, fixed: &Self, c: &C, params: &P)
        ensures
            *final(self) == old(self).relaxed(*fixed, *c, *params),
            final(self).spec_kind() == old(self).spec_kind(),
    ;
}

/// An entity whose kind of primitive can be read off.
pub trait Shape {
    /// The kind of primitive this entity is, known through the contract of `kind`; the
    /// default body is there for implementations outside verified code.
    open spec fn spec_kind(&self) -> EntityKind {
        arbitrary()
    }

    fn kind(&self) -> (r: EntityKind)
        ensures
            r == self.spec_kind(),
    ;
}

/// A constraint whose kind can be read off.
pub trait Relation {
    /// The kind of this constraint, known through the contract of `kind`; the default body
    /// is there for implementations outside verified code.
    open spec fn spec_kind(&self) -> ConstraintKind {
        arbitrary()
    }

    fn kind(&self) -> (r: ConstraintKind)
        ensures
            r == self.spec_kind(),
    ;
}

/// The entities after constraint `b` moves one of its ends: `e1` against `e2` on heads, `e2`
/// against `e1` on tails.
pub open spec fn relax_step<E: Relax<C, P>, C, P>(
    m: Map<int, E>,
    b: BiConstraint<C>,
    heads: bool,
    params: P,
) -> Map<int, E> {
    let k1 = b.e1.id_value();
    let k2 = b.e2.id_value();
    if heads {
        m.insert(k1, m[k1].relaxed(m[k2], b.c, params))
    } else {
        m.insert(k2, m[k2].relaxed(m[k1], b.c, params))
    }
}

/// The entities after the constraints move them one after the other, in order, constraint
/// `i` by coin `i`; each step sees what the earlier ones wrote.
pub open spec fn relax_all<E: Relax<C, P>, C, P>(
    m: Map<int, E>,
    constraints: Seq<BiConstraint<C>>,
    coins: Seq<bool>,
    params: P,
) -> Map<int, E>
    decreases constraints.len(),
{
    if constraints.len() == 0 {
        m
    } else {
        relax_step(
            relax_all(m, constraints.drop_last(), coins.drop_last(), params),
            constraints.last(),
            coins.last(),
            params,
        )
    }
}

/// Relies on rand::random::<bool>: a fair coin from the thread-local generator. Nothing is
/// promised of the outcome.
#[verifier::external_body]
fn coin_flip() -> bool {
    rand::random::<bool>()
}

/// Every constraint relates two distinct entities of `entities`.
pub open spec fn links_valid<E, C>(
    entities: Map<int, E>,
    constraints: Seq<BiConstraint<C>>,
) -> bool {
    forall|i: int|
        0 <= i < constraints.len() ==> {
            let b = #[trigger] constraints[i];
            &&& b.e1.id_value() != b.e2.id_value()
            &&& entities.contains_key(b.e1.id_value())
            &&& entities.contains_key(b.e2.id_value())
        }
}

/// Some constraint of `constraints` has entity `n` at one of its ends.
pub open spec fn constrained<C>(constraints: Seq<BiConstraint<C>>, n: int) -> bool {
    exists|i: int|
        0 <= i < constraints.len() && ((#[trigger] constraints[i]).e1.id_value() == n
            || constraints[i].e2.id_value() == n)
}

/// One relaxation pass: the constraints in order, each moving one of its two entities against
/// the other, which one by a fair coin. No entity is added or removed, identifiers stay as
/// they are, and an entity that no constraint names is left untouched.
pub fn relax_pass<E: Relax<C, P>, C, P>(
    entities: &mut Registry<EntityId, E>,
    constraints: &Vec<BiConstraint<C>>,
    params: &P,
)
    requires
        old(entities).wf(),
        links_valid(old(entities)@, constraints@),
    ensures
        final(entities).wf(),
        exists|coins: Seq<bool>|
            coins.len() == constraints@.len() && final(entities)@ == relax_all(
                old(entities)@,
                constraints@,
                coins,
                *params,
            ),
        final(entities)@.dom() == old(entities)@.dom(),
        final(entities).next_key() == old(entities).next_key(),
        forall|n: int|
            old(entities)@.contains_key(n) && !constrained(constraints@, n)
                ==> final(entities)@[n] == old(entities)@[n],
        forall|n: int|
            old(entities)@.contains_key(n) ==> (#[trigger] final(entities)@[n]).spec_kind() == old(entities)@[n].spec_kind(),
{
    let ghost coins: Seq<bool> = Seq::empty();
    let mut i: usize = 0;
    while i < constraints.len()
        invariant
            i <= constraints.len(),
            entities.wf(),
            entities@.dom() == old(entities)@.dom(),
            entities.next_key() == old(entities).next_key(),
            links_valid(old(entities)@, constraints@),
            coins.len() == i,
            entities@ == relax_all(old(entities)@, constraints@.take(i as int), coins, *params),
            forall|n: int|
                old(entities)@.contains_key(n) && !constrained(constraints@.take(i as int), n)
                    ==> entities@[n] == old(entities)@[n],
            forall|n: int|
                old(entities)@.contains_key(n) ==> (#[trigger] entities@[n]).spec_kind() == old(entities)@[n].spec_kind(),
        decreases constraints.len() - i,
    {
        let b = &constraints[i];
        assert(constraints@[i as int] == *b);
        let ghost before = entities@;
        let heads = coin_flip();
        match entities.get_two_mut(&b.e1, &b.e2) {
            Some((x, y)) => {
                if heads {
                    x.relax(&*y, &b.c, params);
                } else {
                    y.relax(&*x, &b.c, params);
                }
            },
            None => {
                // Unreachable: the pass keeps every entity, so each constraint still links
                // two distinct entities that are there.
                proof {
                    assert(false);
                }
            },
        }
        assert(entities@ =~= relax_step(before, *b, heads, *params));
        proof {
            let next = constraints@.take(i + 1);
            assert(next.drop_last() =~= constraints@.take(i as int));
            assert(coins.push(heads).drop_last() =~= coins);
            coins = coins.push(heads);
        }
        assert(entities@.dom() =~= before.dom());
        assert forall|n: int|
            old(entities)@.contains_key(n) && !constrained(constraints@.take(i + 1), n) implies entities@[n]
                == old(entities)@[n] by {
            assert(constraints@.take(i + 1)[i as int] == *b);
            if constrained(constraints@.take(i as int), n) {
                let j = choose|j: int|
                    0 <= j < i && ((#[trigger] constraints@.take(i as int)[j]).e1.id_value() == n
                        || constraints@.take(i as int)[j].e2.id_value() == n);
                assert(constraints@.take(i + 1)[j] == constraints@.take(i as int)[j]);
            }
        }
        i = i + 1;
    }
    assert(constraints@.take(constraints.len() as int) =~= constraints@);
}

/// A sketch: entities in a registry, the constraints between them, and the parameters of the
/// descent. Every constraint relates two distinct entities of the sketch.
pub struct Sketch<E, C, P> {
    name: String,
    fundamental_entities: Registry<EntityId, E>,
    bi_constraints: Vec<BiConstraint<C>>,
    step_size: P,
}

impl<E, C, P> Sketch<E, C, P> {
    pub closed spec fn wf(&self) -> bool {
        &&& self.fundamental_entities.wf()
        &&& links_valid(self.fundamental_entities@, self.bi_constraints@)
    }

    /// The entities, keyed by the integer of their identifier.
    pub closed spec fn entities_view(&self) -> Map<int, E> {
        self.fundamental_entities@
    }

    /// The constraints, in the order they were added.
    pub closed spec fn constraints_view(&self) -> Seq<BiConstraint<C>> {
        self.bi_constraints@
    }

    pub closed spec fn name_view(&self) -> Seq<char> {
        self.name@
    }

    pub closed spec fn step_size_view(&self) -> P {
        self.step_size
    }

    /// The integer of the identifier that the next inserted entity gets.
    pub closed spec fn next_key(&self) -> int {
        self.fundamental_entities.next_key()
    }

    pub fn new(name: String, step_size: P) -> (r: Self)
        ensures
            r.wf(),
            r.name_view() == name@,
            r.step_size_view() == step_size,
            r.entities_view() == Map::<int, E>::empty(),
            r.constraints_view() == Seq::<BiConstraint<C>>::empty(),
            r.next_key() == 0,
    {
        Sketch {
            name,
            fundamental_entities: Registry::new(),
            bi_constraints: Vec::new(),
            step_size,
        }
    }

    pub fn name(&self) -> (r: &String)
        ensures
            r@ == self.name_view(),
    {
        &self.name
    }

    pub fn step_size(&self) -> (r: &P)
        ensures
            *r == self.step_size_view(),
    {
        &self.step_size
    }

    pub fn entities(&self) -> (r: &Registry<EntityId, E>)
        requires
            self.wf(),
        ensures
            r.wf(),
            r@ == self.entities_view(),
            r.next_key() == self.next_key(),
    {
        &self.fundamental_entities
    }

    pub fn constraints(&self) -> (r: &Vec<BiConstraint<C>>)
        ensures
            r@ == self.constraints_view(),
    {
        &self.bi_constraints
    }

    /// Adds an entity under a fresh identifier.
    pub fn insert(&mut self, e: E) -> (r: EntityId)
        requires
            old(self).wf(),
            old(self).next_key() < usize::MAX,
            old(self).next_key() < i64::MAX,
        ensures
            final(self).wf(),
            r.id_value() == old(self).next_key(),
            r.id_value() >= 0,
            final(self).next_key() == old(self).next_key() + 1,
            final(self).entities_view() == old(self).entities_view().insert(r.id_value(), e),
            final(self).constraints_view() == old(self).constraints_view(),
            final(self).name_view() == old(self).name_view(),
            final(self).step_size_view() == old(self).step_size_view(),
    {
        let r = self.fundamental_entities.insert(e);
        assert(self.fundamental_entities@.dom() =~= old(self).entities_view().dom().insert(
            r.id_value(),
        ));
        r
    }

    /// A mutable borrow of the entity under `id`, to move it; the constraints stay valid since
    /// no entity comes or goes.
    pub fn get_mut(&mut self, id: &EntityId) -> (r: Option<&mut E>)
        requires
            old(self).wf(),
        ensures
            r is Some <==> old(self).entities_view().contains_key(id.id_value()),
            r is Some ==> *r->Some_0 == old(self).entities_view()[id.id_value()],
            r is Some ==> final(self).entities_view() == old(self).entities_view().insert(
                id.id_value(),
                *final(r->Some_0),
            ),
            r is None ==> final(self).entities_view() == old(self).entities_view(),
            final(self).wf(),
            final(self).next_key() == old(self).next_key(),
            final(self).constraints_view() == old(self).constraints_view(),
            final(self).name_view() == old(self).name_view(),
            final(self).step_size_view() == old(self).step_size_view(),
    {
        self.fundamental_entities.get_mut(id)
    }

    /// Whether some constraint has entity `id` at one of its ends.
    pub fn is_constrained(&self, id: &EntityId) -> (r: bool)
        ensures
            r == constrained(self.constraints_view(), id.id_value()),
    {
        let mut i: usize = 0;
        while i < self.bi_constraints.len()
            invariant
                i <= self.bi_constraints.len(),
                !constrained(self.bi_constraints@.take(i as int), id.id_value()),
            decreases self.bi_constraints.len() - i,
        {
            let b = &self.bi_constraints[i];
            if b.e1.0 == id.0 || b.e2.0 == id.0 {
                assert(self.bi_constraints@[i as int] == *b);
                assert(self.bi_constraints@[i as int].e1.id_value() == id.id_value()
                    || self.bi_constraints@[i as int].e2.id_value() == id.id_value());
                return true;
            }
            assert forall|j: int| 0 <= j < i + 1 implies !((#[trigger] self.bi_constraints@.take(
                i + 1,
            )[j]).e1.id_value() == id.id_value() || self.bi_constraints@.take(i + 1)[j].e2.id_value()
                == id.id_value()) by {
                if j < i {
                    assert(self.bi_constraints@.take(i + 1)[j] == self.bi_constraints@.take(
                        i as int,
                    )[j]);
                }
            }
            i = i + 1;
        }
        assert(self.bi_constraints@.take(i as int) =~= self.bi_constraints@);
        false
    }

    /// Takes the entity under `id` out of the sketch, unless a constraint still names it, in
    /// which case the sketch is left as it is. Its identifier is not handed out again.
    pub fn remove(&mut self, id: &EntityId) -> (r: Option<E>)
        requires
            old(self).wf(),
        ensures
            final(self).wf(),
            r is Some <==> (old(self).entities_view().contains_key(id.id_value()) && !constrained(
                old(self).constraints_view(),
                id.id_value(),
            )),
            r is Some ==> r->Some_0 == old(self).entities_view()[id.id_value()]
                && final(self).entities_view() == old(self).entities_view().remove(id.id_value()),
            r is None ==> final(self).entities_view() == old(self).entities_view(),
            final(self).constraints_view() == old(self).constraints_view(),
            final(self).next_key() == old(self).next_key(),
            final(self).name_view() == old(self).name_view(),
            final(self).step_size_view() == old(self).step_size_view(),
    {
        if self.is_constrained(id) {
            return None;
        }
        let r = self.fundamental_entities.remove(id);
        assert forall|i: int| 0 <= i < self.bi_constraints@.len() implies {
            let l = #[trigger] self.bi_constraints@[i];
            &&& l.e1.id_value() != l.e2.id_value()
            &&& self.fundamental_entities@.contains_key(l.e1.id_value())
            &&& self.fundamental_entities@.contains_key(l.e2.id_value())
        } by {
            let l = self.bi_constraints@[i];
            assert(l.e1.id_value() != id.id_value() && l.e2.id_value() != id.id_value());
        }
        r
    }

    /// One relaxation pass over all constraints: see [`relax_pass`].
    pub fn sgd_step(&mut self)
        where
            E: Relax<C, P>,
        requires
            old(self).wf(),
        ensures
            final(self).wf(),
            exists|coins: Seq<bool>|
                coins.len() == old(self).constraints_view().len() && final(self).entities_view()
                    == relax_all(
                    old(self).entities_view(),
                    old(self).constraints_view(),
                    coins,
                    old(self).step_size_view(),
                ),
            final(self).entities_view().dom() == old(self).entities_view().dom(),
            final(self).next_key() == old(self).next_key(),
            forall|n: int|
                old(self).entities_view().contains_key(n) && !constrained(
                    old(self).constraints_view(),
                    n,
                ) ==> final(self).entities_view()[n] == old(self).entities_view()[n],
            forall|n: int|
                old(self).entities_view().contains_key(n) ==> (#[trigger] final(self).entities_view()[n]).spec_kind() == old(self).entities_view()[n].spec_kind(),
            final(self).constraints_view() == old(self).constraints_view(),
            final(self).name_view() == old(self).name_view(),
            final(self).step_size_view() == old(self).step_size_view(),
    {
        relax_pass(&mut self.fundamental_entities, &self.bi_constraints, &self.step_size);
    }
}

impl<E: Shape, C: Relation, P> Sketch<E, C, P> {
    /// Adds a constraint after checking that it relates two distinct entities of the sketch
    /// and that its kind applies to their kinds; otherwise leaves the sketch as it is and says
    /// why.
    pub fn add_constraint(&mut self, b: BiConstraint<C>) -> (r: Result<(), LinkError>)
        requires
            old(self).wf(),
        ensures
            final(self).wf(),
            r is Ok ==> final(self).constraints_view() == old(self).constraints_view().push(b),
            r is Err ==> final(self).constraints_view() == old(self).constraints_view(),
            r == Err::<(), LinkError>(LinkError::NotFound) <==> !(old(self).entities_view().contains_key(b.e1.id_value()) && old(self).entities_view().contains_key(b.e2.id_value())),
            r == Err::<(), LinkError>(LinkError::SameEntity) <==> (old(self).entities_view().contains_key(b.e1.id_value()) && b.e1 == b.e2),
            r is Ok <==> (old(self).entities_view().contains_key(b.e1.id_value())
                && old(self).entities_view().contains_key(b.e2.id_value()) && b.e1 != b.e2
                && allowed(
                old(self).entities_view()[b.e1.id_value()].spec_kind(),
                old(self).entities_view()[b.e2.id_value()].spec_kind(),
                b.c.spec_kind(),
            )),
            r == Err::<(), LinkError>(LinkError::NotPossible) <==> (old(self).entities_view().contains_key(b.e1.id_value())
                && old(self).entities_view().contains_key(b.e2.id_value()) && b.e1 != b.e2
                && !allowed(
                old(self).entities_view()[b.e1.id_value()].spec_kind(),
                old(self).entities_view()[b.e2.id_value()].spec_kind(),
                b.c.spec_kind(),
            )),
            final(self).entities_view() == old(self).entities_view(),
            final(self).next_key() == old(self).next_key(),
            final(self).name_view() == old(self).name_view(),
            final(self).step_size_view() == old(self).step_size_view(),
    {
        let k1 = match self.fundamental_entities.get(&b.e1) {
            Some(e) => Some(e.kind()),
            None => None,
        };
        let k2 = match self.fundamental_entities.get(&b.e2) {
            Some(e) => Some(e.kind()),
            None => None,
        };
        match check_link(b.e1, k1, b.e2, k2, b.c.kind()) {
            Ok(()) => {
                let ghost before = self.bi_constraints@;
                self.bi_constraints.push(b);
                assert forall|i: int| 0 <= i < self.bi_constraints@.len() implies {
                    let l = #[trigger] self.bi_constraints@[i];
                    &&& l.e1.id_value() != l.e2.id_value()
                    &&& self.fundamental_entities@.contains_key(l.e1.id_value())
                    &&& self.fundamental_entities@.contains_key(l.e2.id_value())
                } by {
                    if i < before.len() {
                        assert(self.bi_constraints@[i] == before[i]);
                    }
                }
                Ok(())
            },
            Err(e) => Err(e),
        }
    }
}

} // verus!
