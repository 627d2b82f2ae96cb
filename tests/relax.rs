use sketchcad::entity::EntityId;
use sketchcad::registry::Registry;
use sketchcad::entity::{ConstraintKind, EntityKind, LinkError};
use sketchcad::sketch::{relax_pass, BiConstraint, Relation, Relax, Shape, Sketch};

/// A stand-in entity that counts the steps it takes.
#[derive(Debug, Clone, Copy, PartialEq)]
struct Steps(u32);

impl Shape for Steps {
    fn kind(&self) -> EntityKind {
        EntityKind::Point
    }
}

impl Relax<(), u32> for Steps {
    fn relax(&mut self, _fixed: &Self, _c: &(), amount: &u32) {
        self.0 += amount;
    }
}

/// A stand-in entity on a line that moves halfway toward the other end.
#[derive(Debug, Clone, Copy, PartialEq)]
struct Level(f64);

impl Shape for Level {
    fn kind(&self) -> EntityKind {
        EntityKind::Point
    }
}

impl Relax<(), f64> for Level {
    fn relax(&mut self, fixed: &Self, _c: &(), rate: &f64) {
        self.0 -= rate * (self.0 - fixed.0);
    }
}

fn link<C>(e1: EntityId, e2: EntityId, c: C) -> BiConstraint<C> {
    BiConstraint { e1, e2, c }
}

#[test]
fn each_constraint_moves_exactly_one_entity() {
    let mut r: Registry<EntityId, Steps> = Registry::new();
    let a = r.insert(Steps(0));
    let b = r.insert(Steps(0));
    let c = r.insert(Steps(0));
    let d = r.insert(Steps(0));
    let constraints = vec![link(a, b, ()), link(b, c, ()), link(c, a, ())];
    for _ in 0..50 {
        relax_pass(&mut r, &constraints, &1);
    }
    let total: u32 = [a, b, c].iter().map(|k| r.get(k).unwrap().0).sum();
    assert_eq!(total, 150);
    assert_eq!(r.get(&d), Some(&Steps(0)));
    assert_eq!(r.next_id(), EntityId(4));
    assert_eq!(r.iter().len(), 4);
}

#[test]
fn the_coin_lets_both_ends_move() {
    let mut r: Registry<EntityId, Steps> = Registry::new();
    let a = r.insert(Steps(0));
    let b = r.insert(Steps(0));
    let constraints = vec![link(a, b, ())];
    for _ in 0..200 {
        relax_pass(&mut r, &constraints, &1);
    }
    let (na, nb) = (r.get(&a).unwrap().0, r.get(&b).unwrap().0);
    assert_eq!(na + nb, 200);
    assert!(na > 0 && nb > 0, "{} {}", na, nb);
}

#[test]
fn repeated_passes_settle_two_levels() {
    let mut r: Registry<EntityId, Level> = Registry::new();
    let a = r.insert(Level(0.0));
    let b = r.insert(Level(1.0));
    let constraints = vec![link(a, b, ())];
    for _ in 0..20000 {
        relax_pass(&mut r, &constraints, &0.1);
    }
    let gap = (r.get(&a).unwrap().0 - r.get(&b).unwrap().0).abs();
    assert!(gap < 1e-6, "{}", gap);
}

#[test]
fn an_empty_constraint_list_changes_nothing() {
    let mut r: Registry<EntityId, Steps> = Registry::new();
    let a = r.insert(Steps(3));
    let none: Vec<BiConstraint<()>> = Vec::new();
    relax_pass(&mut r, &none, &1);
    assert_eq!(r.get(&a), Some(&Steps(3)));
}

/// A stand-in point that counts its steps, for a whole sketch.
#[derive(Debug, Clone, Copy, PartialEq)]
struct Dot(u32);

impl Shape for Dot {
    fn kind(&self) -> EntityKind {
        EntityKind::Point
    }
}

#[derive(Debug, Clone, Copy, PartialEq)]
struct Kind(ConstraintKind);

impl Relation for Kind {
    fn kind(&self) -> ConstraintKind {
        self.0
    }
}

impl Relax<Kind, u32> for Dot {
    fn relax(&mut self, _fixed: &Self, _c: &Kind, amount: &u32) {
        self.0 += amount;
    }
}

#[test]
fn sketch_starts_empty() {
    let s: Sketch<Dot, Kind, u32> = Sketch::new("Untitled".to_string(), 1);
    assert_eq!(s.name(), "Untitled");
    assert_eq!(*s.step_size(), 1);
    assert!(s.entities().iter().is_empty());
    assert!(s.constraints().is_empty());
    assert_eq!(s.entities().next_id(), EntityId(0));
}

#[test]
fn sketch_refuses_bad_constraints() {
    let mut s: Sketch<Dot, Kind, u32> = Sketch::new("s".to_string(), 1);
    let a = s.insert(Dot(0));
    let b = s.insert(Dot(0));
    let horizontal = Kind(ConstraintKind::Horizontal);
    assert_eq!(
        s.add_constraint(link(a, EntityId(7), horizontal)),
        Err(LinkError::NotFound)
    );
    assert_eq!(s.add_constraint(link(a, a, horizontal)), Err(LinkError::SameEntity));
    assert_eq!(
        s.add_constraint(link(a, b, Kind(ConstraintKind::Tangent))),
        Err(LinkError::NotPossible)
    );
    assert!(s.constraints().is_empty());
    assert_eq!(s.add_constraint(link(a, b, horizontal)), Ok(()));
    assert_eq!(s.constraints().len(), 1);
}

#[test]
fn sketch_step_moves_only_constrained_entities() {
    let mut s: Sketch<Dot, Kind, u32> = Sketch::new("s".to_string(), 2);
    let a = s.insert(Dot(0));
    let b = s.insert(Dot(0));
    let c = s.insert(Dot(0));
    s.add_constraint(link(a, b, Kind(ConstraintKind::Distance))).unwrap();
    for _ in 0..10 {
        s.sgd_step();
    }
    let moved = s.entities().get(&a).unwrap().0 + s.entities().get(&b).unwrap().0;
    assert_eq!(moved, 20);
    assert_eq!(s.entities().get(&c), Some(&Dot(0)));
}

#[test]
fn sketch_keeps_constrained_entities() {
    let mut s: Sketch<Dot, Kind, u32> = Sketch::new("s".to_string(), 1);
    let a = s.insert(Dot(1));
    let b = s.insert(Dot(2));
    let c = s.insert(Dot(3));
    s.add_constraint(link(a, b, Kind(ConstraintKind::Coincident))).unwrap();
    assert!(s.is_constrained(&a) && s.is_constrained(&b) && !s.is_constrained(&c));
    assert_eq!(s.remove(&a), None);
    assert_eq!(s.entities().get(&a), Some(&Dot(1)));
    assert_eq!(s.remove(&c), Some(Dot(3)));
    assert_eq!(s.entities().get(&c), None);
    assert_eq!(s.insert(Dot(4)), EntityId(3));
}

#[test]
fn sketch_get_mut_moves_an_entity() {
    let mut s: Sketch<Dot, Kind, u32> = Sketch::new("s".to_string(), 1);
    let a = s.insert(Dot(1));
    s.get_mut(&a).unwrap().0 = 9;
    assert_eq!(s.entities().get(&a), Some(&Dot(9)));
    assert!(s.get_mut(&EntityId(5)).is_none());
}
