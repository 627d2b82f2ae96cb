use sketchcad::entity::{possible, ConstraintKind, EntityKind};

#[test]
fn contraint_possibility_matrix() {
    assert!(possible(EntityKind::Point, EntityKind::Point, ConstraintKind::Coincident));
    assert!(possible(EntityKind::Point, EntityKind::Point, ConstraintKind::Horizontal));
    assert!(possible(EntityKind::Point, EntityKind::Point, ConstraintKind::Vertical));
    assert!(!possible(EntityKind::Point, EntityKind::Point, ConstraintKind::Tangent));
    assert!(!possible(EntityKind::Point, EntityKind::Point, ConstraintKind::Parallel));
    assert!(!possible(EntityKind::Point, EntityKind::Point, ConstraintKind::Perpendicular));
    assert!(!possible(EntityKind::Point, EntityKind::Point, ConstraintKind::Colinear));
    assert!(possible(EntityKind::Point, EntityKind::Point, ConstraintKind::Distance));
    assert!(!possible(EntityKind::Point, EntityKind::Point, ConstraintKind::Angle));
    assert!(possible(EntityKind::Circle, EntityKind::Point, ConstraintKind::Coincident));
    assert!(possible(EntityKind::Circle, EntityKind::Point, ConstraintKind::Horizontal));
    assert!(possible(EntityKind::Circle, EntityKind::Point, ConstraintKind::Vertical));
    assert!(!possible(EntityKind::Circle, EntityKind::Point, ConstraintKind::Tangent));
    assert!(!possible(EntityKind::Circle, EntityKind::Point, ConstraintKind::Parallel));
    assert!(!possible(EntityKind::Circle, EntityKind::Point, ConstraintKind::Perpendicular));
    assert!(!possible(EntityKind::Circle, EntityKind::Point, ConstraintKind::Colinear));
    assert!(possible(EntityKind::Circle, EntityKind::Point, ConstraintKind::Distance));
    assert!(!possible(EntityKind::Circle, EntityKind::Point, ConstraintKind::Angle));
    assert!(possible(EntityKind::Circle, EntityKind::Circle, ConstraintKind::Coincident));
    assert!(possible(EntityKind::Circle, EntityKind::Circle, ConstraintKind::Horizontal));
    assert!(possible(EntityKind::Circle, EntityKind::Circle, ConstraintKind::Vertical));
    assert!(possible(EntityKind::Circle, EntityKind::Circle, ConstraintKind::Tangent));
    assert!(!possible(EntityKind::Circle, EntityKind::Circle, ConstraintKind::Parallel));
    assert!(!possible(EntityKind::Circle, EntityKind::Circle, ConstraintKind::Perpendicular));
    assert!(!possible(EntityKind::Circle, EntityKind::Circle, ConstraintKind::Colinear));
    assert!(possible(EntityKind::Circle, EntityKind::Circle, ConstraintKind::Distance));
    assert!(!possible(EntityKind::Circle, EntityKind::Circle, ConstraintKind::Angle));
    assert!(possible(EntityKind::Point, EntityKind::Line, ConstraintKind::Coincident));
    assert!(!possible(EntityKind::Point, EntityKind::Line, ConstraintKind::Horizontal));
    assert!(!possible(EntityKind::Point, EntityKind::Line, ConstraintKind::Vertical));
    assert!(!possible(EntityKind::Point, EntityKind::Line, ConstraintKind::Tangent));
    assert!(!possible(EntityKind::Point, EntityKind::Line, ConstraintKind::Parallel));
    assert!(!possible(EntityKind::Point, EntityKind::Line, ConstraintKind::Perpendicular));
    assert!(!possible(EntityKind::Point, EntityKind::Line, ConstraintKind::Colinear));
    assert!(possible(EntityKind::Point, EntityKind::Line, ConstraintKind::Distance));
    assert!(!possible(EntityKind::Point, EntityKind::Line, ConstraintKind::Angle));
    assert!(possible(EntityKind::Circle, EntityKind::Line, ConstraintKind::Coincident));
    assert!(!possible(EntityKind::Circle, EntityKind::Line, ConstraintKind::Horizontal));
    assert!(!possible(EntityKind::Circle, EntityKind::Line, ConstraintKind::Vertical));
    assert!(possible(EntityKind::Circle, EntityKind::Line, ConstraintKind::Tangent));
    assert!(!possible(EntityKind::Circle, EntityKind::Line, ConstraintKind::Parallel));
    assert!(!possible(EntityKind::Circle, EntityKind::Line, ConstraintKind::Perpendicular));
    assert!(!possible(EntityKind::Circle, EntityKind::Line, ConstraintKind::Colinear));
    assert!(possible(EntityKind::Circle, EntityKind::Line, ConstraintKind::Distance));
    assert!(!possible(EntityKind::Circle, EntityKind::Line, ConstraintKind::Angle));
    assert!(!possible(EntityKind::Line, EntityKind::Line, ConstraintKind::Coincident));
    assert!(!possible(EntityKind::Line, EntityKind::Line, ConstraintKind::Horizontal));
    assert!(!possible(EntityKind::Line, EntityKind::Line, ConstraintKind::Vertical));
    assert!(!possible(EntityKind::Line, EntityKind::Line, ConstraintKind::Tangent));
    assert!(possible(EntityKind::Line, EntityKind::Line, ConstraintKind::Parallel));
    assert!(possible(EntityKind::Line, EntityKind::Line, ConstraintKind::Perpendicular));
    assert!(possible(EntityKind::Line, EntityKind::Line, ConstraintKind::Colinear));
    assert!(possible(EntityKind::Line, EntityKind::Line, ConstraintKind::Distance));
    assert!(possible(EntityKind::Line, EntityKind::Line, ConstraintKind::Angle));
}
