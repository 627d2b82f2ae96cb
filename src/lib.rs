//! The verified core of a 2D parametric sketcher: an identifier-indexed store for entities;
//! the kinds of entity and constraint, with their compatibility matrix and penalty dispatch;
//! a sketch whose constraints always relate two distinct entities of it, and the relaxation
//! pass over them; and the plain values that the editor's layout and forms are made of.

pub mod area;
pub mod boundary;
pub mod entity;
pub mod form;
pub mod modes;
pub mod registry;
pub mod sketch;
pub mod ui;
