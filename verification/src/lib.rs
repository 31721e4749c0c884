//! Ray-sphere intersection: the decisions of the closed-form test, verified.

pub mod drawable;
pub mod scalar;
pub mod sphere;
pub mod vector;
