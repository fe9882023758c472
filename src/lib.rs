//! Exact integer geometry: points, translations, lattice rotations and
//! similarity transforms, with their construction and conversion rules.
mod scalar;
pub mod vector;
pub mod point;
pub mod translation;
pub mod rotation;
pub mod similarity;
