//! The built-in demonstration scenes.
use vstd::prelude::*;

verus! {

/// A scene that is built in, to render without an input file.
#[derive(Debug, Clone, Copy, PartialEq, Eq, Structural)]
pub enum AvailableDemo {
    /// A hollow glass sphere, a matte sphere, and a metal sphere next to each other,
    /// with a matte bottom sphere below.
    Spheres,
    /// Three big spheres of different materials among many smaller spheres.
    Spheromania,
    /// The picture shown in the project's repository.
    Github,
}

} // verus!
