//! Procedural plant modelling from an evolvable genetic description.
//!
//! A plant is described by a recursive tree of generator genes (leaf,
//! branch, distribution).  The tree can be constructed from a random
//! source, perturbed by mutation, edited through a message protocol, and
//! translated deterministically into a triangulated mesh.
//!
//! All geometry is carried in 48.16 fixed-point scalars, so every
//! computation is exact integer arithmetic with a precise contract.

pub mod branch;
pub mod distribution;
pub mod dna;
pub mod fixed;
pub mod leaf;
pub mod mesh;
pub mod random;
pub mod texture;
pub mod vec3;
