//! A safe accessor layer over vector-data features: records that pair named
//! attribute fields with one geometry.
//!
//! The native store behind a feature is modeled by plain values: a handle with
//! an identity and a release flag, a list of typed fields, and the geometry's
//! serialized forms. Every accessor is specified and verified against that
//! model.

use vstd::prelude::*;

pub mod feature;
pub mod field;
pub mod geometry;

verus! {

/// A collection of features sharing a schema. It is an external collaborator
/// of this crate: features only borrow it, so a feature can never outlive the
/// layer it was read from.
pub struct Layer {
    /// Identity of the layer within its data set.
    pub id: u64,
}

} // verus!
