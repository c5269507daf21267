//! The geometry wrapper a feature hands out: a two-state cell that starts
//! vacant and is attached to the native geometry at most once, on first
//! access.

use vstd::prelude::*;

verus! {

/// The observable content of a native geometry. The shape itself is opaque to
/// this crate beyond serialization, so a geometry is modeled by exactly what
/// can be observed of it: its well-known-text and JSON serializations.
#[derive(Debug)]
pub struct GeometryData {
    /// The well-known-text serialization of the shape.
    pub wkt: String,
    /// The JSON serialization of the shape.
    pub json: String,
}

impl GeometryData {
    /// A one-for-one copy, field by field, provably equal to the value it
    /// copies.
    pub fn duplicate(&self) -> (r: GeometryData)
        ensures
            r == *self,
    {
        GeometryData { wkt: self.wkt.clone(), json: self.json.clone() }
    }
}

/// A lazily populated view of a feature's geometry.
///
/// The wrapper is an explicit two-state machine: it is created vacant and is
/// attached exactly once, after which it never changes. Its content is a view
/// into feature-owned data, so the feature that hands it out bounds its
/// lifetime.
#[derive(Debug)]
pub struct Geometry {
    slot: Option<GeometryData>,
}

impl Geometry {
    /// Whether the wrapper has been attached to a native geometry yet.
    pub closed spec fn is_attached(self) -> bool {
        self.slot is Some
    }

    /// The attached content; meaningful only once attached.
    pub closed spec fn data(self) -> GeometryData
        recommends
            self.is_attached(),
    {
        self.slot->0
    }

    /// The wrapper state that holds exactly `d`: the state `attach` leaves
    /// behind.
    pub closed spec fn attached(d: GeometryData) -> Geometry {
        Geometry { slot: Option::Some(d) }
    }

    /// A fresh wrapper in the vacant state, ready to be populated on first
    /// access to the owning feature's geometry.
    pub fn lazy_feature_geometry() -> (g: Geometry)
        ensures
            !g.is_attached(),
    {
        Geometry { slot: None }
    }

    /// The "has a native geometry yet" query that guards lazy population.
    pub fn has_data(&self) -> (b: bool)
        ensures
            b == self.is_attached(),
    {
        match &self.slot {
            Option::Some(_) => true,
            Option::None => false,
        }
    }

    /// Populates the wrapper. Attachment happens at most once: re-entrant
    /// population is ruled out, so the content can never change afterwards.
    pub fn attach(&mut self, d: GeometryData)
        requires
            !old(self).is_attached(),
        ensures
            *final(self) == Geometry::attached(d),
            final(self).is_attached(),
            final(self).data() == d,
    {
        self.slot = Option::Some(d);
    }

    /// `Geometry::attached(d)` is exactly the attached state holding `d`:
    /// it is attached, its content is `d`, and every attached wrapper with
    /// content `d` is that state.
    pub proof fn lemma_attached_characterized(g: Geometry, d: GeometryData)
        ensures
            Geometry::attached(d).is_attached(),
            Geometry::attached(d).data() == d,
            g.is_attached() && g.data() == d ==> g == Geometry::attached(d),
    {
    }

    /// The well-known-text serialization of the attached geometry.
    pub fn wkt(&self) -> (r: String)
        requires
            self.is_attached(),
        ensures
            r == self.data().wkt,
    {
        match &self.slot {
            Option::Some(d) => d.wkt.clone(),
            Option::None => unreached(),
        }
    }

    /// The JSON serialization of the attached geometry.
    pub fn json(&self) -> (r: String)
        requires
            self.is_attached(),
        ensures
            r == self.data().json,
    {
        match &self.slot {
            Option::Some(d) => d.json.clone(),
            Option::None => unreached(),
        }
    }
}

} // verus!
