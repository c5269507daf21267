//! The feature accessor: one record read from a vector data layer, owning
//! its native handle, exposing field lookup by name and geometry
//! serialization, and releasing the handle exactly once.

use vstd::prelude::*;

use crate::field::Field;
use crate::field::FieldData;
use crate::field::FieldValue;
use crate::geometry::Geometry;
use crate::geometry::GeometryData;
use crate::Layer;

verus! {

/// The index of the first field whose name is `name`, or `-1` when no field
/// of the schema carries that name — the convention of the native index
/// lookup this models.
pub open spec fn field_index(fields: Seq<Field>, name: Seq<char>) -> int
    decreases fields.len(),
{
    if fields.len() == 0 {
        -1
    } else if fields[0].name@ == name {
        0
    } else {
        let rest = field_index(fields.drop_first(), name);
        if rest == -1 {
            -1
        } else {
            rest + 1
        }
    }
}

/// What `field_index` finds: `-1` exactly when the name is absent, and
/// otherwise the first index carrying the name.
pub proof fn lemma_field_index(fields: Seq<Field>, name: Seq<char>)
    ensures
        field_index(fields, name) == -1 <==> (forall|i: int|
            0 <= i < fields.len() ==> fields[i].name@ != name),
        field_index(fields, name) != -1 ==> {
            let k = field_index(fields, name);
            &&& 0 <= k < fields.len()
            &&& fields[k].name@ == name
            &&& (forall|i: int| 0 <= i < k ==> fields[i].name@ != name)
        },
    decreases fields.len(),
{
    if fields.len() > 0 && fields[0].name@ != name {
        let rest = fields.drop_first();
        lemma_field_index(rest, name);
        let r = field_index(rest, name);
        if r == -1 {
            assert forall|i: int| 0 <= i < fields.len() implies fields[i].name@ != name by {
                if i > 0 {
                    assert(rest[i - 1] == fields[i]);
                }
            }
        } else {
            assert(rest[r] == fields[r + 1]);
            assert forall|i: int| 0 <= i < r + 1 implies fields[i].name@ != name by {
                if i > 0 {
                    assert(rest[i - 1] == fields[i]);
                }
            }
        }
    }
}

/// Whether a lookup of `name` stays within the two handled field kinds. A
/// field of any other declared type is an unhandled-type fault — fatal, not
/// recoverable — so lookups are specified only where this holds; an absent
/// name holds it vacuously and is never a fault.
pub open spec fn lookup_handled(fields: Seq<Field>, name: Seq<char>) -> bool {
    field_index(fields, name) != -1 ==> {
        let data = fields[field_index(fields, name)].data;
        data is Text || data is Real
    }
}

/// The value a lookup of `name` returns: absence when no field carries the
/// name, and otherwise the first such field's payload under the matching
/// `FieldValue` tag. The unhandled arm is never reached under
/// `lookup_handled`.
pub open spec fn field_lookup(fields: Seq<Field>, name: Seq<char>) -> Option<FieldValue>
    recommends
        lookup_handled(fields, name),
{
    let k = field_index(fields, name);
    if k == -1 {
        Option::None
    } else {
        match fields[k].data {
            FieldData::Text(s) => Option::Some(FieldValue::StringValue(s)),
            FieldData::Real(bits) => Option::Some(FieldValue::RealValue(bits)),
            FieldData::Integer(_) => Option::None,
        }
    }
}

/// The native feature handle, modeled by what this crate relies on of it: an
/// identity and whether the native resource behind it has been released.
#[derive(Debug)]
pub struct FeatureHandle {
    /// Identity of the native resource the handle designates.
    pub id: u64,
    /// Whether the resource has been released.
    pub released: bool,
}

/// One feature of a vector data layer.
///
/// A feature exclusively owns its native handle, borrows its parent layer so
/// that it cannot outlive it, and populates its geometry wrapper lazily, at
/// most once. The record behind the handle is modeled by plain values: the
/// list of typed fields and the geometry's serialized forms.
pub struct Feature<'a> {
    layer: &'a Layer,
    handle: FeatureHandle,
    fields: Vec<Field>,
    native_geometry: GeometryData,
    geometry: Geometry,
    geometry_fetches: u64,
}

impl<'a> Feature<'a> {
    /// The parent layer the feature borrows.
    pub closed spec fn parent_layer(self) -> Layer {
        *self.layer
    }

    /// The handle the feature owns.
    pub closed spec fn handle(self) -> FeatureHandle {
        self.handle
    }

    /// The fields of the record behind the handle.
    pub closed spec fn fields(self) -> Seq<Field> {
        self.fields@
    }

    /// The geometry stored in the record behind the handle.
    pub closed spec fn native_geometry(self) -> GeometryData {
        self.native_geometry
    }

    /// The lazily populated geometry wrapper.
    pub closed spec fn geometry_wrapper(self) -> Geometry {
        self.geometry
    }

    /// How many times the native geometry has been fetched from the record.
    pub closed spec fn geometry_fetches(self) -> u64 {
        self.geometry_fetches
    }

    /// The invariant every live feature maintains: its handle has not been
    /// released, and the geometry wrapper is either still vacant with no
    /// fetch made, or was attached by the one fetch to exactly the record's
    /// geometry.
    pub open spec fn wf(self) -> bool {
        &&& !self.handle().released
        &&& self.geometry_wrapper().is_attached() ==> self.geometry_wrapper().data()
            == self.native_geometry()
        &&& self.geometry_fetches() == if self.geometry_wrapper().is_attached() {
            1u64
        } else {
            0u64
        }
    }

    /// Constructs a feature that takes ownership of a freshly produced native
    /// handle, typically handed over by the layer's "next feature" operation.
    /// The caller guarantees the handle is live and not owned elsewhere; the
    /// record behind it is given as plain values.
    pub fn with_layer(
        layer: &'a Layer,
        handle: FeatureHandle,
        fields: Vec<Field>,
        native_geometry: GeometryData,
    ) -> (f: Feature<'a>)
        requires
            !handle.released,
        ensures
            f.wf(),
            f.parent_layer() == *layer,
            f.handle() == handle,
            f.fields() == fields@,
            f.native_geometry() == native_geometry,
            !f.geometry_wrapper().is_attached(),
            f.geometry_fetches() == 0,
    {
        Feature {
            layer,
            handle,
            fields,
            native_geometry,
            geometry: Geometry::lazy_feature_geometry(),
            geometry_fetches: 0,
        }
    }

    /// The layer this feature was read from. The feature's borrow guarantees
    /// the layer is still live.
    pub fn layer(&self) -> (l: &'a Layer)
        ensures
            *l == self.parent_layer(),
    {
        self.layer
    }

    /// Looks the field named `name` up in the feature's record.
    ///
    /// Absence is an explicit, recoverable answer: when no field carries the
    /// name the result is `None`, never a fault. When the name resolves, the
    /// field's declared type dispatches the read — textual fields come back
    /// as `StringValue`, real-valued fields as `RealValue` with the stored
    /// double's bits unchanged. Any other declared type is an unhandled-type
    /// fault, ruled out by `lookup_handled`.
    pub fn field(&self, name: &str) -> (r: Option<FieldValue>)
        requires
            self.wf(),
            lookup_handled(self.fields(), name@),
        ensures
            r == field_lookup(self.fields(), name@),
            r is Some <==> field_index(self.fields(), name@) != -1,
    {
        let key: String = name.to_owned();
        let n = self.fields.len();
        let mut i: usize = 0;
        while i < n
            invariant
                self.wf(),
                lookup_handled(self.fields(), name@),
                key@ == name@,
                n == self.fields().len(),
                i <= n,
                forall|j: int| 0 <= j < i ==> self.fields()[j].name@ != name@,
            decreases n - i,
        {
            if self.fields[i].name == key {
                proof {
                    lemma_field_index(self.fields(), name@);
                    assert(field_index(self.fields(), name@) == i);
                }
                match &self.fields[i].data {
                    FieldData::Text(s) => {
                        return Option::Some(FieldValue::StringValue(s.clone()));
                    },
                    FieldData::Real(bits) => {
                        return Option::Some(FieldValue::RealValue(*bits));
                    },
                    FieldData::Integer(_) => {
                        return unreached();
                    },
                }
            }
            i = i + 1;
        }
        proof {
            lemma_field_index(self.fields(), name@);
        }
        Option::None
    }

    /// The feature's state after one geometry access: an already attached
    /// wrapper is left as it is, a vacant one is attached, by the single
    /// fetch, to exactly the record's geometry.
    pub closed spec fn after_geometry_access(self) -> Feature<'a> {
        if self.geometry.is_attached() {
            self
        } else {
            Feature {
                geometry: Geometry::attached(self.native_geometry),
                geometry_fetches: (self.geometry_fetches + 1) as u64,
                ..self
            }
        }
    }

    /// Hands out the feature's geometry wrapper, populating it on first
    /// access: the native geometry is fetched from the record at most once,
    /// and later accesses reuse the cached content. The returned reference is
    /// a view into feature-owned data, so its validity is bounded by the
    /// feature's own lifetime.
    pub fn geometry(&mut self) -> (g: &Geometry)
        requires
            old(self).wf(),
        ensures
            *final(self) == old(self).after_geometry_access(),
            final(self).wf(),
            *g == final(self).geometry_wrapper(),
            final(self).geometry_wrapper().is_attached(),
            final(self).geometry_wrapper().data() == old(self).native_geometry(),
            final(self).handle() == old(self).handle(),
            final(self).fields() == old(self).fields(),
            final(self).native_geometry() == old(self).native_geometry(),
            old(self).geometry_wrapper().is_attached() ==> *final(self) == *old(self),
    {
        if !self.geometry.has_data() {
            let d = self.native_geometry.duplicate();
            self.geometry.attach(d);
            self.geometry_fetches = self.geometry_fetches + 1;
        }
        &self.geometry
    }

    /// The well-known-text serialization of the feature's geometry, which is
    /// populated first if this is the first access.
    pub fn wkt(&mut self) -> (r: String)
        requires
            old(self).wf(),
        ensures
            r == old(self).native_geometry().wkt,
            *final(self) == old(self).after_geometry_access(),
            final(self).wf(),
            final(self).native_geometry() == old(self).native_geometry(),
            final(self).fields() == old(self).fields(),
            final(self).handle() == old(self).handle(),
    {
        let g = self.geometry();
        g.wkt()
    }

    /// The JSON serialization of the feature's geometry, which is populated
    /// first if this is the first access.
    pub fn json(&mut self) -> (r: String)
        requires
            old(self).wf(),
        ensures
            r == old(self).native_geometry().json,
            *final(self) == old(self).after_geometry_access(),
            final(self).wf(),
            final(self).native_geometry() == old(self).native_geometry(),
            final(self).fields() == old(self).fields(),
            final(self).handle() == old(self).handle(),
    {
        let g = self.geometry();
        g.json()
    }

    /// Releases the feature's native handle and consumes the feature, so the
    /// release can happen only once. The returned handle records the release;
    /// its identity is unchanged.
    pub fn destroy(self) -> (h: FeatureHandle)
        requires
            self.wf(),
        ensures
            h.id == self.handle().id,
            h.released,
    {
        FeatureHandle { id: self.handle.id, released: true }
    }
}

/// A name absent from the schema is looked up as absence, never as a fault:
/// the lookup's precondition holds vacuously for it, and the lookup returns
/// `None`.
pub proof fn lemma_absent_field_is_none(fields: Seq<Field>, name: Seq<char>)
    requires
        forall|i: int| 0 <= i < fields.len() ==> fields[i].name@ != name,
    ensures
        lookup_handled(fields, name),
        field_lookup(fields, name) is None,
{
    lemma_field_index(fields, name);
}

/// A textual field set to value `v` is looked up as exactly
/// `StringValue(v)`; by the contract of `as_string`, extracting the payload
/// then yields exactly `v`.
pub proof fn lemma_text_field_exact(fields: Seq<Field>, name: Seq<char>, v: String)
    requires
        field_index(fields, name) != -1,
        fields[field_index(fields, name)].data == FieldData::Text(v),
    ensures
        lookup_handled(fields, name),
        field_lookup(fields, name) == Option::Some(FieldValue::StringValue(v)),
        field_lookup(fields, name)->0.str_value() == v,
{
}

/// A real-valued field whose stored double has bit pattern `bits` is looked
/// up as exactly `RealValue(bits)`; by the contract of `as_real`, extracting
/// the payload then yields those bits unchanged — the read is bit-equal to
/// the stored double.
pub proof fn lemma_real_field_exact(fields: Seq<Field>, name: Seq<char>, bits: u64)
    requires
        field_index(fields, name) != -1,
        fields[field_index(fields, name)].data == FieldData::Real(bits),
    ensures
        lookup_handled(fields, name),
        field_lookup(fields, name) == Option::Some(FieldValue::RealValue(bits)),
        field_lookup(fields, name)->0.real_bits() == bits,
{
}

/// Geometry access is idempotent. One access attaches the wrapper to exactly
/// the record's geometry; a second access leaves that state untouched, so
/// the serialized output — pinned by the contracts of `wkt` and `json` to
/// the record's geometry, which no access changes — is the same both times,
/// and the native geometry is fetched at most once.
pub proof fn lemma_geometry_access_idempotent(f: Feature)
    requires
        f.wf(),
    ensures
        f.after_geometry_access().after_geometry_access() == f.after_geometry_access(),
        f.after_geometry_access().wf(),
        f.after_geometry_access().geometry_wrapper().is_attached(),
        f.after_geometry_access().geometry_wrapper().data() == f.native_geometry(),
        f.after_geometry_access().native_geometry() == f.native_geometry(),
        f.after_geometry_access().fields() == f.fields(),
        f.after_geometry_access().handle() == f.handle(),
        f.after_geometry_access().geometry_fetches() <= 1,
{
    Geometry::lemma_attached_characterized(f.geometry_wrapper(), f.native_geometry());
}

/// A live feature's handle is never already released: the release performed
/// when the feature is destroyed is therefore the first, and, the feature
/// being consumed by it, also the last — the handle is released exactly once.
pub proof fn lemma_live_handle_unreleased(f: Feature)
    requires
        f.wf(),
    ensures
        !f.handle().released,
{
}

} // verus!
