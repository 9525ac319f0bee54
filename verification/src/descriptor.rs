//! The input surface and the descriptors derived from it.
//!
//! A type's author describes each field or variant explicitly — its name,
//! declared shape, documentation fragments, exclusion flag, optional override
//! annotation and exposure flags — and extraction turns that declaration into
//! the descriptor the derivation engine and the binding generator consume.

use vstd::prelude::*;
use vstd::string::StringExecFns;

use crate::shape::TypeShape;
use crate::shape::spec_annotate;

verus! {

/// One field of a record type, as its author declares it.
pub struct FieldConfig {
    /// The field's name.
    pub name: String,
    /// The shape of the field's declared type.
    pub declared_type: TypeShape,
    /// Literal documentation fragments, in source order.
    pub docs: Vec<String>,
    /// Excludes the field from documentation and binding outputs alike.
    pub skip: bool,
    /// An author-supplied annotation that replaces the mapping protocol's
    /// result for this field.
    pub as_lua: Option<String>,
    /// Registers a read accessor for the field.
    pub expose_get: bool,
    /// Registers a write accessor for the field.
    pub expose_set: bool,
}

/// One field's extracted descriptor.
pub struct FieldDescriptor {
    /// The field's name.
    pub name: String,
    /// The shape of the field's declared type.
    pub declared_type: TypeShape,
    /// All documentation fragments concatenated in source order; empty when
    /// the field carries no documentation.
    pub doc_text: String,
    /// The override annotation, when one was supplied.
    pub override_annotation: Option<String>,
    /// Whether the field is invisible to documentation and binding outputs.
    pub excluded: bool,
    /// Whether a read accessor is registered for the field.
    pub exposes_get: bool,
    /// Whether a write accessor is registered for the field.
    pub exposes_set: bool,
}

/// One variant of a unit-like enumeration, as its author declares it.
pub struct VariantConfig {
    /// The variant's name.
    pub name: String,
    /// Excludes the variant from the alias.
    pub skip: bool,
    /// An author-supplied label that replaces the variant's name.
    pub as_lua: Option<String>,
    /// Whether the variant carries payload data; such a variant is a
    /// configuration error for the whole type.
    pub has_payload: bool,
}

/// One variant's extracted descriptor.
pub struct VariantDescriptor {
    /// The variant's name.
    pub name: String,
    /// The override label, when one was supplied.
    pub override_label: Option<String>,
    /// Whether the variant is invisible to the alias output.
    pub excluded: bool,
}

/// A record type's full declaration.
pub struct StructConfig {
    /// The type's name.
    pub name: String,
    /// The fields, in declaration order.
    pub fields: Vec<FieldConfig>,
    /// Manual literal field entries, emitted verbatim after the computed
    /// field lines, in the order supplied.
    pub manual_fields: Vec<String>,
    /// Manual literal method signatures, emitted verbatim after the field
    /// lines, in the order supplied.
    pub manual_methods: Vec<String>,
    /// Names of external functions to register as methods when binding glue
    /// is generated.
    pub bound_methods: Vec<String>,
}

/// An enumeration's full declaration.
pub struct EnumConfig {
    /// The type's name.
    pub name: String,
    /// The variants, in declaration order.
    pub variants: Vec<VariantConfig>,
}

/// A type definition handed to the derivation engine.
pub enum TypeConfig {
    /// A record type with named fields.
    Record(StructConfig),
    /// An enumeration of unit-like variants.
    Enumeration(EnumConfig),
}

/// A generation-time failure, scoped to one type definition and identifying
/// the offending field or variant.
#[derive(Debug, Clone, PartialEq, Eq)]
pub enum GenError {
    /// A field whose shape the mapping protocol cannot classify and which
    /// supplies no override annotation.
    UnsupportedFieldShape { owner: String, field_name: String },
    /// An enumeration variant that carries payload data.
    PayloadVariant { owner: String, variant_name: String },
    /// An enumeration with no variants left after exclusion.
    EmptyAlias { owner: String },
}

/// The concatenation, in source order, of documentation fragments.
pub open spec fn spec_doc_concat(frags: Seq<Seq<char>>) -> Seq<char>
    decreases frags.len(),
{
    if frags.len() == 0 {
        Seq::empty()
    } else {
        spec_doc_concat(frags.drop_last()) + frags.last()
    }
}

/// The annotation chosen for a field: the override when present — the
/// declared type is then never consulted for display — else the mapping
/// protocol on the declared type.
pub open spec fn spec_field_annotation(f: FieldConfig) -> Option<Seq<char>> {
    match f.as_lua {
        Some(o) => Some(o@),
        None => spec_annotate(f.declared_type),
    }
}

/// The label chosen for a variant: the override when present, else the
/// variant's own name.
pub open spec fn spec_variant_label(v: VariantConfig) -> Seq<char> {
    match v.as_lua {
        Some(o) => o@,
        None => v.name@,
    }
}

/// Concatenates documentation fragments in source order; no fragments yield
/// the empty string, never an error.
pub fn concat_docs(docs: &Vec<String>) -> (r: String)
    ensures
        r@ == spec_doc_concat(docs.deep_view()),
{
    let mut out = String::new();
    let ghost frags = docs.deep_view();
    let mut i: usize = 0;
    while i < docs.len()
        invariant
            0 <= i <= docs.len(),
            frags == docs.deep_view(),
            frags.len() == docs@.len(),
            out@ == spec_doc_concat(frags.take(i as int)),
        decreases docs.len() - i,
    {
        out.append(docs[i].as_str());
        proof {
            assert(frags.take(i + 1).drop_last() =~= frags.take(i as int));
            assert(frags.take(i + 1).last() == docs@[i as int]@);
        }
        i = i + 1;
    }
    proof {
        assert(frags.take(docs@.len() as int) =~= frags);
    }
    out
}

/// Produces a field's descriptor from its declaration: the documentation
/// fragments are concatenated in source order, and exclusion, override and
/// exposure settings are carried over as independent toggles.
pub fn extract_field(f: &FieldConfig) -> (d: FieldDescriptor)
    ensures
        d.name == f.name,
        d.declared_type == f.declared_type,
        d.doc_text@ == spec_doc_concat(f.docs.deep_view()),
        d.override_annotation == f.as_lua,
        d.excluded == f.skip,
        d.exposes_get == f.expose_get,
        d.exposes_set == f.expose_set,
{
    FieldDescriptor {
        name: f.name.clone(),
        declared_type: f.declared_type.clone(),
        doc_text: concat_docs(&f.docs),
        override_annotation: match &f.as_lua {
            Some(o) => Some(o.clone()),
            None => None,
        },
        excluded: f.skip,
        exposes_get: f.expose_get,
        exposes_set: f.expose_set,
    }
}

/// Produces a variant's descriptor from its declaration.
pub fn extract_variant(v: &VariantConfig) -> (d: VariantDescriptor)
    ensures
        d.name == v.name,
        d.override_label == v.as_lua,
        d.excluded == v.skip,
{
    VariantDescriptor {
        name: v.name.clone(),
        override_label: match &v.as_lua {
            Some(o) => Some(o.clone()),
            None => None,
        },
        excluded: v.skip,
    }
}

impl Clone for TypeShape {
    /// A duplicate equal to this shape.
    fn clone(&self) -> (r: Self)
        ensures
            r == *self,
        decreases *self,
    {
        match self {
            TypeShape::Integer => TypeShape::Integer,
            TypeShape::Number => TypeShape::Number,
            TypeShape::Boolean => TypeShape::Boolean,
            TypeShape::Text => TypeShape::Text,
            TypeShape::TextBuffer => TypeShape::TextBuffer,
            TypeShape::Optional(inner) => TypeShape::Optional(Box::new((&**inner).clone())),
            TypeShape::List(inner) => TypeShape::List(Box::new((&**inner).clone())),
            TypeShape::MapOf(key, value) => TypeShape::MapOf(
                Box::new((&**key).clone()),
                Box::new((&**value).clone()),
            ),
            TypeShape::SetOf(inner) => TypeShape::SetOf(Box::new((&**inner).clone())),
            TypeShape::Shared(inner) => TypeShape::Shared(Box::new((&**inner).clone())),
            TypeShape::CowOf(inner) => TypeShape::CowOf(Box::new((&**inner).clone())),
            TypeShape::Named(name) => TypeShape::Named(name.clone()),
            TypeShape::Unsupported => TypeShape::Unsupported,
        }
    }
}

} // verus!
