//! Laws of the generation engine, stated and proved once for all inputs:
//! the fixed primitive literals, the wrapper transforms of the mapping
//! protocol, the invisibility of excluded fields, the precedence of override
//! annotations, the verbatim in-order emission of manual entries, and the
//! determinism of generation.

use vstd::prelude::*;

use crate::binding::spec_conversion;
use crate::binding::spec_getter;
use crate::binding::spec_getters;
use crate::binding::spec_override_view;
use crate::binding::spec_setters;
use crate::classgen::spec_class_annotation;
use crate::classgen::spec_entry_lines;
use crate::classgen::spec_field_lines;
use crate::classgen::spec_struct_annotation;
use crate::descriptor::FieldConfig;
use crate::descriptor::StructConfig;
use crate::descriptor::TypeConfig;
use crate::descriptor::spec_field_annotation;
use crate::shape::TypeShape;
use crate::shape::spec_annotate;
use crate::shape::spec_is_text;

verus! {

/// Every primitive class maps to its fixed literal, whatever surrounds it:
/// the mapping consults nothing but the shape itself.
pub proof fn lemma_primitive_annotations()
    ensures
        spec_annotate(TypeShape::Integer) == Some("integer"@),
        spec_annotate(TypeShape::Number) == Some("number"@),
        spec_annotate(TypeShape::Boolean) == Some("boolean"@),
        spec_annotate(TypeShape::Text) == Some("string"@),
        spec_annotate(TypeShape::TextBuffer) == Some("string"@),
{
}

/// Each wrapper applies its fixed transform to the inner annotation — append
/// the optional or list suffix, fill the map or set template, or pass the
/// inner annotation through unchanged — at any nesting depth, since the inner
/// shape is arbitrary. The copy-on-write wrapper's collapse over a string
/// type coincides with pass-through, because a string shape already maps to
/// the string literal.
pub proof fn lemma_wrapper_transforms(w: TypeShape)
    ensures
        w matches TypeShape::Optional(inner) ==> spec_annotate(w) == (match spec_annotate(*inner) {
            Some(a) => Some(a + "?"@),
            None => None::<Seq<char>>,
        }),
        w matches TypeShape::List(inner) ==> spec_annotate(w) == (match spec_annotate(*inner) {
            Some(a) => Some(a + "[]"@),
            None => None::<Seq<char>>,
        }),
        w matches TypeShape::MapOf(key, value) ==> spec_annotate(w) == (match spec_annotate(
            *key,
        ) {
            Some(ka) => match spec_annotate(*value) {
                Some(va) => Some("table<"@ + ka + ", "@ + va + ">"@),
                None => None::<Seq<char>>,
            },
            None => None::<Seq<char>>,
        }),
        w matches TypeShape::SetOf(inner) ==> spec_annotate(w) == (match spec_annotate(*inner) {
            Some(a) => Some("table<"@ + a + ", bool>"@),
            None => None::<Seq<char>>,
        }),
        w matches TypeShape::Shared(inner) ==> spec_annotate(w) == spec_annotate(*inner),
        w matches TypeShape::CowOf(inner) ==> spec_annotate(w) == spec_annotate(*inner),
{
    if let TypeShape::CowOf(inner) = w {
        if spec_is_text(*inner) {
            assert(spec_annotate(*inner) == Some("string"@));
        }
    }
}

/// An excluded field is invisible to the documentation block and to the
/// registered accessor sets alike, wherever it is inserted, and no other
/// field's output changes.
pub proof fn lemma_excluded_field_invisible(
    owner: String,
    fields: Seq<FieldConfig>,
    i: int,
    f: FieldConfig,
)
    requires
        0 <= i <= fields.len(),
        f.skip,
    ensures
        spec_field_lines(owner, fields.insert(i, f)) == spec_field_lines(owner, fields),
        spec_getters(fields.insert(i, f)) == spec_getters(fields),
        spec_setters(fields.insert(i, f)) == spec_setters(fields),
    decreases fields.len(),
{
    let g = fields.insert(i, f);
    if i == fields.len() {
        assert(g.drop_last() =~= fields);
        assert(g.last() == f);
    } else {
        assert(g.drop_last() =~= fields.drop_last().insert(i, f));
        assert(g.last() == fields.last());
        lemma_excluded_field_invisible(owner, fields.drop_last(), i, f);
    }
}

/// The block-level corollary: two record declarations that differ only by an
/// inserted excluded field produce the same documentation block and the same
/// accessor sets.
pub proof fn lemma_excluded_field_invisible_in_block(
    c1: StructConfig,
    c2: StructConfig,
    i: int,
    f: FieldConfig,
)
    requires
        0 <= i <= c1.fields@.len(),
        f.skip,
        c2.name == c1.name,
        c2.fields@ == c1.fields@.insert(i, f),
        c2.manual_fields == c1.manual_fields,
        c2.manual_methods == c1.manual_methods,
    ensures
        spec_struct_annotation(c2) == spec_struct_annotation(c1),
        spec_getters(c2.fields@) == spec_getters(c1.fields@),
        spec_setters(c2.fields@) == spec_setters(c1.fields@),
{
    lemma_excluded_field_invisible(c1.name, c1.fields@, i, f);
}

/// A supplied override annotation is used exactly, and the mapping protocol
/// is never consulted for that field.
pub proof fn lemma_override_replaces_mapping(f: FieldConfig, o: String)
    requires
        f.as_lua == Some(o),
    ensures
        spec_field_annotation(f) == Some(o@),
{
}

/// The accessor conversion for a field follows only the override literal
/// match rules: the field's declared type plays no part in it.
pub proof fn lemma_conversion_ignores_declared_type(f: FieldConfig, t: TypeShape)
    ensures
        spec_getter(
            (FieldConfig {
                name: f.name,
                declared_type: t,
                docs: f.docs,
                skip: f.skip,
                as_lua: f.as_lua,
                expose_get: f.expose_get,
                expose_set: f.expose_set,
            }),
        ) == spec_getter(f),
        spec_getter(f).conversion == spec_conversion(spec_override_view(f.as_lua)),
{
}

/// Manual entries are emitted verbatim and in the order supplied, after all
/// computed entries, never sorted or deduplicated: the lines of two entry
/// lists in sequence are the lines of the first followed by the lines of the
/// second, so each appended entry — equal to an earlier one or not —
/// appends exactly its own line.
pub proof fn lemma_manual_entries_concat(
    prefix: Seq<char>,
    a: Seq<Seq<char>>,
    b: Seq<Seq<char>>,
)
    ensures
        spec_entry_lines(prefix, a + b) == spec_entry_lines(prefix, a) + spec_entry_lines(
            prefix,
            b,
        ),
    decreases b.len(),
{
    if b.len() == 0 {
        assert(a + b =~= a);
        assert(spec_entry_lines(prefix, a) + spec_entry_lines(prefix, b) =~= spec_entry_lines(
            prefix,
            a,
        ));
    } else {
        assert((a + b).drop_last() =~= a + b.drop_last());
        assert((a + b).last() == b.last());
        lemma_manual_entries_concat(prefix, a, b.drop_last());
        assert(spec_entry_lines(prefix, a + b) =~= spec_entry_lines(prefix, a) + spec_entry_lines(
            prefix,
            b,
        ));
    }
}

/// Generation is a pure function of the type definition: running it again on
/// an unchanged definition yields identical output.
pub proof fn lemma_generation_deterministic(a: TypeConfig, b: TypeConfig)
    requires
        a == b,
    ensures
        spec_class_annotation(a) == spec_class_annotation(b),
{
}

} // verus!
