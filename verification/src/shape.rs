//! The type-mapping protocol: a recursive function from the shape of a host
//! type to the textual annotation that the scripting-language tooling
//! consumes.

use vstd::prelude::*;
use vstd::string::StringExecFns;

verus! {

/// The shape of a host type, as far as the mapping protocol needs to see it.
///
/// Leaves are the primitive classes; the wrapper variants compose
/// recursively. `Named` stands for a host type that carries its own
/// annotation (for example a class or alias generated by this library), and
/// `Unsupported` stands for a shape the protocol cannot classify: a field of
/// that shape needs an override annotation, or its type fails to generate.
pub enum TypeShape {
    /// A fixed-width signed or unsigned integer.
    Integer,
    /// A floating-point numeric type.
    Number,
    /// The boolean type.
    Boolean,
    /// A string-like type: an owned string, a string slice, or an interop
    /// string buffer.
    Text,
    /// A fixed-capacity string buffer; collapses to the string annotation
    /// without propagating an inner type.
    TextBuffer,
    /// An optional/nullable wrapper over the inner type.
    Optional(Box<TypeShape>),
    /// A sequential container: a growable list, a fixed array, a slice, or a
    /// fixed-capacity vector.
    List(Box<TypeShape>),
    /// An ordered or unordered key-value map.
    MapOf(Box<TypeShape>, Box<TypeShape>),
    /// An ordered or unordered set, modeled as a presence map.
    SetOf(Box<TypeShape>),
    /// A single-owner box or a (atomically) reference-counted wrapper; it is
    /// invisible to the target type system.
    Shared(Box<TypeShape>),
    /// A copy-on-write wrapper; passes through, except that over a string
    /// type it collapses to the string annotation directly.
    CowOf(Box<TypeShape>),
    /// A host type that supplies its own annotation text, such as a class or
    /// alias derived by this library.
    Named(String),
    /// A shape the protocol cannot classify.
    Unsupported,
}

/// Whether a shape falls under the string rule of the mapping table.
pub open spec fn spec_is_text(t: TypeShape) -> bool {
    t is Text || t is TextBuffer
}

/// The annotation for a shape: `None` exactly when the shape contains an
/// unclassifiable part, `Some` of the annotation text otherwise.
pub open spec fn spec_annotate(t: TypeShape) -> Option<Seq<char>>
    decreases t,
{
    match t {
        TypeShape::Integer => Some("integer"@),
        TypeShape::Number => Some("number"@),
        TypeShape::Boolean => Some("boolean"@),
        TypeShape::Text => Some("string"@),
        TypeShape::TextBuffer => Some("string"@),
        TypeShape::Optional(inner) => match spec_annotate(*inner) {
            Some(s) => Some(s + "?"@),
            None => None,
        },
        TypeShape::List(inner) => match spec_annotate(*inner) {
            Some(s) => Some(s + "[]"@),
            None => None,
        },
        TypeShape::MapOf(key, value) => match spec_annotate(*key) {
            Some(ks) => match spec_annotate(*value) {
                Some(vs) => Some("table<"@ + ks + ", "@ + vs + ">"@),
                None => None,
            },
            None => None,
        },
        TypeShape::SetOf(inner) => match spec_annotate(*inner) {
            Some(s) => Some("table<"@ + s + ", bool>"@),
            None => None,
        },
        TypeShape::Shared(inner) => spec_annotate(*inner),
        TypeShape::CowOf(inner) => if spec_is_text(*inner) {
            Some("string"@)
        } else {
            spec_annotate(*inner)
        },
        TypeShape::Named(name) => Some(name@),
        TypeShape::Unsupported => None,
    }
}

impl TypeShape {
    /// Computes the annotation for this shape: `None` exactly when the shape
    /// contains an unclassifiable part.
    pub fn annotate(&self) -> (r: Option<String>)
        ensures
            r is Some <==> spec_annotate(*self) is Some,
            r matches Some(s) ==> spec_annotate(*self) == Some(s@),
        decreases *self,
    {
        match self {
            TypeShape::Integer => Some(String::from_str("integer")),
            TypeShape::Number => Some(String::from_str("number")),
            TypeShape::Boolean => Some(String::from_str("boolean")),
            TypeShape::Text => Some(String::from_str("string")),
            TypeShape::TextBuffer => Some(String::from_str("string")),
            TypeShape::Optional(inner) => match (&**inner).annotate() {
                Some(s) => Some(s.concat("?")),
                None => None,
            },
            TypeShape::List(inner) => match (&**inner).annotate() {
                Some(s) => Some(s.concat("[]")),
                None => None,
            },
            TypeShape::MapOf(key, value) => match (&**key).annotate() {
                Some(ks) => match (&**value).annotate() {
                    Some(vs) => {
                        let mut out = String::from_str("table<");
                        out.append(ks.as_str());
                        out.append(", ");
                        out.append(vs.as_str());
                        out.append(">");
                        Some(out)
                    },
                    None => None,
                },
                None => None,
            },
            TypeShape::SetOf(inner) => match (&**inner).annotate() {
                Some(s) => {
                    let mut out = String::from_str("table<");
                    out.append(s.as_str());
                    out.append(", bool>");
                    Some(out)
                },
                None => None,
            },
            TypeShape::Shared(inner) => (&**inner).annotate(),
            TypeShape::CowOf(inner) => {
                if (&**inner).is_text() {
                    Some(String::from_str("string"))
                } else {
                    (&**inner).annotate()
                }
            },
            TypeShape::Named(name) => Some(name.clone()),
            TypeShape::Unsupported => None,
        }
    }

    /// Whether this shape falls under the string rule of the mapping table.
    pub fn is_text(&self) -> (b: bool)
        ensures
            b == spec_is_text(*self),
    {
        match self {
            TypeShape::Text => true,
            TypeShape::TextBuffer => true,
            _ => false,
        }
    }
}

} // verus!
