//! Generation of scripting-language type annotations from host type
//! definitions.
//!
//! The library turns an explicit description of a host type — its name, its
//! fields or variants, their shapes, documentation, exclusions and overrides —
//! into the documentation block that an external type checker for the
//! embedded scripting language consumes, and optionally into a plan of the
//! field accessors and methods to register with an embedded interpreter.

use std::collections::BTreeMap;
use std::collections::BTreeSet;
use std::collections::HashMap;
use std::collections::HashSet;
use std::rc::Rc;
use std::sync::Arc;

use vstd::prelude::*;
use vstd::string::StringExecFns;

pub mod binding;
pub mod classgen;
pub mod laws;
pub mod descriptor;
pub mod shape;

verus! {

/// A type that can state its own annotation text, the capability that the
/// mapping protocol composes over.
pub trait TypeAnnotation {
    /// The annotation text this type maps to.
    spec fn spec_lua_type() -> Seq<char>;

    /// Returns the annotation text this type maps to.
    fn lua_type() -> (r: String)
        ensures
            r@ == Self::spec_lua_type(),
    ;
}

/// A type that can produce the full documentation block describing itself as
/// a class or alias of the scripting language.
pub trait ClassAnnotation {
    /// The documentation block this type produces.
    spec fn spec_class_annotation() -> Seq<char>;

    /// Returns the documentation block describing this type.
    fn class_annotation() -> (r: String)
        ensures
            r@ == Self::spec_class_annotation(),
    ;
}

impl TypeAnnotation for u8 {
    open spec fn spec_lua_type() -> Seq<char> {
        "integer"@
    }

    fn lua_type() -> (r: String) {
        String::from_str("integer")
    }
}

impl TypeAnnotation for u16 {
    open spec fn spec_lua_type() -> Seq<char> {
        "integer"@
    }

    fn lua_type() -> (r: String) {
        String::from_str("integer")
    }
}

impl TypeAnnotation for u32 {
    open spec fn spec_lua_type() -> Seq<char> {
        "integer"@
    }

    fn lua_type() -> (r: String) {
        String::from_str("integer")
    }
}

impl TypeAnnotation for i8 {
    open spec fn spec_lua_type() -> Seq<char> {
        "integer"@
    }

    fn lua_type() -> (r: String) {
        String::from_str("integer")
    }
}

impl TypeAnnotation for i16 {
    open spec fn spec_lua_type() -> Seq<char> {
        "integer"@
    }

    fn lua_type() -> (r: String) {
        String::from_str("integer")
    }
}

impl TypeAnnotation for i32 {
    open spec fn spec_lua_type() -> Seq<char> {
        "integer"@
    }

    fn lua_type() -> (r: String) {
        String::from_str("integer")
    }
}

impl TypeAnnotation for i64 {
    open spec fn spec_lua_type() -> Seq<char> {
        "integer"@
    }

    fn lua_type() -> (r: String) {
        String::from_str("integer")
    }
}

impl TypeAnnotation for bool {
    open spec fn spec_lua_type() -> Seq<char> {
        "boolean"@
    }

    fn lua_type() -> (r: String) {
        String::from_str("boolean")
    }
}

impl TypeAnnotation for String {
    open spec fn spec_lua_type() -> Seq<char> {
        "string"@
    }

    fn lua_type() -> (r: String) {
        String::from_str("string")
    }
}

impl<T: TypeAnnotation> TypeAnnotation for Box<T> {
    open spec fn spec_lua_type() -> Seq<char> {
        T::spec_lua_type()
    }

    fn lua_type() -> (r: String) {
        T::lua_type()
    }
}

impl<T: TypeAnnotation> TypeAnnotation for Rc<T> {
    open spec fn spec_lua_type() -> Seq<char> {
        T::spec_lua_type()
    }

    fn lua_type() -> (r: String) {
        T::lua_type()
    }
}

impl<T: TypeAnnotation> TypeAnnotation for Arc<T> {
    open spec fn spec_lua_type() -> Seq<char> {
        T::spec_lua_type()
    }

    fn lua_type() -> (r: String) {
        T::lua_type()
    }
}

impl<T: TypeAnnotation> TypeAnnotation for Option<T> {
    open spec fn spec_lua_type() -> Seq<char> {
        T::spec_lua_type() + "?"@
    }

    fn lua_type() -> (r: String) {
        T::lua_type().concat("?")
    }
}

impl<T: TypeAnnotation> TypeAnnotation for Vec<T> {
    open spec fn spec_lua_type() -> Seq<char> {
        T::spec_lua_type() + "[]"@
    }

    fn lua_type() -> (r: String) {
        T::lua_type().concat("[]")
    }
}

impl<T: TypeAnnotation, const N: usize> TypeAnnotation for [T; N] {
    open spec fn spec_lua_type() -> Seq<char> {
        T::spec_lua_type() + "[]"@
    }

    fn lua_type() -> (r: String) {
        T::lua_type().concat("[]")
    }
}

impl<K: TypeAnnotation, V: TypeAnnotation> TypeAnnotation for HashMap<K, V> {
    open spec fn spec_lua_type() -> Seq<char> {
        "table<"@ + K::spec_lua_type() + ", "@ + V::spec_lua_type() + ">"@
    }

    fn lua_type() -> (r: String) {
        let mut out = String::from_str("table<");
        out.append(K::lua_type().as_str());
        out.append(", ");
        out.append(V::lua_type().as_str());
        out.append(">");
        out
    }
}

impl<K: TypeAnnotation, V: TypeAnnotation> TypeAnnotation for BTreeMap<K, V> {
    open spec fn spec_lua_type() -> Seq<char> {
        "table<"@ + K::spec_lua_type() + ", "@ + V::spec_lua_type() + ">"@
    }

    fn lua_type() -> (r: String) {
        let mut out = String::from_str("table<");
        out.append(K::lua_type().as_str());
        out.append(", ");
        out.append(V::lua_type().as_str());
        out.append(">");
        out
    }
}

impl<T: TypeAnnotation> TypeAnnotation for HashSet<T> {
    open spec fn spec_lua_type() -> Seq<char> {
        "table<"@ + T::spec_lua_type() + ", bool>"@
    }

    fn lua_type() -> (r: String) {
        let mut out = String::from_str("table<");
        out.append(T::lua_type().as_str());
        out.append(", bool>");
        out
    }
}

impl<T: TypeAnnotation> TypeAnnotation for BTreeSet<T> {
    open spec fn spec_lua_type() -> Seq<char> {
        "table<"@ + T::spec_lua_type() + ", bool>"@
    }

    fn lua_type() -> (r: String) {
        let mut out = String::from_str("table<");
        out.append(T::lua_type().as_str());
        out.append(", bool>");
        out
    }
}

} // verus!
