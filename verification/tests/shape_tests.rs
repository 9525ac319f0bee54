use alua::TypeAnnotation;
use alua::shape::TypeShape;

use std::collections::BTreeMap;
use std::collections::BTreeSet;
use std::collections::HashMap;
use std::collections::HashSet;
use std::rc::Rc;
use std::sync::Arc;

fn boxed(t: TypeShape) -> Box<TypeShape> {
    Box::new(t)
}

#[test]
fn primitive_shapes_map_to_fixed_literals() {
    assert_eq!(TypeShape::Integer.annotate().unwrap(), "integer");
    assert_eq!(TypeShape::Number.annotate().unwrap(), "number");
    assert_eq!(TypeShape::Boolean.annotate().unwrap(), "boolean");
    assert_eq!(TypeShape::Text.annotate().unwrap(), "string");
    assert_eq!(TypeShape::TextBuffer.annotate().unwrap(), "string");
}

#[test]
fn optional_appends_question_mark() {
    let t = TypeShape::Optional(boxed(TypeShape::Text));
    assert_eq!(t.annotate().unwrap(), "string?");
}

#[test]
fn list_appends_brackets() {
    let t = TypeShape::List(boxed(TypeShape::Integer));
    assert_eq!(t.annotate().unwrap(), "integer[]");
}

#[test]
fn map_fills_table_template() {
    let t = TypeShape::MapOf(boxed(TypeShape::Text), boxed(TypeShape::Integer));
    assert_eq!(t.annotate().unwrap(), "table<string, integer>");
}

#[test]
fn set_is_a_presence_map() {
    let t = TypeShape::SetOf(boxed(TypeShape::Text));
    assert_eq!(t.annotate().unwrap(), "table<string, bool>");
}

#[test]
fn shared_wrappers_pass_through() {
    let t = TypeShape::Shared(boxed(TypeShape::Integer));
    assert_eq!(t.annotate().unwrap(), "integer");
    let nested = TypeShape::Shared(boxed(TypeShape::Shared(boxed(TypeShape::Boolean))));
    assert_eq!(nested.annotate().unwrap(), "boolean");
}

#[test]
fn copy_on_write_collapses_over_strings_and_passes_otherwise() {
    assert_eq!(TypeShape::CowOf(boxed(TypeShape::Text)).annotate().unwrap(), "string");
    assert_eq!(TypeShape::CowOf(boxed(TypeShape::TextBuffer)).annotate().unwrap(), "string");
    assert_eq!(TypeShape::CowOf(boxed(TypeShape::Integer)).annotate().unwrap(), "integer");
}

#[test]
fn named_shape_uses_its_own_annotation() {
    let t = TypeShape::Named("Widget".to_string());
    assert_eq!(t.annotate().unwrap(), "Widget");
}

#[test]
fn nesting_composes_to_arbitrary_depth() {
    // An optional list of optional integers.
    let t = TypeShape::Optional(boxed(TypeShape::List(boxed(TypeShape::Optional(boxed(
        TypeShape::Integer,
    ))))));
    assert_eq!(t.annotate().unwrap(), "integer?[]?");

    let deep = TypeShape::MapOf(
        boxed(TypeShape::Text),
        boxed(TypeShape::List(boxed(TypeShape::SetOf(boxed(TypeShape::Integer))))),
    );
    assert_eq!(deep.annotate().unwrap(), "table<string, table<integer, bool>[]>");
}

#[test]
fn unsupported_shapes_yield_no_annotation() {
    assert!(TypeShape::Unsupported.annotate().is_none());
    assert!(TypeShape::Optional(boxed(TypeShape::Unsupported)).annotate().is_none());
    assert!(
        TypeShape::MapOf(boxed(TypeShape::Unsupported), boxed(TypeShape::Integer))
            .annotate()
            .is_none()
    );
    assert!(TypeShape::CowOf(boxed(TypeShape::Unsupported)).annotate().is_none());
}

#[test]
fn integer_types_annotate_as_integer() {
    assert_eq!(u8::lua_type(), "integer");
    assert_eq!(u16::lua_type(), "integer");
    assert_eq!(u32::lua_type(), "integer");
    assert_eq!(i8::lua_type(), "integer");
    assert_eq!(i16::lua_type(), "integer");
    assert_eq!(i32::lua_type(), "integer");
    assert_eq!(i64::lua_type(), "integer");
}

#[test]
fn string_and_boolean_types_annotate_directly() {
    assert_eq!(String::lua_type(), "string");
    assert_eq!(bool::lua_type(), "boolean");
}

#[test]
fn wrapper_types_compose_through_the_trait() {
    assert_eq!(<Option<u32>>::lua_type(), "integer?");
    assert_eq!(<Vec<bool>>::lua_type(), "boolean[]");
    assert_eq!(<[u8; 4]>::lua_type(), "integer[]");
    assert_eq!(<Box<u32>>::lua_type(), "integer");
    assert_eq!(<Rc<u32>>::lua_type(), "integer");
    assert_eq!(<Arc<u32>>::lua_type(), "integer");
    assert_eq!(<Option<Vec<Option<i64>>>>::lua_type(), "integer?[]?");
}

#[test]
fn map_and_set_types_fill_table_templates() {
    assert_eq!(<HashMap<String, u32>>::lua_type(), "table<string, integer>");
    assert_eq!(<BTreeMap<String, bool>>::lua_type(), "table<string, boolean>");
    assert_eq!(<HashSet<String>>::lua_type(), "table<string, bool>");
    assert_eq!(<BTreeSet<u8>>::lua_type(), "table<integer, bool>");
}
