use alua::binding::BindingPlan;
use alua::binding::GetterBinding;
use alua::binding::GetterConversion;
use alua::binding::binding_plan;
use alua::descriptor::FieldConfig;
use alua::descriptor::StructConfig;
use alua::shape::TypeShape;

fn exposed_field(name: &str, shape: TypeShape, get: bool, set: bool) -> FieldConfig {
    FieldConfig {
        name: name.to_string(),
        declared_type: shape,
        docs: Vec::new(),
        skip: false,
        as_lua: None,
        expose_get: get,
        expose_set: set,
    }
}

fn plan_record(fields: Vec<FieldConfig>, bound_methods: Vec<String>) -> StructConfig {
    StructConfig {
        name: "Bound".to_string(),
        fields,
        manual_fields: Vec::new(),
        manual_methods: Vec::new(),
        bound_methods,
    }
}

#[test]
fn getters_and_setters_follow_the_exposure_flags() {
    let cfg = plan_record(
        vec![
            exposed_field("a", TypeShape::Integer, true, false),
            exposed_field("b", TypeShape::Text, false, true),
            exposed_field("c", TypeShape::Boolean, true, true),
            exposed_field("d", TypeShape::Integer, false, false),
        ],
        Vec::new(),
    );
    let plan = binding_plan(&cfg);
    assert_eq!(
        plan.getters,
        vec![
            GetterBinding { field_name: "a".to_string(), conversion: GetterConversion::CloneValue },
            GetterBinding { field_name: "c".to_string(), conversion: GetterConversion::CloneValue },
        ]
    );
    assert_eq!(plan.setters, vec!["b".to_string(), "c".to_string()]);
    assert!(plan.methods.is_empty());
}

#[test]
fn conversion_follows_only_the_override_literal() {
    let mut as_string = exposed_field("s", TypeShape::Integer, true, false);
    as_string.as_lua = Some("string".to_string());
    let mut as_optional = exposed_field("t", TypeShape::Boolean, true, false);
    as_optional.as_lua = Some("string?".to_string());
    let mut other = exposed_field("u", TypeShape::Text, true, false);
    other.as_lua = Some("integer".to_string());
    let plain = exposed_field("v", TypeShape::Text, true, false);
    let cfg = plan_record(vec![as_string, as_optional, other, plain], Vec::new());
    let plan = binding_plan(&cfg);
    let conversions: Vec<GetterConversion> =
        plan.getters.iter().map(|g| g.conversion).collect();
    assert_eq!(
        conversions,
        vec![
            GetterConversion::ConvertToString,
            GetterConversion::ConvertOptionToString,
            GetterConversion::CloneValue,
            GetterConversion::CloneValue,
        ]
    );
}

#[test]
fn an_excluded_field_registers_no_accessor() {
    let mut hidden = exposed_field("hidden", TypeShape::Integer, true, true);
    hidden.skip = true;
    let cfg = plan_record(
        vec![exposed_field("shown", TypeShape::Integer, true, true), hidden],
        Vec::new(),
    );
    let plan = binding_plan(&cfg);
    assert_eq!(plan.getters.len(), 1);
    assert_eq!(plan.getters[0].field_name, "shown");
    assert_eq!(plan.setters, vec!["shown".to_string()]);

    let without: StructConfig = plan_record(
        vec![exposed_field("shown", TypeShape::Integer, true, true)],
        Vec::new(),
    );
    assert_eq!(binding_plan(&cfg), binding_plan(&without));
}

#[test]
fn bound_methods_are_registered_in_order() {
    let cfg = plan_record(
        Vec::new(),
        vec!["greet".to_string(), "reset".to_string(), "greet".to_string()],
    );
    let plan: BindingPlan = binding_plan(&cfg);
    assert!(plan.getters.is_empty());
    assert!(plan.setters.is_empty());
    assert_eq!(
        plan.methods,
        vec!["greet".to_string(), "reset".to_string(), "greet".to_string()]
    );
}
