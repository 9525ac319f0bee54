//! The binding generator: synthesizes, from the same field declarations the
//! derivation engine consumes, the plan of accessor and method registrations
//! for an embedded interpreter. The plan names what to register and which
//! return-value conversion each read accessor performs; carrying the
//! registrations out is the interpreter's runtime concern, not this
//! library's.

use vstd::prelude::*;
use vstd::string::StringExecFns;

use crate::descriptor::FieldConfig;
use crate::descriptor::StructConfig;
use crate::descriptor::extract_field;

verus! {

/// The return-value conversion a registered read accessor performs, selected
/// by exact match on the field's override annotation — never by the field's
/// declared type.
#[derive(Debug, Clone, Copy, PartialEq, Eq)]
pub enum GetterConversion {
    /// The stored value is converted to a string.
    ConvertToString,
    /// An optional stored value is converted to an optional string; an
    /// absent value stays absent.
    ConvertOptionToString,
    /// A duplicate of the stored value is passed through unconverted.
    CloneValue,
}

/// One read accessor to register under a field's name.
#[derive(Debug, Clone, PartialEq, Eq)]
pub struct GetterBinding {
    /// The field whose value the accessor returns.
    pub field_name: String,
    /// The conversion applied to the returned value.
    pub conversion: GetterConversion,
}

/// The registrations to perform for one record type: read accessors with
/// their conversions, write accessors that assign the provided value
/// directly, and named external functions bound as methods, each in
/// declaration order.
#[derive(Debug, Clone, PartialEq, Eq)]
pub struct BindingPlan {
    /// The read accessors, one per non-excluded field flagged for read
    /// access, in declaration order.
    pub getters: Vec<GetterBinding>,
    /// The field names to register write accessors under, one per
    /// non-excluded field flagged for write access, in declaration order.
    pub setters: Vec<String>,
    /// The method names to register, in the order supplied.
    pub methods: Vec<String>,
}

/// The view of an optional override annotation.
pub open spec fn spec_override_view(o: Option<String>) -> Option<Seq<char>> {
    match o {
        Some(s) => Some(s@),
        None => None,
    }
}

/// The conversion selected by an override annotation: the literal `string`
/// converts, the literal `string?` converts optionally, and any other
/// override — or none — passes a duplicate through unconverted.
pub open spec fn spec_conversion(override_annotation: Option<Seq<char>>) -> GetterConversion {
    match override_annotation {
        Some(o) => if o == "string"@ {
            GetterConversion::ConvertToString
        } else if o == "string?"@ {
            GetterConversion::ConvertOptionToString
        } else {
            GetterConversion::CloneValue
        },
        None => GetterConversion::CloneValue,
    }
}

/// The read accessor registered for one field.
pub open spec fn spec_getter(f: FieldConfig) -> GetterBinding {
    GetterBinding { field_name: f.name, conversion: spec_conversion(spec_override_view(f.as_lua)) }
}

/// The read accessors of a field sequence: one per non-excluded field
/// flagged for read access, in declaration order.
pub open spec fn spec_getters(fields: Seq<FieldConfig>) -> Seq<GetterBinding>
    decreases fields.len(),
{
    if fields.len() == 0 {
        Seq::empty()
    } else {
        let prefix = spec_getters(fields.drop_last());
        let f = fields.last();
        if !f.skip && f.expose_get {
            prefix.push(spec_getter(f))
        } else {
            prefix
        }
    }
}

/// The write accessors of a field sequence: the name of each non-excluded
/// field flagged for write access, in declaration order.
pub open spec fn spec_setters(fields: Seq<FieldConfig>) -> Seq<String>
    decreases fields.len(),
{
    if fields.len() == 0 {
        Seq::empty()
    } else {
        let prefix = spec_setters(fields.drop_last());
        let f = fields.last();
        if !f.skip && f.expose_set {
            prefix.push(f.name)
        } else {
            prefix
        }
    }
}

/// Synthesizes the registration plan for a record type: excluded fields are
/// invisible exactly as they are to the documentation block, each read
/// accessor's conversion follows only the override literal match rules, and
/// the supplied method names are bound in order.
pub fn binding_plan(cfg: &StructConfig) -> (p: BindingPlan)
    ensures
        p.getters@ == spec_getters(cfg.fields@),
        p.setters@ == spec_setters(cfg.fields@),
        p.methods@ == cfg.bound_methods@,
{
    let ghost all_fields = cfg.fields@;
    let mut getters: Vec<GetterBinding> = Vec::new();
    let mut setters: Vec<String> = Vec::new();
    let mut i: usize = 0;
    while i < cfg.fields.len()
        invariant
            0 <= i <= cfg.fields.len(),
            all_fields == cfg.fields@,
            getters@ == spec_getters(all_fields.take(i as int)),
            setters@ == spec_setters(all_fields.take(i as int)),
        decreases cfg.fields.len() - i,
    {
        proof {
            assert(all_fields.take(i + 1).drop_last() =~= all_fields.take(i as int));
            assert(all_fields.take(i + 1).last() == all_fields[i as int]);
        }
        let d = extract_field(&cfg.fields[i]);
        if !d.excluded {
            if d.exposes_get {
                let conversion = match &d.override_annotation {
                    Some(o) => {
                        if *o == String::from_str("string") {
                            GetterConversion::ConvertToString
                        } else if *o == String::from_str("string?") {
                            GetterConversion::ConvertOptionToString
                        } else {
                            GetterConversion::CloneValue
                        }
                    },
                    None => GetterConversion::CloneValue,
                };
                getters.push(GetterBinding { field_name: d.name.clone(), conversion });
            }
            if d.exposes_set {
                setters.push(d.name);
            }
        }
        i = i + 1;
    }
    proof {
        assert(all_fields.take(cfg.fields@.len() as int) =~= all_fields);
    }
    let mut methods: Vec<String> = Vec::new();
    let mut j: usize = 0;
    while j < cfg.bound_methods.len()
        invariant
            0 <= j <= cfg.bound_methods.len(),
            methods@ == cfg.bound_methods@.take(j as int),
        decreases cfg.bound_methods.len() - j,
    {
        methods.push(cfg.bound_methods[j].clone());
        proof {
            assert(methods@ =~= cfg.bound_methods@.take(j + 1));
        }
        j = j + 1;
    }
    proof {
        assert(cfg.bound_methods@.take(cfg.bound_methods@.len() as int) =~= cfg.bound_methods@);
    }
    BindingPlan { getters, setters, methods }
}

} // verus!
