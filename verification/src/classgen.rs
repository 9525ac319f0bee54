//! The class/alias derivation engine: assembles the ordered documentation
//! block for a record type (computed field lines, then manual entries) or the
//! alias line for an enumeration of unit-like variants.

use vstd::prelude::*;
use vstd::string::StringExecFns;

use crate::descriptor::EnumConfig;
use crate::descriptor::VariantConfig;
use crate::descriptor::FieldConfig;
use crate::descriptor::GenError;
use crate::descriptor::StructConfig;
use crate::descriptor::TypeConfig;
use crate::descriptor::extract_field;
use crate::descriptor::extract_variant;
use crate::descriptor::spec_doc_concat;
use crate::descriptor::spec_field_annotation;
use crate::descriptor::spec_variant_label;

verus! {

/// The header line that opens a record type's documentation block.
pub open spec fn spec_header(name: Seq<char>) -> Seq<char> {
    "--- @class "@ + name + "\n"@
}

/// The documentation tail of a field line: empty documentation adds nothing.
pub open spec fn spec_doc_suffix(doc: Seq<char>) -> Seq<char> {
    if doc.len() == 0 {
        Seq::empty()
    } else {
        " -"@ + doc
    }
}

/// One computed field line.
pub open spec fn spec_field_line(name: Seq<char>, ann: Seq<char>, doc: Seq<char>) -> Seq<char> {
    "--- @field "@ + name + " "@ + ann + spec_doc_suffix(doc) + "\n"@
}

/// A field's documentation text: its fragments concatenated in source order.
pub open spec fn spec_field_doc(f: FieldConfig) -> Seq<char> {
    spec_doc_concat(f.docs.deep_view())
}

/// The computed field lines of a record type, in declaration order with
/// excluded fields filtered out; the first field, in declaration order, whose
/// shape the protocol cannot classify and which supplies no override is a
/// generation error.
pub open spec fn spec_field_lines(owner: String, fields: Seq<FieldConfig>) -> Result<
    Seq<char>,
    GenError,
>
    decreases fields.len(),
{
    if fields.len() == 0 {
        Ok(Seq::empty())
    } else {
        match spec_field_lines(owner, fields.drop_last()) {
            Err(e) => Err(e),
            Ok(prefix) => {
                let f = fields.last();
                if f.skip {
                    Ok(prefix)
                } else {
                    match spec_field_annotation(f) {
                        Some(ann) => Ok(prefix + spec_field_line(f.name@, ann, spec_field_doc(f))),
                        None => Err(
                            GenError::UnsupportedFieldShape { owner, field_name: f.name },
                        ),
                    }
                }
            },
        }
    }
}

/// Manual entry lines: each entry verbatim between the given prefix and a
/// line terminator, in the order supplied, never deduplicated or sorted.
pub open spec fn spec_entry_lines(prefix: Seq<char>, entries: Seq<Seq<char>>) -> Seq<char>
    decreases entries.len(),
{
    if entries.len() == 0 {
        Seq::empty()
    } else {
        spec_entry_lines(prefix, entries.drop_last()) + prefix + entries.last() + "\n"@
    }
}

/// The full documentation block of a record type: the class header, the
/// computed field lines, then each manual field entry and each manual method
/// entry verbatim, in the order supplied.
pub open spec fn spec_struct_annotation(cfg: StructConfig) -> Result<Seq<char>, GenError> {
    match spec_field_lines(cfg.name, cfg.fields@) {
        Err(e) => Err(e),
        Ok(lines) => Ok(
            spec_header(cfg.name@) + lines + spec_entry_lines(
                "--- @field "@,
                cfg.manual_fields.deep_view(),
            ) + spec_entry_lines("--- @method "@, cfg.manual_methods.deep_view()),
        ),
    }
}

/// The first variant, in declaration order, that carries payload data, as a
/// generation error; `None` when every variant is unit-like.
pub open spec fn spec_payload_error(owner: String, variants: Seq<VariantConfig>) -> Option<GenError>
    decreases variants.len(),
{
    if variants.len() == 0 {
        None
    } else {
        match spec_payload_error(owner, variants.drop_last()) {
            Some(e) => Some(e),
            None => if variants.last().has_payload {
                Some(GenError::PayloadVariant { owner, variant_name: variants.last().name })
            } else {
                None
            },
        }
    }
}

/// The labels of the non-excluded variants, in declaration order.
pub open spec fn spec_included_labels(variants: Seq<VariantConfig>) -> Seq<Seq<char>>
    decreases variants.len(),
{
    if variants.len() == 0 {
        Seq::empty()
    } else {
        let prefix = spec_included_labels(variants.drop_last());
        if variants.last().skip {
            prefix
        } else {
            prefix.push(spec_variant_label(variants.last()))
        }
    }
}

/// A label in double quotes.
pub open spec fn spec_quoted(label: Seq<char>) -> Seq<char> {
    "\""@ + label + "\""@
}

/// The quoted labels joined by the alias separator token, first to last.
pub open spec fn spec_alias_list(labels: Seq<Seq<char>>) -> Seq<char>
    decreases labels.len(),
{
    if labels.len() == 0 {
        Seq::empty()
    } else if labels.len() == 1 {
        spec_quoted(labels.last())
    } else {
        spec_alias_list(labels.drop_last()) + " | "@ + spec_quoted(labels.last())
    }
}

/// The alias line of an enumeration: an error for a payload-carrying variant
/// or when no variant survives exclusion, else the alias header followed by
/// the quoted labels.
pub open spec fn spec_alias_annotation(cfg: EnumConfig) -> Result<Seq<char>, GenError> {
    match spec_payload_error(cfg.name, cfg.variants@) {
        Some(e) => Err(e),
        None => if spec_included_labels(cfg.variants@).len() == 0 {
            Err(GenError::EmptyAlias { owner: cfg.name })
        } else {
            Ok(
                "--- @alias "@ + cfg.name@ + " "@ + spec_alias_list(
                    spec_included_labels(cfg.variants@),
                ) + "\n"@,
            )
        },
    }
}

/// The documentation block of any type definition.
pub open spec fn spec_class_annotation(t: TypeConfig) -> Result<Seq<char>, GenError> {
    match t {
        TypeConfig::Record(cfg) => spec_struct_annotation(cfg),
        TypeConfig::Enumeration(cfg) => spec_alias_annotation(cfg),
    }
}

/// Once a prefix of the fields fails, the whole sequence fails with the same
/// error: the first offending field decides.
pub proof fn lemma_field_lines_prefix_error(
    owner: String,
    fields: Seq<FieldConfig>,
    j: int,
    e: GenError,
)
    requires
        0 <= j <= fields.len(),
        spec_field_lines(owner, fields.take(j)) == Err::<Seq<char>, GenError>(e),
    ensures
        spec_field_lines(owner, fields) == Err::<Seq<char>, GenError>(e),
    decreases fields.len(),
{
    if j == fields.len() {
        assert(fields.take(j) =~= fields);
    } else {
        assert(fields.drop_last().take(j) =~= fields.take(j));
        lemma_field_lines_prefix_error(owner, fields.drop_last(), j, e);
    }
}

/// Once a prefix of the variants holds a payload error, the whole sequence
/// holds the same error: the first offending variant decides.
pub proof fn lemma_payload_error_prefix(
    owner: String,
    variants: Seq<VariantConfig>,
    j: int,
    e: GenError,
)
    requires
        0 <= j <= variants.len(),
        spec_payload_error(owner, variants.take(j)) == Some(e),
    ensures
        spec_payload_error(owner, variants) == Some(e),
    decreases variants.len(),
{
    if j == variants.len() {
        assert(variants.take(j) =~= variants);
    } else {
        assert(variants.drop_last().take(j) =~= variants.take(j));
        lemma_payload_error_prefix(owner, variants.drop_last(), j, e);
    }
}

/// Appends one line per entry, each verbatim between the prefix and a line
/// terminator, in the order supplied.
fn append_entry_lines(out: &mut String, prefix: &str, entries: &Vec<String>)
    ensures
        final(out)@ == old(out)@ + spec_entry_lines(prefix@, entries.deep_view()),
{
    let ghost entry_views = entries.deep_view();
    let mut i: usize = 0;
    while i < entries.len()
        invariant
            0 <= i <= entries.len(),
            entry_views == entries.deep_view(),
            entry_views.len() == entries@.len(),
            out@ == old(out)@ + spec_entry_lines(prefix@, entry_views.take(i as int)),
        decreases entries.len() - i,
    {
        out.append(prefix);
        out.append(entries[i].as_str());
        out.append("\n");
        proof {
            assert(entry_views.take(i + 1).drop_last() =~= entry_views.take(i as int));
            assert(entry_views.take(i + 1).last() == entries@[i as int]@);
            assert(out@ =~= old(out)@ + spec_entry_lines(prefix@, entry_views.take(i + 1)));
        }
        i = i + 1;
    }
    proof {
        assert(entry_views.take(entries@.len() as int) =~= entry_views);
    }
}

/// Derives the documentation block for a record type: the class header, one
/// line per non-excluded field in declaration order, then the manual field
/// and method entries verbatim in the order supplied. Fails exactly on the
/// first field, in declaration order, whose shape the mapping protocol cannot
/// classify and which supplies no override annotation.
pub fn struct_annotation(cfg: &StructConfig) -> (r: Result<String, GenError>)
    ensures
        r matches Ok(s) ==> spec_struct_annotation(*cfg) == Ok::<Seq<char>, GenError>(s@),
        r matches Err(e) ==> spec_struct_annotation(*cfg) == Err::<Seq<char>, GenError>(e),
{
    let mut lines = String::new();
    let ghost all_fields = cfg.fields@;
    let mut i: usize = 0;
    while i < cfg.fields.len()
        invariant
            0 <= i <= cfg.fields.len(),
            all_fields == cfg.fields@,
            spec_field_lines(cfg.name, all_fields.take(i as int)) == Ok::<Seq<char>, GenError>(
                lines@,
            ),
        decreases cfg.fields.len() - i,
    {
        proof {
            assert(all_fields.take(i + 1).drop_last() =~= all_fields.take(i as int));
            assert(all_fields.take(i + 1).last() == all_fields[i as int]);
        }
        let d = extract_field(&cfg.fields[i]);
        if !d.excluded {
            let ann_opt = match d.override_annotation {
                Some(o) => Some(o),
                None => d.declared_type.annotate(),
            };
            match ann_opt {
                Some(ann) => {
                    let ghost prev = lines@;
                    lines.append("--- @field ");
                    lines.append(d.name.as_str());
                    lines.append(" ");
                    lines.append(ann.as_str());
                    if !d.doc_text.as_str().is_empty() {
                        lines.append(" -");
                        lines.append(d.doc_text.as_str());
                    }
                    lines.append("\n");
                    proof {
                        let f = all_fields[i as int];
                        assert(spec_field_annotation(f) == Some(ann@));
                        assert(lines@ =~= prev + spec_field_line(f.name@, ann@, spec_field_doc(f)));
                    }
                },
                None => {
                    let e = GenError::UnsupportedFieldShape {
                        owner: cfg.name.clone(),
                        field_name: d.name,
                    };
                    proof {
                        assert(spec_field_lines(cfg.name, all_fields.take(i + 1))
                            == Err::<Seq<char>, GenError>(e));
                        lemma_field_lines_prefix_error(cfg.name, all_fields, i + 1, e);
                    }
                    return Err(e);
                },
            }
        }
        i = i + 1;
    }
    proof {
        assert(all_fields.take(cfg.fields@.len() as int) =~= all_fields);
    }
    let mut out = String::from_str("--- @class ");
    out.append(cfg.name.as_str());
    out.append("\n");
    out.append(lines.as_str());
    append_entry_lines(&mut out, "--- @field ", &cfg.manual_fields);
    append_entry_lines(&mut out, "--- @method ", &cfg.manual_methods);
    proof {
        assert(out@ =~= spec_header(cfg.name@) + lines@ + spec_entry_lines(
            "--- @field "@,
            cfg.manual_fields.deep_view(),
        ) + spec_entry_lines("--- @method "@, cfg.manual_methods.deep_view()));
    }
    Ok(out)
}

/// Derives the alias line for an enumeration of unit-like variants: the
/// non-excluded labels in declaration order, quoted and joined by the
/// separator token. Fails on the first payload-carrying variant, and fails
/// when no variant survives exclusion rather than emitting an alias with no
/// members.
pub fn alias_annotation(cfg: &EnumConfig) -> (r: Result<String, GenError>)
    ensures
        r matches Ok(s) ==> spec_alias_annotation(*cfg) == Ok::<Seq<char>, GenError>(s@),
        r matches Err(e) ==> spec_alias_annotation(*cfg) == Err::<Seq<char>, GenError>(e),
{
    let ghost all_variants = cfg.variants@;
    let mut i: usize = 0;
    while i < cfg.variants.len()
        invariant
            0 <= i <= cfg.variants.len(),
            all_variants == cfg.variants@,
            spec_payload_error(cfg.name, all_variants.take(i as int)) is None,
        decreases cfg.variants.len() - i,
    {
        proof {
            assert(all_variants.take(i + 1).drop_last() =~= all_variants.take(i as int));
            assert(all_variants.take(i + 1).last() == all_variants[i as int]);
        }
        if cfg.variants[i].has_payload {
            let e = GenError::PayloadVariant {
                owner: cfg.name.clone(),
                variant_name: cfg.variants[i].name.clone(),
            };
            proof {
                assert(spec_payload_error(cfg.name, all_variants.take(i + 1)) == Some(e));
                lemma_payload_error_prefix(cfg.name, all_variants, i + 1, e);
            }
            return Err(e);
        }
        i = i + 1;
    }
    proof {
        assert(all_variants.take(cfg.variants@.len() as int) =~= all_variants);
    }
    let mut labels: Vec<String> = Vec::new();
    let mut i: usize = 0;
    while i < cfg.variants.len()
        invariant
            0 <= i <= cfg.variants.len(),
            all_variants == cfg.variants@,
            labels.deep_view() == spec_included_labels(all_variants.take(i as int)),
        decreases cfg.variants.len() - i,
    {
        proof {
            assert(all_variants.take(i + 1).drop_last() =~= all_variants.take(i as int));
            assert(all_variants.take(i + 1).last() == all_variants[i as int]);
        }
        let ghost prev_labels = labels.deep_view();
        let d = extract_variant(&cfg.variants[i]);
        if !d.excluded {
            let label = match d.override_label {
                Some(o) => o,
                None => d.name,
            };
            proof {
                assert(label@ == spec_variant_label(all_variants[i as int]));
            }
            labels.push(label);
            proof {
                assert(labels.deep_view() =~= prev_labels.push(labels@.last()@));
            }
        }
        i = i + 1;
    }
    proof {
        assert(all_variants.take(cfg.variants@.len() as int) =~= all_variants);
    }
    if labels.len() == 0 {
        let e = GenError::EmptyAlias { owner: cfg.name.clone() };
        return Err(e);
    }
    let mut out = String::from_str("--- @alias ");
    out.append(cfg.name.as_str());
    out.append(" ");
    let ghost head = "--- @alias "@ + cfg.name@ + " "@;
    proof {
        assert(out@ =~= head);
    }
    let ghost label_views = labels.deep_view();
    let mut j: usize = 0;
    while j < labels.len()
        invariant
            0 <= j <= labels.len(),
            label_views == labels.deep_view(),
            label_views.len() == labels@.len(),
            out@ == head + spec_alias_list(label_views.take(j as int)),
        decreases labels.len() - j,
    {
        proof {
            assert(label_views.take(j + 1).drop_last() =~= label_views.take(j as int));
            assert(label_views.take(j + 1).last() == labels@[j as int]@);
        }
        if j > 0 {
            out.append(" | ");
        }
        out.append("\"");
        out.append(labels[j].as_str());
        out.append("\"");
        proof {
            assert(out@ =~= head + spec_alias_list(label_views.take(j + 1)));
        }
        j = j + 1;
    }
    out.append("\n");
    proof {
        assert(label_views.take(labels@.len() as int) =~= label_views);
        assert(out@ =~= head + spec_alias_list(spec_included_labels(all_variants)) + "\n"@);
    }
    Ok(out)
}

/// Derives the documentation block for any type definition: the field block
/// of a record, or the alias line of an enumeration.
pub fn class_annotation(t: &TypeConfig) -> (r: Result<String, GenError>)
    ensures
        r matches Ok(s) ==> spec_class_annotation(*t) == Ok::<Seq<char>, GenError>(s@),
        r matches Err(e) ==> spec_class_annotation(*t) == Err::<Seq<char>, GenError>(e),
{
    match t {
        TypeConfig::Record(cfg) => struct_annotation(cfg),
        TypeConfig::Enumeration(cfg) => alias_annotation(cfg),
    }
}

} // verus!
