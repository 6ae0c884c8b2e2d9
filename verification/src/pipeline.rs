//! The two accessor-generation pipelines.
//!
//! Both run the same three stages: parse the argument list into requested
//! field names, check the record's field shape and read its field-to-type
//! mapping, then emit one implementation block per requested name. They
//! differ only in which accessors each block holds.

use vstd::prelude::*;

use crate::model::accessor_matches;
use crate::model::arg_is_name;
use crate::model::arg_name;
use crate::model::args_are_names;
use crate::model::block_matches;
use crate::model::field_type_of;
use crate::model::opt_string_view;
use crate::model::pipeline_output_ok;
use crate::model::requested_names;
use crate::model::Accessor;
use crate::model::AccessorKind;
use crate::model::AttrArg;
use crate::model::Expansion;
use crate::model::Field;
use crate::model::FieldShape;
use crate::model::ImplBlock;
use crate::model::PipelineError;
use crate::model::PipelineKind;
use crate::model::Record;

verus! {

/// Argument parser: turns the attribute's argument list into the requested
/// field names, in order, duplicates kept. Any argument that is not a bare
/// identifier makes the whole list malformed.
fn parse_args(args: &Vec<AttrArg>) -> (r: Result<Vec<String>, PipelineError>)
    ensures
        match r {
            Ok(names) => {
                &&& args_are_names(args@)
                &&& names@.len() == args@.len()
                &&& forall|i: int|
                    0 <= i < args@.len() ==> (#[trigger] names@[i])@ == arg_name(args@[i])
            },
            Err(e) => {
                &&& !args_are_names(args@)
                &&& e == PipelineError::ArgumentShape
            },
        },
{
    let mut names: Vec<String> = Vec::new();
    let mut idx: usize = 0;
    while idx < args.len()
        invariant
            idx <= args.len(),
            names@.len() == idx,
            forall|i: int| 0 <= i < idx ==> arg_is_name(#[trigger] args@[i]),
            forall|i: int| 0 <= i < idx ==> (#[trigger] names@[i])@ == arg_name(args@[i]),
        decreases args.len() - idx,
    {
        match &args[idx] {
            AttrArg::Name(s) => names.push(s.clone()),
            _ => {
                return Err(PipelineError::ArgumentShape);
            },
        }
        idx += 1;
    }
    Ok(names)
}

/// Shape introspection, consulted once per requested name: the type of the
/// last field named `name`, as an insertion-order walk of the field list
/// that overwrites earlier entries would leave it; `None` when no field
/// carries that name.
fn lookup_type(fields: &Vec<Field>, name: &String) -> (r: Option<String>)
    ensures
        opt_string_view(r) == field_type_of(fields@, name@),
{
    let mut found: Option<String> = None;
    let mut idx: usize = 0;
    while idx < fields.len()
        invariant
            idx <= fields.len(),
            opt_string_view(found) == field_type_of(fields@.take(idx as int), name@),
        decreases fields.len() - idx,
    {
        if fields[idx].name == *name {
            found = Some(fields[idx].ty.clone());
        }
        proof {
            let t = fields@.take(idx + 1);
            assert(t.last() == fields@[idx as int]);
            assert(t.drop_last() =~= fields@.take(idx as int));
        }
        idx += 1;
    }
    proof {
        assert(fields@.take(fields@.len() as int) =~= fields@);
    }
    found
}

/// Identifier construction: the accessor for `field` is named `field`,
/// `field_mut` or `set_field`, by kind.
fn accessor_name(kind: AccessorKind, field: &String) -> (r: String)
    ensures
        r@ == crate::model::accessor_name_of(kind, field@),
{
    match kind {
        AccessorKind::Ref => field.clone(),
        AccessorKind::MutRef => field.clone().concat("_mut"),
        AccessorKind::Setter => String::from_str("set_").concat(field.as_str()),
    }
}

/// One generated routine for `field`, carrying the type the record's field
/// list maps it to — absent when no field is so named, in which case the
/// routine is still generated, with a missing type reference.
fn make_accessor(kind: AccessorKind, field: &String, fields: &Vec<Field>) -> (a: Accessor)
    ensures
        accessor_matches(a, kind, field@, fields@),
{
    Accessor {
        kind,
        name: accessor_name(kind, field),
        field: field.clone(),
        ty: lookup_type(fields, field),
    }
}

/// Accessor emitter, one block: two routines (read accessor, then
/// mutable-reference accessor) for the getter pipeline, one setter for the
/// setter pipeline.
fn emit_block(kind: PipelineKind, target: &String, fields: &Vec<Field>, field: &String) -> (b:
    ImplBlock)
    ensures
        block_matches(b, kind, target@, fields@, field@),
{
    let mut accessors: Vec<Accessor> = Vec::new();
    match kind {
        PipelineKind::Getter => {
            accessors.push(make_accessor(AccessorKind::Ref, field, fields));
            accessors.push(make_accessor(AccessorKind::MutRef, field, fields));
        },
        PipelineKind::Setter => {
            accessors.push(make_accessor(AccessorKind::Setter, field, fields));
        },
    }
    ImplBlock { target: target.clone(), accessors }
}

/// Accessor emitter: one block per requested name, in request order.
fn emit_blocks(kind: PipelineKind, target: &String, fields: &Vec<Field>, names: &Vec<String>) -> (r:
    Vec<ImplBlock>)
    ensures
        r@.len() == names@.len(),
        forall|i: int|
            0 <= i < names@.len() ==> block_matches(
                #[trigger] r@[i],
                kind,
                target@,
                fields@,
                names@[i]@,
            ),
{
    let mut blocks: Vec<ImplBlock> = Vec::new();
    let mut idx: usize = 0;
    while idx < names.len()
        invariant
            idx <= names.len(),
            blocks@.len() == idx,
            forall|i: int|
                0 <= i < idx ==> block_matches(
                    #[trigger] blocks@[i],
                    kind,
                    target@,
                    fields@,
                    names@[i]@,
                ),
        decreases names.len() - idx,
    {
        blocks.push(emit_block(kind, target, fields, &names[idx]));
        idx += 1;
    }
    blocks
}

/// One whole invocation, shared by both pipelines: parse the arguments,
/// check the record's shape, emit the blocks, and compose them after the
/// unchanged record. Either failure replaces all output with its
/// diagnostic, the argument check coming first.
fn run_pipeline(kind: PipelineKind, args: Vec<AttrArg>, record: Record) -> (r: Result<
    Expansion,
    PipelineError,
>)
    ensures
        pipeline_output_ok(r, kind, args@, record),
{
    let names = match parse_args(&args) {
        Ok(names) => names,
        Err(e) => {
            return Err(e);
        },
    };
    let blocks = match &record.fields {
        FieldShape::Named(fields) => emit_blocks(kind, &record.name, fields, &names),
        _ => {
            return Err(PipelineError::RecordShape);
        },
    };
    proof {
        assert forall|i: int| 0 <= i < args@.len() implies requested_names(args@)[i]
            == names@[i]@ by {
            assert(arg_is_name(args@[i]));
        }
    }
    Ok(Expansion { record, blocks })
}

/// The getter pipeline. On a well-formed argument list and a named-fields
/// record it returns the record unchanged together with, for each requested
/// field `f` in request order, one block holding a read accessor `f` and a
/// mutable-reference accessor `f_mut`; otherwise the matching diagnostic,
/// which replaces all output.
pub fn get(args: Vec<AttrArg>, record: Record) -> (r: Result<Expansion, PipelineError>)
    ensures
        pipeline_output_ok(r, PipelineKind::Getter, args@, record),
        !args_are_names(args@) ==> r == Err::<Expansion, PipelineError>(
            PipelineError::ArgumentShape,
        ),
        record.fields !is Named ==> r is Err,
        r matches Ok(e) ==> e.record == record,
{
    run_pipeline(PipelineKind::Getter, args, record)
}

/// The setter pipeline. As `get`, except each emitted block holds exactly
/// one routine, a setter `set_f` for the requested field `f`.
pub fn set(args: Vec<AttrArg>, record: Record) -> (r: Result<Expansion, PipelineError>)
    ensures
        pipeline_output_ok(r, PipelineKind::Setter, args@, record),
        !args_are_names(args@) ==> r == Err::<Expansion, PipelineError>(
            PipelineError::ArgumentShape,
        ),
        record.fields !is Named ==> r is Err,
        r matches Ok(e) ==> e.record == record,
{
    run_pipeline(PipelineKind::Setter, args, record)
}

} // verus!
