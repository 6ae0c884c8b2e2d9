//! Data model for attribute-driven accessor generation.
//!
//! An invocation receives the attribute's argument list and the annotated
//! record declaration, and yields either the record followed by generated
//! accessor blocks, or a single diagnostic that replaces all output.

use vstd::prelude::*;

verus! {

/// One argument of the attribute's parenthesized list. Only a bare
/// identifier names a field; every other shape is malformed.
pub enum AttrArg {
    /// A bare identifier, naming one field to expose.
    Name(String),
    /// A path of more than one segment.
    SegmentedPath(Vec<String>),
    /// A literal token.
    Literal(String),
    /// A nested list.
    NestedList,
    /// A `name = value` pair.
    NameValue,
}

/// One named field of a record: its name and the text of its type expression.
pub struct Field {
    pub name: String,
    pub ty: String,
}

/// The shape of a record's field list.
pub enum FieldShape {
    /// Named fields, each carrying a name and a type.
    Named(Vec<Field>),
    /// Positional (tuple-style) fields, each carrying only a type.
    Unnamed(Vec<String>),
    /// No field list at all.
    Unit,
}

/// The annotated record declaration: its name and its field list.
pub struct Record {
    pub name: String,
    pub fields: FieldShape,
}

/// The kind of one generated routine.
#[derive(Clone, Copy, PartialEq, Eq, Structural, Debug)]
pub enum AccessorKind {
    /// Returns an immutable reference to the field; named like the field.
    Ref,
    /// Returns a mutable reference to the field; named `<field>_mut`.
    MutRef,
    /// Assigns a by-value argument to the field; named `set_<field>`.
    Setter,
}

/// One generated routine, bound to the record and referencing one field.
/// `ty` is the field's type as found on the record, or `None` when the
/// requested name matches no field (the generated routine then carries a
/// missing type reference; the request is not rejected).
pub struct Accessor {
    pub kind: AccessorKind,
    pub name: String,
    pub field: String,
    pub ty: Option<String>,
}

/// One emitted implementation block, bound to the record named `target`.
pub struct ImplBlock {
    pub target: String,
    pub accessors: Vec<Accessor>,
}

/// A successful expansion: the original record unchanged, followed by one
/// implementation block per requested field, in request order.
pub struct Expansion {
    pub record: Record,
    pub blocks: Vec<ImplBlock>,
}

/// The two diagnostics an invocation can end in. Either replaces all
/// output, including the original declaration.
#[derive(Clone, Copy, PartialEq, Eq, Structural, Debug)]
pub enum PipelineError {
    /// The argument list is not a list of bare identifiers.
    ArgumentShape,
    /// The record's field list is not the named-fields shape.
    RecordShape,
}

/// Which of the two pipelines runs: both share the argument parser, the
/// shape check and the emitter; they differ only in the accessors of each
/// emitted block.
#[derive(Clone, Copy, PartialEq, Eq, Structural, Debug)]
pub enum PipelineKind {
    Getter,
    Setter,
}

/// Whether one argument is a bare identifier.
pub open spec fn arg_is_name(a: AttrArg) -> bool {
    match a {
        AttrArg::Name(_) => true,
        _ => false,
    }
}

/// Whether the whole argument list is well formed.
pub open spec fn args_are_names(args: Seq<AttrArg>) -> bool {
    forall|i: int| 0 <= i < args.len() ==> arg_is_name(#[trigger] args[i])
}

/// The field name an argument carries.
pub open spec fn arg_name(a: AttrArg) -> Seq<char> {
    match a {
        AttrArg::Name(s) => s@,
        _ => Seq::empty(),
    }
}

/// The requested field names, in argument order, duplicates kept.
pub open spec fn requested_names(args: Seq<AttrArg>) -> Seq<Seq<char>> {
    args.map_values(|a: AttrArg| arg_name(a))
}

/// The type mapped to `name` by the record's field list: that of the last
/// field so named, as an insertion-order walk that overwrites earlier
/// entries would leave it; `None` when no field is so named.
pub open spec fn field_type_of(fields: Seq<Field>, name: Seq<char>) -> Option<Seq<char>>
    decreases fields.len(),
{
    if fields.len() == 0 {
        None
    } else if fields.last().name@ == name {
        Some(fields.last().ty@)
    } else {
        field_type_of(fields.drop_last(), name)
    }
}

/// The view of an optional type expression.
pub open spec fn opt_string_view(o: Option<String>) -> Option<Seq<char>> {
    match o {
        Some(s) => Some(s@),
        None => None,
    }
}

/// The naming law: the routine for field `f` is named `f` (read accessor),
/// `f_mut` (mutable-reference accessor) or `set_f` (setter).
pub open spec fn accessor_name_of(kind: AccessorKind, field: Seq<char>) -> Seq<char> {
    match kind {
        AccessorKind::Ref => field,
        AccessorKind::MutRef => field + "_mut"@,
        AccessorKind::Setter => "set_"@ + field,
    }
}

/// Whether `a` is the routine of kind `kind` for `field`, named by the
/// naming law and carrying the type the record maps `field` to.
pub open spec fn accessor_matches(
    a: Accessor,
    kind: AccessorKind,
    field: Seq<char>,
    fields: Seq<Field>,
) -> bool {
    &&& a.kind == kind
    &&& a.name@ == accessor_name_of(kind, field)
    &&& a.field@ == field
    &&& opt_string_view(a.ty) == field_type_of(fields, field)
}

/// Whether `b` is the block the pipeline of kind `kind` emits for `field`:
/// bound to `target`, with exactly two routines (read accessor then
/// mutable-reference accessor) for the getter pipeline, exactly one setter
/// for the setter pipeline.
pub open spec fn block_matches(
    b: ImplBlock,
    kind: PipelineKind,
    target: Seq<char>,
    fields: Seq<Field>,
    field: Seq<char>,
) -> bool {
    &&& b.target@ == target
    &&& match kind {
        PipelineKind::Getter => {
            &&& b.accessors@.len() == 2
            &&& accessor_matches(b.accessors@[0], AccessorKind::Ref, field, fields)
            &&& accessor_matches(b.accessors@[1], AccessorKind::MutRef, field, fields)
        },
        PipelineKind::Setter => {
            &&& b.accessors@.len() == 1
            &&& accessor_matches(b.accessors@[0], AccessorKind::Setter, field, fields)
        },
    }
}

/// Whether `blocks` is exactly the emitted sequence for `names`: one block
/// per requested name, in request order.
pub open spec fn blocks_match(
    blocks: Seq<ImplBlock>,
    kind: PipelineKind,
    target: Seq<char>,
    fields: Seq<Field>,
    names: Seq<Seq<char>>,
) -> bool {
    &&& blocks.len() == names.len()
    &&& forall|i: int| 0 <= i < names.len() ==> block_matches(
        #[trigger] blocks[i],
        kind,
        target,
        fields,
        names[i],
    )
}

/// The named fields of a record whose shape is `Named`.
pub open spec fn named_fields(r: Record) -> Seq<Field>
    recommends
        r.fields is Named,
{
    match r.fields {
        FieldShape::Named(fs) => fs@,
        _ => Seq::empty(),
    }
}

/// The whole invocation contract, shared by both pipelines. A malformed
/// argument list is reported first; a record without named fields next;
/// otherwise the output is the record unchanged followed by the emitted
/// blocks for the requested names.
pub open spec fn pipeline_output_ok(
    r: Result<Expansion, PipelineError>,
    kind: PipelineKind,
    args: Seq<AttrArg>,
    record: Record,
) -> bool {
    if !args_are_names(args) {
        r == Err::<Expansion, PipelineError>(PipelineError::ArgumentShape)
    } else if !(record.fields is Named) {
        r == Err::<Expansion, PipelineError>(PipelineError::RecordShape)
    } else {
        match r {
            Ok(e) => {
                &&& e.record == record
                &&& blocks_match(
                    e.blocks@,
                    kind,
                    record.name@,
                    named_fields(record),
                    requested_names(args),
                )
            },
            Err(_) => false,
        }
    }
}

} // verus!
