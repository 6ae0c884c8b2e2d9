use field_accessors::model::Accessor;
use field_accessors::model::AccessorKind;
use field_accessors::model::AttrArg;
use field_accessors::model::Expansion;
use field_accessors::model::Field;
use field_accessors::model::FieldShape;
use field_accessors::model::PipelineError;
use field_accessors::model::Record;

fn field(name: &str, ty: &str) -> Field {
    Field { name: name.to_string(), ty: ty.to_string() }
}

fn point_record() -> Record {
    Record {
        name: "P".to_string(),
        fields: FieldShape::Named(vec![field("x", "i32"), field("y", "i32")]),
    }
}

fn tuple_record() -> Record {
    Record {
        name: "Q".to_string(),
        fields: FieldShape::Unnamed(vec!["i32".to_string(), "i32".to_string()]),
    }
}

fn names(args: &[&str]) -> Vec<AttrArg> {
    args.iter().map(|a| AttrArg::Name(a.to_string())).collect()
}

fn check_accessor(a: &Accessor, kind: AccessorKind, name: &str, field: &str, ty: Option<&str>) {
    assert_eq!(a.kind, kind);
    assert_eq!(a.name, name);
    assert_eq!(a.field, field);
    assert_eq!(a.ty.as_deref(), ty);
}

fn expect_ok(r: Result<Expansion, PipelineError>) -> Expansion {
    match r {
        Ok(e) => e,
        Err(_) => panic!("expected a successful expansion"),
    }
}

fn check_record_is_point(r: &Record) {
    assert_eq!(r.name, "P");
    match &r.fields {
        FieldShape::Named(fs) => {
            assert_eq!(fs.len(), 2);
            assert_eq!(fs[0].name, "x");
            assert_eq!(fs[0].ty, "i32");
            assert_eq!(fs[1].name, "y");
            assert_eq!(fs[1].ty, "i32");
        }
        _ => panic!("expected named fields"),
    }
}

#[test]
fn getter_single_field() {
    let e = expect_ok(field_accessors::pipeline::get(names(&["x"]), point_record()));
    check_record_is_point(&e.record);
    assert_eq!(e.blocks.len(), 1);
    assert_eq!(e.blocks[0].target, "P");
    assert_eq!(e.blocks[0].accessors.len(), 2);
    check_accessor(&e.blocks[0].accessors[0], AccessorKind::Ref, "x", "x", Some("i32"));
    check_accessor(&e.blocks[0].accessors[1], AccessorKind::MutRef, "x_mut", "x", Some("i32"));
}

#[test]
fn setter_two_fields() {
    let e = expect_ok(field_accessors::pipeline::set(names(&["x", "y"]), point_record()));
    check_record_is_point(&e.record);
    assert_eq!(e.blocks.len(), 2);
    assert_eq!(e.blocks[0].target, "P");
    assert_eq!(e.blocks[0].accessors.len(), 1);
    check_accessor(&e.blocks[0].accessors[0], AccessorKind::Setter, "set_x", "x", Some("i32"));
    assert_eq!(e.blocks[1].target, "P");
    assert_eq!(e.blocks[1].accessors.len(), 1);
    check_accessor(&e.blocks[1].accessors[0], AccessorKind::Setter, "set_y", "y", Some("i32"));
}

#[test]
fn getter_keeps_request_order() {
    let e = expect_ok(field_accessors::pipeline::get(names(&["y", "x"]), point_record()));
    assert_eq!(e.blocks.len(), 2);
    check_accessor(&e.blocks[0].accessors[0], AccessorKind::Ref, "y", "y", Some("i32"));
    check_accessor(&e.blocks[1].accessors[0], AccessorKind::Ref, "x", "x", Some("i32"));
}

#[test]
fn duplicate_request_emits_duplicate_blocks() {
    let e = expect_ok(field_accessors::pipeline::get(names(&["x", "x"]), point_record()));
    assert_eq!(e.blocks.len(), 2);
    check_accessor(&e.blocks[0].accessors[0], AccessorKind::Ref, "x", "x", Some("i32"));
    check_accessor(&e.blocks[1].accessors[0], AccessorKind::Ref, "x", "x", Some("i32"));
}

#[test]
fn empty_request_emits_record_only() {
    let e = expect_ok(field_accessors::pipeline::get(names(&[]), point_record()));
    check_record_is_point(&e.record);
    assert_eq!(e.blocks.len(), 0);
}

// An unknown field name is tolerated, not rejected: the routine is emitted
// with an absent type reference, and only the later compilation of the
// generated code can reject it, with a diagnostic far from its cause.
#[test]
fn unknown_field_gets_absent_type() {
    let e = expect_ok(field_accessors::pipeline::get(names(&["z"]), point_record()));
    assert_eq!(e.blocks.len(), 1);
    check_accessor(&e.blocks[0].accessors[0], AccessorKind::Ref, "z", "z", None);
    check_accessor(&e.blocks[0].accessors[1], AccessorKind::MutRef, "z_mut", "z", None);
}

// With a repeated field name, an insertion-order walk that overwrites
// earlier entries leaves the last one's type.
#[test]
fn repeated_field_name_takes_last_type() {
    let record = Record {
        name: "R".to_string(),
        fields: FieldShape::Named(vec![field("a", "i32"), field("a", "u64")]),
    };
    let e = expect_ok(field_accessors::pipeline::set(names(&["a"]), record));
    check_accessor(&e.blocks[0].accessors[0], AccessorKind::Setter, "set_a", "a", Some("u64"));
}

#[test]
fn tuple_record_is_rejected_by_getter() {
    let r = field_accessors::pipeline::get(names(&["x"]), tuple_record());
    assert_eq!(r.err(), Some(PipelineError::RecordShape));
}

#[test]
fn tuple_record_is_rejected_by_setter() {
    let r = field_accessors::pipeline::set(names(&[]), tuple_record());
    assert_eq!(r.err(), Some(PipelineError::RecordShape));
}

#[test]
fn unit_record_is_rejected() {
    let record = Record { name: "U".to_string(), fields: FieldShape::Unit };
    let r = field_accessors::pipeline::get(vec![], record);
    assert_eq!(r.err(), Some(PipelineError::RecordShape));
}

#[test]
fn literal_argument_is_rejected() {
    let args = vec![AttrArg::Name("x".to_string()), AttrArg::Literal("1".to_string())];
    let r = field_accessors::pipeline::get(args, point_record());
    assert_eq!(r.err(), Some(PipelineError::ArgumentShape));
}

#[test]
fn segmented_path_argument_is_rejected() {
    let args = vec![AttrArg::SegmentedPath(vec!["a".to_string(), "b".to_string()])];
    let r = field_accessors::pipeline::set(args, point_record());
    assert_eq!(r.err(), Some(PipelineError::ArgumentShape));
}

#[test]
fn nested_list_argument_is_rejected() {
    let r = field_accessors::pipeline::get(vec![AttrArg::NestedList], point_record());
    assert_eq!(r.err(), Some(PipelineError::ArgumentShape));
}

#[test]
fn name_value_argument_is_rejected() {
    let r = field_accessors::pipeline::set(vec![AttrArg::NameValue], point_record());
    assert_eq!(r.err(), Some(PipelineError::ArgumentShape));
}

// The argument list is parsed before the record's shape is checked, so a
// malformed argument wins over an unsupported shape.
#[test]
fn argument_error_wins_over_shape_error() {
    let r = field_accessors::pipeline::get(vec![AttrArg::NestedList], tuple_record());
    assert_eq!(r.err(), Some(PipelineError::ArgumentShape));
}
