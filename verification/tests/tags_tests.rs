use lib::async_ops::RuntimeNames;
use lib::emitter::FunctionEmitter;
use lib::instance_of::{HostObject, HostRegistry};
use lib::mir::{ClassInfo, MirFunction, Operand, OperandKind, Place, FunctionOrigin};
use lib::tags::{tag_check_raw, UnknownKind};
use lib::types::{ClassKind, Piece, Template, Type, TypeFacts};

fn no_facts() -> TypeFacts {
    TypeFacts {
        erased_class: false,
        concrete_union: false,
        rust_text: None,
        default_text: None,
        hash_set_key_safe: false,
        smelt_record_key: false,
        js_key_map_key: false,
        reference_class: false,
        interface_record: false,
        class_kind: ClassKind::Plain,
        type_param_in_scope: false,
        erased_unknown_rest_function: false,
        no_known_fields: false,
        contains_function: false,
        contains_unknown: false,
        smelt_args_text: None,
        class_object: None,
        call_field_ty: None,
        match_fn_result: false,
        match_fn_result_class: false,
        match_value_ty: None,
        key_to_string: None,
        object_record: None,
        callback_params: None,
        shared_ref_params: vec![],
        union_erase: None,
        borrowed_handle: None,
        class_checks: vec![],
        thrown_payload: None,
        callback_param_by_ref: false,
        callback_arg_forms: vec![],
        tag_checks: vec![],
        record_fields: vec![],
    }
}

const UNK: usize = 0;
const NUL: usize = 1;
const INT: usize = 2;
const STR: usize = 3;
const OPT_UNK: usize = 4;
const UNION: usize = 5;
const ERASED_UNION: usize = 6;

fn class(name: usize, base: Option<usize>) -> ClassInfo {
    ClassInfo {
        name,
        base,
        abstract_methods: vec![],
        rust_name: format!("C{name}"),
        type_params: vec![],
        field_names: vec![],
    }
}

fn host(class_name: &str, marker: &str) -> HostObject {
    HostObject {
        class_name: class_name.to_string(),
        to_string_tag: class_name.to_string(),
        marker: marker.to_string(),
    }
}

fn tag_emitter() -> FunctionEmitter {
    let types = vec![
        Type::Unknown,
        Type::Nullish,
        Type::Int,
        Type::Str,
        Type::Optional(UNK),
        Type::Union(vec![INT, STR]),
        Type::Union(vec![INT, STR]),
    ];
    let mut facts: Vec<TypeFacts> = types.iter().map(|_| no_facts()).collect();
    facts[UNION].concrete_union = true;
    facts[UNION].rust_text = Some("SmeltUnion5".to_string());
    facts[UNION].tag_checks = vec![(
        UnknownKind::Number,
        Template {
            pieces: vec![
                Piece::Lit("matches!(".to_string()),
                Piece::Hole,
                Piece::Lit(", SmeltUnion5::M0(_))".to_string()),
            ],
        },
    )];
    FunctionEmitter {
        types,
        facts,
        symbols: vec![
            "MyFile".to_string(),
            "File".to_string(),
            "Blob".to_string(),
            "Thumb".to_string(),
            "Image".to_string(),
            "Plain".to_string(),
        ],
        symbol_idents: vec![
            "MyFile".to_string(),
            "File".to_string(),
            "Blob".to_string(),
            "Thumb".to_string(),
            "Image".to_string(),
            "Plain".to_string(),
        ],
        none_ty: NUL,
        list_read: Template { pieces: vec![Piece::Hole] },
        adapters: vec![],
        optional_coercions: vec![],
        map_backing_pairs: vec![],
        borrowed_captures: vec![],
        declared_locals: vec![],
        mutable_locals: vec![],
        function: MirFunction { id: 0, params: vec![], locals: vec![], blocks: vec![], is_async: false, is_generator: false, can_throw: false, return_ty: 0, origin: FunctionOrigin::Body, rust_name: String::new(), call_suffix: String::new() },
        functions: vec![],
        closures: vec![],
        classes: vec![class(0, Some(1)), class(3, Some(4)), class(4, Some(2)), class(5, None)],
        regexp_literal: Template { pieces: vec![Piece::Hole] },
        byte_buffer_elements: "bytes".to_string(),
        arguments_elements: "args".to_string(),
        propagates_errors: false,
        trunc_f64: Template { pieces: vec![Piece::Lit("(".to_string()), Piece::Hole, Piece::Lit(").trunc()".to_string())] },
        float_equalities: vec![],
        host: HostRegistry {
            objects: vec![host("Blob", "__smelt_blob"), host("File", "__smelt_file")],
            overrides: vec![],
            error_classes: vec![],
        },
        runtime: RuntimeNames {
            sleep_ms: "smelt_sleep_ms".to_string(),
            set_timeout: "smelt_set_timeout".to_string(),
            clear_timeout: "smelt_clear_timeout".to_string(),
            set_interval: "smelt_set_interval".to_string(),
            clear_interval: "smelt_clear_interval".to_string(),
            promise_race: "smelt_promise_race".to_string(),
            run_until_exit: "smelt_run_until_exit".to_string(),
            spawn_promise_task: "smelt_spawn_promise_task".to_string(),
            throw_fn: "smelt_throw".to_string(),
            json_parse: "smelt_json_parse".to_string(),
            decode_uri: "smelt_decode_uri".to_string(),
            decode_uri_component: "smelt_decode_uri_component".to_string(),
            undefined_thrown_payload: "smelt_throw(SmeltUnknown::Undefined)".to_string(),
            fetch_request: Template {
                pieces: vec![
                    Piece::Lit("smelt_fetch_request(".to_string()),
                    Piece::Hole,
                    Piece::Lit(")".to_string()),
                ],
            },
        },
    }
}

fn value(ty: usize) -> Operand {
    Operand::new(OperandKind::Copy(Place::Local(1)), ty, "v.clone()", "v")
}

#[test]
fn raw_tag_checks_match_the_erased_variant() {
    assert_eq!(
        tag_check_raw("x", UnknownKind::Number).unwrap(),
        "matches!(x, SmeltUnknown::Number(_))"
    );
    assert_eq!(
        tag_check_raw("x", UnknownKind::Str).unwrap(),
        "matches!(x, SmeltUnknown::String(_))"
    );
    assert_eq!(
        tag_check_raw("x", UnknownKind::Function).unwrap(),
        "matches!(x, SmeltUnknown::Function(_))"
    );
    assert_eq!(
        tag_check_raw("x", UnknownKind::Object).unwrap(),
        "matches!(x, SmeltUnknown::Object(_) | SmeltUnknown::Array(_) | SmeltUnknown::Null | SmeltUnknown::Promise(_))"
    );
    assert_eq!(
        tag_check_raw("x", UnknownKind::Promise).unwrap(),
        "matches!(x, SmeltUnknown::Promise(_))"
    );
}

#[test]
fn absent_value_is_nullish_and_nothing_else() {
    let e = tag_emitter();
    assert_eq!(e.tag_check(&value(NUL), UnknownKind::Undefined).unwrap(), "true");
    assert_eq!(e.tag_check(&value(NUL), UnknownKind::Null).unwrap(), "true");
    assert_eq!(e.tag_check(&value(NUL), UnknownKind::Number).unwrap(), "false");
}

#[test]
fn optional_checks_test_the_present_payload() {
    let e = tag_emitter();
    assert_eq!(e.tag_check(&value(OPT_UNK), UnknownKind::Null).unwrap(), "v.clone().is_none()");
    assert_eq!(
        e.tag_check(&value(OPT_UNK), UnknownKind::Str).unwrap(),
        "v.clone().as_ref().is_some_and(|smelt_value| matches!(smelt_value, SmeltUnknown::String(_)))"
    );
}

#[test]
fn concrete_union_uses_its_variant_test() {
    let e = tag_emitter();
    assert_eq!(
        e.tag_check(&value(UNION), UnknownKind::Number).unwrap(),
        "matches!(v.clone(), SmeltUnion5::M0(_))"
    );
    assert_eq!(
        e.tag_check(&value(UNK), UnknownKind::Boolean).unwrap(),
        "matches!(v.clone(), SmeltUnknown::Bool(_))"
    );
}

#[test]
fn typeof_names_each_union_member() {
    let e = tag_emitter();
    assert_eq!(
        e.typeof_value_text(&value(UNION)).unwrap(),
        "match v.clone() { SmeltUnion5::M0(_) => \"number\".to_owned(), SmeltUnion5::M1(_) => \"string\".to_owned() }"
    );
    assert!(e.typeof_value_text(&value(ERASED_UNION)).unwrap().starts_with(
        "match v.clone().clone() { SmeltUnknown::Undefined => \"undefined\".to_owned(),"
    ));
    assert!(e
        .typeof_value_text(&value(UNK))
        .unwrap()
        .ends_with("SmeltUnknown::Promise(_) => \"object\".to_owned() }"));
}

#[test]
fn host_base_markers_follow_the_base_chain() {
    let e = tag_emitter();
    assert_eq!(
        e.host_base_markers(0),
        vec!["__smelt_file".to_string(), "__smelt_blob".to_string()]
    );
    assert_eq!(e.host_base_markers(3), vec!["__smelt_blob".to_string()]);
    assert!(e.host_base_markers(5).is_empty());
    assert!(e.host_base_markers(1).is_empty());
}
