use lib::async_ops::RuntimeNames;
use lib::emitter::FunctionEmitter;
use lib::instance_of::{host_instance_markers, HostObject, HostOverride, HostRegistry};
use lib::mir::{ClassInfo, MirFunction, Operand, OperandKind, Place, FunctionOrigin};
use lib::types::{ClassKind, Piece, Template, Type, TypeFacts};

fn plain_facts() -> TypeFacts {
    TypeFacts {
        erased_class: false,
        concrete_union: false,
        rust_text: None,
        default_text: None,
        hash_set_key_safe: false,
        smelt_record_key: false,
        js_key_map_key: false,
        reference_class: false,
        interface_record: false,
        class_kind: ClassKind::Plain,
        type_param_in_scope: false,
        erased_unknown_rest_function: false,
        no_known_fields: false,
        contains_function: false,
        contains_unknown: false,
        smelt_args_text: None,
        class_object: None,
        call_field_ty: None,
        match_fn_result: false,
        match_fn_result_class: false,
        match_value_ty: None,
        key_to_string: None,
        object_record: None,
        callback_params: None,
        shared_ref_params: vec![],
        union_erase: None,
        borrowed_handle: None,
        class_checks: vec![],
        thrown_payload: None,
        callback_param_by_ref: false,
        callback_arg_forms: vec![],
        tag_checks: vec![],
        record_fields: vec![],
    }
}

const UNK: usize = 0;
const INT: usize = 1;
const STR: usize = 2;
const OPT_UNK: usize = 3;
const MAP: usize = 4;
const SET: usize = 5;
const DOG: usize = 6;
const ANIMAL: usize = 7;
const UNION: usize = 8;
const SIGNAL: usize = 9;

// Symbols.
const S_DOG: usize = 0;
const S_ANIMAL: usize = 1;
const S_ERROR: usize = 2;
const S_TYPE_ERROR: usize = 3;
const S_DATE: usize = 4;
const S_MAP: usize = 5;
const S_SET: usize = 6;
const S_PROMISE: usize = 7;
const S_ABORT_SIGNAL: usize = 8;
const S_UINT8: usize = 9;
const S_FILE: usize = 10;
const S_CAT: usize = 11;
const S_REGEXP: usize = 12;

fn instance_emitter() -> FunctionEmitter {
    let types = vec![
        Type::Unknown,
        Type::Int,
        Type::Str,
        Type::Optional(UNK),
        Type::JsMap(STR, INT),
        Type::SetOf(INT),
        Type::Class { name: S_DOG, args: vec![] },
        Type::Class { name: S_ANIMAL, args: vec![] },
        Type::Union(vec![INT, STR]),
        Type::Class { name: S_ABORT_SIGNAL, args: vec![] },
    ];
    let mut facts: Vec<TypeFacts> = types.iter().map(|_| plain_facts()).collect();
    facts[UNION].concrete_union = true;
    facts[UNION].class_checks = vec![(
        S_CAT,
        Template {
            pieces: vec![
                Piece::Lit("matches!(&".to_string()),
                Piece::Hole,
                Piece::Lit(", Union0::Cat(_))".to_string()),
            ],
        },
    )];
    facts[SIGNAL].erased_class = true;
    let symbols = [
        "Dog", "Animal", "Error", "TypeError", "Date", "Map", "Set", "Promise", "AbortSignal",
        "Uint8Array", "File", "Cat", "RegExp",
    ];
    FunctionEmitter {
        types,
        facts,
        symbols: symbols.iter().map(|s| s.to_string()).collect(),
        symbol_idents: symbols.iter().map(|s| s.to_string()).collect(),
        none_ty: UNK,
        list_read: Template { pieces: vec![Piece::Hole] },
        adapters: vec![],
        optional_coercions: vec![],
        map_backing_pairs: vec![],
        borrowed_captures: vec![],
        declared_locals: vec![],
        mutable_locals: vec![],
        function: MirFunction { id: 0, params: vec![], locals: vec![], blocks: vec![], is_async: false, is_generator: false, can_throw: false, return_ty: 0, origin: FunctionOrigin::Body, rust_name: String::new(), call_suffix: String::new() },
        functions: vec![],
        closures: vec![],
        classes: vec![
            ClassInfo {
                name: S_DOG,
                base: Some(S_ANIMAL),
                abstract_methods: vec![],
                rust_name: "Dog".to_string(),
                type_params: vec![],
                field_names: vec![],
            },
            ClassInfo {
                name: S_ANIMAL,
                base: None,
                abstract_methods: vec![],
                rust_name: "Animal".to_string(),
                type_params: vec![],
                field_names: vec![],
            },
        ],
        regexp_literal: Template { pieces: vec![Piece::Hole] },
        byte_buffer_elements: "bytes".to_string(),
        arguments_elements: "args".to_string(),
        propagates_errors: false,
        trunc_f64: Template { pieces: vec![Piece::Lit("(".to_string()), Piece::Hole, Piece::Lit(").trunc()".to_string())] },
        float_equalities: vec![],
        host: HostRegistry {
            objects: vec![
                HostObject {
                    class_name: "Uint8Array".to_string(),
                    to_string_tag: "Uint8Array".to_string(),
                    marker: "__smelt_uint8array".to_string(),
                },
                HostObject {
                    class_name: "Buffer".to_string(),
                    to_string_tag: "Uint8Array".to_string(),
                    marker: "__smelt_buffer".to_string(),
                },
                HostObject {
                    class_name: "File".to_string(),
                    to_string_tag: "File".to_string(),
                    marker: "__smelt_file".to_string(),
                },
            ],
            overrides: vec![HostOverride {
                class_name: "File".to_string(),
                slot: "SMELT_HOST_OVERRIDE_FILE".to_string(),
            }],
            error_classes: vec!["Error".to_string(), "TypeError".to_string()],
        },
        runtime: runtime_names(),
    }
}

fn value(ty: usize) -> Operand {
    Operand::new(OperandKind::Copy(Place::Local(1)), ty, "v", "v")
}

#[test]
fn error_instance_accepts_any_error_marker() {
    let e = instance_emitter();
    assert_eq!(
        e.instance_of_text(&value(UNK), S_ERROR).unwrap(),
        "matches!(v.clone(), SmeltUnknown::Object(value) if value.contains_key(\"__smelt_error\"))"
    );
}

#[test]
fn error_subclass_compares_the_recorded_name() {
    let e = instance_emitter();
    assert_eq!(
        e.instance_of_text(&value(UNK), S_TYPE_ERROR).unwrap(),
        "matches!(v.clone(), SmeltUnknown::Object(value) if matches!(value.get(\"__smelt_error\"), Some(SmeltUnknown::String(smelt_error_class)) if &*smelt_error_class == \"TypeError\"))"
    );
}

#[test]
fn optional_date_probes_inside_some() {
    let e = instance_emitter();
    assert_eq!(
        e.instance_of_text(&value(OPT_UNK), S_DATE).unwrap(),
        "matches!(v.clone(), Some(SmeltUnknown::Object(value)) if value.contains_key(\"__smelt_date\"))"
    );
}

#[test]
fn regexp_probe_on_erased_value() {
    let e = instance_emitter();
    assert_eq!(
        e.instance_of_text(&value(UNK), S_REGEXP).unwrap(),
        "matches!(v.clone(), SmeltUnknown::Object(value) if value.contains_key(\"__smelt_regexp\"))"
    );
}

#[test]
fn concrete_map_and_set_are_instances() {
    let e = instance_emitter();
    assert_eq!(e.instance_of_text(&value(MAP), S_MAP).unwrap(), "true");
    assert_eq!(e.instance_of_text(&value(SET), S_SET).unwrap(), "true");
    assert_eq!(e.instance_of_text(&value(SET), S_MAP).unwrap(), "false");
    assert_eq!(e.instance_of_text(&value(INT), S_SET).unwrap(), "false");
    assert_eq!(
        e.instance_of_text(&value(UNK), S_SET).unwrap(),
        "matches!(v.clone(), SmeltUnknown::Object(value) if value.contains_key(\"__smelt_set\"))"
    );
}

#[test]
fn promise_probe_matches_the_promise_variant() {
    let e = instance_emitter();
    assert_eq!(
        e.instance_of_text(&value(OPT_UNK), S_PROMISE).unwrap(),
        "matches!(v.clone(), Some(SmeltUnknown::Promise(_)))"
    );
    assert_eq!(
        e.instance_of_text(&value(UNK), S_PROMISE).unwrap(),
        "matches!(v.clone(), SmeltUnknown::Promise(_))"
    );
}

#[test]
fn abort_signal_marker_on_erased_class() {
    let e = instance_emitter();
    assert_eq!(
        e.instance_of_text(&value(SIGNAL), S_ABORT_SIGNAL).unwrap(),
        "matches!(v.clone(), SmeltUnknown::Object(value) if value.contains_key(\"__smelt_abortsignal\"))"
    );
}

#[test]
fn tagged_subclass_markers_satisfy_the_parent() {
    let e = instance_emitter();
    assert_eq!(
        e.instance_of_text(&value(UNK), S_UINT8).unwrap(),
        "matches!(v.clone(), SmeltUnknown::Object(value) if value.contains_key(\"__smelt_uint8array\") || value.contains_key(\"__smelt_buffer\"))"
    );
    let markers = host_instance_markers(&e.host, "Uint8Array").unwrap();
    assert_eq!(markers, vec!["__smelt_uint8array".to_string(), "__smelt_buffer".to_string()]);
    assert!(host_instance_markers(&e.host, "Stream").is_none());
}

#[test]
fn reassigned_host_constructor_reads_its_slot() {
    let e = instance_emitter();
    assert_eq!(
        e.instance_of_text(&value(OPT_UNK), S_FILE).unwrap(),
        "SMELT_HOST_OVERRIDE_FILE.with(|smelt_slot| smelt_host_override_instance_of(smelt_slot, &v.clone().unwrap_or(SmeltUnknown::Undefined), &[\"__smelt_file\"]))"
    );
    assert_eq!(e.host_override_instance_of_text(&value(INT), INT, "File").unwrap(), None);
}

#[test]
fn declared_class_chain_decides_static_classes() {
    let e = instance_emitter();
    assert_eq!(e.instance_of_text(&value(DOG), S_ANIMAL).unwrap(), "true");
    assert_eq!(e.instance_of_text(&value(DOG), S_DOG).unwrap(), "true");
    assert_eq!(e.instance_of_text(&value(ANIMAL), S_DOG).unwrap(), "false");
    assert_eq!(e.instance_of_text(&value(INT), S_DOG).unwrap(), "false");
}

#[test]
fn concrete_union_uses_its_variant_check() {
    let e = instance_emitter();
    assert_eq!(
        e.instance_of_text(&value(UNION), S_CAT).unwrap(),
        "matches!(&v, Union0::Cat(_))"
    );
    assert_eq!(e.concrete_union_class_check("v", UNION, S_DOG), None);
}

#[test]
fn unknown_class_symbol_is_an_error() {
    let e = instance_emitter();
    assert!(e.instance_of_text(&value(UNK), 99).is_err());
}

fn runtime_names() -> RuntimeNames {
    RuntimeNames {
        sleep_ms: "smelt_sleep_ms".to_string(),
        set_timeout: "smelt_set_timeout".to_string(),
        clear_timeout: "smelt_clear_timeout".to_string(),
        set_interval: "smelt_set_interval".to_string(),
        clear_interval: "smelt_clear_interval".to_string(),
        promise_race: "smelt_promise_race".to_string(),
        run_until_exit: "smelt_run_until_exit".to_string(),
        spawn_promise_task: "smelt_spawn_promise_task".to_string(),
        throw_fn: "smelt_throw".to_string(),
        json_parse: "smelt_json_parse".to_string(),
        decode_uri: "smelt_decode_uri".to_string(),
        decode_uri_component: "smelt_decode_uri_component".to_string(),
        undefined_thrown_payload: "smelt_throw(SmeltUnknown::Undefined)".to_string(),
        fetch_request: Template { pieces: vec![] },
    }
}
