use lib::async_ops::RuntimeNames;
use lib::emitter::FunctionEmitter;
use lib::instance_of::HostRegistry;
use lib::host_values::{AbortSignalOp, BlobOp};
use lib::mir::{MirFunction, Operand, OperandKind, Place, FunctionOrigin};
use lib::types::{ClassKind, Piece, Template, Type, TypeFacts};

fn no_facts() -> TypeFacts {
    TypeFacts {
        erased_class: false,
        concrete_union: false,
        rust_text: None,
        default_text: None,
        hash_set_key_safe: false,
        smelt_record_key: false,
        js_key_map_key: false,
        reference_class: false,
        interface_record: false,
        class_kind: ClassKind::Plain,
        type_param_in_scope: false,
        erased_unknown_rest_function: false,
        no_known_fields: false,
        contains_function: false,
        contains_unknown: false,
        smelt_args_text: None,
        class_object: None,
        call_field_ty: None,
        match_fn_result: false,
        match_fn_result_class: false,
        match_value_ty: None,
        key_to_string: None,
        object_record: None,
        callback_params: None,
        shared_ref_params: vec![],
        union_erase: None,
        borrowed_handle: None,
        class_checks: vec![],
        thrown_payload: None,
        callback_param_by_ref: false,
        callback_arg_forms: vec![],
        tag_checks: vec![],
        record_fields: vec![],
    }
}

const UNK: usize = 0;
const INT: usize = 1;
const FLOAT: usize = 2;
const STR: usize = 3;
const BLOB: usize = 4;
const NUL: usize = 5;

fn hole() -> Template {
    Template { pieces: vec![Piece::Hole] }
}

fn host_emitter() -> FunctionEmitter {
    let types = vec![Type::Unknown, Type::Int, Type::Float, Type::Str, Type::Class { name: 0, args: vec![] }, Type::Nullish];
    let mut facts: Vec<TypeFacts> = types.iter().map(|_| no_facts()).collect();
    facts[BLOB].class_kind = ClassKind::Blob;
    FunctionEmitter {
        types,
        facts,
        symbols: vec!["Blob".to_string()],
        symbol_idents: vec!["Blob".to_string()],
        none_ty: NUL,
        list_read: hole(),
        adapters: vec![],
        optional_coercions: vec![],
        map_backing_pairs: vec![],
        borrowed_captures: vec![],
        declared_locals: vec![],
        mutable_locals: vec![],
        function: MirFunction { id: 0, params: vec![], locals: vec![], blocks: vec![], is_async: false, is_generator: false, can_throw: false, return_ty: 0, origin: FunctionOrigin::Body, rust_name: String::new(), call_suffix: String::new() },
        functions: vec![],
        closures: vec![],
        classes: vec![],
        regexp_literal: hole(),
        byte_buffer_elements: "bytes".to_string(),
        arguments_elements: "args".to_string(),
        propagates_errors: false,
        trunc_f64: Template { pieces: vec![Piece::Lit("(".to_string()), Piece::Hole, Piece::Lit(").trunc()".to_string())] },
        float_equalities: vec![],
        host: HostRegistry { objects: vec![], overrides: vec![], error_classes: vec![] },
        runtime: RuntimeNames {
            sleep_ms: "smelt_sleep_ms".to_string(),
            set_timeout: "smelt_set_timeout".to_string(),
            clear_timeout: "smelt_clear_timeout".to_string(),
            set_interval: "smelt_set_interval".to_string(),
            clear_interval: "smelt_clear_interval".to_string(),
            promise_race: "smelt_promise_race".to_string(),
            run_until_exit: "smelt_run_until_exit".to_string(),
            spawn_promise_task: "smelt_spawn_promise_task".to_string(),
            throw_fn: "smelt_throw".to_string(),
            json_parse: "smelt_json_parse".to_string(),
            decode_uri: "smelt_decode_uri".to_string(),
            decode_uri_component: "smelt_decode_uri_component".to_string(),
            undefined_thrown_payload: "smelt_throw(SmeltUnknown::Undefined)".to_string(),
            fetch_request: Template {
                pieces: vec![
                    Piece::Lit("smelt_fetch_request(".to_string()),
                    Piece::Hole,
                    Piece::Lit(")".to_string()),
                ],
            },
        },
    }
}

fn local(l: usize, ty: usize, name: &str) -> Operand {
    Operand::new(OperandKind::Copy(Place::Local(l)), ty, name, name)
}

#[test]
fn blob_members_are_method_calls() {
    let e = host_emitter();
    let blob = local(1, BLOB, "b");
    assert_eq!(e.blob_op_text(BlobOp::Size, &blob, &vec![], FLOAT).unwrap(), "b.size()");
    assert_eq!(e.blob_op_text(BlobOp::Type, &blob, &vec![], STR).unwrap(), "b.blob_type()");
    assert_eq!(e.blob_op_text(BlobOp::Name, &blob, &vec![], STR).unwrap(), "b.file_name()");
    assert_eq!(e.blob_op_text(BlobOp::LastModified, &blob, &vec![], FLOAT).unwrap(), "b.last_modified()");
    assert_eq!(
        e.blob_op_text(BlobOp::Text, &blob, &vec![], UNK).unwrap(),
        "{ let smelt_blob = b.clone(); SmeltFuture::from_future(Box::pin(async move { Ok::<_, Box<dyn std::error::Error>>(smelt_blob.to_text()) })) }"
    );
    assert_eq!(
        e.blob_op_text(BlobOp::Bytes, &blob, &vec![], UNK).unwrap(),
        "{ let smelt_blob = b.clone(); SmeltFuture::from_future(Box::pin(async move { Ok::<_, Box<dyn std::error::Error>>(SmeltUint8Array::from_bytes(smelt_blob.to_bytes())) })) }"
    );
    assert_eq!(e.blob_op_text(BlobOp::Slice, &blob, &vec![], BLOB).unwrap(), "b.slice(None, None, None)");
    assert_eq!(
        e.blob_op_text(BlobOp::Slice, &blob, &vec![local(2, FLOAT, "s"), local(3, FLOAT, "t"), local(4, STR, "ct")], BLOB).unwrap(),
        "b.slice(Some(s), Some(t), Some(ct))"
    );
}

#[test]
fn blob_accessors_need_their_value_type() {
    let mut e = host_emitter();
    e.types[FLOAT] = Type::Bool;
    assert!(e.blob_op_text(BlobOp::Size, &local(1, BLOB, "b"), &vec![], UNK).is_err());
    assert!(e.blob_op_text(BlobOp::Slice, &local(1, BLOB, "b"), &vec![], UNK).is_err());
}

#[test]
fn blob_class_is_read_from_the_class_facts() {
    let e = host_emitter();
    assert_eq!(e.is_blob_class_type(BLOB).unwrap(), true);
    assert_eq!(e.is_blob_class_type(INT).unwrap(), false);
}

#[test]
fn abort_signal_constructors_build_the_signal_record() {
    let e = host_emitter();
    assert_eq!(
        e.abort_signal_op_text(AbortSignalOp::Abort, &vec![], UNK).unwrap(),
        "SmeltUnknown::Object(smelt_abort_signal_record(Some(smelt_abort_default_reason())))"
    );
    assert_eq!(
        e.abort_signal_op_text(AbortSignalOp::Abort, &vec![local(1, UNK, "why")], UNK).unwrap(),
        "SmeltUnknown::Object(smelt_abort_signal_record(Some(smelt_abort_reason_argument(&[why]))))"
    );
    assert!(e.abort_signal_op_text(AbortSignalOp::Timeout, &vec![], UNK).is_err());
    assert_eq!(
        e.abort_signal_op_text(AbortSignalOp::Timeout, &vec![local(1, FLOAT, "ms")], UNK).unwrap(),
        "{ let smelt_signal = smelt_abort_signal_record(None); let smelt_handle = smelt_signal.clone(); smelt_spawn_promise_task(Box::pin(async move { smelt_sleep_ms(ms as f64).await; smelt_abort_signal_fire(&smelt_handle, smelt_abort_timeout_reason()); })); SmeltUnknown::Object(smelt_signal) }"
    );
}
