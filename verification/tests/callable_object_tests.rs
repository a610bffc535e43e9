use lib::async_ops::RuntimeNames;
use lib::emitter::FunctionEmitter;
use lib::instance_of::HostRegistry;
use lib::mir::{MirFunction, Operand, OperandKind, Place, FunctionOrigin};
use lib::types::{ClassKind, FunctionType, Piece, Template, Type, TypeFacts};

fn no_facts() -> TypeFacts {
    TypeFacts {
        erased_class: false,
        concrete_union: false,
        rust_text: None,
        default_text: None,
        hash_set_key_safe: false,
        smelt_record_key: false,
        js_key_map_key: false,
        reference_class: false,
        interface_record: false,
        class_kind: ClassKind::Plain,
        type_param_in_scope: false,
        erased_unknown_rest_function: false,
        no_known_fields: false,
        contains_function: false,
        contains_unknown: false,
        smelt_args_text: None,
        class_object: None,
        call_field_ty: None,
        match_fn_result: false,
        match_fn_result_class: false,
        match_value_ty: None,
        key_to_string: None,
        object_record: None,
        callback_params: None,
        shared_ref_params: vec![],
        union_erase: None,
        borrowed_handle: None,
        class_checks: vec![],
        thrown_payload: None,
        callback_param_by_ref: false,
        callback_arg_forms: vec![],
        tag_checks: vec![],
        record_fields: vec![],
    }
}

const UNK: usize = 0;
const INT: usize = 1;
const STR: usize = 2;
const STEP_FN: usize = 3;
const COUNTER: usize = 4;
const OPT_STR: usize = 5;
const NUL: usize = 6;
const PLAIN: usize = 7;
const RUN_FN: usize = 8;

fn hole() -> Template {
    Template { pieces: vec![Piece::Hole] }
}

fn shape(params: Vec<usize>, return_ty: usize, may_throw: bool) -> Type {
    Type::Function(FunctionType { params, return_ty, may_throw, rest: None, required_params: None, mutable_params: vec![] })
}

fn object_emitter() -> FunctionEmitter {
    let types = vec![
        Type::Unknown,
        Type::Int,
        Type::Str,
        shape(vec![INT], INT, false),
        Type::Class { name: 0, args: vec![] },
        Type::Optional(STR),
        Type::Nullish,
        Type::Class { name: 4, args: vec![] },
        shape(vec![INT, STR], UNK, true),
    ];
    let mut facts: Vec<TypeFacts> = types.iter().map(|_| no_facts()).collect();
    facts[COUNTER].interface_record = true;
    facts[COUNTER].record_fields = vec![(1, STEP_FN), (2, INT), (3, OPT_STR)];
    facts[OPT_STR].default_text = Some("None".to_string());
    facts[PLAIN].interface_record = true;
    facts[PLAIN].record_fields = vec![(5, RUN_FN)];
    FunctionEmitter {
        types,
        facts,
        symbols: vec!["Counter".to_string(), "__smelt_call".to_string(), "step".to_string(), "label".to_string(), "Plain".to_string(), "run".to_string()],
        symbol_idents: vec!["Counter".to_string(), "__smelt_call".to_string(), "step".to_string(), "label".to_string(), "Plain".to_string(), "run".to_string()],
        none_ty: NUL,
        list_read: hole(),
        adapters: vec![],
        optional_coercions: vec![],
        map_backing_pairs: vec![],
        borrowed_captures: vec![],
        declared_locals: vec![],
        mutable_locals: vec![],
        function: MirFunction { id: 0, params: vec![], locals: vec![], blocks: vec![], is_async: false, is_generator: false, can_throw: false, return_ty: 0, origin: FunctionOrigin::Body, rust_name: String::new(), call_suffix: String::new() },
        functions: vec![],
        closures: vec![],
        classes: vec![],
        regexp_literal: hole(),
        byte_buffer_elements: "bytes".to_string(),
        arguments_elements: "args".to_string(),
        propagates_errors: false,
        trunc_f64: Template { pieces: vec![Piece::Lit("(".to_string()), Piece::Hole, Piece::Lit(").trunc()".to_string())] },
        float_equalities: vec![],
        host: HostRegistry { objects: vec![], overrides: vec![], error_classes: vec![] },
        runtime: RuntimeNames {
            sleep_ms: "smelt_sleep_ms".to_string(),
            set_timeout: "smelt_set_timeout".to_string(),
            clear_timeout: "smelt_clear_timeout".to_string(),
            set_interval: "smelt_set_interval".to_string(),
            clear_interval: "smelt_clear_interval".to_string(),
            promise_race: "smelt_promise_race".to_string(),
            run_until_exit: "smelt_run_until_exit".to_string(),
            spawn_promise_task: "smelt_spawn_promise_task".to_string(),
            throw_fn: "smelt_throw".to_string(),
            json_parse: "smelt_json_parse".to_string(),
            decode_uri: "smelt_decode_uri".to_string(),
            decode_uri_component: "smelt_decode_uri_component".to_string(),
            undefined_thrown_payload: "smelt_throw(SmeltUnknown::Undefined)".to_string(),
            fetch_request: Template {
                pieces: vec![
                    Piece::Lit("smelt_fetch_request(".to_string()),
                    Piece::Hole,
                    Piece::Lit(")".to_string()),
                ],
            },
        },
    }
}

fn local(l: usize, ty: usize, name: &str) -> Operand {
    Operand::new(OperandKind::Copy(Place::Local(l)), ty, name, name)
}

#[test]
fn record_function_fields_are_called_through_a_clone() {
    let e = object_emitter();
    let p = local(1, PLAIN, "p");
    assert_eq!(
        e.call_virtual_function_field_text(&p, "run", &vec![local(2, INT, "a"), local(3, STR, "b")]).unwrap(),
        Some("(p.run.clone())(a, b)?".to_string())
    );
    assert_eq!(
        e.call_virtual_function_field_text(&p, "run", &vec![local(2, INT, "a"), local(3, STR, "b"), local(4, UNK, "c")]).unwrap(),
        Some("(p.run.clone())(a, b, c)?".to_string())
    );
    assert_eq!(e.call_virtual_function_field_text(&p, "missing", &vec![]).unwrap(), None);
    assert_eq!(e.call_virtual_function_field_text(&local(1, INT, "n"), "run", &vec![]).unwrap(), None);
}

#[test]
fn callable_interfaces_are_built_as_their_struct() {
    let e = object_emitter();
    let f = local(1, STEP_FN, "f");
    assert_eq!(
        e.callable_object_struct_text(&f, &vec![(2, local(2, INT, "n"))], COUNTER).unwrap(),
        Some("Counter { __smelt_call: f.clone(), step: n, label: None }".to_string())
    );
    assert_eq!(
        e.callable_object_struct_text(&f, &vec![(2, local(2, INT, "n")), (2, local(3, INT, "m"))], COUNTER).unwrap(),
        Some("Counter { __smelt_call: f.clone(), step: m, label: None }".to_string())
    );
    assert!(e.callable_object_struct_text(&f, &vec![], COUNTER).is_err());
    assert_eq!(e.callable_object_struct_text(&f, &vec![], PLAIN).unwrap(), None);
    assert_eq!(e.callable_object_struct_text(&f, &vec![], INT).unwrap(), None);
}

#[test]
fn object_assign_onto_a_callable_builds_its_destination() {
    let e = object_emitter();
    let f = local(1, UNK, "f");
    assert_eq!(
        e.callable_object_assign_text(&f, &vec![(2, local(2, INT, "n"))], &vec![local(3, UNK, "s")], UNK).unwrap(),
        "{ let mut smelt_object = Vec::new(); smelt_object.push((\"__smelt_call\".to_owned(), f)); smelt_object.push((\"step\".to_owned(), SmeltUnknown::Number(n as f64))); if let SmeltUnknown::Object(smelt_spread) = s { for (smelt_key, smelt_value) in smelt_spread.iter() { if smelt_key != \"__smelt_call\" { smelt_object.push((smelt_key, smelt_value)); } } } SmeltUnknown::Object(SmeltObject::new(smelt_object)) }"
    );
    let g = local(1, STEP_FN, "g");
    assert_eq!(
        e.callable_object_assign_text(&g, &vec![(2, local(2, INT, "n"))], &vec![], COUNTER).unwrap(),
        "Counter { __smelt_call: g.clone(), step: n, label: None }"
    );
    assert!(e.callable_object_assign_text(&g, &vec![(2, local(2, INT, "n"))], &vec![local(3, UNK, "s")], COUNTER).is_err());
    assert_eq!(e.callable_object_assign_text(&g, &vec![], &vec![], INT).unwrap(), "g");
}
