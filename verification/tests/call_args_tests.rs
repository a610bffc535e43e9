use lib::async_ops::RuntimeNames;
use lib::emitter::FunctionEmitter;
use lib::instance_of::HostRegistry;
use lib::mir::{MirFunction, Operand, OperandKind, Place, FunctionOrigin};
use lib::types::{ClassKind, FunctionType, Piece, Template, Type, TypeFacts};

fn no_facts() -> TypeFacts {
    TypeFacts {
        erased_class: false,
        concrete_union: false,
        rust_text: None,
        default_text: None,
        hash_set_key_safe: false,
        smelt_record_key: false,
        js_key_map_key: false,
        reference_class: false,
        interface_record: false,
        class_kind: ClassKind::Plain,
        type_param_in_scope: false,
        erased_unknown_rest_function: false,
        no_known_fields: false,
        contains_function: false,
        contains_unknown: false,
        smelt_args_text: None,
        class_object: None,
        call_field_ty: None,
        match_fn_result: false,
        match_fn_result_class: false,
        match_value_ty: None,
        key_to_string: None,
        object_record: None,
        callback_params: None,
        shared_ref_params: vec![],
        union_erase: None,
        borrowed_handle: None,
        class_checks: vec![],
        thrown_payload: None,
        callback_param_by_ref: false,
        callback_arg_forms: vec![],
        tag_checks: vec![],
        record_fields: vec![],
    }
}

const UNK: usize = 0;
const INT: usize = 1;
const FLOAT: usize = 2;
const LIST_UNK: usize = 3;
const SPREAD_FN: usize = 4;
const REST_FN: usize = 5;
const SLOT_FN: usize = 6;
const CALLABLE: usize = 7;
const NUL: usize = 8;
const ERASED_FN: usize = 9;
const ERASED_CALLABLE: usize = 10;
const ADAPTED_FN: usize = 11;

fn shape(params: Vec<usize>, return_ty: usize, may_throw: bool, rest: Option<usize>, mutable_params: Vec<usize>) -> FunctionType {
    FunctionType { params, return_ty, may_throw, rest, required_params: None, mutable_params }
}

fn function(params: Vec<usize>, return_ty: usize, may_throw: bool, rest: Option<usize>, mutable_params: Vec<usize>) -> Type {
    Type::Function(shape(params, return_ty, may_throw, rest, mutable_params))
}

fn hole() -> Template {
    Template { pieces: vec![Piece::Hole] }
}

fn args_emitter(propagates_errors: bool) -> FunctionEmitter {
    let types = vec![
        Type::Unknown,
        Type::Int,
        Type::Float,
        Type::List(UNK),
        function(vec![INT, LIST_UNK], UNK, false, Some(1), vec![]),
        function(vec![LIST_UNK], UNK, false, Some(0), vec![]),
        function(vec![INT], INT, true, None, vec![]),
        Type::Class { name: 0, args: vec![] },
        Type::Nullish,
        function(vec![LIST_UNK], UNK, false, Some(0), vec![]),
        Type::Class { name: 1, args: vec![] },
        function(vec![INT, FLOAT, LIST_UNK], UNK, false, Some(2), vec![1]),
    ];
    let mut facts: Vec<TypeFacts> = types.iter().map(|_| no_facts()).collect();
    facts[SPREAD_FN].callback_arg_forms = vec![hole(), hole()];
    facts[CALLABLE].call_field_ty = Some(SLOT_FN);
    facts[ERASED_FN].erased_unknown_rest_function = true;
    facts[ERASED_CALLABLE].call_field_ty = Some(ERASED_FN);
    facts[ADAPTED_FN].shared_ref_params = vec![0];
    FunctionEmitter {
        types,
        facts,
        symbols: vec!["Callable".to_string(), "Erased".to_string()],
        symbol_idents: vec!["Callable".to_string(), "Erased".to_string()],
        none_ty: NUL,
        list_read: hole(),
        adapters: vec![],
        optional_coercions: vec![],
        map_backing_pairs: vec![],
        borrowed_captures: vec![],
        declared_locals: vec![],
        mutable_locals: vec![],
        function: MirFunction { id: 0, params: vec![], locals: vec![], blocks: vec![], is_async: false, is_generator: false, can_throw: false, return_ty: 0, origin: FunctionOrigin::Body, rust_name: String::new(), call_suffix: String::new() },
        functions: vec![],
        closures: vec![],
        classes: vec![],
        regexp_literal: hole(),
        byte_buffer_elements: "bytes".to_string(),
        arguments_elements: "args".to_string(),
        propagates_errors,
        trunc_f64: Template { pieces: vec![Piece::Lit("(".to_string()), Piece::Hole, Piece::Lit(").trunc()".to_string())] },
        float_equalities: vec![],
        host: HostRegistry { objects: vec![], overrides: vec![], error_classes: vec![] },
        runtime: RuntimeNames {
            sleep_ms: "smelt_sleep_ms".to_string(),
            set_timeout: "smelt_set_timeout".to_string(),
            clear_timeout: "smelt_clear_timeout".to_string(),
            set_interval: "smelt_set_interval".to_string(),
            clear_interval: "smelt_clear_interval".to_string(),
            promise_race: "smelt_promise_race".to_string(),
            run_until_exit: "smelt_run_until_exit".to_string(),
            spawn_promise_task: "smelt_spawn_promise_task".to_string(),
            throw_fn: "smelt_throw".to_string(),
            json_parse: "smelt_json_parse".to_string(),
            decode_uri: "smelt_decode_uri".to_string(),
            decode_uri_component: "smelt_decode_uri_component".to_string(),
            undefined_thrown_payload: "smelt_throw(SmeltUnknown::Undefined)".to_string(),
            fetch_request: Template {
                pieces: vec![
                    Piece::Lit("smelt_fetch_request(".to_string()),
                    Piece::Hole,
                    Piece::Lit(")".to_string()),
                ],
            },
        },
    }
}

fn local(l: usize, ty: usize, name: &str) -> Operand {
    Operand::new(OperandKind::Copy(Place::Local(l)), ty, name, name)
}

#[test]
fn adapter_arguments_erase_each_parameter_and_spread_the_rest() {
    let e = args_emitter(false);
    assert_eq!(
        e.unknown_function_call_args_text(ADAPTED_FN).unwrap(),
        "{ let mut smelt_call_args = Vec::new(); smelt_call_args.push(SmeltUnknown::Number(arg0.clone() as f64)); smelt_call_args.push(SmeltUnknown::Number(arg1.clone() as f64)); smelt_call_args.extend(arg2.clone().into_iter().map(|value| value)); smelt_call_args }"
    );
    assert!(e.unknown_function_call_args_text(INT).is_err());
}

#[test]
fn positional_arguments_pack_into_an_erased_rest_list() {
    let e = args_emitter(false);
    let rest_fn = shape(vec![LIST_UNK], UNK, false, Some(0), vec![]);
    let packed = e
        .rest_vector_call_args_text(&vec![local(1, INT, "a"), local(2, UNK, "b")], Some(&rest_fn))
        .unwrap();
    assert_eq!(packed, Some(vec!["SmeltList::from(vec![SmeltUnknown::Number(a as f64), b])".to_string()]));
    let already = e.rest_vector_call_args_text(&vec![local(1, LIST_UNK, "xs")], Some(&rest_fn)).unwrap();
    assert_eq!(already, None);
    assert_eq!(e.rest_vector_call_args_text(&vec![], Some(&rest_fn)).unwrap(), None);
    assert_eq!(e.rest_vector_call_args_text(&vec![local(1, INT, "a")], None).unwrap(), None);
}

#[test]
fn spread_fills_leading_positionals_then_the_rest() {
    let e = args_emitter(false);
    let spread_fn = shape(vec![INT, LIST_UNK], UNK, false, Some(1), vec![]);
    let text = e.spread_leading_positional_call_args_text(SPREAD_FN, &spread_fn).unwrap().unwrap();
    assert!(text.ends_with(", SmeltList::from(smelt_spread_args.iter().skip(1).cloned().collect::<Vec<_>>())"));
    assert!(text.starts_with("match smelt_spread_args.get(0).cloned().unwrap_or(SmeltUnknown::Undefined)"));
    let rest_fn = shape(vec![LIST_UNK], UNK, false, Some(0), vec![]);
    assert_eq!(e.spread_leading_positional_call_args_text(REST_FN, &rest_fn).unwrap(), None);
}

#[test]
fn callable_object_calls_go_through_the_slot() {
    let e = args_emitter(false);
    let direct = e.callable_object_slot_call_text(&local(1, CALLABLE, "obj"), &vec![local(2, INT, "n")], INT).unwrap();
    assert_eq!(direct, Some("(obj.__smelt_call.clone())(n).unwrap_or_else(|error| panic!(\"{}\", error))".to_string()));
    let propagating = args_emitter(true);
    let direct = propagating
        .callable_object_slot_call_text(&local(1, CALLABLE, "obj"), &vec![local(2, INT, "n")], INT)
        .unwrap();
    assert_eq!(direct, Some("(obj.__smelt_call.clone())(n)?".to_string()));
    let discarded = e.callable_object_slot_call_text(&local(1, CALLABLE, "obj"), &vec![local(2, INT, "n")], NUL).unwrap();
    assert_eq!(discarded, Some("{ (obj.__smelt_call.clone())(n).unwrap_or_else(|error| panic!(\"{}\", error)); () }".to_string()));
    let erased = e
        .callable_object_slot_call_text(&local(1, ERASED_CALLABLE, "obj"), &vec![local(2, INT, "n")], UNK)
        .unwrap();
    assert_eq!(erased, Some("obj.__smelt_call.clone().call(vec![SmeltUnknown::Number(n as f64)])".to_string()));
    assert_eq!(e.callable_object_slot_call_text(&local(1, INT, "n"), &vec![], INT).unwrap(), None);
}
