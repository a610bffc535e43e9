use lib::async_ops::RuntimeNames;
use lib::emitter::FunctionEmitter;
use lib::instance_of::HostRegistry;
use lib::call_shapes::dynamic_callable_dispatch_text;
use lib::mir::{TypedCall, BuiltinFn, Callee, ClassInfo, Constant, MirFunction, Operand, OperandKind, Place, FunctionOrigin};
use lib::operand_uses::AbsentSpelling;
use lib::types::{ClassKind, Piece, Template, Type, TypeFacts};

fn no_facts() -> TypeFacts {
    TypeFacts {
        erased_class: false,
        concrete_union: false,
        rust_text: None,
        default_text: None,
        hash_set_key_safe: false,
        smelt_record_key: false,
        js_key_map_key: false,
        reference_class: false,
        interface_record: false,
        class_kind: ClassKind::Plain,
        type_param_in_scope: false,
        erased_unknown_rest_function: false,
        no_known_fields: false,
        contains_function: false,
        contains_unknown: false,
        smelt_args_text: None,
        class_object: None,
        call_field_ty: None,
        match_fn_result: false,
        match_fn_result_class: false,
        match_value_ty: None,
        key_to_string: None,
        object_record: None,
        callback_params: None,
        shared_ref_params: vec![],
        union_erase: None,
        borrowed_handle: None,
        class_checks: vec![],
        thrown_payload: None,
        callback_param_by_ref: false,
        callback_arg_forms: vec![],
        tag_checks: vec![],
        record_fields: vec![],
    }
}

const UNK: usize = 0;
const INT: usize = 1;
const STR: usize = 2;
const LIST: usize = 3;
const NUL: usize = 4;

fn hole() -> Template {
    Template { pieces: vec![Piece::Hole] }
}

fn func(id: usize, is_async: bool, is_generator: bool, origin: FunctionOrigin) -> MirFunction {
    MirFunction { id, params: vec![], locals: vec![], blocks: vec![], is_async, is_generator, can_throw: false, return_ty: 0, origin, rust_name: format!("f{}", id), call_suffix: String::new() }
}

fn call_emitter() -> FunctionEmitter {
    let types = vec![Type::Unknown, Type::Int, Type::Str, Type::List(INT), Type::Nullish];
    let facts: Vec<TypeFacts> = types.iter().map(|_| no_facts()).collect();
    let functions = vec![
        func(0, true, false, FunctionOrigin::Body),
        func(1, true, true, FunctionOrigin::Body),
        func(2, true, false, FunctionOrigin::ClassMethod { class: 0, method: 3 }),
        func(3, false, false, FunctionOrigin::Body),
        func(4, false, false, FunctionOrigin::ClassConstructor { class: 0 }),
        func(5, false, false, FunctionOrigin::ClassStaticMethod { class: 0, method: 3 }),
    ];
    FunctionEmitter {
        types,
        facts,
        symbols: vec!["Box".to_string(), "T".to_string(), "U".to_string(), "index".to_string(), "groups".to_string(), "year".to_string()],
        symbol_idents: vec!["Box".to_string(), "T".to_string(), "U".to_string(), "index".to_string(), "groups".to_string(), "year".to_string()],
        none_ty: NUL,
        list_read: hole(),
        adapters: vec![],
        optional_coercions: vec![],
        map_backing_pairs: vec![],
        borrowed_captures: vec![],
        declared_locals: vec![],
        mutable_locals: vec![],
        function: MirFunction { id: 0, params: vec![], locals: vec![], blocks: vec![], is_async: false, is_generator: false, can_throw: false, return_ty: 0, origin: FunctionOrigin::Body, rust_name: String::new(), call_suffix: String::new() },
        functions,
        closures: vec![],
        classes: vec![ClassInfo { name: 0, base: None, abstract_methods: vec![], rust_name: "Box".to_string(), type_params: vec![1, 2], field_names: vec![] }],
        regexp_literal: hole(),
        byte_buffer_elements: "bytes".to_string(),
        arguments_elements: "args".to_string(),
        propagates_errors: false,
        trunc_f64: Template { pieces: vec![Piece::Lit("(".to_string()), Piece::Hole, Piece::Lit(").trunc()".to_string())] },
        float_equalities: vec![],
        host: HostRegistry { objects: vec![], overrides: vec![], error_classes: vec![] },
        runtime: RuntimeNames {
            sleep_ms: "smelt_sleep_ms".to_string(),
            set_timeout: "smelt_set_timeout".to_string(),
            clear_timeout: "smelt_clear_timeout".to_string(),
            set_interval: "smelt_set_interval".to_string(),
            clear_interval: "smelt_clear_interval".to_string(),
            promise_race: "smelt_promise_race".to_string(),
            run_until_exit: "smelt_run_until_exit".to_string(),
            spawn_promise_task: "smelt_spawn_promise_task".to_string(),
            throw_fn: "smelt_throw".to_string(),
            json_parse: "smelt_json_parse".to_string(),
            decode_uri: "smelt_decode_uri".to_string(),
            decode_uri_component: "smelt_decode_uri_component".to_string(),
            undefined_thrown_payload: "smelt_throw(SmeltUnknown::Undefined)".to_string(),
            fetch_request: Template {
                pieces: vec![
                    Piece::Lit("smelt_fetch_request(".to_string()),
                    Piece::Hole,
                    Piece::Lit(")".to_string()),
                ],
            },
        },
    }
}

fn local(l: usize, ty: usize, name: &str) -> Operand {
    Operand::new(OperandKind::Copy(Place::Local(l)), ty, name, name)
}

#[test]
fn console_log_prints_every_argument_with_its_format() {
    let e = call_emitter();
    let log = Callee::Builtin(BuiltinFn::ConsoleLog { absent: AbsentSpelling::Undefined });
    assert_eq!(e.call_text(&log, &vec![]).unwrap(), "{ println!(); }");
    assert_eq!(
        e.call_text(&log, &vec![local(1, INT, "n"), local(2, LIST, "xs"), local(3, NUL, "nothing")]).unwrap(),
        "{ println!(\"{} {:?} {}\", n, xs, \"null\"); }"
    );
}

#[test]
fn stream_writes_print_their_first_argument() {
    let e = call_emitter();
    assert_eq!(
        e.call_text(&Callee::Builtin(BuiltinFn::ConsoleWrite), &vec![local(1, STR, "s")]).unwrap(),
        "{ print!(\"{}\", s); }"
    );
    assert_eq!(
        e.call_text(&Callee::Builtin(BuiltinFn::ConsoleErrorWrite), &vec![]).unwrap(),
        "{ eprint!(\"{}\", \"\"); }"
    );
}

#[test]
fn json_parse_takes_one_string() {
    let e = call_emitter();
    let parse = Callee::Builtin(BuiltinFn::JsonParse);
    assert_eq!(e.call_text(&parse, &vec![local(1, STR, "s")]).unwrap(), "smelt_json_parse(&s)?");
    assert!(e.call_text(&parse, &vec![local(1, INT, "n")]).is_err());
    assert!(e.call_text(&parse, &vec![]).is_err());
    assert!(e.call_text(&Callee::Builtin(BuiltinFn::UriDecode { component: false }), &vec![local(1, STR, "s")]).is_err());
}

#[test]
fn async_free_function_calls_become_runtime_futures() {
    let e = call_emitter();
    assert_eq!(
        e.wrap_native_async_call_text(&Callee::Static(0, vec![]), "f()".to_string()).unwrap(),
        "SmeltFuture::from_future(Box::pin(f()))"
    );
    assert_eq!(e.wrap_native_async_call_text(&Callee::Static(1, vec![]), "g()".to_string()).unwrap(), "g()");
    assert_eq!(e.wrap_native_async_call_text(&Callee::Static(2, vec![]), "m()".to_string()).unwrap(), "m()");
    assert_eq!(e.wrap_native_async_call_text(&Callee::Static(3, vec![]), "h()".to_string()).unwrap(), "h()");
    assert_eq!(e.wrap_native_async_call_text(&Callee::Indirect(local(1, UNK, "f"), untyped()), "f()".to_string()).unwrap(), "f()");
    assert!(e.wrap_native_async_call_text(&Callee::Static(9, vec![]), "x()".to_string()).is_err());
}

#[test]
fn class_members_see_their_class_type_parameters() {
    let e = call_emitter();
    assert_eq!(e.callee_class_type_param_names(&e.functions[2]), vec![1, 2]);
    assert_eq!(e.callee_class_type_param_names(&e.functions[4]), vec![1, 2]);
    assert_eq!(e.callee_class_type_param_names(&e.functions[5]), Vec::<usize>::new());
    assert_eq!(e.callee_class_type_param_names(&e.functions[3]), Vec::<usize>::new());
    let mut set = e.callee_class_type_params(&e.functions[2]);
    set.sort();
    assert_eq!(set, vec![1, 2]);
}

#[test]
fn match_fields_read_groups_and_metadata() {
    let e = call_emitter();
    assert_eq!(e.match_field_text("m", ClassKind::Match, 3).unwrap(), "m.index()");
    assert_eq!(e.match_field_text("m", ClassKind::Match, 4).unwrap(), "m.clone()");
    assert_eq!(e.match_field_text("m", ClassKind::Match, 5).unwrap(), "SmeltUnknown::Null");
    assert_eq!(e.match_field_text("m", ClassKind::MatchGroups, 5).unwrap(), "m.named_group_owned(\"year\")");
    assert!(e.match_field_text("m", ClassKind::Match, 99).is_err());
}

#[test]
fn call_sources_follow_the_callee() {
    let e = call_emitter();
    assert_eq!(e.call_source_ty(&Callee::Builtin(BuiltinFn::ConsoleLog { absent: AbsentSpelling::Null })).unwrap(), NUL);
    assert_eq!(e.call_source_ty(&Callee::Builtin(BuiltinFn::ConsoleWrite)).unwrap(), NUL);
    assert_eq!(e.call_source_ty(&Callee::Builtin(BuiltinFn::JsonParse)).unwrap(), UNK);
    assert_eq!(e.call_source_ty(&Callee::Builtin(BuiltinFn::UriDecode { component: true })).unwrap(), STR);
    assert_eq!(e.call_source_ty(&Callee::Static(0, vec![])).unwrap(), 0);
    assert!(e.call_source_ty(&Callee::Static(9, vec![])).is_err());
    assert_eq!(e.call_source_ty(&Callee::Indirect(local(1, UNK, "f"), untyped())).unwrap(), UNK);
    assert!(e.call_source_ty(&Callee::Indirect(local(1, INT, "n"), untyped())).is_err());
}

#[test]
fn erased_callees_dispatch_at_run_time() {
    assert_eq!(
        dynamic_callable_dispatch_text("f", "vec![a]"),
        "{ let smelt_function_value = f; let smelt_call_args: Vec<SmeltUnknown> = Into::into(vec![a]); let smelt_callable = match smelt_function_value { SmeltUnknown::Function(smelt_function) => Some(smelt_function), SmeltUnknown::Object(smelt_object) => match smelt_object.get(\"__smelt_call\") { Some(SmeltUnknown::Function(smelt_function)) => Some(smelt_function.clone()), _ => None }, _ => None }; if let Some(smelt_function) = smelt_callable { (smelt_function)(smelt_call_args).unwrap_or_else(|error| panic!(\"{}\", error)) } else { SmeltUnknown::Null } }"
    );
}

#[test]
fn demoted_mutable_references_are_erased_copies() {
    let e = call_emitter();
    assert_eq!(
        e.demoting_mutable_reference_text("xs", LIST).unwrap(),
        "xs.clone().into_iter().map(IntoSmeltUnknown::into_smelt_unknown).collect::<SmeltList<_>>()"
    );
    assert_eq!(e.demoting_mutable_reference_text("n", INT).unwrap(), "n.clone().into_smelt_unknown()");
}

#[test]
fn mutable_reference_arguments_borrow_or_coerce() {
    let e = call_emitter();
    assert_eq!(e.mutable_reference_argument_text(&local(1, INT, "n"), INT, true).unwrap(), "&mut n");
    assert_eq!(
        e.mutable_reference_argument_text(&local(1, LIST, "xs"), LIST, false).unwrap(),
        "&mut xs.clone().into_iter().map(IntoSmeltUnknown::into_smelt_unknown).collect::<SmeltList<_>>()"
    );
    assert_eq!(
        e.mutable_reference_argument_text(&local(1, INT, "n"), UNK, true).unwrap(),
        "&mut SmeltUnknown::Number(n as f64)"
    );
}

#[test]
fn calls_of_erased_function_values_dispatch_over_erased_arguments() {
    let e = call_emitter();
    let f = Callee::Indirect(local(1, UNK, "f"), untyped());
    assert_eq!(
        e.call_text(&f, &vec![local(2, INT, "n"), local(3, UNK, "u")]).unwrap(),
        dynamic_callable_dispatch_text("f", "vec![SmeltUnknown::Number(n as f64), u]")
    );
    assert_eq!(e.call_text(&f, &vec![]).unwrap(), dynamic_callable_dispatch_text("f", "vec![]"));
    assert!(e.call_text(&Callee::Indirect(local(1, INT, "n"), untyped()), &vec![]).is_err());
}

#[test]
fn uri_decoders_call_their_fallible_adapter_on_the_string_read() {
    let e = call_emitter();
    let string_read = || {
        let mut s = local(1, STR, "s");
        s.string_text = Some("s.clone()".to_string());
        s
    };
    assert_eq!(
        e.call_text(&Callee::Builtin(BuiltinFn::UriDecode { component: false }), &vec![string_read()]).unwrap(),
        "smelt_decode_uri(s.clone().as_str())?"
    );
    assert_eq!(
        e.call_text(&Callee::Builtin(BuiltinFn::UriDecode { component: true }), &vec![string_read()]).unwrap(),
        "smelt_decode_uri_component(s.clone().as_str())?"
    );
    assert!(e.call_text(&Callee::Builtin(BuiltinFn::UriDecode { component: true }), &vec![]).is_err());
}

#[test]
fn program_function_calls_follow_their_origin() {
    let mut e = call_emitter();
    e.functions[3].call_suffix = "?".to_string();
    let args = vec!["a".to_string(), "b".to_string()];
    assert_eq!(e.call_text(&Callee::Static(3, args.clone()), &vec![]).unwrap(), "f3(a, b)?");
    assert_eq!(e.call_text(&Callee::Static(4, args.clone()), &vec![]).unwrap(), "Box::new(a, b)");
    assert_eq!(e.call_text(&Callee::Static(5, vec![]), &vec![]).unwrap(), "Box::index()");
    assert!(e.call_text(&Callee::Static(99, vec![]), &vec![]).is_err());
}

#[test]
fn method_calls_read_their_receiver() {
    let mut e = call_emitter();
    e.facts[INT].default_text = Some("0".to_string());
    e.functions[2].return_ty = INT;
    let m = Callee::Static(2, vec!["x".to_string()]);
    assert_eq!(e.call_text(&m, &vec![local(1, STR, "s"), local(2, INT, "x")]).unwrap(), "s.index(x)");
    assert_eq!(e.call_text(&m, &vec![local(1, UNK, "u")]).unwrap(), "0");
    assert!(e.call_text(&m, &vec![]).is_err());
    let constant = Operand::new(OperandKind::Const(Constant::Null), STR, "()", "()");
    assert!(e.call_text(&m, &vec![constant]).is_err());
}

fn untyped() -> TypedCall {
    TypedCall { erased_abi: false, arg_texts: vec![] }
}

#[test]
fn typed_function_values_are_called_over_their_rendered_arguments() {
    let mut e = call_emitter();
    let f_ty = e.types.len();
    e.types.push(Type::Function(lib::types::FunctionType {
        params: vec![INT],
        return_ty: INT,
        may_throw: true,
        rest: None,
        required_params: None,
        mutable_params: vec![],
    }));
    e.facts.push(no_facts());
    let direct = Callee::Indirect(local(1, f_ty, "f"), TypedCall { erased_abi: false, arg_texts: vec!["x".to_string(), "0".to_string()] });
    assert_eq!(e.call_text(&direct, &vec![]).unwrap(), "(f)(x, 0)?");
    let erased = Callee::Indirect(local(1, f_ty, "f"), TypedCall { erased_abi: true, arg_texts: vec!["vec![x]".to_string()] });
    assert_eq!(e.call_text(&erased, &vec![]).unwrap(), "(f).call(vec![x])");
}
