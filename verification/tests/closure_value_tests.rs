use lib::async_ops::RuntimeNames;
use lib::emitter::FunctionEmitter;
use lib::instance_of::HostRegistry;
use lib::mir::{BasicBlock, Statement, Capture, CaptureMode, LocalDecl, MirClosure, MirFunction, Operand, OperandKind, Place, FunctionOrigin, Rvalue};
use lib::types::FunctionType;
use lib::types::{ClassKind, Piece, Template, Type, TypeFacts};

fn no_facts() -> TypeFacts {
    TypeFacts {
        erased_class: false,
        concrete_union: false,
        rust_text: None,
        default_text: None,
        hash_set_key_safe: false,
        smelt_record_key: false,
        js_key_map_key: false,
        reference_class: false,
        interface_record: false,
        class_kind: ClassKind::Plain,
        type_param_in_scope: false,
        erased_unknown_rest_function: false,
        no_known_fields: false,
        contains_function: false,
        contains_unknown: false,
        smelt_args_text: None,
        class_object: None,
        call_field_ty: None,
        match_fn_result: false,
        match_fn_result_class: false,
        match_value_ty: None,
        key_to_string: None,
        object_record: None,
        callback_params: None,
        shared_ref_params: vec![],
        union_erase: None,
        borrowed_handle: None,
        class_checks: vec![],
        thrown_payload: None,
        callback_param_by_ref: false,
        callback_arg_forms: vec![],
        tag_checks: vec![],
        record_fields: vec![],
    }
}

const UNK: usize = 0;
const INT: usize = 1;
const FUT: usize = 2;
const NUL: usize = 3;

fn hole() -> Template {
    Template { pieces: vec![Piece::Hole] }
}

fn body_emitter(return_ty: usize, can_throw: bool) -> FunctionEmitter {
    let types = vec![Type::Unknown, Type::Int, Type::Future(INT), Type::Nullish];
    let mut facts: Vec<TypeFacts> = types.iter().map(|_| no_facts()).collect();
    facts[INT].rust_text = Some("i64".to_string());
    FunctionEmitter {
        types,
        facts,
        symbols: vec!["Blob".to_string()],
        symbol_idents: vec!["Blob".to_string()],
        none_ty: NUL,
        list_read: hole(),
        adapters: vec![],
        optional_coercions: vec![],
        map_backing_pairs: vec![],
        borrowed_captures: vec![],
        declared_locals: vec![],
        mutable_locals: vec![],
        function: MirFunction { id: 0, params: vec![], locals: vec![], blocks: vec![], is_async: false, is_generator: false, can_throw, return_ty, origin: FunctionOrigin::Body, rust_name: String::new(), call_suffix: String::new() },
        functions: vec![],
        closures: vec![],
        classes: vec![],
        regexp_literal: hole(),
        byte_buffer_elements: "bytes".to_string(),
        arguments_elements: "args".to_string(),
        propagates_errors: false,
        trunc_f64: Template { pieces: vec![Piece::Lit("(".to_string()), Piece::Hole, Piece::Lit(").trunc()".to_string())] },
        float_equalities: vec![],
        host: HostRegistry { objects: vec![], overrides: vec![], error_classes: vec![] },
        runtime: RuntimeNames {
            sleep_ms: "smelt_sleep_ms".to_string(),
            set_timeout: "smelt_set_timeout".to_string(),
            clear_timeout: "smelt_clear_timeout".to_string(),
            set_interval: "smelt_set_interval".to_string(),
            clear_interval: "smelt_clear_interval".to_string(),
            promise_race: "smelt_promise_race".to_string(),
            run_until_exit: "smelt_run_until_exit".to_string(),
            spawn_promise_task: "smelt_spawn_promise_task".to_string(),
            throw_fn: "smelt_throw".to_string(),
            json_parse: "smelt_json_parse".to_string(),
            decode_uri: "smelt_decode_uri".to_string(),
            decode_uri_component: "smelt_decode_uri_component".to_string(),
            undefined_thrown_payload: "smelt_throw(SmeltUnknown::Undefined)".to_string(),
            fetch_request: Template {
                pieces: vec![
                    Piece::Lit("smelt_fetch_request(".to_string()),
                    Piece::Hole,
                    Piece::Lit(")".to_string()),
                ],
            },
        },
    }
}

fn local(l: usize, ty: usize, name: &str) -> Operand {
    Operand::new(OperandKind::Copy(Place::Local(l)), ty, name, name)
}


const FN: usize = 4;

fn closure_emitter() -> FunctionEmitter {
    let mut e = body_emitter(NUL, false);
    e.types.push(Type::Function(FunctionType {
        params: vec![INT],
        return_ty: INT,
        may_throw: false,
        rest: None,
        required_params: None,
        mutable_params: vec![],
    }));
    e.facts.push(no_facts());
    e.facts[FN].default_text = Some("smelt_noop_callback()".to_string());
    e.function.locals = vec![
        LocalDecl { name: "n".to_string(), ty: INT, temp: false, text: "n".to_string() },
        LocalDecl { name: "m".to_string(), ty: INT, temp: false, text: "m".to_string() },
    ];
    e.declared_locals = vec![0];
    e
}

fn closure_of(captures: Vec<Capture>, escapes: bool) -> MirClosure {
    MirClosure {
        params: vec![0],
        captures,
        escapes,
        locals: vec![LocalDecl { name: "x".to_string(), ty: INT, temp: false, text: "x".to_string() }],
        blocks: vec![],
        return_ty: INT,
        can_throw: false,
        rest: None,
        required_params: None,
        smelt_args_text: "smelt_args[0].clone()".to_string(),
        function_item_key: None,
    }
}

fn capture_of(source_local: usize, borrowed_callback: bool) -> Capture {
    Capture { source_local, target_local: None, mode: CaptureMode::ByValue, borrowed_callback }
}

#[test]
fn closures_outside_function_slots_keep_their_literal() {
    let mut e = closure_emitter();
    e.closures = vec![closure_of(vec![], false)];
    assert_eq!(e.closure_text_for_type(0, INT, "|x| x", "|x| x").unwrap(), "|x| x");
    assert!(e.closure_text_for_type(1, INT, "|x| x", "|x| x").is_err());
}

#[test]
fn capture_free_closures_are_shared_callbacks() {
    let mut e = closure_emitter();
    e.closures = vec![closure_of(vec![], false)];
    assert_eq!(e.closure_text_for_type(0, FN, "|x| x", "|x| x").unwrap(), "::std::rc::Rc::new(|x| x)");
}

#[test]
fn bound_captures_are_cloned_before_the_move() {
    let mut e = closure_emitter();
    e.closures = vec![closure_of(vec![capture_of(0, false), capture_of(0, false)], false)];
    assert_eq!(
        e.closure_text_for_type(0, FN, "|x| x + n", "|x| x + n2").unwrap(),
        "::std::rc::Rc::new({\n    let n = n.clone();\n    move |x| x + n2\n})"
    );
    let (lines, rewrites) = e.closure_capture_prelude(&e.closures[0]);
    assert_eq!(lines, vec!["let n = n.clone();".to_string()]);
    assert!(rewrites.is_empty());
    assert_eq!(e.closure_text_for_type(0, FN, "move |x| x + n", "-").unwrap(), "::std::rc::Rc::new(move |x| x + n)");
}

#[test]
fn captures_not_yet_bound_need_no_clone() {
    let mut e = closure_emitter();
    e.closures = vec![closure_of(vec![capture_of(1, false)], false)];
    assert_eq!(e.closure_text_for_type(0, FN, "|x| x + m", "|x| x + m").unwrap(), "::std::rc::Rc::new(move |x| x + m)");
    e.mutable_locals = vec![1];
    e.declared_locals = vec![1];
    assert_eq!(
        e.closure_text_for_type(0, FN, "|x| x + m", "|x| x + m").unwrap(),
        "::std::rc::Rc::new({\n    let mut m = m.clone();\n    move |x| x + m\n})"
    );
}

#[test]
fn escaping_closures_keeping_a_borrowed_callback_default() {
    let mut e = closure_emitter();
    e.closures = vec![closure_of(vec![capture_of(0, true)], true)];
    assert_eq!(e.closure_text_for_type(0, FN, "|x| x", "|x| x").unwrap(), "smelt_noop_callback()");
    let literal = Rvalue::Closure { id: 0, text: "|x| x".to_string(), rewritten_text: "|x| x".to_string() };
    assert_eq!(e.rvalue_text_for_dest(&literal, FN).unwrap(), "smelt_noop_callback()");
}

#[test]
fn closure_literals_in_value_slots_default() {
    let mut e = closure_emitter();
    e.closures = vec![closure_of(vec![], false)];
    e.facts[INT].default_text = Some("0".to_string());
    let literal = Rvalue::Closure { id: 0, text: "|x| x".to_string(), rewritten_text: "|x| x".to_string() };
    assert_eq!(e.rvalue_text_for_dest(&literal, INT).unwrap(), "0");
    assert_eq!(e.rvalue_text_for_dest(&literal, FN).unwrap(), "::std::rc::Rc::new(|x| x)");
}

#[test]
fn erased_rest_slots_hold_an_erased_function() {
    let mut e = closure_emitter();
    e.facts[FN].erased_unknown_rest_function = true;
    e.closures = vec![closure_of(vec![], false)];
    assert_eq!(
        e.closure_text_for_type(0, FN, "|x| x", "|x| x").unwrap(),
        "SmeltErasedFunction { callback: { let smelt_callback = ::std::rc::Rc::new(|x| x); ::std::rc::Rc::new(move |smelt_args: Vec<SmeltUnknown>| SmeltUnknown::Number((smelt_callback)(smelt_args[0].clone()) as f64)) }, length: 1.0, object: None }"
    );
    e.closures[0].function_item_key = Some("7".to_string());
    assert_eq!(e.closure_text_for_type(0, FN, "|x| x", "|x| x").unwrap(), "__smelt_fn_erased_7()");
    e.closures[0].params = vec![3];
    assert!(e.closure_text_for_type(0, FN, "|x| x", "|x| x").is_err());
}

#[test]
fn callback_operands_resolve_to_the_closure_built_into_them() {
    let mut e = closure_emitter();
    let build = |dest: usize, text: &str| Statement::Assign {
        dest,
        value: Rvalue::Closure { id: 0, text: text.to_string(), rewritten_text: text.to_string() },
    };
    e.function.blocks = vec![
        BasicBlock { statements: vec![Statement::Other, build(1, "|x| x + 1")], terminator: None },
        BasicBlock { statements: vec![build(0, "|x| x"), build(1, "|x| x + 2")], terminator: None },
    ];
    assert_eq!(e.closure_operand_text(&local(1, FN, "f")).unwrap(), "|x| x + 1");
    assert_eq!(e.closure_operand_text(&local(0, FN, "g")).unwrap(), "|x| x");
    assert!(e.closure_operand_text(&local(2, FN, "h")).is_err());
    let constant = Operand::new(OperandKind::Const(lib::mir::Constant::Null), FN, "()", "()");
    assert!(e.closure_operand_text(&constant).is_err());
}

fn body_of_closure(return_ty: usize, can_throw: bool) -> FunctionEmitter {
    let mut e = body_emitter(return_ty, can_throw);
    e.function.params = vec![0];
    e.function.locals = vec![LocalDecl { name: "closure_arg_0".to_string(), ty: INT, temp: false, text: "closure_arg_0".to_string() }];
    e.function.blocks = vec![BasicBlock { statements: vec![], terminator: Some(lib::mir::Terminator::Return(local(0, INT, "closure_arg_0"))) }];
    e
}

#[test]
fn closure_literals_list_their_parameters_then_their_body() {
    let e = body_of_closure(INT, false);
    let none: Vec<Option<String>> = vec![None];
    let stmts = vec![String::new()];
    assert_eq!(
        e.closure_text_with_extra_params(&vec![], &vec![], 0, "", "", &stmts, &none).unwrap(),
        "|closure_arg_0: i64| {\n    closure_arg_0\n    }"
    );
    assert_eq!(
        e.closure_text_with_extra_params(&vec![INT], &vec![INT], 0, "    let mut t = 0;\n", "", &stmts, &none).unwrap(),
        "|closure_arg_0: i64, _arg0: i64| {\n    let mut t = 0;\n    closure_arg_0\n    }"
    );
    let mut m = body_of_closure(INT, false);
    m.mutable_locals = vec![0];
    assert_eq!(
        m.closure_text_with_extra_params(&vec![], &vec![], 0, "", "", &stmts, &none).unwrap(),
        "|mut closure_arg_0: i64| {\n    closure_arg_0\n    }"
    );
    assert!(e.closure_text_with_extra_params(&vec![UNK], &vec![], 0, "", "", &stmts, &none).is_err());
}

#[test]
fn fallible_closure_literals_spell_their_result_type() {
    let e = body_of_closure(INT, true);
    assert_eq!(
        e.closure_text_with_extra_params(&vec![], &vec![], 0, "", "", &vec![String::new()], &vec![None]).unwrap(),
        "|closure_arg_0: i64| -> Result<i64, Box<dyn std::error::Error>> {\n    Ok::<i64, Box<dyn std::error::Error>>(closure_arg_0)\n    }"
    );
}

#[test]
fn future_returning_closure_literals_become_async_blocks() {
    let e = body_of_closure(FUT, false);
    assert_eq!(
        e.closure_text_with_extra_params(&vec![], &vec![], 0, "", "let c = c.clone(); ", &vec![String::new()], &vec![None]).unwrap(),
        "|closure_arg_0: i64| { let c = c.clone(); SmeltFuture::from_future(Box::pin(async move {\n        let smelt_async_value = {\n    closure_arg_0\n        };\n        Ok::<i64, Box<dyn std::error::Error>>(smelt_async_value)\n    }) as ::std::pin::Pin<Box<dyn ::std::future::Future<Output = Result<i64, Box<dyn std::error::Error>>>>>) }"
    );
    let t = body_of_closure(FUT, true);
    assert_eq!(
        t.closure_text_with_extra_params(&vec![], &vec![], 0, "", "", &vec![String::new()], &vec![None]).unwrap(),
        "|closure_arg_0: i64| { SmeltFuture::from_future(Box::pin(async move {\n        let smelt_async_value: Result<i64, Box<dyn std::error::Error>> = {\n    Ok::<i64, Box<dyn std::error::Error>>(closure_arg_0)\n        };\n        Ok::<i64, Box<dyn std::error::Error>>(smelt_async_value?)\n    }) as ::std::pin::Pin<Box<dyn ::std::future::Future<Output = Result<i64, Box<dyn std::error::Error>>>>>) }"
    );
}

#[test]
fn escaping_closures_keeping_a_borrowed_callback_ignore_their_arguments() {
    let mut e = closure_emitter();
    e.facts[INT].default_text = Some("0".to_string());
    e.closures = vec![closure_of(vec![capture_of(0, true)], true)];
    assert_eq!(e.borrowed_callback_closure_text(0, &vec![INT], &vec![], None).unwrap(), "|arg0: i64, _arg0: i64| -> i64 { 0 }");
    assert!(e.borrowed_callback_closure_text(0, &vec![UNK], &vec![], None).is_err());
    assert!(e.borrowed_callback_closure_text(5, &vec![], &vec![], None).is_err());
}

#[test]
fn declared_type_callbacks_follow_copies_to_their_closure() {
    let mut e = closure_emitter();
    e.closures = vec![closure_of(vec![], false)];
    e.function.blocks = vec![BasicBlock {
        statements: vec![
            Statement::Assign {
                dest: 1,
                value: Rvalue::Closure { id: 0, text: "|x| x".to_string(), rewritten_text: "|x| x".to_string() },
            },
            Statement::Assign { dest: 2, value: Rvalue::Use(local(1, FN, "f")) },
        ],
        terminator: None,
    }];
    assert_eq!(e.closure_operand_text_for_declared_type(&local(2, FN, "g")).unwrap(), "::std::rc::Rc::new(|x| x)");
    assert_eq!(e.closure_operand_text_for_declared_type(&local(2, INT, "g")).unwrap(), "|x| x");
    assert!(e.closure_operand_text_for_declared_type(&local(3, FN, "h")).is_err());
}
