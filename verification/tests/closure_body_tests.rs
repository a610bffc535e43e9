use lib::async_ops::RuntimeNames;
use lib::emitter::FunctionEmitter;
use lib::instance_of::HostRegistry;
use lib::mir::{BasicBlock, MatchArm, Callee, Constant, LocalDecl, MirClosure, MirFunction, Operand, OperandKind, Place, FunctionOrigin, Terminator};
use lib::types::FunctionType;
use lib::types::{ClassKind, Piece, Template, Type, TypeFacts};

fn no_facts() -> TypeFacts {
    TypeFacts {
        erased_class: false,
        concrete_union: false,
        rust_text: None,
        default_text: None,
        hash_set_key_safe: false,
        smelt_record_key: false,
        js_key_map_key: false,
        reference_class: false,
        interface_record: false,
        class_kind: ClassKind::Plain,
        type_param_in_scope: false,
        erased_unknown_rest_function: false,
        no_known_fields: false,
        contains_function: false,
        contains_unknown: false,
        smelt_args_text: None,
        class_object: None,
        call_field_ty: None,
        match_fn_result: false,
        match_fn_result_class: false,
        match_value_ty: None,
        key_to_string: None,
        object_record: None,
        callback_params: None,
        shared_ref_params: vec![],
        union_erase: None,
        borrowed_handle: None,
        class_checks: vec![],
        thrown_payload: None,
        callback_param_by_ref: false,
        callback_arg_forms: vec![],
        tag_checks: vec![],
        record_fields: vec![],
    }
}

const UNK: usize = 0;
const INT: usize = 1;
const FUT: usize = 2;
const NUL: usize = 3;

fn hole() -> Template {
    Template { pieces: vec![Piece::Hole] }
}

fn body_emitter(return_ty: usize, can_throw: bool) -> FunctionEmitter {
    let types = vec![Type::Unknown, Type::Int, Type::Future(INT), Type::Nullish];
    let mut facts: Vec<TypeFacts> = types.iter().map(|_| no_facts()).collect();
    facts[INT].rust_text = Some("i64".to_string());
    FunctionEmitter {
        types,
        facts,
        symbols: vec!["Blob".to_string()],
        symbol_idents: vec!["Blob".to_string()],
        none_ty: NUL,
        list_read: hole(),
        adapters: vec![],
        optional_coercions: vec![],
        map_backing_pairs: vec![],
        borrowed_captures: vec![],
        declared_locals: vec![],
        mutable_locals: vec![],
        function: MirFunction { id: 0, params: vec![], locals: vec![], blocks: vec![], is_async: false, is_generator: false, can_throw, return_ty, origin: FunctionOrigin::Body, rust_name: String::new(), call_suffix: String::new() },
        functions: vec![],
        closures: vec![],
        classes: vec![],
        regexp_literal: hole(),
        byte_buffer_elements: "bytes".to_string(),
        arguments_elements: "args".to_string(),
        propagates_errors: false,
        trunc_f64: Template { pieces: vec![Piece::Lit("(".to_string()), Piece::Hole, Piece::Lit(").trunc()".to_string())] },
        float_equalities: vec![],
        host: HostRegistry { objects: vec![], overrides: vec![], error_classes: vec![] },
        runtime: RuntimeNames {
            sleep_ms: "smelt_sleep_ms".to_string(),
            set_timeout: "smelt_set_timeout".to_string(),
            clear_timeout: "smelt_clear_timeout".to_string(),
            set_interval: "smelt_set_interval".to_string(),
            clear_interval: "smelt_clear_interval".to_string(),
            promise_race: "smelt_promise_race".to_string(),
            run_until_exit: "smelt_run_until_exit".to_string(),
            spawn_promise_task: "smelt_spawn_promise_task".to_string(),
            throw_fn: "smelt_throw".to_string(),
            json_parse: "smelt_json_parse".to_string(),
            decode_uri: "smelt_decode_uri".to_string(),
            decode_uri_component: "smelt_decode_uri_component".to_string(),
            undefined_thrown_payload: "smelt_throw(SmeltUnknown::Undefined)".to_string(),
            fetch_request: Template {
                pieces: vec![
                    Piece::Lit("smelt_fetch_request(".to_string()),
                    Piece::Hole,
                    Piece::Lit(")".to_string()),
                ],
            },
        },
    }
}

fn local(l: usize, ty: usize, name: &str) -> Operand {
    Operand::new(OperandKind::Copy(Place::Local(l)), ty, name, name)
}

fn emitted(e: &FunctionEmitter, op: &Operand) -> Result<String, ()> {
    let mut out = String::from("// body\n");
    match e.emit_closure_return_statement(op, &mut out) {
        Ok(()) => Ok(out),
        Err(_) => {
            assert_eq!(out, "// body\n");
            Err(())
        }
    }
}

#[test]
fn unit_returns_evaluate_the_discarded_value() {
    let e = body_emitter(NUL, false);
    assert_eq!(emitted(&e, &local(1, INT, "n")).unwrap(), "// body\n    n;\n    return ();\n");
    let null = Operand::new(OperandKind::Const(Constant::Null), NUL, "()", "()");
    assert_eq!(emitted(&e, &null).unwrap(), "// body\n    return ();\n");
    let throwing = body_emitter(NUL, true);
    assert_eq!(emitted(&throwing, &null).unwrap(), "// body\n    return Ok::<(), Box<dyn std::error::Error>>(());\n");
}

#[test]
fn value_returns_are_coerced_to_the_declared_type() {
    let e = body_emitter(INT, false);
    assert_eq!(emitted(&e, &local(1, INT, "n")).unwrap(), "// body\n    return n;\n");
    let throwing = body_emitter(INT, true);
    assert_eq!(
        emitted(&throwing, &local(1, INT, "n")).unwrap(),
        "// body\n    return Ok::<i64, Box<dyn std::error::Error>>(n);\n"
    );
    let future = body_emitter(FUT, false);
    assert_eq!(emitted(&future, &local(1, INT, "n")).unwrap(), "// body\n    return n;\n");
}

#[test]
fn a_failed_return_writes_nothing() {
    let mut e = body_emitter(INT, true);
    e.facts[INT].rust_text = None;
    assert!(emitted(&e, &local(1, INT, "n")).is_err());
}

#[test]
fn callbacks_take_one_ignored_parameter_per_surplus_argument() {
    let mut e = body_emitter(NUL, false);
    let callback = e.types.len();
    e.types.push(Type::Function(FunctionType {
        params: vec![INT, INT, UNK],
        return_ty: INT,
        may_throw: false,
        rest: None,
        required_params: None,
        mutable_params: vec![],
    }));
    e.facts.push(no_facts());
    let closure = MirClosure {
        params: vec![5],
        captures: vec![],
        escapes: false,
        locals: vec![],
        blocks: vec![],
        return_ty: INT,
        can_throw: false,
        rest: None,
        required_params: None,
        smelt_args_text: String::new(),
        function_item_key: None,
    };
    assert_eq!(e.closure_extra_param_tys(&closure, callback), vec![INT, UNK]);
    assert_eq!(e.closure_target_param_tys(&closure, callback), vec![INT]);
    assert_eq!(e.closure_extra_param_tys(&closure, INT), Vec::<usize>::new());
}

fn block(t: Terminator) -> BasicBlock {
    BasicBlock { statements: vec![], terminator: Some(t) }
}

fn texts(parts: &[&str]) -> Vec<String> {
    parts.iter().map(|p| p.to_string()).collect()
}

fn decl(name: &str, ty: usize) -> LocalDecl {
    LocalDecl { name: name.to_string(), ty, temp: false, text: name.to_string() }
}

#[test]
fn straight_line_blocks_end_in_the_tail() {
    let mut e = body_emitter(INT, false);
    e.function.blocks = vec![block(Terminator::Goto(1)), block(Terminator::Return(local(1, INT, "n")))];
    let out = e.closure_block_text(&texts(&["    a();\n", "    b();\n"]), &vec![None, None], 0, None, false);
    assert_eq!(out.unwrap(), "    a();\n    b();\n    n\n");
    let in_loop = e.closure_block_text(&texts(&["    a();\n", "    b();\n"]), &vec![None, None], 0, None, true);
    assert_eq!(in_loop.unwrap(), "    a();\n    b();\n    return n;\n");
}

#[test]
fn a_goto_to_the_stop_block_ends_the_walk() {
    let mut e = body_emitter(INT, false);
    e.function.blocks = vec![block(Terminator::Goto(1)), block(Terminator::Return(local(1, INT, "n")))];
    let out = e.closure_block_text(&texts(&["    a();\n", "    b();\n"]), &vec![None, None], 0, Some(1), false);
    assert_eq!(out.unwrap(), "    a();\n");
}

#[test]
fn forward_branches_become_if_else() {
    let mut e = body_emitter(INT, false);
    let cond = Operand::new(OperandKind::Copy(Place::Local(2)), INT, "c", "c");
    e.function.blocks = vec![
        block(Terminator::Switch { cond, then_block: 1, else_block: 2 }),
        block(Terminator::Return(local(1, INT, "x"))),
        block(Terminator::Unreachable),
    ];
    let out = e.closure_block_text(&texts(&["", "", ""]), &vec![None, None, None], 0, None, false);
    assert_eq!(out.unwrap(), "    if c {\n    x\n    } else {\n    unreachable!()\n    }\n");
}

#[test]
fn branches_that_come_back_become_loops() {
    let mut e = body_emitter(INT, false);
    let cond = Operand::new(OperandKind::Copy(Place::Local(2)), INT, "c", "c");
    e.function.blocks = vec![
        block(Terminator::Switch { cond, then_block: 1, else_block: 2 }),
        block(Terminator::Goto(0)),
        block(Terminator::Return(local(1, INT, "x"))),
    ];
    let out = e.closure_block_text(&texts(&["    h();\n", "    step();\n", ""]), &vec![None, None, None], 0, None, false);
    assert_eq!(
        out.unwrap(),
        "    loop {\n    h();\n    if c {\n    step();\n    } else {\n    return x;\n    }\n    }\n"
    );
}

#[test]
fn jumps_into_a_block_being_emitted_panic() {
    let mut e = body_emitter(INT, false);
    e.function.blocks = vec![block(Terminator::Goto(1)), block(Terminator::Goto(0))];
    let out = e.closure_block_text(&texts(&["", ""]), &vec![None, None], 0, None, false);
    assert_eq!(out.unwrap(), "    panic!(\"recursive closure control flow is not structured yet\")\n");
}

#[test]
fn calls_bind_their_destination_local() {
    let mut e = body_emitter(INT, false);
    e.function.locals = vec![decl("_0", INT), decl("r", INT)];
    e.function.blocks = vec![
        block(Terminator::Call { dest: 1, callee: Callee::Static(0, vec![]), args: vec![], next: 1 }),
        block(Terminator::Return(local(1, INT, "r"))),
    ];
    let out = e.closure_block_text(&texts(&["", ""]), &vec![Some("f()".to_string()), None], 0, None, false);
    assert_eq!(out.unwrap(), "    let r: i64 = f();\n    r\n");
    assert!(e.closure_block_text(&texts(&["", ""]), &vec![None, None], 0, None, false).is_err());
}

#[test]
fn awaits_bind_the_awaited_value_and_throws_leave_through_err() {
    let mut e = body_emitter(INT, true);
    e.function.locals = vec![decl("_0", INT), decl("v", INT)];
    e.function.blocks = vec![
        block(Terminator::Await { future: local(2, FUT, "fut"), dest: 1, next: 1 }),
        block(Terminator::Throw(local(1, INT, "v"))),
    ];
    let out = e.closure_block_text(&texts(&["", ""]), &vec![None, None], 0, None, false);
    assert_eq!(
        out.unwrap(),
        "    let v: i64 = fut.await;\n    return Err::<_, Box<dyn std::error::Error>>(std::io::Error::new(std::io::ErrorKind::Other, format!(\"{}\", v)).into());\n"
    );
}

#[test]
fn blocks_outside_the_body_and_unknown_terminators_are_refused() {
    let mut e = body_emitter(INT, false);
    e.function.blocks = vec![block(Terminator::Other)];
    assert!(e.closure_block_text(&texts(&[""]), &vec![None], 0, None, false).is_err());
    assert!(e.closure_block_text(&texts(&[""]), &vec![None], 3, None, false).is_err());
}

fn arm(label: &str, target: usize) -> MatchArm {
    MatchArm { label_text: label.to_string(), target }
}

#[test]
fn multi_way_branches_become_matches_followed_by_their_join() {
    let mut e = body_emitter(INT, false);
    e.function.blocks = vec![
        block(Terminator::Match { scrutinee_text: "k".to_string(), arms: vec![arm("1", 1), arm("2", 2)], default: Some(2), join: Some(3) }),
        block(Terminator::Goto(3)),
        block(Terminator::Goto(3)),
        block(Terminator::Return(local(1, INT, "n"))),
    ];
    let out = e.closure_block_text(&texts(&["", "    one();\n", "    two();\n", "    end();\n"]), &vec![None, None, None, None], 0, None, false);
    assert_eq!(
        out.unwrap(),
        "    match k {\n        1 => {\n    one();\n        }\n        2 => {\n    two();\n        }\n        _ => {\n    two();\n        }\n    };\n    end();\n    n\n"
    );
}

#[test]
fn matches_without_a_join_or_default_end_the_walk() {
    let mut e = body_emitter(INT, false);
    e.function.blocks = vec![
        block(Terminator::Match { scrutinee_text: "k".to_string(), arms: vec![arm("1", 1)], default: None, join: None }),
        block(Terminator::Return(local(1, INT, "n"))),
    ];
    let out = e.closure_block_text(&texts(&["    pre();\n", ""]), &vec![None, None], 0, None, false);
    assert_eq!(out.unwrap(), "    pre();\n    match k {\n        1 => {\n    n\n        }\n        _ => {}\n    }\n");
    e.function.blocks[1] = block(Terminator::Other);
    assert!(e.closure_block_text(&texts(&["", ""]), &vec![None, None], 0, None, false).is_err());
}
