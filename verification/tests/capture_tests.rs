use lib::async_ops::RuntimeNames;
use lib::emitter::FunctionEmitter;
use lib::instance_of::HostRegistry;
use lib::mir::{
    MatchArm,
    BasicBlock, BuiltinFn, Callee, Capture, CaptureMode, Constant, LocalDecl, MirClosure, MirFunction, Operand,
    OperandKind, Place, Rvalue, Statement, Terminator, FunctionOrigin,
};
use lib::types::{ClassKind, FunctionType, Piece, Template, Type, TypeFacts};

fn no_facts() -> TypeFacts {
    TypeFacts {
        erased_class: false,
        concrete_union: false,
        rust_text: None,
        default_text: None,
        hash_set_key_safe: false,
        smelt_record_key: false,
        js_key_map_key: false,
        reference_class: false,
        interface_record: false,
        class_kind: ClassKind::Plain,
        type_param_in_scope: false,
        erased_unknown_rest_function: false,
        no_known_fields: false,
        contains_function: false,
        contains_unknown: false,
        smelt_args_text: None,
        class_object: None,
        call_field_ty: None,
        match_fn_result: false,
        match_fn_result_class: false,
        match_value_ty: None,
        key_to_string: None,
        object_record: None,
        callback_params: None,
        shared_ref_params: vec![],
        union_erase: None,
        borrowed_handle: None,
        class_checks: vec![],
        thrown_payload: None,
        callback_param_by_ref: false,
        callback_arg_forms: vec![],
        tag_checks: vec![],
        record_fields: vec![],
    }
}

const INT: usize = 1;
const LIST: usize = 2;
const CALLBACK: usize = 3;

fn decl(ty: usize) -> LocalDecl {
    LocalDecl { name: String::new(), ty, temp: false, text: String::new() }
}

fn read(l: usize) -> Operand {
    Operand::new(OperandKind::Copy(Place::Local(l)), LIST, "x", "x")
}

fn copy(dest: usize, source: usize) -> Statement {
    Statement::Assign { dest, value: Rvalue::Use(read(source)) }
}

fn block(statements: Vec<Statement>, terminator: Option<Terminator>) -> BasicBlock {
    BasicBlock { statements, terminator }
}

fn function(id: usize, params: Vec<usize>, locals: Vec<usize>, blocks: Vec<BasicBlock>) -> MirFunction {
    MirFunction { id, params, locals: locals.into_iter().map(decl).collect(), blocks, is_async: false, is_generator: false, can_throw: false, return_ty: 0, origin: FunctionOrigin::Body, rust_name: String::new(), call_suffix: String::new() }
}

fn index_write(base: usize) -> Statement {
    Statement::AssignPlace {
        place: Place::Index { base, index: 9 },
        operand: Operand::new(OperandKind::Const(Constant::Int(1)), INT, "1", "1"),
    }
}

fn static_call(callee: usize, args: Vec<Operand>) -> Terminator {
    Terminator::Call { dest: 7, callee: Callee::Static(callee, vec![]), args, next: 0 }
}

fn analysis_emitter(function: MirFunction, functions: Vec<MirFunction>, closures: Vec<MirClosure>) -> FunctionEmitter {
    let types = vec![
        Type::Unknown,
        Type::Int,
        Type::List(INT),
        Type::Function(FunctionType {
            params: vec![LIST],
            return_ty: INT,
            may_throw: false,
            rest: None,
            required_params: None,
            mutable_params: vec![0],
        }),
    ];
    let facts: Vec<TypeFacts> = types.iter().map(|_| no_facts()).collect();
    FunctionEmitter {
        types,
        facts,
        symbols: vec![],
        symbol_idents: vec![],
        none_ty: 0,
        list_read: Template { pieces: vec![Piece::Hole] },
        adapters: vec![],
        optional_coercions: vec![],
        map_backing_pairs: vec![],
        borrowed_captures: vec![],
        declared_locals: vec![],
        mutable_locals: vec![],
        function,
        functions,
        closures,
        classes: vec![],
        regexp_literal: Template { pieces: vec![Piece::Hole] },
        byte_buffer_elements: "bytes".to_string(),
        arguments_elements: "args".to_string(),
        propagates_errors: false,
        trunc_f64: Template { pieces: vec![Piece::Lit("(".to_string()), Piece::Hole, Piece::Lit(").trunc()".to_string())] },
        float_equalities: vec![],
        host: HostRegistry { objects: vec![], overrides: vec![], error_classes: vec![] },
        runtime: RuntimeNames {
            sleep_ms: "smelt_sleep_ms".to_string(),
            set_timeout: "smelt_set_timeout".to_string(),
            clear_timeout: "smelt_clear_timeout".to_string(),
            set_interval: "smelt_set_interval".to_string(),
            clear_interval: "smelt_clear_interval".to_string(),
            promise_race: "smelt_promise_race".to_string(),
            run_until_exit: "smelt_run_until_exit".to_string(),
            spawn_promise_task: "smelt_spawn_promise_task".to_string(),
            throw_fn: "smelt_throw".to_string(),
            json_parse: "smelt_json_parse".to_string(),
            decode_uri: "smelt_decode_uri".to_string(),
            decode_uri_component: "smelt_decode_uri_component".to_string(),
            undefined_thrown_payload: "smelt_throw(SmeltUnknown::Undefined)".to_string(),
            fetch_request: Template {
                pieces: vec![
                    Piece::Lit("smelt_fetch_request(".to_string()),
                    Piece::Hole,
                    Piece::Lit(")".to_string()),
                ],
            },
        },
    }
}

fn empty_function() -> MirFunction {
    function(99, vec![], vec![], vec![])
}

#[test]
fn copies_of_a_local_originate_from_it() {
    let blocks = vec![block(vec![copy(2, 1), copy(3, 2), copy(4, 5), copy(5, 4)], None)];
    let mut seen = Vec::new();
    assert!(FunctionEmitter::operand_originates_from_local_in_blocks(&blocks, &read(3), 1, &mut seen));
    let mut seen = Vec::new();
    assert!(!FunctionEmitter::operand_originates_from_local_in_blocks(&blocks, &read(3), 6, &mut seen));
    let mut seen = Vec::new();
    assert!(!FunctionEmitter::operand_originates_from_local_in_blocks(&blocks, &read(4), 1, &mut seen));
    let constant = Operand::new(OperandKind::Const(Constant::Int(1)), INT, "1", "1");
    let mut seen = Vec::new();
    assert!(!FunctionEmitter::operand_originates_from_local_in_blocks(&blocks, &constant, 1, &mut seen));
    let mut seen = vec![2];
    assert!(!FunctionEmitter::operand_originates_from_local_in_blocks(&blocks, &read(3), 1, &mut seen));
    assert_eq!(seen, vec![2]);
    let mut seen = Vec::new();
    assert!(FunctionEmitter::operand_originates_from_local_in_blocks(&blocks, &read(1), 1, &mut seen));
}

#[test]
fn in_place_writes_need_a_mutable_reference() {
    let f = function(0, vec![0, 1], vec![LIST, INT], vec![block(vec![index_write(0), index_write(1)], None)]);
    let e = analysis_emitter(f, vec![], vec![]);
    assert!(e.parameter_needs_mutable_reference(0));
    assert!(!e.parameter_needs_mutable_reference(1));
    assert!(!e.parameter_needs_mutable_reference(2));
}

#[test]
fn rebinding_a_parameter_stays_owned() {
    let rebind = Statement::AssignPlace {
        place: Place::Local(0),
        operand: read(3),
    };
    let f = function(0, vec![0], vec![LIST], vec![block(vec![rebind], None)]);
    let e = analysis_emitter(f, vec![], vec![]);
    assert!(!e.parameter_needs_mutable_reference(0));
    let push = Statement::Assign {
        dest: 4,
        value: Rvalue::InPlace { mutates: vec![0], borrows_mutably: vec![] },
    };
    let f = function(0, vec![0], vec![LIST], vec![block(vec![push], None)]);
    let e = analysis_emitter(f, vec![], vec![]);
    assert!(e.parameter_needs_mutable_reference(0));
}

#[test]
fn forwarding_to_a_mutating_callee_needs_a_mutable_reference() {
    let callee = function(1, vec![0], vec![LIST], vec![block(vec![index_write(0)], None)]);
    let caller = function(
        0,
        vec![0],
        vec![LIST, LIST, LIST],
        vec![block(vec![copy(2, 0)], Some(static_call(1, vec![read(2)])))],
    );
    let e = analysis_emitter(caller, vec![empty_function(), callee], vec![]);
    assert!(e.parameter_needs_mutable_reference(0));
}

#[test]
fn mutual_forwarding_without_writes_stays_owned() {
    let a = function(0, vec![0], vec![LIST], vec![block(vec![], Some(static_call(1, vec![read(0)])))]);
    let b = function(1, vec![0], vec![LIST], vec![block(vec![], Some(static_call(0, vec![read(0)])))]);
    let e = analysis_emitter(
        function(0, vec![0], vec![LIST], vec![block(vec![], Some(static_call(1, vec![read(0)])))]),
        vec![a, b],
        vec![],
    );
    assert!(!e.parameter_needs_mutable_reference(0));
    let mut seen = vec![(0, 0)];
    assert!(!e.parameter_needs_mutable_reference_in_seen(&e.functions[1], 0, &mut seen));
    assert_eq!(seen, vec![(0, 0)]);
}

#[test]
fn forwarding_into_a_mutable_callback_slot_needs_a_mutable_reference() {
    let call = Statement::Assign {
        dest: 2,
        value: Rvalue::ClosureCall {
            callee: Operand::new(OperandKind::Copy(Place::Local(1)), CALLBACK, "cb", "cb"),
            args: vec![read(0)],
        },
    };
    let f = function(0, vec![0, 1], vec![LIST, CALLBACK, INT], vec![block(vec![call], None)]);
    let e = analysis_emitter(f, vec![], vec![]);
    assert!(e.parameter_needs_mutable_reference(0));
}

fn capture(source_local: usize, target_local: Option<usize>, mode: CaptureMode) -> Capture {
    Capture { source_local, target_local, mode, borrowed_callback: false }
}

fn closure(captures: Vec<Capture>, escapes: bool, blocks: Vec<BasicBlock>) -> MirClosure {
    MirClosure {
        params: vec![],
        captures,
        escapes,
        locals: vec![decl(LIST), decl(LIST)],
        blocks,
        return_ty: 0,
        can_throw: false,
        rest: None,
        required_params: None,
        smelt_args_text: String::new(),
        function_item_key: None,
    }
}

#[test]
fn closure_body_writes_are_recognized() {
    let e = analysis_emitter(empty_function(), vec![], vec![]);
    let writer = closure(vec![], false, vec![block(vec![index_write(0)], None)]);
    assert!(e.closure_capture_body_writes(&writer, &capture(5, Some(0), CaptureMode::ByRef)));
    assert!(!e.closure_capture_body_writes(&writer, &capture(5, Some(1), CaptureMode::ByRef)));
    assert!(!e.closure_capture_body_writes(&writer, &capture(5, None, CaptureMode::ByRef)));
    let stores = closure(
        vec![],
        false,
        vec![block(vec![], Some(Terminator::Call { dest: 1, callee: Callee::Builtin(BuiltinFn::ConsoleWrite), args: vec![], next: 0 }))],
    );
    assert!(e.closure_capture_body_writes(&stores, &capture(5, Some(1), CaptureMode::ByRef)));
    assert!(e.closure_terminator_writes_local(&stores, stores.blocks[0].terminator.as_ref(), 1));
    assert!(!e.closure_terminator_writes_local(&stores, None, 1));
}

#[test]
fn capture_storage_is_shared_only_when_needed() {
    let writer = closure(vec![capture(3, Some(0), CaptureMode::ByRef)], false, vec![block(vec![index_write(0)], None)]);
    let reader = closure(vec![capture(4, Some(0), CaptureMode::ByRef)], false, vec![block(vec![], None)]);
    let by_mut = closure(vec![capture(5, Some(0), CaptureMode::ByMut)], false, vec![]);
    let by_value = closure(vec![capture(6, Some(0), CaptureMode::ByValue)], false, vec![block(vec![index_write(0)], None)]);
    let build = |id: usize| Statement::Assign { dest: 10 + id, value: Rvalue::Closure { id, text: String::new(), rewritten_text: String::new() } };
    let f = function(0, vec![], vec![LIST; 12], vec![block(vec![build(0), build(1), build(2), build(3)], None)]);
    let e = analysis_emitter(f, vec![], vec![writer, reader, by_mut, by_value]);
    assert!(e.closure_capture_needs_shared_access(&e.closures[0], &e.closures[0].captures[0]));
    assert!(!e.closure_capture_needs_shared_access(&e.closures[1], &e.closures[1].captures[0]));
    assert!(e.closure_capture_needs_shared_access(&e.closures[2], &e.closures[2].captures[0]));
    assert!(!e.closure_capture_needs_shared_access(&e.closures[3], &e.closures[3].captures[0]));
    assert!(e.local_uses_shared_capture_storage(3));
    assert!(!e.local_uses_shared_capture_storage(4));
    assert!(e.local_uses_shared_capture_storage(5));
    assert!(!e.local_uses_shared_capture_storage(6));
}

#[test]
fn escaping_writers_share_the_binding_with_their_siblings() {
    let writer = closure(vec![capture(3, Some(0), CaptureMode::ByValue)], true, vec![block(vec![index_write(0)], None)]);
    let reader = closure(vec![capture(3, Some(1), CaptureMode::ByValue)], true, vec![block(vec![], None)]);
    let f = function(0, vec![], vec![LIST; 4], vec![]);
    let e = analysis_emitter(f, vec![], vec![writer, reader]);
    assert!(e.escaping_closure_capture_is_mutated(3));
    assert!(!e.escaping_closure_capture_is_mutated(2));
    assert!(e.closure_capture_needs_shared_access(&e.closures[1], &e.closures[1].captures[0]));
}

#[test]
fn a_binding_assigned_after_its_capture_is_shared() {
    let reader = closure(vec![capture(3, Some(0), CaptureMode::ByValue)], false, vec![]);
    let f = function(
        0,
        vec![],
        vec![LIST; 4],
        vec![block(vec![Statement::Assign { dest: 1, value: Rvalue::Closure { id: 0, text: String::new(), rewritten_text: String::new() } }, copy(3, 2)], None)],
    );
    let e = analysis_emitter(f, vec![], vec![reader]);
    assert!(e.closure_capture_needs_shared_access(&e.closures[0], &e.closures[0].captures[0]));
    assert!(e.local_uses_shared_capture_storage(3));
}

fn looping_function() -> MirFunction {
    function(
        0,
        vec![],
        vec![],
        vec![
            block(vec![], Some(Terminator::Goto(1))),
            block(vec![], Some(Terminator::Match {
                scrutinee_text: "k".to_string(),
                arms: vec![MatchArm { label_text: "1".to_string(), target: 2 }],
                default: Some(3),
                join: None,
            })),
            block(vec![], Some(Terminator::Goto(1))),
            block(vec![], Some(Terminator::Return(read(0)))),
            block(vec![], None),
        ],
    )
}

#[test]
fn block_reachability_follows_successors() {
    let e = analysis_emitter(looping_function(), vec![], vec![]);
    assert!(e.block_can_reach(0, 3, &mut Vec::new()));
    assert!(!e.block_can_reach(3, 0, &mut Vec::new()));
    assert!(e.block_can_reach(2, 1, &mut Vec::new()));
    assert!(e.block_can_reach(4, 4, &mut Vec::new()));
    assert!(!e.block_can_reach(0, 4, &mut Vec::new()));
    let mut visited = vec![1];
    assert!(!e.block_can_reach(0, 3, &mut visited));
    assert!(visited.contains(&0));
}

#[test]
fn blocks_on_a_cycle_can_repeat() {
    let e = analysis_emitter(looping_function(), vec![], vec![]);
    assert!(e.block_can_repeat(1, &mut Vec::new()));
    assert!(e.block_can_repeat(2, &mut Vec::new()));
    assert!(!e.block_can_repeat(0, &mut Vec::new()));
    assert!(!e.block_can_repeat(3, &mut Vec::new()));
    assert!(!e.block_can_repeat(4, &mut Vec::new()));
    assert!(e.block_can_repeat(9, &mut Vec::new()));
    let mut visited = Vec::new();
    e.block_can_repeat(1, &mut visited);
    assert_eq!(visited, vec![1]);
}

#[test]
fn blocks_below_a_loop_are_in_a_repeating_region() {
    let e = analysis_emitter(looping_function(), vec![], vec![]);
    assert!(e.block_is_reached_from_repeating_region(3));
    assert!(e.block_is_reached_from_repeating_region(1));
    assert!(!e.block_is_reached_from_repeating_region(0));
    assert!(!e.block_is_reached_from_repeating_region(4));
}
