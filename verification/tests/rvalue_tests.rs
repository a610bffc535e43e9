use lib::async_ops::RuntimeNames;
use lib::emitter::FunctionEmitter;
use lib::erase::RenderedValue;
use lib::instance_of::HostRegistry;
use lib::binary_text::{BinOp, BinOpKind};
use lib::emitter::FloatEquality;
use lib::mir::{LocalDecl, YieldHandler, MirFunction, Operand, OperandKind, Place, ResumeKind, Rvalue, FunctionOrigin, UnaryOp};
use lib::types::{ClassKind, Piece, Template, Type, TypeFacts};

fn no_facts() -> TypeFacts {
    TypeFacts {
        erased_class: false,
        concrete_union: false,
        rust_text: None,
        default_text: None,
        hash_set_key_safe: false,
        smelt_record_key: false,
        js_key_map_key: false,
        reference_class: false,
        interface_record: false,
        class_kind: ClassKind::Plain,
        type_param_in_scope: false,
        erased_unknown_rest_function: false,
        no_known_fields: false,
        contains_function: false,
        contains_unknown: false,
        smelt_args_text: None,
        class_object: None,
        call_field_ty: None,
        match_fn_result: false,
        match_fn_result_class: false,
        match_value_ty: None,
        key_to_string: None,
        object_record: None,
        callback_params: None,
        shared_ref_params: vec![],
        union_erase: None,
        borrowed_handle: None,
        class_checks: vec![],
        thrown_payload: None,
        callback_param_by_ref: false,
        callback_arg_forms: vec![],
        tag_checks: vec![],
        record_fields: vec![],
    }
}

const UNK: usize = 0;
const INT: usize = 1;
const STR: usize = 2;
const OPT_INT: usize = 3;
const LIST_INT: usize = 4;
const PAIR: usize = 5;
const SET_INT: usize = 6;
const NUL: usize = 7;
const RESULT: usize = 8;
const UNION: usize = 9;
const OPT_LIST: usize = 10;
const BOOL: usize = 11;

fn hole() -> Template {
    Template { pieces: vec![Piece::Hole] }
}

fn rvalue_emitter() -> FunctionEmitter {
    let types = vec![
        Type::Unknown,
        Type::Int,
        Type::Str,
        Type::Optional(INT),
        Type::List(INT),
        Type::Tuple(vec![INT, STR]),
        Type::SetOf(INT),
        Type::Nullish,
        Type::GeneratorResult { yield_ty: INT, return_ty: UNK },
        Type::Union(vec![INT, STR]),
        Type::Optional(LIST_INT),
        Type::Bool,
    ];
    let mut facts: Vec<TypeFacts> = types.iter().map(|_| no_facts()).collect();
    facts[INT].rust_text = Some("i64".to_string());
    facts[INT].hash_set_key_safe = true;
    facts[STR].rust_text = Some("String".to_string());
    facts[UNION].concrete_union = true;
    facts[UNION].rust_text = Some("SmeltUnionIntStr".to_string());
    FunctionEmitter {
        types,
        facts,
        symbols: vec!["Shape".to_string()],
        symbol_idents: vec!["Shape".to_string()],
        none_ty: NUL,
        list_read: hole(),
        adapters: vec![],
        optional_coercions: vec![],
        map_backing_pairs: vec![],
        borrowed_captures: vec![],
        declared_locals: vec![],
        mutable_locals: vec![],
        function: MirFunction { id: 0, params: vec![], locals: vec![], blocks: vec![], is_async: false, is_generator: false, can_throw: false, return_ty: 0, origin: FunctionOrigin::Body, rust_name: String::new(), call_suffix: String::new() },
        functions: vec![],
        closures: vec![],
        classes: vec![],
        regexp_literal: hole(),
        byte_buffer_elements: "bytes".to_string(),
        arguments_elements: "args".to_string(),
        propagates_errors: false,
        trunc_f64: Template { pieces: vec![Piece::Lit("(".to_string()), Piece::Hole, Piece::Lit(").trunc()".to_string())] },
        float_equalities: vec![],
        host: HostRegistry { objects: vec![], overrides: vec![], error_classes: vec![] },
        runtime: RuntimeNames {
            sleep_ms: "smelt_sleep_ms".to_string(),
            set_timeout: "smelt_set_timeout".to_string(),
            clear_timeout: "smelt_clear_timeout".to_string(),
            set_interval: "smelt_set_interval".to_string(),
            clear_interval: "smelt_clear_interval".to_string(),
            promise_race: "smelt_promise_race".to_string(),
            run_until_exit: "smelt_run_until_exit".to_string(),
            spawn_promise_task: "smelt_spawn_promise_task".to_string(),
            throw_fn: "smelt_throw".to_string(),
            json_parse: "smelt_json_parse".to_string(),
            decode_uri: "smelt_decode_uri".to_string(),
            decode_uri_component: "smelt_decode_uri_component".to_string(),
            undefined_thrown_payload: "smelt_throw(SmeltUnknown::Undefined)".to_string(),
            fetch_request: Template {
                pieces: vec![
                    Piece::Lit("smelt_fetch_request(".to_string()),
                    Piece::Hole,
                    Piece::Lit(")".to_string()),
                ],
            },
        },
    }
}

fn local(l: usize, ty: usize, name: &str) -> Operand {
    Operand::new(OperandKind::Copy(Place::Local(l)), ty, name, name)
}

#[test]
fn narrowed_optional_reads_unwrap_with_a_message() {
    let e = rvalue_emitter();
    let text = e.rvalue_text_for_dest(&Rvalue::Use(local(1, OPT_INT, "x")), INT).unwrap();
    assert_eq!(text, "x.clone().expect(\"optional value was absent after narrowing\")");
    assert_eq!(e.rvalue_text_for_dest(&Rvalue::Use(local(1, INT, "n")), INT).unwrap(), "n");
}

#[test]
fn generator_resumes_carry_their_command() {
    let e = rvalue_emitter();
    let next = Rvalue::GeneratorNext { generator: local(1, UNK, "g"), sent: Some(local(2, INT, "v")), resume: ResumeKind::Next };
    assert_eq!(e.rvalue_text_for_dest(&next, UNK).unwrap(), "g.resume(SmeltGeneratorCommand::Next(v))");
    let bare = Rvalue::GeneratorNext { generator: local(1, UNK, "g"), sent: None, resume: ResumeKind::Return };
    assert_eq!(e.rvalue_text_for_dest(&bare, UNK).unwrap(), "g.resume(SmeltGeneratorCommand::Return(Default::default()))");
    let thrown = Rvalue::GeneratorNext { generator: local(1, UNK, "g"), sent: None, resume: ResumeKind::Throw };
    assert_eq!(e.rvalue_text_for_dest(&thrown, UNK).unwrap(), "g.resume(SmeltGeneratorCommand::Throw(SmeltUnknown::Undefined))");
    let thrown_value = Rvalue::GeneratorNext { generator: local(1, UNK, "g"), sent: Some(local(2, INT, "v")), resume: ResumeKind::Throw };
    assert_eq!(e.rvalue_text_for_dest(&thrown_value, UNK).unwrap(), "g.resume(SmeltGeneratorCommand::Throw(SmeltUnknown::Number(v as f64)))");
    let done = Rvalue::GeneratorDone { result: local(3, RESULT, "r") };
    assert_eq!(e.rvalue_text_for_dest(&done, BOOL).unwrap(), "matches!(r, SmeltGeneratorResult::Complete(_))");
    assert_eq!(e.rvalue_text(&done).unwrap(), "matches!(r, SmeltGeneratorResult::Complete(_))");
    let value = Rvalue::GeneratorValue { result: local(3, RESULT, "r") };
    assert_eq!(
        e.rvalue_text_for_dest(&value, UNK).unwrap(),
        "match r { SmeltGeneratorResult::Yielded(value) => SmeltUnknown::Number(value as f64), SmeltGeneratorResult::Complete(value) => value }"
    );
    assert!(e.rvalue_text_for_dest(&Rvalue::GeneratorValue { result: local(3, INT, "r") }, UNK).is_err());
}

#[test]
fn array_literals_follow_their_destination() {
    let e = rvalue_emitter();
    let list = Rvalue::List(vec![local(1, INT, "a"), local(2, STR, "s")]);
    assert_eq!(e.rvalue_text_for_dest(&list, PAIR).unwrap(), "(a, s)");
    assert_eq!(e.rvalue_text_for_dest(&list, STR).unwrap(), "vec![a, s]");
    let ints = Rvalue::List(vec![local(1, INT, "a"), local(2, INT, "b")]);
    assert_eq!(
        e.rvalue_text_for_dest(&ints, LIST_INT).unwrap(),
        "Into::<SmeltList<_>>::into(SmeltList::from({ let smelt_list_items: Vec<i64> = vec![a, b]; smelt_list_items }))"
    );
    assert_eq!(
        e.rvalue_text_for_dest(&ints, OPT_LIST).unwrap(),
        "Some(Into::<SmeltList<_>>::into(SmeltList::from({ let smelt_list_items: Vec<i64> = vec![a, b]; smelt_list_items })))"
    );
    assert_eq!(
        e.rvalue_text_for_dest(&ints, UNK).unwrap(),
        "SmeltUnknown::Array(vec![SmeltUnknown::Number(a as f64), SmeltUnknown::Number(b as f64)].into())"
    );
    assert_eq!(
        e.rvalue_text_for_dest(&ints, UNION).unwrap(),
        "SmeltUnionIntStr::from_smelt_unknown(SmeltUnknown::Array(vec![SmeltUnknown::Number(a as f64), SmeltUnknown::Number(b as f64)].into()))"
    );
}

#[test]
fn set_literals_pick_their_backing() {
    let mut e = rvalue_emitter();
    assert_eq!(e.rvalue_text_for_dest(&Rvalue::SetLiteral(vec![]), SET_INT).unwrap(), "::std::collections::HashSet::new()");
    let items = Rvalue::SetLiteral(vec![local(1, INT, "a"), local(2, INT, "b")]);
    assert_eq!(e.rvalue_text_for_dest(&items, SET_INT).unwrap(), "::std::collections::HashSet::from([a, b])");
    e.facts[INT].hash_set_key_safe = false;
    assert_eq!(e.rvalue_text_for_dest(&Rvalue::SetLiteral(vec![]), SET_INT).unwrap(), "SmeltJsSet::new()");
    assert_eq!(e.rvalue_text_for_dest(&items, SET_INT).unwrap(), "SmeltJsSet::from([a, b])");
}

#[test]
fn tuple_literals_fill_trailing_slots() {
    let e = rvalue_emitter();
    let three = Rvalue::Tuple(vec![local(1, BOOL, "skip"), local(2, INT, "a"), local(3, STR, "s")]);
    assert_eq!(e.rvalue_text_for_dest(&three, PAIR).unwrap(), "(a, s)");
    assert!(e.rvalue_text_for_dest(&Rvalue::Tuple(vec![local(2, INT, "a")]), PAIR).is_err());
    assert_eq!(e.rvalue_text_for_dest(&Rvalue::Tuple(vec![local(2, INT, "a")]), UNK).unwrap(), "(a,)");
    assert_eq!(e.rvalue_text_for_dest(&Rvalue::Tuple(vec![]), UNK).unwrap(), "()");
    assert_eq!(e.rvalue_text_for_dest(&three, BOOL).unwrap(), "(skip, a, s)");
}

#[test]
fn conditionals_coerce_both_arms() {
    let e = rvalue_emitter();
    let cond = Rvalue::Conditional { cond: local(1, BOOL, "c"), then_operand: local(2, INT, "a"), else_operand: local(3, INT, "b") };
    assert_eq!(e.rvalue_text_for_dest(&cond, INT).unwrap(), "if c { a } else { b }");
    assert_eq!(
        e.rvalue_text_for_dest(&cond, UNK).unwrap(),
        "if c { SmeltUnknown::Number(a as f64) } else { SmeltUnknown::Number(b as f64) }"
    );
}

#[test]
fn unmodelled_forms_are_refused() {
    let e = rvalue_emitter();
    assert!(e.rvalue_text_for_dest(&Rvalue::Other, INT).is_err());
}

#[test]
fn values_already_in_the_union_are_not_wrapped_again() {
    let e = rvalue_emitter();
    let text = e.rvalue_text_for_dest(&Rvalue::Use(local(1, UNION, "u")), UNION).unwrap();
    assert!(!text.starts_with("SmeltUnionIntStr::from_smelt_unknown("));
    assert_eq!(text, "u");
}

#[test]
fn erased_literal_helpers_frame_their_elements() {
    let e = rvalue_emitter();
    assert_eq!(e.null_value_text(), "SmeltUnknown::Null");
    assert_eq!(e.erase_array_text("a, b"), "SmeltUnknown::Array(vec![a, b].into())");
    assert_eq!(e.erase_string_array_text("names"), "SmeltUnknown::Array(names.into_iter().map(SmeltUnknown::String).collect())");
    assert_eq!(e.erase_object_text("(k, v)"), "SmeltUnknown::Object(SmeltObject::new(Vec::from([(k, v)])))");
    assert_eq!(e.list_element_ty(LIST_INT).unwrap(), INT);
    assert!(e.list_element_ty(INT).is_err());
}

#[test]
fn rendered_values_erase_by_their_type() {
    let e = rvalue_emitter();
    let unknown = RenderedValue { text: "v".to_string(), ty: UNK, needs_parens: false };
    assert_eq!(e.erase_value(&unknown).unwrap(), "v");
    let int = RenderedValue { text: "n".to_string(), ty: INT, needs_parens: false };
    assert_eq!(e.erase_value(&int).unwrap(), "SmeltUnknown::Number(n as f64)");
}

fn bin(kind: BinOpKind, text: &str, lhs: Operand, rhs: Operand) -> Rvalue {
    Rvalue::Binary { op: BinOp { kind, text: text.to_string() }, lhs, rhs }
}

#[test]
fn plain_binary_operators_on_numbers_and_truth_values() {
    let e = rvalue_emitter();
    assert_eq!(e.rvalue_text_for_dest(&bin(BinOpKind::Add, "+", local(1, INT, "a"), local(2, INT, "b")), INT).unwrap(), "a + b");
    assert_eq!(e.rvalue_text_for_dest(&bin(BinOpKind::And, "&&", local(1, BOOL, "p"), local(2, BOOL, "q")), BOOL).unwrap(), "p && q");
    assert_eq!(
        e.rvalue_text_for_dest(&bin(BinOpKind::Shl, "<<", local(1, INT, "a"), local(2, INT, "b")), INT).unwrap(),
        "(((a).trunc() as i128) << (((b).trunc() as u32).min(127))) as i64"
    );
    let ushr = e.rvalue_text_for_dest(&bin(BinOpKind::UShr, ">>>", local(1, INT, "a"), local(2, INT, "b")), INT).unwrap();
    assert!(ushr.starts_with("{ let smelt_shift_value = (a).trunc(); "));
    assert!(ushr.ends_with("(smelt_shift_value >> (smelt_shift_count & 31)) as f64 }"));
    let bits = e.rvalue_text_for_dest(&bin(BinOpKind::BitXor, "^", local(1, INT, "a"), local(2, INT, "b")), INT).unwrap();
    assert!(bits.ends_with("(smelt_bit_lhs ^ smelt_bit_rhs) as i64 })"));
}

#[test]
fn string_concatenation_reads_both_sides_as_strings() {
    let e = rvalue_emitter();
    let mut s = local(1, STR, "s");
    let mut t = local(2, STR, "t");
    assert!(e.rvalue_text_for_dest(&bin(BinOpKind::Add, "+", local(1, STR, "s"), local(2, STR, "t")), STR).is_err());
    s.string_text = Some("s.clone()".to_string());
    t.string_text = Some("t.clone()".to_string());
    assert_eq!(e.rvalue_text_for_dest(&bin(BinOpKind::Add, "+", s, t), STR).unwrap(), "s.clone() + &t.clone()");
}

#[test]
fn nested_float_equalities_come_from_the_table() {
    let mut e = rvalue_emitter();
    e.float_equalities.push(FloatEquality {
        lhs: LIST_INT,
        rhs: LIST_INT,
        negated: false,
        before: "smelt_float_eq(&".to_string(),
        between: ", &".to_string(),
        after: ")".to_string(),
    });
    assert_eq!(
        e.rvalue_text_for_dest(&bin(BinOpKind::Eq, "==", local(1, LIST_INT, "xs"), local(2, LIST_INT, "ys")), BOOL).unwrap(),
        "smelt_float_eq(&xs, &ys)"
    );
}

#[test]
fn unary_operators() {
    let e = rvalue_emitter();
    let mut p = local(1, BOOL, "p");
    p.truthy_text = "p".to_string();
    assert_eq!(e.rvalue_text_for_dest(&Rvalue::Unary { op: UnaryOp::Not, operand: p }, BOOL).unwrap(), "!(p)");
    assert_eq!(e.rvalue_text_for_dest(&Rvalue::Unary { op: UnaryOp::Neg, operand: local(1, INT, "n") }, INT).unwrap(), "-n");
}

#[test]
fn calls_of_erased_function_values_dispatch_and_stay_erased() {
    let e = rvalue_emitter();
    let call = Rvalue::ClosureCall { callee: local(1, UNK, "f"), args: vec![local(2, STR, "s")] };
    assert_eq!(
        e.rvalue_text_for_dest(&call, UNK).unwrap(),
        lib::call_shapes::dynamic_callable_dispatch_text("f", "vec![SmeltUnknown::String(s)]")
    );
    let typed = Rvalue::ClosureCall { callee: local(1, INT, "g"), args: vec![] };
    assert!(e.rvalue_text_for_dest(&typed, UNK).is_err());
}

#[test]
fn awaits_read_the_awaited_place_and_null_awaits_default() {
    let mut e = rvalue_emitter();
    assert_eq!(e.rvalue_text_for_dest(&Rvalue::Await(local(1, UNK, "fut")), INT).unwrap(), "fut.await?");
    assert!(e.rvalue_text_for_dest(&Rvalue::Await(local(1, NUL, "nothing")), INT).is_err());
    e.facts[INT].default_text = Some("0".to_string());
    assert_eq!(e.rvalue_text_for_dest(&Rvalue::Await(local(1, NUL, "nothing")), INT).unwrap(), "0");
}

const COMMAND_MATCH: &str = ").await; let smelt_command = smelt_generator_input.borrow_mut().take().unwrap_or_else(|| SmeltGeneratorCommand::Next(Default::default())); match smelt_command { SmeltGeneratorCommand::Next(value) => value, SmeltGeneratorCommand::Return(value) => ";

#[test]
fn generator_yields_suspend_and_match_the_resuming_command() {
    let e = rvalue_emitter();
    let y = Rvalue::GeneratorYield { value: local(1, INT, "n"), cleanup_text: None, handler: None };
    assert_eq!(
        e.rvalue_text_for_dest(&y, UNK).unwrap(),
        format!("{{ co.yield_(SmeltUnknown::Number(n as f64){}return value, SmeltGeneratorCommand::Throw(error) => panic!(\"{{}}\", error) }} }}", COMMAND_MATCH)
    );
}

#[test]
fn generator_yields_run_cleanup_before_a_forced_return() {
    let mut e = rvalue_emitter();
    e.function.can_throw = true;
    let y = Rvalue::GeneratorYield { value: local(1, INT, "n"), cleanup_text: Some("drop(x);".to_string()), handler: None };
    assert_eq!(
        e.rvalue_text_for_dest(&y, UNK).unwrap(),
        format!(
            "{{ co.yield_(SmeltUnknown::Number(n as f64){}{{ let smelt_forced_return = value; drop(x); return Ok(smelt_forced_return) }}, SmeltGeneratorCommand::Throw(error) => {{ drop(x); panic!(\"{{}}\", error) }} }} }}",
            COMMAND_MATCH
        )
    );
}

#[test]
fn generator_yields_throw_into_their_handler() {
    let mut e = rvalue_emitter();
    e.facts[UNK].rust_text = Some("SmeltUnknown".to_string());
    e.function.locals = vec![LocalDecl { name: "e".to_string(), ty: UNK, temp: false, text: "e".to_string() }];
    let handler = YieldHandler { exception_local: Some(0), catch_text: "handle(e);".to_string() };
    let y = Rvalue::GeneratorYield { value: local(1, UNK, "u"), cleanup_text: None, handler: Some(handler) };
    assert_eq!(
        e.rvalue_text_for_dest(&y, UNK).unwrap(),
        format!("{{ co.yield_(u{}return value, SmeltGeneratorCommand::Throw(error) => {{ let e: SmeltUnknown = error;\nhandle(e); }} }} }}", COMMAND_MATCH)
    );
    let missing = YieldHandler { exception_local: Some(4), catch_text: String::new() };
    let bad = Rvalue::GeneratorYield { value: local(1, UNK, "u"), cleanup_text: None, handler: Some(missing) };
    assert!(e.rvalue_text_for_dest(&bad, UNK).is_err());
}
