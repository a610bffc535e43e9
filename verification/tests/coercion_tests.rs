use lib::instance_of::HostRegistry;
use lib::async_ops::RuntimeNames;
use lib::emitter::{Adapter, AdapterKind, FunctionEmitter};
use lib::mir::{
    BasicBlock, Capture, CaptureMode, ClassInfo, Constant, LocalDecl, MirClosure, MirFunction, Operand,
    OperandKind, Place, Rvalue, Statement, Terminator, FunctionOrigin,
};
use lib::operand_uses::AbsentSpelling;
use lib::types::{ClassKind, FunctionType, Piece, Template, Type, TypeFacts};

fn facts() -> TypeFacts {
    TypeFacts {
        erased_class: false,
        concrete_union: false,
        rust_text: None,
        default_text: None,
        hash_set_key_safe: false,
        smelt_record_key: false,
        js_key_map_key: false,
        reference_class: false,
        interface_record: false,
        class_kind: ClassKind::Plain,
        type_param_in_scope: false,
        erased_unknown_rest_function: false,
        no_known_fields: false,
        contains_function: false,
        contains_unknown: false,
        smelt_args_text: None,
        class_object: None,
        call_field_ty: None,
        match_fn_result: false,
        match_fn_result_class: false,
        match_value_ty: None,
        key_to_string: None,
        object_record: None,
        callback_params: None,
        shared_ref_params: vec![],
        union_erase: None,
        borrowed_handle: None,
        class_checks: vec![],
        thrown_payload: None,
        callback_param_by_ref: false,
        callback_arg_forms: vec![],
        tag_checks: vec![],
        record_fields: vec![],
    }
}

fn around(prefix: &str, suffix: &str) -> Template {
    Template {
        pieces: vec![
            Piece::Lit(prefix.to_string()),
            Piece::Hole,
            Piece::Lit(suffix.to_string()),
        ],
    }
}

const UNKNOWN: usize = 0;
const NULLISH: usize = 1;
const BOOL: usize = 2;
const INT: usize = 3;
const FLOAT: usize = 4;
const STR: usize = 5;
const LIST_INT: usize = 6;
const LIST_FLOAT: usize = 7;
const OPT_INT: usize = 8;
const FUT_INT: usize = 9;
const FUT_FLOAT: usize = 10;
const TUP_INT_STR: usize = 11;
const TUP_FLOAT_STR: usize = 12;
const DICT_STR_INT: usize = 13;
const OPT_UNKNOWN: usize = 14;
const FN_INT: usize = 15;
const CALLABLE: usize = 16;
const LIST_NULLISH: usize = 17;
const LIST_UNKNOWN: usize = 18;
const SET_INT: usize = 19;

fn table() -> Vec<Type> {
    vec![
        Type::Unknown,
        Type::Nullish,
        Type::Bool,
        Type::Int,
        Type::Float,
        Type::Str,
        Type::List(INT),
        Type::List(FLOAT),
        Type::Optional(INT),
        Type::Future(INT),
        Type::Future(FLOAT),
        Type::Tuple(vec![INT, STR]),
        Type::Tuple(vec![FLOAT, STR]),
        Type::Dict(STR, INT),
        Type::Optional(UNKNOWN),
        Type::Function(FunctionType {
            params: vec![INT],
            return_ty: INT,
            may_throw: false,
            rest: None,
            required_params: None,
            mutable_params: vec![],
        }),
        Type::Class { name: 0, args: vec![] },
        Type::List(NULLISH),
        Type::List(UNKNOWN),
        Type::SetOf(INT),
    ]
}

fn emitter() -> FunctionEmitter {
    let types = table();
    let mut all: Vec<TypeFacts> = types.iter().map(|_| facts()).collect();
    all[INT].default_text = Some("0_i64".to_string());
    all[FLOAT].default_text = Some("0.0".to_string());
    all[STR].default_text = Some("String::new()".to_string());
    all[LIST_INT].default_text = Some("SmeltList::new(Vec::new())".to_string());
    all[DICT_STR_INT].rust_text = Some("SmeltRecord<i64>".to_string());
    all[CALLABLE].call_field_ty = Some(FN_INT);
    all[SET_INT].hash_set_key_safe = false;
    FunctionEmitter {
        types,
        facts: all,
        symbols: vec!["Callable".to_string(), "length".to_string(), "source".to_string()],
        symbol_idents: vec!["Callable".to_string(), "length".to_string(), "source".to_string()],
        none_ty: NULLISH,
        list_read: around("(", ").borrow()"),
        adapters: vec![],
        optional_coercions: vec![],
        map_backing_pairs: vec![],
        borrowed_captures: vec![],
        declared_locals: vec![],
        mutable_locals: vec![],
        function: MirFunction { id: 0, params: vec![], locals: vec![], blocks: vec![], is_async: false, is_generator: false, can_throw: false, return_ty: 0, origin: FunctionOrigin::Body, rust_name: String::new(), call_suffix: String::new() },
        functions: vec![],
        closures: vec![],
        classes: vec![],
        regexp_literal: around("", ".source()"),
        byte_buffer_elements: "smelt_byte_buffer_elements".to_string(),
        arguments_elements: "smelt_arguments_elements".to_string(),
        propagates_errors: false,
        trunc_f64: Template { pieces: vec![Piece::Lit("(".to_string()), Piece::Hole, Piece::Lit(").trunc()".to_string())] },
        float_equalities: vec![],
        host: HostRegistry { objects: vec![], overrides: vec![], error_classes: vec![] },
        runtime: runtime_names(),
    }
}

fn local(l: usize, ty: usize, text: &str) -> Operand {
    Operand::new(OperandKind::Copy(Place::Local(l)), ty, text, text)
}

fn konst(c: Constant, ty: usize, text: &str) -> Operand {
    Operand::new(OperandKind::Const(c), ty, text, text)
}

#[test]
fn same_type_text_is_unchanged() {
    let e = emitter();
    assert_eq!(e.value_at_type_text("x", INT, INT).unwrap(), "x");
}

#[test]
fn int_text_casts_to_float() {
    let e = emitter();
    assert_eq!(e.value_at_type_text("x", INT, FLOAT).unwrap(), "(x as f64)");
}

#[test]
fn float_text_truncates_to_int() {
    let e = emitter();
    assert_eq!(
        e.value_at_type_text("x", FLOAT, INT).unwrap(),
        "((x as f64).trunc() as i64)"
    );
}

#[test]
fn string_text_parses_to_float() {
    let e = emitter();
    assert_eq!(
        e.value_at_type_text("s", STR, FLOAT).unwrap(),
        "s.parse::<f64>().unwrap_or(0.0)"
    );
}

#[test]
fn bool_text_stringifies() {
    let e = emitter();
    assert_eq!(e.value_at_type_text("b", BOOL, STR).unwrap(), "b.to_string()");
}

#[test]
fn value_wraps_into_its_option() {
    let e = emitter();
    assert_eq!(e.value_at_type_text("x", INT, OPT_INT).unwrap(), "Some(x)");
}

#[test]
fn option_unwraps_with_the_target_default() {
    let e = emitter();
    assert_eq!(
        e.value_at_type_text("o", OPT_INT, INT).unwrap(),
        "o.clone().unwrap_or(0_i64)"
    );
}

#[test]
fn option_maps_into_another_type() {
    let e = emitter();
    assert_eq!(
        e.value_at_type_text("o", OPT_INT, FLOAT).unwrap(),
        "o.clone().map_or(0.0, |value| (value as f64))"
    );
}

#[test]
fn future_item_is_coerced_after_await() {
    let e = emitter();
    assert_eq!(
        e.value_at_type_text("f", FUT_INT, FUT_FLOAT).unwrap(),
        "{ let smelt_source_future = f; SmeltFuture::from_future(Box::pin(async move { let smelt_future_value = smelt_source_future.await?; Ok::<_, Box<dyn std::error::Error>>((smelt_future_value as f64)) })) }"
    );
}

#[test]
fn list_items_are_remapped() {
    let e = emitter();
    assert_eq!(
        e.value_at_type_text("xs", LIST_INT, LIST_FLOAT).unwrap(),
        "{ let smelt_l: SmeltList<_> = (xs).clone().into(); SmeltList::with_id(smelt_l.id(), smelt_l.into_iter().map(|value| (value as f64)).collect::<Vec<_>>()) }"
    );
}

#[test]
fn tuple_of_trivial_place_is_projected_inline() {
    let e = emitter();
    assert_eq!(
        e.value_at_type_text("pair", TUP_INT_STR, TUP_FLOAT_STR).unwrap(),
        "((pair.0 as f64), pair.1)"
    );
}

#[test]
fn tuple_of_call_is_bound_once() {
    let e = emitter();
    assert_eq!(
        e.value_at_type_text("make()", TUP_INT_STR, TUP_FLOAT_STR).unwrap(),
        "{ let smelt_tuple_src = make(); ((smelt_tuple_src.0 as f64), smelt_tuple_src.1) }"
    );
}

#[test]
fn value_erases_into_unknown() {
    let e = emitter();
    assert_eq!(
        e.value_at_type_text("x", INT, UNKNOWN).unwrap(),
        "SmeltUnknown::Number(x as f64)"
    );
}

#[test]
fn unknown_extracts_through_the_target_reader() {
    let e = emitter();
    assert_eq!(
        e.value_at_type_text("u", UNKNOWN, INT).unwrap(),
        "match u.clone() { SmeltUnknown::Number(value) => value as i64, SmeltUnknown::Object(value) => match value.get(\"__smelt_date\") { Some(SmeltUnknown::Number(value)) => value as i64, _ => 0_i64 }, SmeltUnknown::String(value) => value.parse::<f64>().unwrap_or(f64::NAN) as i64, SmeltUnknown::Bool(value) => if value { 1_i64 } else { 0_i64 }, SmeltUnknown::Null | SmeltUnknown::Undefined | SmeltUnknown::Symbol(_) | SmeltUnknown::Array(_) | SmeltUnknown::Function(_) | SmeltUnknown::Promise(_) => 0_i64 }"
    );
}

#[test]
fn nullish_source_takes_the_target_default() {
    let e = emitter();
    assert_eq!(e.value_at_type_text("v", NULLISH, STR).unwrap(), "String::new()");
}

#[test]
fn nullish_source_without_default_fails() {
    let e = emitter();
    assert!(e.value_at_type_text("v", NULLISH, LIST_FLOAT).is_err());
}

#[test]
fn callable_object_reads_its_call_slot() {
    let e = emitter();
    assert_eq!(
        e.value_at_type_text("obj", CALLABLE, FN_INT).unwrap(),
        "obj.__smelt_call.clone().clone()"
    );
}

#[test]
fn expansion_already_in_progress_is_refused() {
    let stack = vec![(CALLABLE, FN_INT)];
    assert!(FunctionEmitter::enter_type_expansion(&stack, CALLABLE, FN_INT).is_none());
    let pushed = FunctionEmitter::enter_type_expansion(&stack, INT, FN_INT).unwrap();
    assert_eq!(pushed, vec![(CALLABLE, FN_INT), (INT, FN_INT)]);
}

#[test]
fn call_slot_is_skipped_inside_its_own_expansion() {
    let e = emitter();
    let stack = vec![(CALLABLE, FN_INT)];
    assert_eq!(
        e.callable_object_call_slot_text("obj", CALLABLE, FN_INT, &stack).unwrap(),
        None
    );
}

#[test]
fn union_adapter_comes_first() {
    let mut e = emitter();
    let union = e.types.len();
    e.types.push(Type::Union(vec![INT, STR]));
    e.facts.push(facts());
    e.adapters.push(Adapter {
        kind: AdapterKind::InjectUnion,
        source: INT,
        target: union,
        template: around("SmeltUnion0::Int(", ")"),
    });
    assert_eq!(e.value_at_type_text("x", INT, union).unwrap(), "SmeltUnion0::Int(x)");
}

#[test]
fn list_default_is_given_its_typed_default() {
    let e = emitter();
    assert_eq!(
        e.value_at_type_text("Default::default()", LIST_INT, LIST_INT).unwrap(),
        "SmeltList::new(Vec::new())"
    );
}

#[test]
fn list_reads_back_as_tuple() {
    let e = emitter();
    let mut types = table();
    types.push(Type::Tuple(vec![INT, INT]));
    let mut e2 = e;
    e2.types = types;
    e2.facts.push(facts());
    assert_eq!(
        e2.value_at_type_text("xs", LIST_INT, 20).unwrap(),
        "{ let smelt_tuple_values = xs.to_vec(); (smelt_tuple_values.get(0).cloned().unwrap_or(0_i64), smelt_tuple_values.get(1).cloned().unwrap_or(0_i64)) }"
    );
}

#[test]
fn list_rekeys_into_a_dict() {
    let mut e = emitter();
    e.types.push(Type::Dict(STR, FLOAT));
    let mut f = facts();
    f.rust_text = Some("SmeltRecord<f64>".to_string());
    e.facts.push(f);
    assert_eq!(
        e.value_at_type_text("xs", LIST_INT, 20).unwrap(),
        "xs.into_iter().enumerate().map(|(index, value)| (index.to_string(), (value as f64))).collect::<SmeltRecord<f64>>()"
    );
}

#[test]
fn operand_at_its_own_type_is_its_text() {
    let e = emitter();
    let op = local(0, INT, "x.clone()");
    assert_eq!(e.value_at_type(&op, INT).unwrap(), "x.clone()");
}

#[test]
fn operand_int_casts_without_parentheses() {
    let e = emitter();
    let op = local(0, INT, "x");
    assert_eq!(e.value_at_type(&op, FLOAT).unwrap(), "x as f64");
}

#[test]
fn null_constant_keeps_its_tag_in_an_erased_option() {
    let e = emitter();
    let op = konst(Constant::Null, NULLISH, "()");
    assert_eq!(e.value_at_type(&op, OPT_UNKNOWN).unwrap(), "Some(SmeltUnknown::Null)");
}

#[test]
fn undefined_constant_takes_the_default() {
    let e = emitter();
    let op = konst(Constant::Undefined, NULLISH, "()");
    assert_eq!(e.value_at_type(&op, INT).unwrap(), "0_i64");
}

#[test]
fn element_read_keeps_its_undefined_when_erased() {
    let e = emitter();
    let mut op = local(0, INT, "xs[0]");
    op.erased_element_read = Some("smelt_read(xs, 0)".to_string());
    assert_eq!(e.value_at_type(&op, UNKNOWN).unwrap(), "smelt_read(xs, 0)");
}

#[test]
fn string_length_field_erases_as_a_number() {
    let mut e = emitter();
    e.function.locals.push(LocalDecl { name: "s".to_string(), ty: STR, temp: false, text: "s".to_string() });
    let op = Operand::new(
        OperandKind::Copy(Place::Field { base: 0, field: 1 }),
        UNKNOWN,
        "s.length",
        "s.length",
    );
    assert_eq!(
        e.value_at_type(&op, UNKNOWN).unwrap(),
        "SmeltUnknown::Number((s.chars().count() as i64) as f64)"
    );
}

#[test]
fn string_field_of_undeclared_local_fails() {
    let e = emitter();
    let op = Operand::new(
        OperandKind::Copy(Place::Field { base: 7, field: 1 }),
        UNKNOWN,
        "s.length",
        "s.length",
    );
    assert!(e.value_at_type(&op, UNKNOWN).is_err());
}

#[test]
fn erase_of_undefined_constant() {
    let e = emitter();
    let op = konst(Constant::Undefined, NULLISH, "()");
    assert_eq!(e.erase(&op).unwrap(), "SmeltUnknown::Undefined");
}

#[test]
fn undefined_list_literal_erases_to_undefined_items() {
    let mut e = emitter();
    e.function.locals.push(LocalDecl { name: "xs".to_string(), ty: LIST_NULLISH, temp: false, text: "xs".to_string() });
    e.function.blocks.push(BasicBlock {
        statements: vec![Statement::Assign {
            dest: 0,
            value: Rvalue::List(vec![
                konst(Constant::Undefined, NULLISH, "()"),
                konst(Constant::Undefined, NULLISH, "()"),
            ]),
        }],
        terminator: None,
    });
    let op = local(0, LIST_NULLISH, "xs.clone()");
    assert!(e.list_local_all_undefined_constants(&op));
    assert_eq!(
        e.erase(&op).unwrap(),
        "{ let smelt_l = xs.clone(); let smelt_id = smelt_l.id(); let smelt_values: Vec<_> = smelt_l.into(); SmeltUnknown::Array(SmeltArray::with_id(smelt_id, smelt_values.into_iter().map(|value| SmeltUnknown::Undefined).collect::<Vec<_>>())) }"
    );
}

#[test]
fn reassigned_list_local_is_not_all_undefined() {
    let mut e = emitter();
    e.function.blocks.push(BasicBlock {
        statements: vec![
            Statement::Assign {
                dest: 0,
                value: Rvalue::List(vec![konst(Constant::Undefined, NULLISH, "()")]),
            },
            Statement::Assign { dest: 0, value: Rvalue::Other },
        ],
        terminator: None,
    });
    let op = local(0, LIST_NULLISH, "xs.clone()");
    assert!(!e.list_local_all_undefined_constants(&op));
}

#[test]
fn identity_key_drops_the_value_clone() {
    let mut e = emitter();
    e.function.locals.push(LocalDecl { name: "s".to_string(), ty: SET_INT, temp: false, text: "s".to_string() });
    e.function.locals.push(LocalDecl { name: "t".to_string(), ty: SET_INT, temp: true, text: "t".to_string() });
    assert_eq!(
        e.list_local_identity_key(&local(0, SET_INT, "s.clone()")).unwrap(),
        Some("s".to_string())
    );
    assert_eq!(e.list_local_identity_key(&local(1, SET_INT, "t.clone()")).unwrap(), None);
    assert!(e.list_local_identity_key(&local(5, SET_INT, "u.clone()")).is_err());
}

#[test]
fn extract_unwraps_a_concrete_option_first() {
    let e = emitter();
    let op = local(0, OPT_INT, "o");
    assert_eq!(e.extract(&op, INT).unwrap(), "o.clone().unwrap_or(0_i64)");
}

#[test]
fn extract_reads_an_erased_value() {
    let e = emitter();
    let op = local(0, UNKNOWN, "u");
    assert!(e.extract(&op, BOOL).unwrap().starts_with("match u.clone() { SmeltUnknown::Null | SmeltUnknown::Undefined => false,"));
}

#[test]
fn erase_twins_agree_on_a_string() {
    let e = emitter();
    let op = konst(Constant::Str("a".to_string()), STR, "\"a\".to_owned()");
    assert_eq!(
        e.erase(&op).unwrap(),
        e.erase_value_text("\"a\".to_owned()", STR).unwrap()
    );
}

#[test]
fn erasing_unknown_keeps_the_text() {
    let e = emitter();
    assert_eq!(e.erase_value_text("u", UNKNOWN).unwrap(), "u");
}

#[test]
fn incompatibility_is_symmetric_on_scalars() {
    let e = emitter();
    assert_eq!(
        e.equality_shapes_are_definitely_incompatible(INT, STR),
        e.equality_shapes_are_definitely_incompatible(STR, INT)
    );
    assert!(e.equality_shapes_are_definitely_incompatible(BOOL, STR));
    assert!(!e.equality_shapes_are_definitely_incompatible(INT, FLOAT));
}

#[test]
fn parameter_is_instantiated_by_itself() {
    let e = emitter();
    assert!(e.generic_param_instantiated_by(TUP_INT_STR, TUP_INT_STR, &vec![]));
}

#[test]
fn prototype_probe_erases_its_operand() {
    let e = emitter();
    let op = local(0, INT, "n");
    assert_eq!(
        e.prototype_sentinel_text(&op).unwrap(),
        "smelt_prototype_sentinel(&(SmeltUnknown::Number(n as f64)))"
    );
    assert_eq!(e.box_primitive_text(&op).unwrap(), "smelt_box_value(SmeltUnknown::Number(n as f64))");
    assert_eq!(
        e.structured_clone_text(&op).unwrap(),
        "smelt_structured_clone(SmeltUnknown::Number(n as f64))"
    );
}

#[test]
fn match_index_casts_the_group_number() {
    let e = emitter();
    let op = local(0, INT, "i");
    assert_eq!(e.match_index_text("m", &op).unwrap(), "m.group_owned(i as usize)");
}

#[test]
fn record_read_returns_an_owned_option() {
    let mut e = emitter();
    e.facts[STR].smelt_record_key = true;
    let op = local(0, STR, "k");
    assert_eq!(e.dict_index_optional_read_text("r", STR, &op).unwrap(), "r.get(&k)");
    e.facts[STR].smelt_record_key = false;
    assert_eq!(e.dict_index_optional_read_text("r", STR, &op).unwrap(), "r.get(&k).cloned()");
}

#[test]
fn optional_arithmetic_operand_defaults() {
    let e = emitter();
    let op = local(0, OPT_INT, "o");
    assert_eq!(e.option_value_text(&op, INT), "o.unwrap_or(0_i64)");
    assert_eq!(
        e.option_value_as_type_text(&op, INT, FLOAT).unwrap(),
        "(o.unwrap_or(0_i64) as f64)"
    );
}

#[test]
fn awaited_operand_uses_its_place() {
    let e = emitter();
    let op = Operand::new(OperandKind::Move(Place::Local(0)), FUT_INT, "f.clone()", "f");
    assert_eq!(e.await_operand_text(&op), "f");
    assert!(!e.awaited_operand_is_erased(&op));
}

#[test]
fn list_literal_reads_moved_locals_as_copies() {
    let e = emitter();
    let op = Operand::new(OperandKind::Move(Place::Local(3)), INT, "x", "x");
    let copied = e.list_literal_operand(&op);
    assert!(matches!(copied.kind, OperandKind::Copy(Place::Local(3))));
}

#[test]
fn set_pair_must_share_a_set_type() {
    let e = emitter();
    let a = local(0, SET_INT, "a");
    let b = local(1, INT, "b");
    assert_eq!(e.validate_set_pair_operands(&a, &a, "union").unwrap(), SET_INT);
    assert_eq!(
        e.validate_set_pair_operands(&a, &b, "union").unwrap_err().message,
        "union operands must have the same set type"
    );
    assert_eq!(
        e.validate_set_pair_operands(&b, &b, "union").unwrap_err().message,
        "union operands must be sets"
    );
}

#[test]
fn regexp_last_index_reads_the_cell() {
    let mut e = emitter();
    e.symbols.push("lastIndex".to_string());
    assert_eq!(
        e.regexp_field_text("re", 3).unwrap(),
        "(*re.last_index.borrow() as f64)"
    );
    assert!(e.regexp_field_text("re", 99).is_err());
}

#[test]
fn timer_arguments_are_read_through_the_list() {
    let e = emitter();
    let op = local(0, LIST_UNKNOWN, "args");
    assert_eq!(
        e.timer_extra_args_binding(Some(&op)).unwrap(),
        "let smelt_timer_args: Vec<SmeltUnknown> = (args).borrow().iter().cloned().collect(); "
    );
    assert_eq!(e.timer_extra_args_binding(None).unwrap(), "");
}

#[test]
fn erased_call_arguments_are_packed() {
    let e = emitter();
    let args = vec![local(0, INT, "a"), local(1, UNKNOWN, "b")];
    assert_eq!(
        e.erased_call_args_text(&args).unwrap(),
        "vec![SmeltUnknown::Number(a as f64), b]"
    );
}

#[test]
fn place_callback_is_hoisted() {
    let e = emitter();
    let (prelude, cb) = e.promise_callback_hoist(&local(0, FN_INT, "cb"));
    assert_eq!(prelude, "let smelt_promise_callback = (cb).clone(); ");
    assert_eq!(cb, "smelt_promise_callback");
}

#[test]
fn function_table_quotes_its_keys() {
    let e = emitter();
    let key = local(0, STR, "k");
    let cases = vec![("a\"b".to_string(), local(1, INT, "f"))];
    assert_eq!(
        e.function_table_lookup_text(&key, &cases, INT).unwrap(),
        "{ let __smelt_function_key = k; match __smelt_function_key.as_str() { \"a\\\"b\" => f, _ => panic!(\"unknown function table key: {}\", __smelt_function_key) } }"
    );
}

#[test]
fn console_prints_inside_an_option() {
    let e = emitter();
    let op = local(0, OPT_INT, "o");
    let (spec, text) = e.console_arg_text(&op, &AbsentSpelling::Undefined).unwrap();
    assert_eq!(spec, "{}");
    assert_eq!(
        text,
        "match &o { Some(value) => format!(\"{}\", value), None => \"undefined\".to_owned() }"
    );
    let (spec, text) = e.console_arg_text(&local(1, NULLISH, "n"), &AbsentSpelling::Null).unwrap();
    assert_eq!((spec, text.as_str()), ("{}", "\"null\""));
}

#[test]
fn console_optional_requires_an_option() {
    let e = emitter();
    assert!(e.console_optional_text(&local(0, INT, "x"), &AbsentSpelling::Null).is_err());
}

#[test]
fn body_awaits_and_yields_a_future() {
    let mut e = emitter();
    assert!(!e.closure_body_awaits());
    assert_eq!(e.closure_yields_future_value().unwrap(), false);
    e.function.blocks.push(BasicBlock {
        statements: vec![Statement::Assign {
            dest: 1,
            value: Rvalue::Await(local(0, FUT_INT, "f")),
        }],
        terminator: Some(Terminator::Return(local(2, FUT_INT, "g"))),
    });
    assert!(e.closure_body_awaits());
    assert_eq!(e.closure_yields_future_value().unwrap(), true);
    e.function.blocks.push(BasicBlock {
        statements: vec![],
        terminator: Some(Terminator::Return(local(3, INT, "h"))),
    });
    assert_eq!(e.closure_yields_future_value().unwrap(), false);
}

#[test]
fn copies_are_followed_to_their_source() {
    let mut e = emitter();
    e.function.blocks.push(BasicBlock {
        statements: vec![
            Statement::Assign { dest: 2, value: Rvalue::Use(local(1, INT, "b")) },
            Statement::Assign { dest: 1, value: Rvalue::Use(local(0, INT, "a")) },
        ],
        terminator: None,
    });
    assert_eq!(e.closure_source_local(2), 0);
    assert_eq!(e.closure_source_local(5), 5);
}

#[test]
fn assignment_after_capture_is_detected() {
    let mut e = emitter();
    e.closures.push(MirClosure {
        params: vec![],
        captures: vec![Capture { source_local: 4, target_local: None, mode: CaptureMode::ByValue, borrowed_callback: false }],
        escapes: false,
        locals: vec![],
        blocks: vec![],
        return_ty: 0,
        can_throw: false,
        rest: None,
        required_params: None,
        smelt_args_text: String::new(),
        function_item_key: None,
    });
    e.function.blocks.push(BasicBlock {
        statements: vec![
            Statement::Assign { dest: 5, value: Rvalue::Closure { id: 0, text: String::new(), rewritten_text: String::new() } },
            Statement::Assign { dest: 4, value: Rvalue::Other },
        ],
        terminator: None,
    });
    assert!(e.local_is_assigned_after_capture(4));
    assert!(!e.local_is_assigned_after_capture(3));
}

fn class(name: usize, base: Option<usize>) -> ClassInfo {
    ClassInfo {
        name,
        base,
        abstract_methods: vec![],
        rust_name: format!("C{name}"),
        type_params: vec![],
        field_names: vec![],
    }
}

#[test]
fn class_inheritance_walks_the_base_chain() {
    let mut e = emitter();
    e.classes = vec![class(10, Some(11)), class(11, Some(12)), class(12, None)];
    assert!(e.class_extends_or_equals(10, 10));
    assert!(e.class_extends_or_equals(10, 12));
    assert!(!e.class_extends_or_equals(12, 10));
}

#[test]
fn abstract_method_gets_an_erased_placeholder() {
    let mut e = emitter();
    let mut c = class(10, None);
    c.abstract_methods = vec![7];
    e.classes = vec![c];
    assert!(e.abstract_class_method_reference_text(10, 7).unwrap().unwrap().starts_with("SmeltUnknown::Function("));
    assert_eq!(e.abstract_class_method_reference_text(10, 8).unwrap(), None);
    assert_eq!(e.abstract_class_method_reference_text(11, 7).unwrap(), None);
}

#[test]
fn generic_self_clone_names_each_field() {
    let mut e = emitter();
    let mut c = class(10, None);
    c.type_params = vec![0, 1];
    c.field_names = vec!["a".to_string(), "b".to_string()];
    e.classes = vec![c];
    assert_eq!(
        e.self_struct_clone_text(10).unwrap(),
        "C10::<SmeltUnknown, SmeltUnknown> { a: self.a.clone(), b: self.b.clone(), _smelt_phantom: ::std::marker::PhantomData }"
    );
    assert_eq!(e.self_struct_clone_text(99).unwrap(), "(*self).clone()");
}

#[test]
fn blob_of_string_parts_uses_the_typed_constructor() {
    let mut e = emitter();
    e.types.push(Type::List(STR));
    e.facts.push(facts());
    let parts = local(0, 20, "parts");
    let ty = local(1, STR, "ty");
    assert_eq!(
        e.blob_new_text(&parts, &ty, None, None).unwrap(),
        "SmeltBlob::from_string_parts((parts).clone().into(), (ty).clone(), None, None)"
    );
}

#[test]
fn shared_mutation_needs_an_identity_type() {
    let mut e = emitter();
    assert!(e.parameter_type_has_shared_mutation_semantics(LIST_INT));
    assert!(!e.parameter_type_has_shared_mutation_semantics(INT));
    e.facts[CALLABLE].reference_class = true;
    assert!(!e.parameter_type_has_shared_mutation_semantics(CALLABLE));
}

#[test]
fn optional_context_matches_its_flat_local() {
    let e = emitter();
    assert!(e.optional_target_matches_flat_local(OPT_INT, INT));
    assert!(e.optional_target_matches_flat_local(OPT_INT, UNKNOWN));
    assert!(!e.optional_target_matches_flat_local(OPT_INT, STR));
    assert!(!e.optional_target_matches_flat_local(INT, INT));
}

#[test]
fn trivial_place_is_also_cheap_to_reevaluate() {
    assert!(FunctionEmitter::expression_text_is_trivial_place("a.b.0"));
    assert!(lib::coercion::is_trivial_reeval_expr("a.b.0"));
    assert!(!FunctionEmitter::expression_text_is_trivial_place("0a"));
    assert!(!FunctionEmitter::expression_text_is_trivial_place("f(x)"));
}

#[test]
fn erased_value_extracts_into_a_string_list() {
    let mut e = emitter();
    e.types.push(Type::List(STR));
    e.facts.push(facts());
    let out = e.extract_value_text("u", 20).unwrap();
    assert!(out.starts_with("{ let smelt_src = (u).clone().into_smelt_unknown();"));
    assert!(out.contains("SmeltUnknown::Array(values) => values.into_iter().map(|value| if let SmeltUnknown::String(value) = value { value } else { value.to_string() }).collect::<Vec<_>>()"));
    assert!(out.contains("smelt_byte_buffer_elements(&SmeltUnknown::Object(value.clone()))"));
}

#[test]
fn concat_expression_is_already_a_list() {
    let e = emitter();
    assert_eq!(e.extract_value_text("a.concat(b)", LIST_INT).unwrap(), "a.concat(b)");
}

#[test]
fn bare_default_extracts_to_a_typed_literal() {
    let e = emitter();
    assert_eq!(e.extract_value_text("Default::default()", INT).unwrap(), "0_i64");
    assert_eq!(e.extract_value_text("Default::default()", OPT_INT).unwrap(), "None");
    assert_eq!(e.extract_value_text("Default::default()", NULLISH).unwrap(), "()");
}

#[test]
fn erased_option_reads_a_call_once() {
    let e = emitter();
    assert_eq!(
        e.extract_value_text("f(x)", OPT_INT).unwrap(),
        format!(
            "{{ let smelt_optional_source = f(x); if smelt_unknown_is_nullish(&smelt_optional_source.clone()) {{ None }} else {{ Some({}) }} }}",
            e.extract_value_text("smelt_optional_source", INT).unwrap()
        )
    );
}

#[test]
fn erased_tuple_reads_each_slot() {
    let e = emitter();
    let out = e.extract_value_text("u", TUP_INT_STR).unwrap();
    assert!(out.starts_with("if let SmeltUnknown::Array(smelt_tuple_values) = u.clone() { ("));
    assert!(out.ends_with(") } else { panic!(\"unknown is not tuple\") }"));
    assert!(out.contains("smelt_tuple_values.get(1).cloned().unwrap_or(SmeltUnknown::Null)"));
}

#[test]
fn erased_future_awaits_through_flattening() {
    let e = emitter();
    let out = e.extract_value_text("p", FUT_INT).unwrap();
    assert!(out.starts_with("{ let smelt_erased_future = (p).into_smelt_unknown(); SmeltFuture::from_future(Box::pin(async move { let smelt_awaited = smelt_await_flatten(smelt_erased_future).await?; Ok::<_, Box<dyn std::error::Error>>(match smelt_awaited.clone() {"));
}

#[test]
fn erased_rest_callback_keeps_its_length() {
    let mut e = emitter();
    e.facts[FN_INT].erased_unknown_rest_function = true;
    e.facts[FN_INT].default_text = Some("noop()".to_string());
    let out = e.extract_value_text("u", FN_INT).unwrap();
    assert!(out.contains("length: 1.0, object:"));
    assert!(out.ends_with("} else { noop() } }"));
}

#[test]
fn generator_cannot_be_extracted() {
    let mut e = emitter();
    e.types.push(Type::Generator);
    e.facts.push(facts());
    assert!(e.extract_value_text("u", 20).is_err());
}

fn runtime_names() -> RuntimeNames {
    RuntimeNames {
        sleep_ms: "smelt_sleep_ms".to_string(),
        set_timeout: "smelt_set_timeout".to_string(),
        clear_timeout: "smelt_clear_timeout".to_string(),
        set_interval: "smelt_set_interval".to_string(),
        clear_interval: "smelt_clear_interval".to_string(),
        promise_race: "smelt_promise_race".to_string(),
        run_until_exit: "smelt_run_until_exit".to_string(),
        spawn_promise_task: "smelt_spawn_promise_task".to_string(),
        throw_fn: "smelt_throw".to_string(),
        json_parse: "smelt_json_parse".to_string(),
        decode_uri: "smelt_decode_uri".to_string(),
        decode_uri_component: "smelt_decode_uri_component".to_string(),
        undefined_thrown_payload: "smelt_throw(SmeltUnknown::Undefined)".to_string(),
        fetch_request: Template { pieces: vec![] },
    }
}

#[test]
fn list_local_assigned_two_literals_is_not_all_undefined() {
    let mut e = emitter();
    e.function.blocks.push(BasicBlock {
        statements: vec![
            Statement::Assign { dest: 0, value: Rvalue::List(vec![konst(Constant::Undefined, NULLISH, "()")]) },
            Statement::Assign { dest: 0, value: Rvalue::List(vec![konst(Constant::Undefined, NULLISH, "()")]) },
        ],
        terminator: None,
    });
    let op = local(0, LIST_NULLISH, "xs.clone()");
    assert!(!e.list_local_all_undefined_constants(&op));
}

#[test]
fn int_operand_at_float_is_a_bare_cast() {
    let e = emitter();
    assert_eq!(e.value_at_type(&local(0, INT, "n"), FLOAT).unwrap(), "n as f64");
}
