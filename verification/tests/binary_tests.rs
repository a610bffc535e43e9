use lib::binary_text::{BinOp, BinOpKind};
use lib::instance_of::HostRegistry;
use lib::async_ops::RuntimeNames;
use lib::emitter::FunctionEmitter;
use lib::mir::{Constant, MirFunction, Operand, OperandKind, Place, FunctionOrigin};
use lib::types::{ClassKind, FunctionType, Piece, Template, Type, TypeFacts};

fn blank_facts() -> TypeFacts {
    TypeFacts {
        erased_class: false,
        concrete_union: false,
        rust_text: None,
        default_text: None,
        hash_set_key_safe: false,
        smelt_record_key: false,
        js_key_map_key: false,
        reference_class: false,
        interface_record: false,
        class_kind: ClassKind::Plain,
        type_param_in_scope: false,
        erased_unknown_rest_function: false,
        no_known_fields: false,
        contains_function: false,
        contains_unknown: false,
        smelt_args_text: None,
        class_object: None,
        call_field_ty: None,
        match_fn_result: false,
        match_fn_result_class: false,
        match_value_ty: None,
        key_to_string: None,
        object_record: None,
        callback_params: None,
        shared_ref_params: vec![],
        union_erase: None,
        borrowed_handle: None,
        class_checks: vec![],
        thrown_payload: None,
        callback_param_by_ref: false,
        callback_arg_forms: vec![],
        tag_checks: vec![],
        record_fields: vec![],
    }
}

const U: usize = 0;
const NUL: usize = 1;
const B: usize = 2;
const I: usize = 3;
const F: usize = 4;
const S: usize = 5;
const OPT_I: usize = 6;
const OPT_U: usize = 7;
const FN: usize = 8;
const LIST_I: usize = 9;
const LIST_U: usize = 10;
const TUP: usize = 11;
const LIST_FN: usize = 12;

fn binary_emitter() -> FunctionEmitter {
    let types = vec![
        Type::Unknown,
        Type::Nullish,
        Type::Bool,
        Type::Int,
        Type::Float,
        Type::Str,
        Type::Optional(I),
        Type::Optional(U),
        Type::Function(FunctionType {
            params: vec![],
            return_ty: I,
            may_throw: false,
            rest: None,
            required_params: None,
            mutable_params: vec![],
        }),
        Type::List(I),
        Type::List(U),
        Type::Tuple(vec![I, I]),
        Type::List(FN),
    ];
    let mut facts: Vec<TypeFacts> = types.iter().map(|_| blank_facts()).collect();
    facts[FN].rust_text = Some("Rc<dyn Fn() -> i64>".to_string());
    facts[FN].contains_function = true;
    facts[LIST_FN].contains_function = true;
    facts[LIST_U].contains_unknown = true;
    FunctionEmitter {
        types,
        facts,
        symbols: vec![],
        symbol_idents: vec![],
        none_ty: NUL,
        list_read: Template { pieces: vec![Piece::Hole, Piece::Lit(".borrow()".to_string())] },
        adapters: vec![],
        optional_coercions: vec![],
        map_backing_pairs: vec![],
        borrowed_captures: vec![],
        declared_locals: vec![],
        mutable_locals: vec![],
        function: MirFunction { id: 0, params: vec![], locals: vec![], blocks: vec![], is_async: false, is_generator: false, can_throw: false, return_ty: 0, origin: FunctionOrigin::Body, rust_name: String::new(), call_suffix: String::new() },
        functions: vec![],
        closures: vec![],
        classes: vec![],
        regexp_literal: Template { pieces: vec![Piece::Hole] },
        byte_buffer_elements: "bytes".to_string(),
        arguments_elements: "args".to_string(),
        propagates_errors: false,
        trunc_f64: Template { pieces: vec![Piece::Lit("(".to_string()), Piece::Hole, Piece::Lit(").trunc()".to_string())] },
        float_equalities: vec![],
        host: HostRegistry { objects: vec![], overrides: vec![], error_classes: vec![] },
        runtime: runtime_names(),
    }
}

fn op(kind: BinOpKind, text: &str) -> BinOp {
    BinOp { kind, text: text.to_string() }
}

fn var(ty: usize, text: &str) -> Operand {
    Operand::new(OperandKind::Copy(Place::Local(0)), ty, text, text)
}

fn lit(c: Constant, ty: usize) -> Operand {
    Operand::new(OperandKind::Const(c), ty, "()", "()")
}

#[test]
fn mixed_int_float_comparison_shares_a_scalar() {
    let e = binary_emitter();
    assert_eq!(
        e.numeric_comparison_text(&op(BinOpKind::Lt, "<"), &var(I, "a"), &var(F, "b"), B)
            .unwrap(),
        Some("(a as f64) < b".to_string())
    );
    assert_eq!(
        e.numeric_comparison_text(&op(BinOpKind::Add, "+"), &var(I, "a"), &var(F, "b"), B)
            .unwrap(),
        None
    );
}

#[test]
fn string_against_number_compares_as_numbers() {
    let e = binary_emitter();
    assert_eq!(
        e.mixed_string_number_relational_text(&op(BinOpKind::Gt, ">"), &var(S, "s"), &var(I, "n"))
            .unwrap(),
        Some("((s).parse::<f64>().unwrap_or(f64::NAN)) > (n as f64)".to_string())
    );
    assert_eq!(
        e.mixed_string_number_relational_text(&op(BinOpKind::Gt, ">"), &var(S, "s"), &var(S, "t"))
            .unwrap(),
        None
    );
}

#[test]
fn two_erased_sides_compare_through_the_runtime() {
    let e = binary_emitter();
    assert_eq!(
        e.bare_erased_relational_text(&op(BinOpKind::Lte, "<="), &var(U, "a"), &var(U, "b"))
            .unwrap(),
        Some(
            "matches!(smelt_unknown_js_relational_ordering(&(a), &(b)), Some(::std::cmp::Ordering::Less | ::std::cmp::Ordering::Equal))"
                .to_string()
        )
    );
}

#[test]
fn nullish_literals_differ_only_when_provably_null_and_undefined() {
    let e = binary_emitter();
    let null = lit(Constant::Null, NUL);
    let undefined = lit(Constant::Undefined, NUL);
    assert_eq!(
        e.unknown_binary_text(&op(BinOpKind::JsStrictEq, "=="), &null, &undefined).unwrap(),
        Some("false".to_string())
    );
    assert_eq!(
        e.unknown_binary_text(&op(BinOpKind::Eq, "=="), &null, &undefined).unwrap(),
        Some("true".to_string())
    );
    assert_eq!(
        e.unknown_binary_text(&op(BinOpKind::StrictNotEq, "!="), &undefined, &undefined).unwrap(),
        Some("!(true)".to_string())
    );
}

#[test]
fn erased_value_against_null_matches_a_tag() {
    let e = binary_emitter();
    assert_eq!(
        e.unknown_binary_text(&op(BinOpKind::StrictEq, "=="), &var(U, "x"), &lit(Constant::Undefined, NUL))
            .unwrap(),
        Some("matches!(x, SmeltUnknown::Undefined)".to_string())
    );
    assert_eq!(
        e.unknown_binary_text(&op(BinOpKind::JsStrictEq, "=="), &var(U, "x"), &var(I, "n")).unwrap(),
        Some("x.js_strict_eq(&SmeltUnknown::Number(n as f64))".to_string())
    );
}

#[test]
fn optional_compares_against_absence() {
    let e = binary_emitter();
    assert_eq!(
        e.optional_binary_text(&op(BinOpKind::Eq, "=="), &var(OPT_I, "o"), &lit(Constant::Null, NUL), B)
            .unwrap(),
        Some("o.is_none()".to_string())
    );
    assert_eq!(
        e.optional_binary_text(&op(BinOpKind::NotEq, "!="), &var(OPT_I, "o"), &var(I, "n"), B).unwrap(),
        Some("!(o == Some(n))".to_string())
    );
}

#[test]
fn erased_option_keeps_null_distinct_from_undefined() {
    let e = binary_emitter();
    assert_eq!(
        e.optional_binary_text(&op(BinOpKind::JsStrictEq, "=="), &var(OPT_U, "o"), &lit(Constant::Null, NUL), B)
            .unwrap(),
        Some("o.as_ref().is_some_and(|value| matches!(value, SmeltUnknown::Null))".to_string())
    );
    assert_eq!(
        e.optional_erased_singleton_equality_text("o", &lit(Constant::Undefined, NUL), true, U).unwrap(),
        "o.as_ref().map_or(true, |value| matches!(value, SmeltUnknown::Undefined))"
    );
}

#[test]
fn optional_number_arithmetic_unwraps_with_zero() {
    let e = binary_emitter();
    assert_eq!(
        e.optional_binary_text(&op(BinOpKind::Add, "+"), &var(OPT_I, "o"), &var(F, "x"), B).unwrap(),
        Some("(o.unwrap_or(0_i64) as f64) + x".to_string())
    );
}

#[test]
fn function_values_compare_by_identity() {
    let e = binary_emitter();
    assert_eq!(
        e.function_equality_text(&op(BinOpKind::Eq, "=="), &var(FN, "f"), &var(FN, "g")).unwrap(),
        Some(
            "smelt_same_function_identity(&{ let smelt_lhs_fn: Rc<dyn Fn() -> i64> = f.clone(); smelt_lhs_fn }, &{ let smelt_rhs_fn: Rc<dyn Fn() -> i64> = g.clone(); smelt_rhs_fn })"
                .to_string()
        )
    );
    assert_eq!(
        e.function_equality_text(&op(BinOpKind::NotEq, "!="), &var(FN, "f"), &var(I, "n")).unwrap(),
        Some("!(false)".to_string())
    );
}

#[test]
fn lists_of_functions_compare_item_by_item() {
    let e = binary_emitter();
    let text = e.function_bearing_equality_text("a", "b", LIST_FN).unwrap();
    assert!(text.starts_with("a.len() == b.len() && a.borrow().iter().zip(b.borrow().iter()).all(|(left_item, right_item)| smelt_same_function_identity("));
}

#[test]
fn numbers_are_strictly_identical_by_same_value() {
    let e = binary_emitter();
    assert_eq!(
        e.strict_identity_text(&op(BinOpKind::StrictEq, "=="), &var(I, "a"), &var(F, "b")).unwrap(),
        Some("{ let lhs: f64 = a; let rhs: f64 = b; (lhs.is_nan() && rhs.is_nan()) || (lhs == rhs && (lhs != 0.0 || lhs.is_sign_negative() == rhs.is_sign_negative())) }".to_string())
    );
    assert_eq!(
        e.strict_identity_text(&op(BinOpKind::StrictNotEq, "!="), &var(LIST_I, "a"), &var(LIST_I, "b")).unwrap(),
        Some("!(a.id() == b.id())".to_string())
    );
    assert_eq!(
        e.strict_identity_text(&op(BinOpKind::StrictEq, "=="), &var(TUP, "a"), &var(TUP, "b")).unwrap(),
        Some("false".to_string())
    );
}

#[test]
fn concrete_side_is_erased_to_compare_structurally() {
    let e = binary_emitter();
    assert_eq!(
        e.heterogeneous_equality_text(&op(BinOpKind::Eq, "=="), &var(LIST_U, "xs"), &var(LIST_I, "ys"))
            .unwrap(),
        Some("xs == { let smelt_l: SmeltList<_> = (ys).clone().into(); SmeltList::with_id(smelt_l.id(), smelt_l.into_iter().map(|value| SmeltUnknown::Number(value as f64)).collect::<Vec<_>>()) }".to_string())
    );
    assert_eq!(
        e.heterogeneous_equality_text(&op(BinOpKind::StrictNotEq, "!="), &var(S, "s"), &var(I, "n")).unwrap(),
        Some("!(false)".to_string())
    );
}

#[test]
fn erased_arithmetic_reads_the_result_at_the_destination() {
    let e = binary_emitter();
    assert_eq!(
        e.erased_arithmetic_text(&op(BinOpKind::Mul, "*"), &var(U, "a"), &var(I, "b"), I).unwrap(),
        Some("((match a.clone() { SmeltUnknown::Number(value) => value, SmeltUnknown::Object(value) => match value.get(\"__smelt_date\") { Some(SmeltUnknown::Number(value)) => value, _ => f64::NAN }, SmeltUnknown::String(value) => value.parse::<f64>().unwrap_or(f64::NAN), SmeltUnknown::Bool(value) => if value { 1.0 } else { 0.0 }, SmeltUnknown::Null | SmeltUnknown::Undefined | SmeltUnknown::Symbol(_) | SmeltUnknown::Array(_) | SmeltUnknown::Function(_) | SmeltUnknown::Promise(_) => f64::NAN } * b as f64) as f64).trunc() as i64".to_string())
    );
    assert_eq!(
        e.erased_arithmetic_text(&op(BinOpKind::Add, "+"), &var(I, "a"), &var(I, "b"), I).unwrap(),
        None
    );
}

fn runtime_names() -> RuntimeNames {
    RuntimeNames {
        sleep_ms: "smelt_sleep_ms".to_string(),
        set_timeout: "smelt_set_timeout".to_string(),
        clear_timeout: "smelt_clear_timeout".to_string(),
        set_interval: "smelt_set_interval".to_string(),
        clear_interval: "smelt_clear_interval".to_string(),
        promise_race: "smelt_promise_race".to_string(),
        run_until_exit: "smelt_run_until_exit".to_string(),
        spawn_promise_task: "smelt_spawn_promise_task".to_string(),
        throw_fn: "smelt_throw".to_string(),
        json_parse: "smelt_json_parse".to_string(),
        decode_uri: "smelt_decode_uri".to_string(),
        decode_uri_component: "smelt_decode_uri_component".to_string(),
        undefined_thrown_payload: "smelt_throw(SmeltUnknown::Undefined)".to_string(),
        fetch_request: Template { pieces: vec![] },
    }
}
