use lib::async_ops::{AsyncOp, RuntimeNames};
use lib::emitter::FunctionEmitter;
use lib::instance_of::HostRegistry;
use lib::mir::{Constant, MirFunction, Operand, OperandKind, Place, FunctionOrigin};
use lib::types::{ClassKind, FunctionType, Piece, Template, Type, TypeFacts};

fn no_facts() -> TypeFacts {
    TypeFacts {
        erased_class: false,
        concrete_union: false,
        rust_text: None,
        default_text: None,
        hash_set_key_safe: false,
        smelt_record_key: false,
        js_key_map_key: false,
        reference_class: false,
        interface_record: false,
        class_kind: ClassKind::Plain,
        type_param_in_scope: false,
        erased_unknown_rest_function: false,
        no_known_fields: false,
        contains_function: false,
        contains_unknown: false,
        smelt_args_text: None,
        class_object: None,
        call_field_ty: None,
        match_fn_result: false,
        match_fn_result_class: false,
        match_value_ty: None,
        key_to_string: None,
        object_record: None,
        callback_params: None,
        shared_ref_params: vec![],
        union_erase: None,
        borrowed_handle: None,
        class_checks: vec![],
        thrown_payload: None,
        callback_param_by_ref: false,
        callback_arg_forms: vec![],
        tag_checks: vec![],
        record_fields: vec![],
    }
}

const UNK: usize = 0;
const NUL: usize = 1;
const INT: usize = 2;
const FLOAT: usize = 3;
const STR: usize = 4;
const FUT_INT: usize = 5;
const FUT_UNK: usize = 6;
const LIST_FUT_INT: usize = 7;
const LIST_FUT_UNK: usize = 8;
const LIST_UNK: usize = 9;
const FN_NONE: usize = 10;
const FN_INT: usize = 11;
const FN_REST: usize = 12;
const FN_EXECUTOR: usize = 13;
const REQUEST: usize = 14;
const FN_THROWS: usize = 15;

fn function(params: Vec<usize>, return_ty: usize, may_throw: bool, rest: Option<usize>) -> Type {
    Type::Function(FunctionType {
        params,
        return_ty,
        may_throw,
        rest,
        required_params: None,
        mutable_params: vec![],
    })
}

fn hole() -> Template {
    Template { pieces: vec![Piece::Hole] }
}

fn async_emitter() -> FunctionEmitter {
    let types = vec![
        Type::Unknown,
        Type::Nullish,
        Type::Int,
        Type::Float,
        Type::Str,
        Type::Future(INT),
        Type::Future(UNK),
        Type::List(FUT_INT),
        Type::List(FUT_UNK),
        Type::List(UNK),
        function(vec![], NUL, false, None),
        function(vec![INT], INT, false, None),
        function(vec![LIST_UNK], NUL, false, Some(0)),
        function(vec![FN_INT, FN_INT], NUL, false, None),
        Type::Class { name: 0, args: vec![] },
        function(vec![], NUL, true, None),
    ];
    let mut facts: Vec<TypeFacts> = types.iter().map(|_| no_facts()).collect();
    facts[INT].rust_text = Some("i64".to_string());
    facts[INT].default_text = Some("0_i64".to_string());
    facts[STR].thrown_payload = Some(Template {
        pieces: vec![
            Piece::Lit("smelt_throw(SmeltUnknown::String(".to_string()),
            Piece::Hole,
            Piece::Lit(".into()))".to_string()),
        ],
    });
    facts[FN_INT].callback_arg_forms = vec![hole()];
    facts[REQUEST].class_kind = ClassKind::Request;
    FunctionEmitter {
        types,
        facts,
        symbols: vec!["Request".to_string()],
        symbol_idents: vec!["Request".to_string()],
        none_ty: NUL,
        list_read: Template {
            pieces: vec![Piece::Lit("(".to_string()), Piece::Hole, Piece::Lit(").borrow()".to_string())],
        },
        adapters: vec![],
        optional_coercions: vec![],
        map_backing_pairs: vec![],
        borrowed_captures: vec![],
        declared_locals: vec![],
        mutable_locals: vec![],
        function: MirFunction { id: 0, params: vec![], locals: vec![], blocks: vec![], is_async: false, is_generator: false, can_throw: false, return_ty: 0, origin: FunctionOrigin::Body, rust_name: String::new(), call_suffix: String::new() },
        functions: vec![],
        closures: vec![],
        classes: vec![],
        regexp_literal: hole(),
        byte_buffer_elements: "bytes".to_string(),
        arguments_elements: "args".to_string(),
        propagates_errors: false,
        trunc_f64: Template { pieces: vec![Piece::Lit("(".to_string()), Piece::Hole, Piece::Lit(").trunc()".to_string())] },
        float_equalities: vec![],
        host: HostRegistry { objects: vec![], overrides: vec![], error_classes: vec![] },
        runtime: RuntimeNames {
            sleep_ms: "smelt_sleep_ms".to_string(),
            set_timeout: "smelt_set_timeout".to_string(),
            clear_timeout: "smelt_clear_timeout".to_string(),
            set_interval: "smelt_set_interval".to_string(),
            clear_interval: "smelt_clear_interval".to_string(),
            promise_race: "smelt_promise_race".to_string(),
            run_until_exit: "smelt_run_until_exit".to_string(),
            spawn_promise_task: "smelt_spawn_promise_task".to_string(),
            throw_fn: "smelt_throw".to_string(),
            json_parse: "smelt_json_parse".to_string(),
            decode_uri: "smelt_decode_uri".to_string(),
            decode_uri_component: "smelt_decode_uri_component".to_string(),
            undefined_thrown_payload: "smelt_throw(SmeltUnknown::Undefined)".to_string(),
            fetch_request: Template {
                pieces: vec![
                    Piece::Lit("smelt_fetch_request(".to_string()),
                    Piece::Hole,
                    Piece::Lit(")".to_string()),
                ],
            },
        },
    }
}

/// A local read: its value text clones, its place text does not.
fn local(l: usize, ty: usize, name: &str) -> Operand {
    let text = format!("{name}.clone()");
    Operand::new(OperandKind::Copy(Place::Local(l)), ty, &text, name)
}

fn number(text: &str) -> Operand {
    Operand::new(OperandKind::Const(Constant::Number), FLOAT, text, text)
}

const SETTLE: &str = "Ok::<_, Box<dyn std::error::Error>>(";

#[test]
fn all_over_a_list_collects_every_future() {
    let e = async_emitter();
    let r = e.async_op_text(AsyncOp::All, &vec![local(1, LIST_FUT_INT, "xs")], FUT_INT).unwrap();
    assert_eq!(
        r,
        "SmeltFuture::from_future(Box::pin(async move { let mut __smelt_values = Vec::new(); for __smelt_future in xs { __smelt_values.push(__smelt_future.await?); } Ok::<_, Box<dyn std::error::Error>>(SmeltList::from(__smelt_values)) }))"
    );
}

#[test]
fn all_settled_over_erased_futures_flattens_nested_promises() {
    let e = async_emitter();
    let r = e.async_op_text(AsyncOp::AllSettled, &vec![local(1, LIST_FUT_UNK, "xs")], FUT_INT).unwrap();
    assert_eq!(
        r,
        "SmeltFuture::from_future(Box::pin(async move { let mut __smelt_pending = Vec::new(); for __smelt_future in xs { __smelt_pending.push(__smelt_future.await?); } let mut __smelt_values = Vec::with_capacity(__smelt_pending.len()); for __smelt_value in __smelt_pending { __smelt_values.push(smelt_await_flatten(__smelt_value).await?); } Ok::<_, Box<dyn std::error::Error>>(SmeltList::from(__smelt_values)) }))"
    );
}

#[test]
fn all_over_separate_futures_joins_them() {
    let e = async_emitter();
    let r = e
        .async_op_text(AsyncOp::All, &vec![local(1, FUT_INT, "a"), local(2, FUT_UNK, "b")], FUT_INT)
        .unwrap();
    assert_eq!(
        r,
        format!(
            "SmeltFuture::from_future(Box::pin(async move {{ {SETTLE}{{ let __smelt_joined = tokio::join!(a, b); (__smelt_joined.0?, smelt_await_flatten(__smelt_joined.1?).await?) }}) }}))"
        )
    );
    let single = e.async_op_text(AsyncOp::All, &vec![local(1, FUT_INT, "a")], FUT_INT).unwrap();
    assert_eq!(
        single,
        format!("SmeltFuture::from_future(Box::pin(async move {{ {SETTLE}(a.await?,)) }}))")
    );
    let empty = e.async_op_text(AsyncOp::All, &vec![], FUT_INT).unwrap();
    assert_eq!(empty, format!("SmeltFuture::from_future(Box::pin(async move {{ {SETTLE}()) }}))"));
}

#[test]
fn race_polls_racers_in_source_order() {
    let e = async_emitter();
    assert!(e.async_op_text(AsyncOp::Race, &vec![], FUT_INT).is_err());
    let one = e.async_op_text(AsyncOp::Race, &vec![local(1, FUT_INT, "a")], FUT_INT).unwrap();
    assert_eq!(one, format!("SmeltFuture::from_future(Box::pin(async move {{ {SETTLE}a.await?) }}))"));
    let two = e
        .async_op_text(AsyncOp::Race, &vec![local(1, FUT_INT, "a"), local(2, FUT_INT, "b")], FUT_INT)
        .unwrap();
    assert_eq!(
        two,
        format!(
            "SmeltFuture::from_future(Box::pin(async move {{ {SETTLE}{{ let mut smelt_racers: Vec<::std::pin::Pin<Box<dyn ::std::future::Future<Output = Result<_, Box<dyn std::error::Error>>>>>> = Vec::new(); smelt_racers.push(Box::pin(::std::future::IntoFuture::into_future(a))); smelt_racers.push(Box::pin(::std::future::IntoFuture::into_future(b))); smelt_promise_race(smelt_racers).await? }}) }}))"
        )
    );
}

#[test]
fn exit_drain_and_sleep_use_the_runtime_timers() {
    let e = async_emitter();
    assert_eq!(
        e.async_op_text(AsyncOp::ExitDrain, &vec![], FUT_INT).unwrap(),
        "SmeltFuture::from_future(Box::pin(async move { smelt_run_until_exit().await; Ok::<_, Box<dyn std::error::Error>>(()) }))"
    );
    assert_eq!(
        e.async_op_text(AsyncOp::Sleep, &vec![number("25.0")], FUT_INT).unwrap(),
        "SmeltFuture::from_future(Box::pin(async move { smelt_sleep_ms(25.0 as f64).await; Ok::<_, Box<dyn std::error::Error>>(()) }))"
    );
    assert!(e.async_op_text(AsyncOp::Sleep, &vec![], FUT_INT).is_err());
}

#[test]
fn resolve_settles_with_the_value_at_the_item_type() {
    let e = async_emitter();
    let value = Operand::new(OperandKind::Const(Constant::Int(1)), INT, "1_i64", "1_i64");
    assert_eq!(
        e.async_op_text(AsyncOp::Resolve, &vec![number("0.0"), value], FUT_INT).unwrap(),
        "SmeltFuture::from_future(Box::pin(async move { smelt_sleep_ms(0.0 as f64).await; Ok::<_, Box<dyn std::error::Error>>(1_i64) }))"
    );
    assert_eq!(
        e.async_op_text(AsyncOp::Resolve, &vec![number("0.0")], FUT_INT).unwrap(),
        "SmeltFuture::from_future(Box::pin(async move { smelt_sleep_ms(0.0 as f64).await; Ok::<_, Box<dyn std::error::Error>>(()) }))"
    );
    let value = Operand::new(OperandKind::Const(Constant::Int(1)), INT, "1_i64", "1_i64");
    assert!(e.async_op_text(AsyncOp::Resolve, &vec![number("0.0"), value], INT).is_err());
}

#[test]
fn reject_throws_the_reason_payload() {
    let e = async_emitter();
    let reason = local(1, STR, "why");
    assert_eq!(
        e.async_op_text(AsyncOp::Reject, &vec![number("0.0"), reason], FUT_INT).unwrap(),
        "SmeltFuture::from_future(Box::pin(async move { smelt_sleep_ms(0.0 as f64).await; Err::<_, Box<dyn std::error::Error>>(smelt_throw(SmeltUnknown::String(why.clone().into()))) }))"
    );
    assert_eq!(
        e.async_op_text(AsyncOp::Reject, &vec![number("0.0")], FUT_INT).unwrap(),
        "SmeltFuture::from_future(Box::pin(async move { smelt_sleep_ms(0.0 as f64).await; Err::<_, Box<dyn std::error::Error>>(smelt_throw(SmeltUnknown::Undefined)) }))"
    );
    let untyped = local(1, INT, "n");
    assert!(e.async_op_text(AsyncOp::Reject, &vec![number("0.0"), untyped], FUT_INT).is_err());
}

#[test]
fn set_timeout_calls_a_parameterless_closure_directly() {
    let e = async_emitter();
    let r = e
        .async_op_text(AsyncOp::SetTimeout, &vec![local(1, FN_NONE, "cb"), number("100.0")], INT)
        .unwrap();
    assert_eq!(
        r,
        "{ let smelt_timer_callback = cb.clone().clone(); smelt_set_timeout(::std::rc::Rc::new(::std::cell::RefCell::new(move || { Ok::<(), Box<dyn std::error::Error>>({ (smelt_timer_callback)(); () }) })), 100.0 as f64) }"
    );
    let throwing = e
        .async_op_text(AsyncOp::SetTimeout, &vec![local(1, FN_THROWS, "cb"), number("1.0")], INT)
        .unwrap();
    assert!(throwing.contains("move || { (smelt_timer_callback)().map(|_| ()) }"));
    assert!(e.async_op_text(AsyncOp::SetTimeout, &vec![local(1, FN_NONE, "cb")], INT).is_err());
}

#[test]
fn set_interval_probes_an_erased_callback() {
    let e = async_emitter();
    let r = e
        .async_op_text(AsyncOp::SetInterval, &vec![local(1, UNK, "cb"), number("10.0")], INT)
        .unwrap();
    assert_eq!(
        r,
        "{ let smelt_timer_callback = cb.clone().clone(); smelt_set_interval(::std::rc::Rc::new(::std::cell::RefCell::new(move || { { let smelt_function_value = smelt_timer_callback.clone(); let smelt_callable = match smelt_function_value { SmeltUnknown::Function(smelt_function) => Some(smelt_function), SmeltUnknown::Object(smelt_object) => match smelt_object.get(\"__smelt_call\") { Some(SmeltUnknown::Function(smelt_function)) => Some(smelt_function.clone()), _ => None }, _ => None }; if let Some(smelt_function) = smelt_callable { (smelt_function)(Vec::new()).map(|_| ()) } else { Err(std::io::Error::new(std::io::ErrorKind::Other, \"timer callback is not callable\").into()) } } })), 10.0 as f64) }"
    );
}

#[test]
fn set_timeout_forwards_extra_arguments_to_a_rest_callback() {
    let e = async_emitter();
    let r = e
        .async_op_text(
            AsyncOp::SetTimeout,
            &vec![local(1, FN_REST, "cb"), number("5.0"), local(2, LIST_UNK, "extra")],
            INT,
        )
        .unwrap();
    assert_eq!(
        r,
        "{ let smelt_timer_callback = cb.clone().clone(); let smelt_timer_args: Vec<SmeltUnknown> = (extra.clone()).borrow().iter().cloned().collect(); smelt_set_timeout(::std::rc::Rc::new(::std::cell::RefCell::new(move || { { let _ = (smelt_timer_callback)(SmeltList::from(smelt_timer_args.iter().skip(0).cloned().collect::<Vec<_>>())); Ok::<(), Box<dyn std::error::Error>>(()) } })), 5.0 as f64) }"
    );
}

#[test]
fn clear_timers_call_the_runtime() {
    let e = async_emitter();
    assert_eq!(
        e.async_op_text(AsyncOp::ClearTimeout, &vec![local(1, INT, "t")], INT).unwrap(),
        "smelt_clear_timeout(t.clone())"
    );
    assert_eq!(
        e.async_op_text(AsyncOp::ClearInterval, &vec![local(1, INT, "t")], INT).unwrap(),
        "smelt_clear_interval(t.clone())"
    );
    assert!(e.async_op_text(AsyncOp::ClearInterval, &vec![], INT).is_err());
}

#[test]
fn promise_constructor_synthesizes_resolve_and_reject() {
    let e = async_emitter();
    let r = e.async_op_text(AsyncOp::Promise, &vec![local(1, FN_EXECUTOR, "ex")], FUT_INT).unwrap();
    assert_eq!(
        r,
        "{ let smelt_promise_result: ::std::rc::Rc<::std::cell::RefCell<Option<Result<i64, Box<dyn std::error::Error>>>>> = ::std::rc::Rc::new(::std::cell::RefCell::new(None)); let smelt_resolve_result = smelt_promise_result.clone(); let smelt_reject_result = smelt_promise_result.clone(); let smelt_resolve: ::std::rc::Rc<dyn Fn(i64) -> ()> = ::std::rc::Rc::new(move |value: i64| { *smelt_resolve_result.borrow_mut() = Some(Ok(value)); }); let smelt_reject: ::std::rc::Rc<dyn Fn(SmeltUnknown) -> ()> = ::std::rc::Rc::new(move |error: SmeltUnknown| { *smelt_reject_result.borrow_mut() = Some(Err(smelt_throw(error))); }); (ex.clone())(smelt_resolve, smelt_reject); SmeltFuture::from_future(Box::pin(async move { loop { if let Some(result) = smelt_promise_result.borrow_mut().take() { break result; } tokio::task::yield_now().await; smelt_sleep_ms(0.0).await; } })) }"
    );
    assert!(e.async_op_text(AsyncOp::Promise, &vec![local(1, FN_EXECUTOR, "ex")], INT).is_err());
}

#[test]
fn promise_executor_call_follows_its_arity() {
    let e = async_emitter();
    let none = e.async_op_text(AsyncOp::Promise, &vec![local(1, FN_NONE, "ex")], FUT_INT).unwrap();
    assert!(none.contains("let _ = &smelt_resolve; let _ = &smelt_reject; (ex.clone())();"));
    let one = e.async_op_text(AsyncOp::Promise, &vec![local(1, FN_INT, "ex")], FUT_INT).unwrap();
    assert!(one.contains("let _ = &smelt_reject; (ex.clone())(smelt_resolve);"));
    let rest = e.async_op_text(AsyncOp::Promise, &vec![local(1, FN_REST, "ex")], FUT_INT).unwrap();
    assert!(rest.contains("(ex.clone())(SmeltList::from(vec![smelt_resolve, smelt_reject]));"));
}

#[test]
fn then_calls_the_continuation_on_the_settled_value() {
    let e = async_emitter();
    let r = e
        .async_op_text(AsyncOp::Then, &vec![local(1, FUT_INT, "p"), local(2, FN_INT, "cb")], FUT_INT)
        .unwrap();
    assert_eq!(
        r,
        "{ let smelt_promise_callback = (cb.clone()).clone(); SmeltFuture::from_future(Box::pin(async move { let smelt_value = p.await?; let smelt_callback_value = (smelt_promise_callback)(smelt_value); Ok::<_, Box<dyn std::error::Error>>(smelt_callback_value) })) }"
    );
    assert!(e
        .async_op_text(AsyncOp::Then, &vec![local(1, INT, "p"), local(2, FN_INT, "cb")], FUT_INT)
        .is_err());
}

#[test]
fn catch_settles_with_the_default_after_the_handler() {
    let e = async_emitter();
    let r = e
        .async_op_text(AsyncOp::Catch, &vec![local(1, FUT_INT, "p"), local(2, UNK, "h")], FUT_INT)
        .unwrap();
    assert_eq!(
        r,
        "{ let smelt_promise_callback = (h.clone()).clone(); SmeltFuture::from_future(Box::pin(async move { match p.await { Ok(smelt_value) => Ok::<_, Box<dyn std::error::Error>>(smelt_value), Err(smelt_error) => { let _ = { let smelt_callable = match (smelt_promise_callback).clone() { SmeltUnknown::Function(smelt_function) => Some(smelt_function), SmeltUnknown::Object(smelt_object) => match smelt_object.get(\"__smelt_call\") { Some(SmeltUnknown::Function(smelt_function)) => Some(smelt_function), _ => None }, _ => None }; match smelt_callable { Some(smelt_function) => (smelt_function)(vec![IntoSmeltUnknown::into_smelt_unknown(SmeltUnknown::String(smelt_error.to_string().into()))]).unwrap_or_else(|error| smelt_panic_throw(error)), None => { let _ = SmeltUnknown::String(smelt_error.to_string().into()); SmeltUnknown::Undefined } } }; Ok::<_, Box<dyn std::error::Error>>(0_i64) } } })) }"
    );
}

#[test]
fn task_spawning_and_timeouts() {
    let e = async_emitter();
    assert_eq!(
        e.async_op_text(AsyncOp::SpawnLocal, &vec![local(1, FUT_INT, "f")], INT).unwrap(),
        "{ smelt_spawn_promise_task(Box::pin(async move { let _ = f.await; })); () }"
    );
    assert_eq!(
        e.async_op_text(AsyncOp::CreateTask, &vec![local(1, FUT_INT, "f")], FUT_INT).unwrap(),
        "SmeltFuture::from_future(Box::pin(async move { tokio::spawn(async move { f.await }).await.expect(\"async task panicked\") }))"
    );
    assert_eq!(
        e.async_op_text(AsyncOp::WaitFor, &vec![local(1, FUT_INT, "f"), number("50.0")], FUT_INT)
            .unwrap(),
        "SmeltFuture::from_future(Box::pin(async move { tokio::time::timeout(::std::time::Duration::from_millis(50.0 as u64), async move { f.await }).await.expect(\"async timeout\")? }))"
    );
    assert!(e.async_op_text(AsyncOp::WaitFor, &vec![local(1, FUT_INT, "f")], FUT_INT).is_err());
}

#[test]
fn http_requests_need_a_string_url_or_a_request() {
    let e = async_emitter();
    assert_eq!(
        e.async_op_text(AsyncOp::HttpGetText, &vec![local(1, STR, "url")], FUT_INT).unwrap(),
        "SmeltFuture::from_future(Box::pin(async move { Ok::<_, Box<dyn std::error::Error>>(reqwest::get(url.clone()).await.expect(\"HTTP GET failed\").text().await.expect(\"HTTP response body read failed\")) }))"
    );
    assert!(e.async_op_text(AsyncOp::HttpGetText, &vec![local(1, INT, "url")], FUT_INT).is_err());
    assert!(e.async_op_text(AsyncOp::HttpFetch, &vec![local(1, INT, "url")], FUT_INT).is_err());
    assert_eq!(
        e.async_op_text(AsyncOp::HttpFetch, &vec![local(1, REQUEST, "req")], FUT_INT).unwrap(),
        "smelt_fetch_request(req.clone())"
    );
    let fetched = e.async_op_text(AsyncOp::HttpFetch, &vec![local(1, STR, "url")], FUT_INT).unwrap();
    assert!(fetched.starts_with("SmeltFuture::from_future(Box::pin(async move {"));
    assert!(fetched.contains("let smelt_http = reqwest::get(url.clone()).await.expect(\"HTTP request failed\");"));
    assert!(fetched.ends_with("SmeltBody::from_bytes(smelt_bytes))) }))"));
}
