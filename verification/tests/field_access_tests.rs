use lib::async_ops::RuntimeNames;
use lib::emitter::FunctionEmitter;
use lib::instance_of::HostRegistry;
use lib::mir::{LocalDecl, MirFunction, FunctionOrigin};
use lib::types::{ClassKind, FunctionType, Piece, Template, Type, TypeFacts};

fn no_facts() -> TypeFacts {
    TypeFacts {
        erased_class: false,
        concrete_union: false,
        rust_text: None,
        default_text: None,
        hash_set_key_safe: false,
        smelt_record_key: false,
        js_key_map_key: false,
        reference_class: false,
        interface_record: false,
        class_kind: ClassKind::Plain,
        type_param_in_scope: false,
        erased_unknown_rest_function: false,
        no_known_fields: false,
        contains_function: false,
        contains_unknown: false,
        smelt_args_text: None,
        class_object: None,
        call_field_ty: None,
        match_fn_result: false,
        match_fn_result_class: false,
        match_value_ty: None,
        key_to_string: None,
        object_record: None,
        callback_params: None,
        shared_ref_params: vec![],
        union_erase: None,
        borrowed_handle: None,
        class_checks: vec![],
        thrown_payload: None,
        callback_param_by_ref: false,
        callback_arg_forms: vec![],
        tag_checks: vec![],
        record_fields: vec![],
    }
}

const UNK: usize = 0;
const INT: usize = 1;
const STR: usize = 2;
const DICT_INT: usize = 3;
const DICT_OPT: usize = 4;
const OPT_INT: usize = 5;
const POINT: usize = 6;
const SCALE_FN: usize = 7;
const REGEXP: usize = 8;
const MATCH: usize = 9;
const UNION: usize = 10;
const NUL: usize = 11;

fn hole() -> Template {
    Template { pieces: vec![Piece::Hole] }
}

fn decl(ty: usize) -> LocalDecl {
    LocalDecl { name: String::new(), ty, temp: false, text: String::new() }
}

fn field_emitter() -> FunctionEmitter {
    let types = vec![
        Type::Unknown,
        Type::Int,
        Type::Str,
        Type::Dict(STR, INT),
        Type::Dict(STR, OPT_INT),
        Type::Optional(INT),
        Type::Class { name: 0, args: vec![] },
        Type::Function(FunctionType { params: vec![INT], return_ty: INT, may_throw: false, rest: None, required_params: None, mutable_params: vec![] }),
        Type::Class { name: 1, args: vec![] },
        Type::Class { name: 2, args: vec![] },
        Type::Union(vec![INT, STR]),
        Type::Nullish,
    ];
    let mut facts: Vec<TypeFacts> = types.iter().map(|_| no_facts()).collect();
    facts[POINT].record_fields = vec![(3, INT), (4, SCALE_FN)];
    facts[REGEXP].class_kind = ClassKind::RegExp;
    facts[MATCH].class_kind = ClassKind::Match;
    facts[UNION].concrete_union = true;
    facts[UNION].rust_text = Some("SmeltUnionIntStr".to_string());
    let functions = vec![MirFunction {
        id: 0,
        params: vec![0, 1],
        locals: vec![decl(POINT), decl(INT)],
        blocks: vec![],
        is_async: false,
        is_generator: false,
        can_throw: false,
        return_ty: INT,
        origin: FunctionOrigin::ClassMethod { class: 0, method: 7 },
        rust_name: String::new(),
        call_suffix: String::new(),
    }];
    FunctionEmitter {
        types,
        facts,
        symbols: ["Point", "RegExp", "Match", "x", "scale", "length", "abort", "move", "index", "source"].iter().map(|s| s.to_string()).collect(),
        symbol_idents: ["Point", "RegExp", "Match", "x", "scale", "length", "abort", "move", "index", "source"].iter().map(|s| s.to_string()).collect(),
        none_ty: NUL,
        list_read: hole(),
        adapters: vec![],
        optional_coercions: vec![],
        map_backing_pairs: vec![],
        borrowed_captures: vec![],
        declared_locals: vec![],
        mutable_locals: vec![],
        function: MirFunction { id: 0, params: vec![], locals: vec![], blocks: vec![], is_async: false, is_generator: false, can_throw: false, return_ty: 0, origin: FunctionOrigin::Body, rust_name: String::new(), call_suffix: String::new() },
        functions,
        closures: vec![],
        classes: vec![],
        regexp_literal: hole(),
        byte_buffer_elements: "bytes".to_string(),
        arguments_elements: "args".to_string(),
        propagates_errors: false,
        trunc_f64: Template { pieces: vec![Piece::Lit("(".to_string()), Piece::Hole, Piece::Lit(").trunc()".to_string())] },
        float_equalities: vec![],
        host: HostRegistry { objects: vec![], overrides: vec![], error_classes: vec![] },
        runtime: RuntimeNames {
            sleep_ms: "smelt_sleep_ms".to_string(),
            set_timeout: "smelt_set_timeout".to_string(),
            clear_timeout: "smelt_clear_timeout".to_string(),
            set_interval: "smelt_set_interval".to_string(),
            clear_interval: "smelt_clear_interval".to_string(),
            promise_race: "smelt_promise_race".to_string(),
            run_until_exit: "smelt_run_until_exit".to_string(),
            spawn_promise_task: "smelt_spawn_promise_task".to_string(),
            throw_fn: "smelt_throw".to_string(),
            json_parse: "smelt_json_parse".to_string(),
            decode_uri: "smelt_decode_uri".to_string(),
            decode_uri_component: "smelt_decode_uri_component".to_string(),
            undefined_thrown_payload: "smelt_throw(SmeltUnknown::Undefined)".to_string(),
            fetch_request: Template {
                pieces: vec![
                    Piece::Lit("smelt_fetch_request(".to_string()),
                    Piece::Hole,
                    Piece::Lit(")".to_string()),
                ],
            },
        },
    }
}

const GETTER_READ: &str = "SmeltUnknown::Object(map) => match map.get(\"x\").unwrap_or(SmeltUnknown::Null) { SmeltUnknown::Object(mut getter) if getter.contains_key(\"__smelt_get\") => match getter.remove(\"__smelt_get\") { Some(SmeltUnknown::Function(smelt_getter)) => (smelt_getter)(Vec::new()).unwrap_or_else(|error| panic!(\"{}\", error)), _ => SmeltUnknown::Null }, value => value }, _ => SmeltUnknown::Null }";

#[test]
fn string_keyed_dictionary_entries_are_looked_up() {
    let mut e = field_emitter();
    assert_eq!(e.field_access_text("d", DICT_INT, 3).unwrap(), "d.get(\"x\").cloned().expect(\"missing field\")");
    assert_eq!(e.field_access_text("d", DICT_OPT, 3).unwrap(), "d.get(\"x\").cloned().flatten()");
    e.facts[STR].smelt_record_key = true;
    assert_eq!(e.field_access_text("d", DICT_INT, 3).unwrap(), "d.get(\"x\").expect(\"missing field\")");
    assert_eq!(e.field_access_text("d", DICT_OPT, 3).unwrap(), "d.get(\"x\").flatten()");
}

#[test]
fn erased_objects_read_own_fields_through_getters() {
    let e = field_emitter();
    assert_eq!(e.field_access_text("o", UNK, 3).unwrap(), format!("match o {{ {}", GETTER_READ));
    assert_eq!(
        e.field_access_text("u", UNION, 3).unwrap(),
        format!("match u.clone().into_smelt_unknown() {{ {}", GETTER_READ)
    );
    let abort = e.field_access_text("o", UNK, 6).unwrap();
    assert!(abort.starts_with("match o { SmeltUnknown::Object(map) if (map.contains_key(\"__smelt_abortcontroller\") || map.contains_key(\"__smelt_abortsignal\")) && !map.contains_key(\"abort\") => smelt_abort_method(map.clone(), \"abort\"), SmeltUnknown::Object(map) => match map.get(\"abort\")"));
}

#[test]
fn strings_regexps_and_matches_read_their_metadata() {
    let e = field_emitter();
    assert_eq!(e.field_access_text("s", STR, 5).unwrap(), "(s.chars().count() as i64)");
    assert_eq!(e.field_access_text("r", REGEXP, 9).unwrap(), "r.source.clone()");
    assert_eq!(e.field_access_text("m", MATCH, 8).unwrap(), "m.index()");
}

#[test]
fn class_fields_and_bound_methods() {
    let e = field_emitter();
    assert_eq!(e.field_access_text("p", POINT, 4).unwrap(), "p.scale.clone()");
    assert_eq!(e.field_access_text("p", POINT, 3).unwrap(), "p.x.clone()");
    let bound = e.field_access_text("p", POINT, 7).unwrap();
    assert!(bound.starts_with("{ let smelt_receiver = p.clone(); SmeltUnknown::Function(::std::rc::Rc::new(move |smelt_args: Vec<SmeltUnknown>| Ok::<SmeltUnknown, Box<dyn std::error::Error>>("));
    assert!(bound.contains("smelt_receiver.move("));
    assert!(bound.contains("smelt_args.get(0).cloned().unwrap_or(SmeltUnknown::Null)"));
    assert!(bound.ends_with("))) }"));
    assert_eq!(e.class_method_reference_text("p", 0, 3).unwrap(), None);
    assert!(e.field_access_text("n", INT, 3).is_err());
}

#[test]
fn bound_methods_returning_nothing_still_call_the_method() {
    let mut e = field_emitter();
    e.functions[0].return_ty = NUL;
    let bound = e.class_method_reference_text("p", 0, 7).unwrap().unwrap();
    assert!(bound.contains("{ smelt_receiver.move("));
    assert!(bound.ends_with("); SmeltUnknown::Null }))) }"));
}
