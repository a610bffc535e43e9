//! Checked extraction of an erased `SmeltUnknown` value into a concrete type.

use vstd::prelude::*;
use crate::coercion::{is_trivial_reeval_expr, trivial_reeval_spec};
use crate::emitter::{EmitError, FunctionEmitter};
use crate::erase::wrap;
use crate::numtext::{decimal, usize_text};
use crate::text::{contains_str, has_infix, join, seq_join, str_eq, views};
use crate::types::{children_below, ClassKind, Type};
use crate::value_at_type::{tuple_text, tuple_text_spec};

verus! {

/// `elements`, with `item` mapped over them when there is one.
pub open spec fn convert_spec(elements: Seq<char>, item: Option<Seq<char>>) -> Seq<char> {
    match item {
        None => elements,
        Some(i) => elements + ".into_iter().map(|value| "@ + i + ").collect::<Vec<_>>()"@,
    }
}

/// The erased array's own values, with `item` mapped over them when there is
/// one.
pub open spec fn array_arm_spec(item: Option<Seq<char>>) -> Seq<char> {
    match item {
        None => "values.into_vec()"@,
        Some(i) => "values.into_iter().map(|value| "@ + i + ").collect::<Vec<_>>()"@,
    }
}

/// The `SmeltUnknown::Bool` reading of an erased value: JavaScript truthiness.
pub open spec fn bool_extract(text: Seq<char>) -> Seq<char> {
    "match "@ + text
        + ".clone() { SmeltUnknown::Null | SmeltUnknown::Undefined => false, SmeltUnknown::Bool(value) => value, SmeltUnknown::Number(value) => value != 0.0 && !value.is_nan(), SmeltUnknown::String(value) => !value.is_empty(), SmeltUnknown::Symbol(_) | SmeltUnknown::Array(_) | SmeltUnknown::Object(_) | SmeltUnknown::Function(_) | SmeltUnknown::Promise(_) => true }"@
}

/// The `f64` reading of an erased value.
pub open spec fn float_extract(text: Seq<char>) -> Seq<char> {
    "match "@ + text
        + ".clone() { SmeltUnknown::Number(value) => value, SmeltUnknown::Object(value) => match value.get(\"__smelt_date\") { Some(SmeltUnknown::Number(value)) => value, _ => f64::NAN }, SmeltUnknown::String(value) => value.parse::<f64>().unwrap_or(f64::NAN), SmeltUnknown::Bool(value) => if value { 1.0 } else { 0.0 }, SmeltUnknown::Null | SmeltUnknown::Undefined | SmeltUnknown::Symbol(_) | SmeltUnknown::Array(_) | SmeltUnknown::Function(_) | SmeltUnknown::Promise(_) => f64::NAN }"@
}

/// The `i64` reading of an erased value.
pub open spec fn int_extract(text: Seq<char>) -> Seq<char> {
    "match "@ + text
        + ".clone() { SmeltUnknown::Number(value) => value as i64, SmeltUnknown::Object(value) => match value.get(\"__smelt_date\") { Some(SmeltUnknown::Number(value)) => value as i64, _ => 0_i64 }, SmeltUnknown::String(value) => value.parse::<f64>().unwrap_or(f64::NAN) as i64, SmeltUnknown::Bool(value) => if value { 1_i64 } else { 0_i64 }, SmeltUnknown::Null | SmeltUnknown::Undefined | SmeltUnknown::Symbol(_) | SmeltUnknown::Array(_) | SmeltUnknown::Function(_) | SmeltUnknown::Promise(_) => 0_i64 }"@
}

/// The `String` reading of an erased value: JavaScript `String(value)`.
pub open spec fn string_extract(text: Seq<char>) -> Seq<char> {
    "match "@ + text
        + ".clone() { SmeltUnknown::String(value) | SmeltUnknown::Symbol(value) => value, SmeltUnknown::Number(value) => value.to_string(), SmeltUnknown::Bool(value) => value.to_string(), SmeltUnknown::Null => String::new(), SmeltUnknown::Undefined => \"undefined\".to_owned(), SmeltUnknown::Array(_) | SmeltUnknown::Object(_) => \"[object Object]\".to_owned(), SmeltUnknown::Function(_) => \"function () { [native code] }\".to_owned(), SmeltUnknown::Promise(_) => \"[object Promise]\".to_owned() }"@
}

/// A string-keyed record of erased values read from an erased object,
/// array or string.
pub open spec fn unknown_record_extract(text: Seq<char>) -> Seq<char> {
    "match ("@ + text
        + ").into_smelt_unknown() { SmeltUnknown::Object(value) => SmeltRecord::with_id_from_entries(value.id, value.into_iter()), SmeltUnknown::Array(values) => values.into_iter().enumerate().map(|(index, value)| (index.to_string(), value)).collect(), SmeltUnknown::String(value) => value.chars().enumerate().map(|(index, ch)| (index.to_string(), SmeltUnknown::String(ch.to_string()))).collect(), SmeltUnknown::Function(value) => SmeltRecord::from([(\"__smelt_call\".to_owned(), SmeltUnknown::Function(value))]), _ => SmeltRecord::new() }"@
}

/// A string-keyed record whose values are read through `item`.
pub open spec fn record_extract(text: Seq<char>, item: Seq<char>) -> Seq<char> {
    "match ("@ + text
        + ").into_smelt_unknown() { SmeltUnknown::Object(values) => SmeltRecord::with_id_from_entries(values.id, values.into_iter().map(|(key, value)| (key, "@
        + item
        + "))), SmeltUnknown::Array(values) => values.into_iter().enumerate().map(|(index, value)| (index.to_string(), "@
        + item
        + ")).collect(), SmeltUnknown::String(value) => value.chars().enumerate().map(|(index, ch)| { let value = SmeltUnknown::String(ch.to_string()); (index.to_string(), "@
        + item + ") }).collect(), _ => SmeltRecord::new() }"@
}

/// The `SmeltFromUnknown` recovery of an erased value at the Rust type `tt`.
pub open spec fn from_unknown(tt: Seq<char>, text: Seq<char>) -> Seq<char> {
    "<"@ + tt + " as SmeltFromUnknown>::smelt_from_unknown(("@ + text + ").into_smelt_unknown())"@
}

/// A regular expression rebuilt from an erased `{ source, flags }` object.
pub open spec fn regexp_extract(text: Seq<char>) -> Seq<char> {
    "match "@ + text
        + ".clone() { SmeltUnknown::Object(value) => SmeltRegExp::new(match value.get(\"source\") { Some(SmeltUnknown::String(source)) => source, _ => String::new() }, match value.get(\"flags\") { Some(SmeltUnknown::String(flags)) => flags, _ => String::new() }), _ => SmeltRegExp::default() }"@
}

/// The callable found in an erased value bound as `binding`: a function, or
/// an object's `__smelt_call` member.
pub open spec fn callable_match(binding: Seq<char>) -> Seq<char> {
    "let smelt_function = match "@ + binding
        + ".clone() { SmeltUnknown::Function(smelt_function) => Some(smelt_function), SmeltUnknown::Object(smelt_object) => match smelt_object.get(\"__smelt_call\") { Some(SmeltUnknown::Function(smelt_function)) => Some(smelt_function), _ => None }, _ => None }; "@
}

/// The `k`-th element read of an erased tuple array.
pub open spec fn tuple_slot(k: nat) -> Seq<char> {
    "smelt_tuple_values.get("@ + decimal(k) + ").cloned().unwrap_or(SmeltUnknown::Null)"@
}

impl FunctionEmitter {
    /// An erased iterable read into a list, with `item` reading each element
    /// and `ch` each character of a string.
    pub open spec fn erased_to_list_spec(&self, text: Seq<char>, item: Option<Seq<char>>, ch: Seq<char>) -> Seq<
        char,
    > {
        "{ let smelt_src = ("@ + text
            + ").clone().into_smelt_unknown(); let smelt_id = if let SmeltUnknown::Array(value) = &smelt_src { value.id } else { smelt_next_object_id() }; SmeltList::with_id(smelt_id, match smelt_src { SmeltUnknown::Null | SmeltUnknown::Undefined => Vec::new(), SmeltUnknown::Array(values) => "@
            + array_arm_spec(item) + ", SmeltUnknown::String(value) => value.chars().map(|ch| "@ + ch
            + ").collect::<Vec<_>>(), SmeltUnknown::Object(value) => if let Some(smelt_bytes) = "@
            + self.byte_buffer_elements@ + "(&SmeltUnknown::Object(value.clone())) { "@
            + convert_spec("smelt_bytes"@, item) + " } else if let Some(smelt_args) = "@
            + self.arguments_elements@ + "(&value) { "@ + convert_spec("smelt_args"@, item)
            + " } else if let Some(SmeltUnknown::Array(pairs)) = value.get(\"__smelt_map\") { "@
            + convert_spec("pairs.into_vec()"@, item)
            + " } else if let Some(SmeltUnknown::Array(members)) = value.get(\"__smelt_set\") { "@
            + convert_spec("members.into_vec()"@, item)
            + " } else { match value.get(\"__smelt_symbol_iterator\") { Some(SmeltUnknown::Function(iterator)) => "@
            + convert_spec(
            "smelt_unknown_iterator_items(iterator(vec![]).unwrap_or(SmeltUnknown::Null))"@,
            item,
        ) + ", _ => panic!(\"unknown is not iterable\") } }, _ => panic!(\"unknown is not iterable\") }) }"@
    }

    /// The literal a bare `Default::default()` extracts to at `target`.
    pub open spec fn default_extract(&self, target: usize) -> Option<Seq<char>> {
        match self.ty(target) {
            Some(Type::Nullish) => Some("()"@),
            Some(Type::Bool) => Some("false"@),
            Some(Type::Float) => Some("0.0"@),
            Some(Type::Int) => Some("0_i64"@),
            Some(Type::Str) => Some("String::new()"@),
            Some(Type::List(_)) => Some("Vec::new()"@),
            Some(Type::Dict(key, _)) => if self.smelt_record_key(key) {
                Some("SmeltRecord::new()"@)
            } else if self.js_key_map_key(key) {
                Some("SmeltJsMap::new()"@)
            } else {
                Some("::std::collections::HashMap::new()"@)
            },
            Some(Type::Optional(_)) => Some("None"@),
            _ => self.default_text(target),
        }
    }

    /// `extract_value_text(text, target)`: the checked extraction of erased
    /// `text` into `target`; `None` where emission fails.
    pub open spec fn extract_spec(&self, text: Seq<char>, target: usize) -> Option<Seq<char>>
        decreases target, 0nat, 0nat, 0nat, 1nat, 0nat,
    {
        if text == "Default::default()"@ {
            self.default_extract(target)
        } else {
            match self.ty(target) {
                None => None,
                Some(t) => match t {
                    Type::Unknown => Some(text),
                    Type::Class { name, .. } => self.class_extract_spec(text, target, name),
                    Type::List(item) => if has_infix(text, ".concat("@) {
                        Some(text)
                    } else if self.ty(item) == Some(Type::Unknown) {
                        Some(
                            self.erased_to_list_spec(
                                text,
                                None,
                                "SmeltUnknown::String(ch.to_string())"@,
                            ),
                        )
                    } else if self.ty(item) == Some(Type::Str) {
                        Some(
                            self.erased_to_list_spec(
                                text,
                                Some(
                                    "if let SmeltUnknown::String(value) = value { value } else { value.to_string() }"@,
                                ),
                                "ch.to_string()"@,
                            ),
                        )
                    } else if item < target {
                        match (
                            self.extract_spec("value"@, item),
                            self.extract_spec("SmeltUnknown::String(ch.to_string())"@, item),
                        ) {
                            (Some(i), Some(c)) => Some(self.erased_to_list_spec(text, Some(i), c)),
                            _ => None,
                        }
                    } else {
                        None
                    },
                    Type::Nullish => Some("{ let _ = "@ + text + ".clone(); () }"@),
                    Type::Bool => Some(bool_extract(text)),
                    Type::Float => Some(float_extract(text)),
                    Type::Int => Some(int_extract(text)),
                    Type::Str => Some(string_extract(text)),
                    Type::Dict(key, item) => if self.ty(key) == Some(Type::Str) && self.ty(item)
                        == Some(Type::Unknown) {
                        Some(unknown_record_extract(text))
                    } else if self.ty(key) == Some(Type::Str) {
                        if item < target {
                            match self.extract_spec("value"@, item) {
                                Some(i) => Some(record_extract(text, i)),
                                None => None,
                            }
                        } else {
                            None
                        }
                    } else {
                        self.keyed_extract_spec(text, target, key, item)
                    },
                    Type::JsMap(_, _) => match self.rust_text(target) {
                        Some(tt) => Some(from_unknown(tt, text)),
                        None => None,
                    },
                    Type::TypeParam { name } => if self.type_param_in_scope(target) {
                        match self.symbol(name) {
                            Some(n) => Some(from_unknown(n, text)),
                            None => None,
                        }
                    } else {
                        Some("("@ + text + ").into_smelt_unknown()"@)
                    },
                    Type::Union(_) => if self.concrete_union(target) {
                        match self.rust_text(target) {
                            Some(u) => Some(
                                u + "::from_smelt_unknown(("@ + text + ").into_smelt_unknown())"@,
                            ),
                            None => None,
                        }
                    } else {
                        Some(text)
                    },
                    Type::Never => Some(text),
                    Type::Optional(inner) => if inner < target {
                        if self.preserves_singletons_spec(inner) {
                            match self.extract_spec(text, inner) {
                                Some(i) => Some("Some("@ + i + ")"@),
                                None => None,
                            }
                        } else if trivial_reeval_spec(text) {
                            match self.extract_spec(text, inner) {
                                Some(i) => Some(
                                    "if smelt_unknown_is_nullish(&"@ + text
                                        + ".clone()) { None } else { Some("@ + i + ") }"@,
                                ),
                                None => None,
                            }
                        } else {
                            match self.extract_spec("smelt_optional_source"@, inner) {
                                Some(i) => Some(
                                    "{ let smelt_optional_source = "@ + text
                                        + "; if smelt_unknown_is_nullish(&smelt_optional_source.clone()) { None } else { Some("@
                                        + i + ") } }"@,
                                ),
                                None => None,
                            }
                        }
                    } else {
                        None
                    },
                    Type::Tuple(items) => match self.extract_items_spec(items@, target, items.len() as nat) {
                        Some(parts) => Some(
                            "if let SmeltUnknown::Array(smelt_tuple_values) = "@ + text
                                + ".clone() { "@ + tuple_text_spec(
                                seq_join(parts, ", "@),
                                items.len() as nat,
                            ) + " } else { panic!(\"unknown is not tuple\") }"@,
                        ),
                        None => None,
                    },
                    Type::SetOf(item) => if !self.hash_set_key_safe(item) {
                        match self.rust_text(target) {
                            Some(tt) => Some(from_unknown(tt, text)),
                            None => None,
                        }
                    } else {
                        Some("Default::default()"@)
                    },
                    Type::Function(f) => if self.erased_rest_function(target) && !f.may_throw {
                        match self.default_text(target) {
                            Some(d) => {
                                let length = match f.required_params {
                                    Some(n) => n,
                                    None => match f.rest {
                                        Some(n) => n,
                                        None => f.params.len(),
                                    },
                                };
                                Some(
                                    "{ let smelt_value = "@ + text + ".clone(); "@ + callable_match(
                                        "smelt_value"@,
                                    )
                                        + "if let Some(smelt_function) = smelt_function { SmeltErasedFunction { callback: ::std::rc::Rc::new(move |smelt_args: Vec<SmeltUnknown>| (smelt_function)(smelt_args).unwrap_or_else(|error| panic!(\"{}\", error))), length: "@
                                        + decimal(length as nat)
                                        + ".0, object: match smelt_value { SmeltUnknown::Object(object) => Some(object), _ => None } } } else { "@
                                        + d + " } }"@,
                                )
                            },
                            None => None,
                        }
                    } else if f.return_ty < target {
                        self.function_extract_spec(text, target, f.return_ty, f.may_throw)
                    } else {
                        None
                    },
                    Type::Future(output) => if output < target {
                        match self.extract_spec("smelt_awaited"@, output) {
                            Some(x) => Some(
                                "{ let smelt_erased_future = ("@ + text
                                    + ").into_smelt_unknown(); SmeltFuture::from_future(Box::pin(async move { let smelt_awaited = smelt_await_flatten(smelt_erased_future).await?; Ok::<_, Box<dyn std::error::Error>>("@
                                    + x + ") })) }"@,
                            ),
                            None => None,
                        }
                    } else {
                        None
                    },
                    Type::Generator | Type::GeneratorResult { .. } => None,
                },
            }
        }
    }

    /// The class arms of the extraction.
    pub open spec fn class_extract_spec(&self, text: Seq<char>, target: usize, name: usize) -> Option<
        Seq<char>,
    > {
        match self.symbol(name) {
            None => None,
            Some(n) => if n == "Date"@ || n == "PropertyKey"@ {
                Some(text)
            } else if self.class_kind_of(target) is RegExp {
                Some(regexp_extract(text))
            } else {
                match self.rust_text(target) {
                    None => None,
                    Some(tt) => if tt == "SmeltUnknown"@ || self.erased_class(target) {
                        Some(text)
                    } else {
                        match (
                            self.object_record(target),
                            self.find_interned(Type::Str),
                            self.find_interned(Type::Unknown),
                        ) {
                            (Some(a), Some(_), Some(_)) => Some(
                                "match ("@ + text
                                    + ").into_smelt_unknown() { SmeltUnknown::Object(values) => { let smelt_record_map = SmeltRecord::with_id_from_entries(values.id, values.into_iter()); "@
                                    + a + " }, _ => Default::default() }"@,
                            ),
                            _ => Some("Default::default()"@),
                        }
                    },
                }
            },
        }
    }

    /// The record adapter that rebuilds a class from `smelt_record_map`.
    pub open spec fn object_record(&self, target: usize) -> Option<Seq<char>> {
        match self.fact(target) {
            Some(f) => match f.object_record {
                Some(t) => Some(t.render_spec("smelt_record_map"@)),
                None => None,
            },
            None => None,
        }
    }

    /// A non-string-keyed dict read from an erased object.
    pub open spec fn keyed_extract_spec(&self, text: Seq<char>, target: usize, key: usize, item: usize) -> Option<
        Seq<char>,
    >
        decreases target, 0nat, 0nat, 0nat, 0nat, 0nat,
    {
        if key < target && item < target {
            match self.find_interned(Type::Str) {
                None => None,
                Some(s) => match (
                    self.vat_spec("key"@, s, key, Seq::empty()),
                    self.extract_spec("value"@, item),
                ) {
                    (Some(k), Some(i)) => if self.js_key_map_key(key) {
                        Some(
                            "if let SmeltUnknown::Object(values) = "@ + text
                                + ".clone() { SmeltJsMap::from_iter(values.into_iter().map(|(key, value)| ("@
                                + k + ", "@ + i + "))) } else { SmeltJsMap::new() }"@,
                        )
                    } else {
                        Some(
                            "if let SmeltUnknown::Object(values) = "@ + text
                                + ".clone() { values.into_iter().map(|(key, value)| ("@ + k + ", "@
                                + i
                                + ")).collect::<::std::collections::HashMap<_, _>>() } else { ::std::collections::HashMap::new() }"@,
                        )
                    },
                    _ => None,
                },
            }
        } else {
            None
        }
    }

    /// The first `n` tuple slots, each extracted at its item type.
    pub open spec fn extract_items_spec(&self, items: Seq<usize>, owner: usize, n: nat) -> Option<
        Seq<Seq<char>>,
    >
        decreases owner, 0nat, 0nat, 0nat, 0nat, n,
    {
        if n == 0 {
            Some(Seq::empty())
        } else if n > items.len() || items[n - 1] >= owner {
            None
        } else {
            match (
                self.extract_items_spec(items, owner, (n - 1) as nat),
                self.extract_spec(tuple_slot((n - 1) as nat), items[n - 1]),
            ) {
                (Some(done), Some(x)) => Some(done.push(x)),
                _ => None,
            }
        }
    }

    /// A typed callback recovered from an erased callable.
    pub open spec fn function_extract_spec(
        &self,
        text: Seq<char>,
        target: usize,
        ret: usize,
        may_throw: bool,
    ) -> Option<Seq<char>>
        decreases target, 0nat, 0nat, 0nat, 0nat, 0nat,
    {
        match (self.rust_text(target), self.rust_text(ret), self.callback_params(target), self.unknown_call_args_spec(target)) {
            (Some(tt), Some(rt), Some(params), Some(args)) => {
                let call = if may_throw {
                    "(smelt_function)("@ + args + ")?"@
                } else {
                    "(smelt_function)("@ + args + ").unwrap_or_else(|error| panic!(\"{}\", error))"@
                };
                let converted = match self.future_item(ret) {
                    Some(item) => if item < target && self.rust_text(item) is Some {
                        match self.extract_spec("smelt_flattened"@, item) {
                            Some(x) => Some(
                                "SmeltFuture::from_future(Box::pin(async move { let smelt_flattened = smelt_await_flatten((smelt_result).into_smelt_unknown()).await?; Ok::<_, Box<dyn std::error::Error>>("@
                                    + x + ") }))"@,
                            ),
                            None => None,
                        }
                    } else {
                        None
                    },
                    None => if rt == "SmeltUnknown"@ {
                        Some("smelt_result"@)
                    } else if ret < target {
                        self.extract_spec("smelt_result"@, ret)
                    } else {
                        None
                    },
                };
                match (converted, self.default_text(target)) {
                    (Some(c), Some(d)) => {
                        let ret_text = if may_throw {
                            "Ok::<_, Box<dyn std::error::Error>>("@ + c + ")"@
                        } else {
                            c
                        };
                        Some(
                            "{ let smelt_source_value = "@ + text + ".clone(); "@ + callable_match(
                                "smelt_source_value"@,
                            )
                                + "if let Some(smelt_function) = smelt_function { let smelt_origin_identity = smelt_canonical_function_identity(&smelt_function); let smelt_callback: "@
                                + tt + " = if let Some(smelt_original) = smelt_restore_function_origin::<"@
                                + tt
                                + ">(&smelt_function) { smelt_original } else { ::std::rc::Rc::new(move |"@
                                + params + "| -> "@ + rt + " { let smelt_result = "@ + call + "; "@
                                + ret_text
                                + " }) }; smelt_register_callable_object(&smelt_callback, smelt_source_value); smelt_link_function_identity_key(&smelt_callback, smelt_origin_identity); smelt_callback } else { "@
                                + d + " } }"@,
                        )
                    },
                    _ => None,
                }
            },
            _ => None,
        }
    }

    pub open spec fn callback_params(&self, t: usize) -> Option<Seq<char>> {
        match self.fact(t) {
            Some(f) => match f.callback_params {
                Some(p) => Some(p@),
                None => None,
            },
            None => None,
        }
    }

}


fn convert_text(elements: &str, item: Option<&str>) -> (r: String)
    ensures
        r@ == convert_spec(
            elements@,
            match item {
                Some(i) => Some(i@),
                None => None,
            },
        ),
{
    match item {
        None => String::from_str(elements),
        Some(i) => {
            let mut s = wrap(elements, ".into_iter().map(|value| ", i);
            s.append(").collect::<Vec<_>>()");
            s
        },
    }
}

fn tuple_slot_text(k: usize) -> (r: String)
    ensures
        r@ == tuple_slot(k as nat),
{
    let idx = usize_text(k);
    wrap("smelt_tuple_values.get(", idx.as_str(), ").cloned().unwrap_or(SmeltUnknown::Null)")
}

fn callable_match_text(binding: &str) -> (r: String)
    ensures
        r@ == callable_match(binding@),
{
    wrap(
        "let smelt_function = match ",
        binding,
        ".clone() { SmeltUnknown::Function(smelt_function) => Some(smelt_function), SmeltUnknown::Object(smelt_object) => match smelt_object.get(\"__smelt_call\") { Some(SmeltUnknown::Function(smelt_function)) => Some(smelt_function), _ => None }, _ => None }; ",
    )
}

fn from_unknown_text(tt: &str, text: &str) -> (r: String)
    ensures
        r@ == from_unknown(tt@, text@),
{
    let mut s = wrap("<", tt, " as SmeltFromUnknown>::smelt_from_unknown((");
    s.append(text);
    s.append(").into_smelt_unknown())");
    s
}

impl FunctionEmitter {
    fn erased_to_list_text(&self, text: &str, item: Option<&str>, ch: &str) -> (r: String)
        ensures
            r@ == self.erased_to_list_spec(
                text@,
                match item {
                    Some(i) => Some(i@),
                    None => None,
                },
                ch@,
            ),
    {
        let array_arm = match item {
            None => String::from_str("values.into_vec()"),
            Some(i) => wrap("values.into_iter().map(|value| ", i, ").collect::<Vec<_>>()"),
        };
        let mut s = wrap(
            "{ let smelt_src = (",
            text,
            ").clone().into_smelt_unknown(); let smelt_id = if let SmeltUnknown::Array(value) = &smelt_src { value.id } else { smelt_next_object_id() }; SmeltList::with_id(smelt_id, match smelt_src { SmeltUnknown::Null | SmeltUnknown::Undefined => Vec::new(), SmeltUnknown::Array(values) => ",
        );
        s.append(array_arm.as_str());
        s.append(", SmeltUnknown::String(value) => value.chars().map(|ch| ");
        s.append(ch);
        s.append(").collect::<Vec<_>>(), SmeltUnknown::Object(value) => if let Some(smelt_bytes) = ");
        s.append(self.byte_buffer_elements.as_str());
        s.append("(&SmeltUnknown::Object(value.clone())) { ");
        s.append(convert_text("smelt_bytes", item).as_str());
        s.append(" } else if let Some(smelt_args) = ");
        s.append(self.arguments_elements.as_str());
        s.append("(&value) { ");
        s.append(convert_text("smelt_args", item).as_str());
        s.append(" } else if let Some(SmeltUnknown::Array(pairs)) = value.get(\"__smelt_map\") { ");
        s.append(convert_text("pairs.into_vec()", item).as_str());
        s.append(" } else if let Some(SmeltUnknown::Array(members)) = value.get(\"__smelt_set\") { ");
        s.append(convert_text("members.into_vec()", item).as_str());
        s.append(
            " } else { match value.get(\"__smelt_symbol_iterator\") { Some(SmeltUnknown::Function(iterator)) => ",
        );
        s.append(
            convert_text(
                "smelt_unknown_iterator_items(iterator(vec![]).unwrap_or(SmeltUnknown::Null))",
                item,
            ).as_str(),
        );
        s.append(", _ => panic!(\"unknown is not iterable\") } }, _ => panic!(\"unknown is not iterable\") }) }");
        s
    }

    fn default_extract_text(&self, target: usize) -> (r: Result<String, EmitError>)
        ensures
            r matches Ok(t) ==> self.default_extract(target) == Some(t@),
            r is Err <==> self.default_extract(target) is None,
    {
        match self.type_at(target) {
            Some(Type::Nullish) => Ok(String::from_str("()")),
            Some(Type::Bool) => Ok(String::from_str("false")),
            Some(Type::Float) => Ok(String::from_str("0.0")),
            Some(Type::Int) => Ok(String::from_str("0_i64")),
            Some(Type::Str) => Ok(String::from_str("String::new()")),
            Some(Type::List(_)) => Ok(String::from_str("Vec::new()")),
            Some(Type::Dict(key, _)) => {
                let (record, js_map) = match self.fact_at(*key) {
                    Some(f) => (f.smelt_record_key, f.js_key_map_key),
                    None => (false, false),
                };
                if record {
                    Ok(String::from_str("SmeltRecord::new()"))
                } else if js_map {
                    Ok(String::from_str("SmeltJsMap::new()"))
                } else {
                    Ok(String::from_str("::std::collections::HashMap::new()"))
                }
            },
            Some(Type::Optional(_)) => Ok(String::from_str("None")),
            _ => self.default_value(target),
        }
    }

    fn class_extract_text(&self, text: &str, target: usize, name: usize) -> (r: Result<String, EmitError>)
        ensures
            r matches Ok(t) ==> self.class_extract_spec(text@, target, name) == Some(t@),
            r is Err <==> self.class_extract_spec(text@, target, name) is None,
    {
        let n = self.symbol_name(name)?;
        if str_eq(n.as_str(), "Date") || str_eq(n.as_str(), "PropertyKey") {
            return Ok(String::from_str(text));
        }
        let regexp = match self.fact_at(target) {
            Some(f) => match f.class_kind {
                ClassKind::RegExp => true,
                _ => false,
            },
            None => false,
        };
        if regexp {
            return Ok(
                wrap(
                    "match ",
                    text,
                    ".clone() { SmeltUnknown::Object(value) => SmeltRegExp::new(match value.get(\"source\") { Some(SmeltUnknown::String(source)) => source, _ => String::new() }, match value.get(\"flags\") { Some(SmeltUnknown::String(flags)) => flags, _ => String::new() }), _ => SmeltRegExp::default() }",
                ),
            );
        }
        let tt = self.rust_type_text(target)?;
        if str_eq(tt.as_str(), "SmeltUnknown") || self.is_erased_class_type(target) {
            return Ok(String::from_str(text));
        }
        let adapter = match self.fact_at(target) {
            Some(f) => match &f.object_record {
                Some(t) => Some(t.render("smelt_record_map")),
                None => None,
            },
            None => None,
        };
        let have_str = self.type_id(&Type::Str).is_ok();
        let have_unknown = self.type_id(&Type::Unknown).is_ok();
        match adapter {
            Some(a) => {
                if have_str && have_unknown {
                    let mut s = wrap(
                        "match (",
                        text,
                        ").into_smelt_unknown() { SmeltUnknown::Object(values) => { let smelt_record_map = SmeltRecord::with_id_from_entries(values.id, values.into_iter()); ",
                    );
                    s.append(a.as_str());
                    s.append(" }, _ => Default::default() }");
                    Ok(s)
                } else {
                    Ok(String::from_str("Default::default()"))
                }
            },
            None => Ok(String::from_str("Default::default()")),
        }
    }

    /// Emits checked extraction from an already-rendered `SmeltUnknown` value.
    pub fn extract_value_text(&self, text: &str, target: usize) -> (r: Result<String, EmitError>)
        requires
            self.wf(),
        ensures
            r matches Ok(t) ==> self.extract_spec(text@, target) == Some(t@),
            r is Err <==> self.extract_spec(text@, target) is None,
        decreases target, 0nat, 0nat, 0nat, 1nat, 0nat,
    {
        if str_eq(text, "Default::default()") {
            return self.default_extract_text(target);
        }
        proof {
            if target < self.types.len() {
                assert(children_below(self.types@[target as int], target as int));
            }
        }
        let t = match self.type_at(target) {
            None => {
                return Err(EmitError::new("extraction target is not interned"));
            },
            Some(t) => t,
        };
        match t {
            Type::Unknown => Ok(String::from_str(text)),
            Type::Class { name, .. } => self.class_extract_text(text, target, *name),
            Type::List(item) => {
                if contains_str(text, ".concat(") {
                    Ok(String::from_str(text))
                } else if self.is_unknown_type(*item) {
                    Ok(self.erased_to_list_text(text, None, "SmeltUnknown::String(ch.to_string())"))
                } else if self.is_str_type(*item) {
                    Ok(
                        self.erased_to_list_text(
                            text,
                            Some(
                                "if let SmeltUnknown::String(value) = value { value } else { value.to_string() }",
                            ),
                            "ch.to_string()",
                        ),
                    )
                } else {
                    let i = self.extract_value_text("value", *item)?;
                    let c = self.extract_value_text("SmeltUnknown::String(ch.to_string())", *item)?;
                    Ok(self.erased_to_list_text(text, Some(i.as_str()), c.as_str()))
                }
            },
            Type::Nullish => Ok(wrap("{ let _ = ", text, ".clone(); () }")),
            Type::Bool => Ok(
                wrap(
                    "match ",
                    text,
                    ".clone() { SmeltUnknown::Null | SmeltUnknown::Undefined => false, SmeltUnknown::Bool(value) => value, SmeltUnknown::Number(value) => value != 0.0 && !value.is_nan(), SmeltUnknown::String(value) => !value.is_empty(), SmeltUnknown::Symbol(_) | SmeltUnknown::Array(_) | SmeltUnknown::Object(_) | SmeltUnknown::Function(_) | SmeltUnknown::Promise(_) => true }",
                ),
            ),
            Type::Float => Ok(
                wrap(
                    "match ",
                    text,
                    ".clone() { SmeltUnknown::Number(value) => value, SmeltUnknown::Object(value) => match value.get(\"__smelt_date\") { Some(SmeltUnknown::Number(value)) => value, _ => f64::NAN }, SmeltUnknown::String(value) => value.parse::<f64>().unwrap_or(f64::NAN), SmeltUnknown::Bool(value) => if value { 1.0 } else { 0.0 }, SmeltUnknown::Null | SmeltUnknown::Undefined | SmeltUnknown::Symbol(_) | SmeltUnknown::Array(_) | SmeltUnknown::Function(_) | SmeltUnknown::Promise(_) => f64::NAN }",
                ),
            ),
            Type::Int => Ok(
                wrap(
                    "match ",
                    text,
                    ".clone() { SmeltUnknown::Number(value) => value as i64, SmeltUnknown::Object(value) => match value.get(\"__smelt_date\") { Some(SmeltUnknown::Number(value)) => value as i64, _ => 0_i64 }, SmeltUnknown::String(value) => value.parse::<f64>().unwrap_or(f64::NAN) as i64, SmeltUnknown::Bool(value) => if value { 1_i64 } else { 0_i64 }, SmeltUnknown::Null | SmeltUnknown::Undefined | SmeltUnknown::Symbol(_) | SmeltUnknown::Array(_) | SmeltUnknown::Function(_) | SmeltUnknown::Promise(_) => 0_i64 }",
                ),
            ),
            Type::Str => Ok(
                wrap(
                    "match ",
                    text,
                    ".clone() { SmeltUnknown::String(value) | SmeltUnknown::Symbol(value) => value, SmeltUnknown::Number(value) => value.to_string(), SmeltUnknown::Bool(value) => value.to_string(), SmeltUnknown::Null => String::new(), SmeltUnknown::Undefined => \"undefined\".to_owned(), SmeltUnknown::Array(_) | SmeltUnknown::Object(_) => \"[object Object]\".to_owned(), SmeltUnknown::Function(_) => \"function () { [native code] }\".to_owned(), SmeltUnknown::Promise(_) => \"[object Promise]\".to_owned() }",
                ),
            ),
            Type::Dict(key, item) => {
                let key_str = self.is_str_type(*key);
                if key_str && self.is_unknown_type(*item) {
                    Ok(
                        wrap(
                            "match (",
                            text,
                            ").into_smelt_unknown() { SmeltUnknown::Object(value) => SmeltRecord::with_id_from_entries(value.id, value.into_iter()), SmeltUnknown::Array(values) => values.into_iter().enumerate().map(|(index, value)| (index.to_string(), value)).collect(), SmeltUnknown::String(value) => value.chars().enumerate().map(|(index, ch)| (index.to_string(), SmeltUnknown::String(ch.to_string()))).collect(), SmeltUnknown::Function(value) => SmeltRecord::from([(\"__smelt_call\".to_owned(), SmeltUnknown::Function(value))]), _ => SmeltRecord::new() }",
                        ),
                    )
                } else if key_str {
                    let i = self.extract_value_text("value", *item)?;
                    let mut s = wrap(
                        "match (",
                        text,
                        ").into_smelt_unknown() { SmeltUnknown::Object(values) => SmeltRecord::with_id_from_entries(values.id, values.into_iter().map(|(key, value)| (key, ",
                    );
                    s.append(i.as_str());
                    s.append(
                        "))), SmeltUnknown::Array(values) => values.into_iter().enumerate().map(|(index, value)| (index.to_string(), ",
                    );
                    s.append(i.as_str());
                    s.append(
                        ")).collect(), SmeltUnknown::String(value) => value.chars().enumerate().map(|(index, ch)| { let value = SmeltUnknown::String(ch.to_string()); (index.to_string(), ",
                    );
                    s.append(i.as_str());
                    s.append(") }).collect(), _ => SmeltRecord::new() }");
                    Ok(s)
                } else {
                    self.keyed_extract_text(text, target, *key, *item)
                }
            },
            Type::JsMap(_, _) => {
                let tt = self.rust_type_text(target)?;
                Ok(from_unknown_text(tt.as_str(), text))
            },
            Type::TypeParam { name } => {
                let in_scope = match self.fact_at(target) {
                    Some(f) => f.type_param_in_scope,
                    None => false,
                };
                if in_scope {
                    let n = self.symbol_name(*name)?;
                    Ok(from_unknown_text(n.as_str(), text))
                } else {
                    Ok(wrap("(", text, ").into_smelt_unknown()"))
                }
            },
            Type::Union(_) => {
                if self.is_concrete_union(target) {
                    let u = self.rust_type_text(target)?;
                    let mut s = wrap(u.as_str(), "::from_smelt_unknown((", text);
                    s.append(").into_smelt_unknown())");
                    Ok(s)
                } else {
                    Ok(String::from_str(text))
                }
            },
            Type::Never => Ok(String::from_str(text)),
            Type::Optional(inner) => {
                if self.optional_inner_preserves_erased_singletons(*inner) {
                    let i = self.extract_value_text(text, *inner)?;
                    Ok(wrap("Some(", i.as_str(), ")"))
                } else if is_trivial_reeval_expr(text) {
                    let i = self.extract_value_text(text, *inner)?;
                    let mut s = wrap("if smelt_unknown_is_nullish(&", text, ".clone()) { None } else { Some(");
                    s.append(i.as_str());
                    s.append(") }");
                    Ok(s)
                } else {
                    let i = self.extract_value_text("smelt_optional_source", *inner)?;
                    let mut s = wrap(
                        "{ let smelt_optional_source = ",
                        text,
                        "; if smelt_unknown_is_nullish(&smelt_optional_source.clone()) { None } else { Some(",
                    );
                    s.append(i.as_str());
                    s.append(") } }");
                    Ok(s)
                }
            },
            Type::Tuple(items) => {
                let parts = self.extract_items(items, target)?;
                let joined = join(&parts, ", ");
                let tuple = tuple_text(joined.as_str(), items.len());
                let mut s = wrap("if let SmeltUnknown::Array(smelt_tuple_values) = ", text, ".clone() { ");
                s.append(tuple.as_str());
                s.append(" } else { panic!(\"unknown is not tuple\") }");
                Ok(s)
            },
            Type::SetOf(item) => {
                let safe = match self.fact_at(*item) {
                    Some(f) => f.hash_set_key_safe,
                    None => false,
                };
                if !safe {
                    let tt = self.rust_type_text(target)?;
                    Ok(from_unknown_text(tt.as_str(), text))
                } else {
                    Ok(String::from_str("Default::default()"))
                }
            },
            Type::Function(f) => {
                let rest = match self.fact_at(target) {
                    Some(facts) => facts.erased_unknown_rest_function,
                    None => false,
                };
                if rest && !f.may_throw {
                    let d = self.default_value(target)?;
                    let length = match f.required_params {
                        Some(n) => n,
                        None => match f.rest {
                            Some(n) => n,
                            None => f.params.len(),
                        },
                    };
                    let mut s = wrap("{ let smelt_value = ", text, ".clone(); ");
                    s.append(callable_match_text("smelt_value").as_str());
                    s.append(
                        "if let Some(smelt_function) = smelt_function { SmeltErasedFunction { callback: ::std::rc::Rc::new(move |smelt_args: Vec<SmeltUnknown>| (smelt_function)(smelt_args).unwrap_or_else(|error| panic!(\"{}\", error))), length: ",
                    );
                    s.append(usize_text(length).as_str());
                    s.append(
                        ".0, object: match smelt_value { SmeltUnknown::Object(object) => Some(object), _ => None } } } else { ",
                    );
                    s.append(d.as_str());
                    s.append(" } }");
                    Ok(s)
                } else if f.return_ty < target {
                    self.function_extract_text(text, target, f.return_ty, f.may_throw)
                } else {
                    Err(EmitError::new("function return type is not interned before the function"))
                }
            },
            Type::Future(output) => {
                let x = self.extract_value_text("smelt_awaited", *output)?;
                let mut s = wrap(
                    "{ let smelt_erased_future = (",
                    text,
                    ").into_smelt_unknown(); SmeltFuture::from_future(Box::pin(async move { let smelt_awaited = smelt_await_flatten(smelt_erased_future).await?; Ok::<_, Box<dyn std::error::Error>>(",
                );
                s.append(x.as_str());
                s.append(") })) }");
                Ok(s)
            },
            Type::Generator | Type::GeneratorResult { .. } => Err(
                EmitError::new("checked extraction from unknown to this type is not implemented yet"),
            ),
        }
    }

    fn keyed_extract_text(&self, text: &str, target: usize, key: usize, item: usize) -> (r: Result<
        String,
        EmitError,
    >)
        requires
            self.wf(),
        ensures
            r matches Ok(t) ==> self.keyed_extract_spec(text@, target, key, item) == Some(t@),
            r is Err <==> self.keyed_extract_spec(text@, target, key, item) is None,
        decreases target, 0nat, 0nat, 0nat, 0nat, 0nat,
    {
        if key >= target || item >= target {
            return Err(EmitError::new("dict parts are not interned before the dict"));
        }
        let s_ty = self.type_id(&Type::Str)?;
        let empty: Vec<(usize, usize)> = Vec::new();
        let k = self.vat_text("key", s_ty, key, &empty)?;
        let i = self.extract_value_text("value", item)?;
        let js_map = match self.fact_at(key) {
            Some(f) => f.js_key_map_key,
            None => false,
        };
        if js_map {
            let mut s = wrap(
                "if let SmeltUnknown::Object(values) = ",
                text,
                ".clone() { SmeltJsMap::from_iter(values.into_iter().map(|(key, value)| (",
            );
            s.append(k.as_str());
            s.append(", ");
            s.append(i.as_str());
            s.append("))) } else { SmeltJsMap::new() }");
            Ok(s)
        } else {
            let mut s = wrap(
                "if let SmeltUnknown::Object(values) = ",
                text,
                ".clone() { values.into_iter().map(|(key, value)| (",
            );
            s.append(k.as_str());
            s.append(", ");
            s.append(i.as_str());
            s.append(
                ")).collect::<::std::collections::HashMap<_, _>>() } else { ::std::collections::HashMap::new() }",
            );
            Ok(s)
        }
    }

    proof fn lemma_extract_items_none(&self, items: Seq<usize>, owner: usize, a: nat, b: nat)
        requires
            a <= b,
            self.extract_items_spec(items, owner, a) is None,
        ensures
            self.extract_items_spec(items, owner, b) is None,
        decreases b - a,
    {
        if a < b {
            self.lemma_extract_items_none(items, owner, a, (b - 1) as nat);
        }
    }

    fn extract_items(&self, items: &Vec<usize>, owner: usize) -> (r: Result<Vec<String>, EmitError>)
        requires
            self.wf(),
        ensures
            r matches Ok(v) ==> self.extract_items_spec(items@, owner, items.len() as nat) == Some(
                views(v@),
            ),
            r is Err <==> self.extract_items_spec(items@, owner, items.len() as nat) is None,
        decreases owner, 0nat, 0nat, 0nat, 0nat, items.len(),
    {
        let mut out: Vec<String> = Vec::new();
        let mut k: usize = 0;
        while k < items.len()
            invariant
                self.wf(),
                k <= items.len(),
                out.len() == k,
                self.extract_items_spec(items@, owner, k as nat) == Some(views(out@)),
            decreases items.len() - k,
        {
            if items[k] >= owner {
                proof {
                    self.lemma_extract_items_none(items@, owner, (k + 1) as nat, items.len() as nat);
                }
                return Err(EmitError::new("tuple item type is not interned before the tuple"));
            }
            let slot = tuple_slot_text(k);
            match self.extract_value_text(slot.as_str(), items[k]) {
                Ok(x) => {
                    let ghost before = out@;
                    out.push(x);
                    assert(views(out@) =~= views(before).push(out@[k as int]@));
                },
                Err(e) => {
                    proof {
                        self.lemma_extract_items_none(items@, owner, (k + 1) as nat, items.len() as nat);
                    }
                    return Err(e);
                },
            }
            k = k + 1;
        }
        Ok(out)
    }

    fn function_extract_text(&self, text: &str, target: usize, ret: usize, may_throw: bool) -> (r:
        Result<String, EmitError>)
        requires
            self.wf(),
            ret < target,
        ensures
            r matches Ok(t) ==> self.function_extract_spec(text@, target, ret, may_throw) == Some(t@),
            r is Err <==> self.function_extract_spec(text@, target, ret, may_throw) is None,
        decreases target, 0nat, 0nat, 0nat, 0nat, 0nat,
    {
        proof {
            if ret < self.types.len() {
                assert(children_below(self.types@[ret as int], ret as int));
            }
        }
        let tt = self.rust_type_text(target)?;
        let rt = self.rust_type_text(ret)?;
        let params = match self.fact_at(target) {
            Some(f) => match &f.callback_params {
                Some(p) => p,
                None => {
                    return Err(EmitError::new("function type has no callback signature"));
                },
            },
            None => {
                return Err(EmitError::new("function type has no callback signature"));
            },
        };
        let args = self.unknown_function_call_args_text(target)?;
        let call = if may_throw {
            wrap("(smelt_function)(", args.as_str(), ")?")
        } else {
            wrap(
                "(smelt_function)(",
                args.as_str(),
                ").unwrap_or_else(|error| panic!(\"{}\", error))",
            )
        };
        let converted = match self.future_item_of(ret) {
            Some(item) => {
                let _item_text = self.rust_type_text(item)?;
                let x = self.extract_value_text("smelt_flattened", item)?;
                wrap(
                    "SmeltFuture::from_future(Box::pin(async move { let smelt_flattened = smelt_await_flatten((smelt_result).into_smelt_unknown()).await?; Ok::<_, Box<dyn std::error::Error>>(",
                    x.as_str(),
                    ") }))",
                )
            },
            None => {
                if str_eq(rt.as_str(), "SmeltUnknown") {
                    String::from_str("smelt_result")
                } else {
                    self.extract_value_text("smelt_result", ret)?
                }
            },
        };
        let d = self.default_value(target)?;
        let ret_text = if may_throw {
            wrap("Ok::<_, Box<dyn std::error::Error>>(", converted.as_str(), ")")
        } else {
            converted
        };
        let mut s = wrap("{ let smelt_source_value = ", text, ".clone(); ");
        s.append(callable_match_text("smelt_source_value").as_str());
        s.append(
            "if let Some(smelt_function) = smelt_function { let smelt_origin_identity = smelt_canonical_function_identity(&smelt_function); let smelt_callback: ",
        );
        s.append(tt.as_str());
        s.append(" = if let Some(smelt_original) = smelt_restore_function_origin::<");
        s.append(tt.as_str());
        s.append(">(&smelt_function) { smelt_original } else { ::std::rc::Rc::new(move |");
        s.append(params.as_str());
        s.append("| -> ");
        s.append(rt.as_str());
        s.append(" { let smelt_result = ");
        s.append(call.as_str());
        s.append("; ");
        s.append(ret_text.as_str());
        s.append(
            " }) }; smelt_register_callable_object(&smelt_callback, smelt_source_value); smelt_link_function_identity_key(&smelt_callback, smelt_origin_identity); smelt_callback } else { ",
        );
        s.append(d.as_str());
        s.append(" } }");
        Ok(s)
    }
}

} // verus!
