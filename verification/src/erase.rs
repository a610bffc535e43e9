//! Boxing typed values into the erased `SmeltUnknown` runtime form.

use vstd::prelude::*;
use crate::emitter::{EmitError, FunctionEmitter};
use crate::numtext::{decimal, usize_text};
use crate::text::{join, seq_join, str_eq, views};
use crate::types::{children_below, ClassKind, Type};

verus! {

/// A rendered value expression with its static type, and whether it is a
/// loose operand that must be parenthesized before it becomes a cast operand
/// or a method receiver.
pub struct RenderedValue {
    pub text: String,
    pub ty: usize,
    pub needs_parens: bool,
}

/// `text`, wrapped in parentheses when `parens` holds.
pub open spec fn paren(text: Seq<char>, parens: bool) -> Seq<char> {
    if parens {
        "("@ + text + ")"@
    } else {
        text
    }
}

pub open spec fn null_text() -> Seq<char> {
    "SmeltUnknown::Null"@
}

pub open spec fn ok_unknown() -> Seq<char> {
    "Ok::<SmeltUnknown, Box<dyn std::error::Error>>("@
}

/// The timestamp-backed `Date` boxing: an erased date object keeps its
/// marker, a bare number gets one.
pub open spec fn date_identity_spec(text: Seq<char>) -> Seq<char> {
    "match "@ + text
        + ".clone() { SmeltUnknown::Object(value) if value.contains_key(\"__smelt_date\") => SmeltUnknown::Object(value), SmeltUnknown::Number(value) => SmeltUnknown::Object(SmeltObject::new(Vec::from([(\"__smelt_date\".to_owned(), SmeltUnknown::Number(value))]))), value => value }"@
}

pub open spec fn list_erase_spec(p: Seq<char>, vw: Seq<char>) -> Seq<char> {
    "{ let smelt_l = "@ + p
        + "; let smelt_id = smelt_l.id(); let smelt_values: Vec<_> = smelt_l.into(); SmeltUnknown::Array(SmeltArray::with_id(smelt_id, smelt_values.into_iter().map(|value| "@
        + vw + ").collect::<Vec<_>>())) }"@
}

pub open spec fn record_erase_spec(text: Seq<char>, vw: Seq<char>) -> Seq<char> {
    "{ let smelt_record = ("@ + text
        + ").clone(); SmeltUnknown::Object(SmeltObject::with_id(smelt_record.id, smelt_record.iter().map(|(key, value)| (key, "@
        + vw + ")).collect())) }"@
}

pub open spec fn dict_erase_spec(p: Seq<char>, kw: Seq<char>, vw: Seq<char>) -> Seq<char> {
    "SmeltUnknown::Object(SmeltObject::new("@ + p + ".into_iter().map(|(key, value)| ("@ + kw
        + ", "@ + vw + ")).collect()))"@
}

pub open spec fn set_erase_spec(p: Seq<char>, vw: Seq<char>) -> Seq<char> {
    "{ let mut values = "@ + p + ".clone().into_iter().map(|value| "@ + vw
        + ").collect::<Vec<_>>(); values.sort_by_key(smelt_unknown_stable_hash_key); SmeltUnknown::Array(values.into()) }"@
}

pub open spec fn function_erase_spec(text: Seq<char>, return_text: Seq<char>) -> Seq<char> {
    "{ let smelt_function_value = "@ + text
        + "; if let Some(smelt_callable_object) = smelt_lookup_callable_object(&smelt_function_value) { smelt_callable_object } else { let smelt_function_origin = smelt_function_value.clone(); let smelt_erased_function: ::std::rc::Rc<dyn Fn(Vec<SmeltUnknown>) -> Result<SmeltUnknown, Box<dyn std::error::Error>>> = ::std::rc::Rc::new(move |smelt_args: Vec<SmeltUnknown>| "@
        + return_text
        + "); smelt_register_function_origin(&smelt_erased_function, smelt_function_origin); SmeltUnknown::Function(smelt_erased_function) } }"@
}

pub open spec fn promise_spec(future_text: Seq<char>, vt: Seq<char>) -> Seq<char> {
    "{ let smelt_future = "@ + future_text
        + "; SmeltUnknown::Promise(SmeltPromise::from_future(Box::pin(async move { let smelt_value = smelt_future.await?; Ok::<SmeltUnknown, Box<dyn std::error::Error>>("@
        + vt + ") }))) }"@
}

/// The text of the `index`-th tuple field of `p`, cloned.
pub open spec fn tuple_field_spec(p: Seq<char>, index: nat) -> Seq<char> {
    p + "."@ + decimal(index) + ".clone()"@
}

impl FunctionEmitter {
    pub open spec fn class_kind_of(&self, ty: usize) -> ClassKind {
        match self.fact(ty) {
            Some(f) => f.class_kind,
            None => ClassKind::Plain,
        }
    }

    pub open spec fn type_param_in_scope(&self, ty: usize) -> bool {
        self.fact(ty) matches Some(f) && f.type_param_in_scope
    }

    pub open spec fn erased_rest_function(&self, ty: usize) -> bool {
        self.fact(ty) matches Some(f) && f.erased_unknown_rest_function
    }

    pub open spec fn no_known_fields(&self, ty: usize) -> bool {
        self.fact(ty) matches Some(f) && f.no_known_fields
    }

    pub open spec fn smelt_args_text(&self, ty: usize) -> Option<Seq<char>> {
        match self.fact(ty) {
            Some(f) => match f.smelt_args_text {
                Some(t) => Some(t@),
                None => None,
            },
            None => None,
        }
    }

    /// The property-name spelling of the value text `key` of type `ty`.
    pub open spec fn key_to_string_spec(&self, key: Seq<char>, ty: usize) -> Option<Seq<char>> {
        match self.fact(ty) {
            Some(f) => match f.key_to_string {
                Some(t) => Some(t.render_spec(key)),
                None => None,
            },
            None => None,
        }
    }

    /// The erased-object boxing of the value text `text` of class type `ty`.
    pub open spec fn class_object_spec(&self, text: Seq<char>, ty: usize) -> Option<Seq<char>> {
        match self.fact(ty) {
            Some(f) => match f.class_object {
                Some(t) => Some(t.render_spec(text)),
                None => None,
            },
            None => None,
        }
    }

    /// The erased text of `text`, a value of type `ty`; `None` where emission
    /// fails.
    pub open spec fn erase_spec(&self, text: Seq<char>, ty: usize, parens: bool) -> Option<
        Seq<char>,
    >
        decreases ty, 1nat, 0nat,
    {
        let p = paren(text, parens);
        match self.ty(ty) {
            None => Some(null_text()),
            Some(t) => match t {
                Type::Unknown => Some(text),
                Type::TypeParam { .. } => if text == "Default::default()"@ {
                    Some(null_text())
                } else {
                    Some("("@ + text + ").into_smelt_unknown()"@)
                },
                Type::Nullish | Type::Never => Some(null_text()),
                Type::Bool => Some("SmeltUnknown::Bool("@ + text + ")"@),
                Type::Int | Type::Float => if text == "Default::default()"@ || text
                    == "(Default::default())"@ {
                    Some("SmeltUnknown::Number(0.0)"@)
                } else {
                    Some("SmeltUnknown::Number("@ + p + " as f64)"@)
                },
                Type::Str => Some("SmeltUnknown::String("@ + text + ")"@),
                Type::List(item) => if self.ty(item) == Some(Type::Unknown) {
                    Some("SmeltUnknown::Array("@ + p + ".into())"@)
                } else if item < ty {
                    match self.erase_spec("value"@, item, false) {
                        Some(vw) => Some(list_erase_spec(p, vw)),
                        None => None,
                    }
                } else {
                    None
                },
                Type::JsMap(_, _) => Some("("@ + text + ").clone().into_smelt_unknown()"@),
                Type::Dict(key, item) => if self.ty(key) == Some(Type::Str) && self.ty(item)
                    == Some(Type::Unknown) {
                    Some(
                        "SmeltUnknown::Object(SmeltObject::from_unknown_record(("@ + text
                            + ").clone()))"@,
                    )
                } else if self.ty(key) == Some(Type::Str) {
                    if item < ty {
                        match self.erase_spec("value"@, item, false) {
                            Some(vw) => Some(record_erase_spec(text, vw)),
                            None => None,
                        }
                    } else {
                        None
                    }
                } else {
                    match self.key_to_string_spec("key"@, key) {
                        Some(kw) => if item < ty {
                            match self.erase_spec("value"@, item, false) {
                                Some(vw) => Some(dict_erase_spec(p, kw, vw)),
                                None => None,
                            }
                        } else {
                            None
                        },
                        None => None,
                    }
                },
                Type::Class { name, .. } => if self.class_kind_of(ty) is RegExp
                    || self.class_kind_of(ty) is Match {
                    Some("("@ + text + ").clone().into_smelt_unknown()"@)
                } else if self.erased_class(ty) {
                    match self.symbol(name) {
                        Some(n) => if n == "Date"@ {
                            Some(date_identity_spec(text))
                        } else {
                            Some(text)
                        },
                        None => None,
                    }
                } else {
                    self.class_object_spec(text, ty)
                },
                Type::SetOf(item) => if !self.hash_set_key_safe(item) {
                    Some("("@ + p + ").clone().into_smelt_unknown()"@)
                } else if item < ty {
                    match self.erase_spec("value"@, item, false) {
                        Some(vw) => Some(set_erase_spec(p, vw)),
                        None => None,
                    }
                } else {
                    None
                },
                Type::Tuple(items) => match self.erase_items_spec(p, items@, ty, items.len() as nat) {
                    Some(parts) => Some(
                        "SmeltUnknown::Array(vec!["@ + seq_join(parts, ", "@) + "].into())"@,
                    ),
                    None => None,
                },
                Type::Optional(inner) => if inner < ty {
                    match self.erase_spec("value"@, inner, false) {
                        Some(vw) => Some(
                            p + ".clone().map_or(SmeltUnknown::Undefined, |value| "@ + vw + ")"@,
                        ),
                        None => None,
                    }
                } else {
                    None
                },
                Type::Function(f) => if self.erased_rest_function(ty) && !f.may_throw {
                    Some(p + ".clone().into_smelt_unknown()"@)
                } else {
                    match self.smelt_args_text(ty) {
                        Some(args) => match self.function_return_spec(
                            "(smelt_function_value)("@ + args + ")"@,
                            f.return_ty,
                            f.may_throw,
                            ty,
                        ) {
                            Some(rt) => Some(function_erase_spec(text, rt)),
                            None => None,
                        },
                        None => None,
                    }
                },
                Type::Union(_) => if self.concrete_union(ty) {
                    Some(text + ".into_smelt_unknown()"@)
                } else {
                    Some(text)
                },
                Type::Future(item) => if item < ty {
                    match self.erase_spec("smelt_value"@, item, false) {
                        Some(vt) => Some(promise_spec(text, vt)),
                        None => None,
                    }
                } else {
                    None
                },
                Type::Generator => Some(p + ".clone().into_smelt_unknown()"@),
                Type::GeneratorResult { .. } => None,
            },
        }
    }

    /// The body of an erased function adapter: the call of the typed
    /// function and its result boxed into a `Result<SmeltUnknown, _>`.
    pub open spec fn function_return_spec(
        &self,
        call: Seq<char>,
        ret: usize,
        may_throw: bool,
        owner: usize,
    ) -> Option<Seq<char>>
        decreases owner, 0nat, 0nat,
    {
        if self.ty(ret) == Some(Type::Nullish) {
            if may_throw {
                Some(
                    "{ "@ + call
                        + "?; Ok::<SmeltUnknown, Box<dyn std::error::Error>>(SmeltUnknown::Undefined) }"@,
                )
            } else {
                Some(
                    "{ "@ + call
                        + "; Ok::<SmeltUnknown, Box<dyn std::error::Error>>(SmeltUnknown::Undefined) }"@,
                )
            }
        } else if ret < owner {
            if self.ty(ret) matches Some(Type::Future(_)) {
                let fc = if may_throw {
                    call + "?"@
                } else {
                    call
                };
                match self.erase_spec(fc, ret, false) {
                    Some(er) => Some(ok_unknown() + er + ")"@),
                    None => None,
                }
            } else if self.no_known_fields(ret) {
                if may_throw {
                    Some(call)
                } else {
                    Some(ok_unknown() + call + ")"@)
                }
            } else if may_throw {
                match self.erase_spec(call + "?"@, ret, false) {
                    Some(er) => Some(ok_unknown() + er + ")"@),
                    None => None,
                }
            } else {
                match self.erase_spec(call, ret, false) {
                    Some(er) => Some(ok_unknown() + er + ")"@),
                    None => None,
                }
            }
        } else {
            None
        }
    }

    /// The erased texts of the first `n` fields of a tuple `p` whose item
    /// types are `items`.
    pub open spec fn erase_items_spec(&self, p: Seq<char>, items: Seq<usize>, owner: usize, n: nat) -> Option<
        Seq<Seq<char>>,
    >
        decreases owner, 0nat, n,
    {
        if n == 0 {
            Some(Seq::empty())
        } else if n > items.len() {
            None
        } else {
            match self.erase_items_spec(p, items, owner, (n - 1) as nat) {
                Some(prev) => if items[n - 1] < owner {
                    match self.erase_spec(tuple_field_spec(p, (n - 1) as nat), items[n - 1], false) {
                        Some(e) => Some(prev.push(e)),
                        None => None,
                    }
                } else {
                    None
                },
                None => None,
            }
        }
    }
}


/// `text`, wrapped in parentheses when `parens` holds.
pub fn paren_text(text: &str, parens: bool) -> (r: String)
    ensures
        r@ == paren(text@, parens),
{
    if parens {
        let mut s = String::from_str("(");
        s.append(text);
        s.append(")");
        s
    } else {
        String::from_str(text)
    }
}

pub(crate) fn wrap(prefix: &str, middle: &str, suffix: &str) -> (r: String)
    ensures
        r@ == prefix@ + middle@ + suffix@,
{
    let mut s = String::from_str(prefix);
    s.append(middle);
    s.append(suffix);
    s
}

impl FunctionEmitter {
    pub fn is_unknown_type(&self, ty: usize) -> (r: bool)
        ensures
            r == (self.ty(ty) == Some(Type::Unknown)),
    {
        match self.type_at(ty) {
            Some(Type::Unknown) => true,
            _ => false,
        }
    }

    pub fn is_str_type(&self, ty: usize) -> (r: bool)
        ensures
            r == (self.ty(ty) == Some(Type::Str)),
    {
        match self.type_at(ty) {
            Some(Type::Str) => true,
            _ => false,
        }
    }

    pub fn is_nullish_type(&self, ty: usize) -> (r: bool)
        ensures
            r == (self.ty(ty) == Some(Type::Nullish)),
    {
        match self.type_at(ty) {
            Some(Type::Nullish) => true,
            _ => false,
        }
    }

    pub(crate) fn key_to_string_text(&self, key: &str, ty: usize) -> (r: Result<String, EmitError>)
        ensures
            r matches Ok(s) ==> self.key_to_string_spec(key@, ty) == Some(s@),
            r is Err <==> self.key_to_string_spec(key@, ty) is None,
    {
        match self.fact_at(ty) {
            Some(f) => match &f.key_to_string {
                Some(t) => Ok(t.render(key)),
                None => Err(EmitError::new("key type has no property-name spelling")),
            },
            None => Err(EmitError::new("key type has no property-name spelling")),
        }
    }

    pub(crate) fn class_object_text(&self, text: &str, ty: usize) -> (r: Result<String, EmitError>)
        ensures
            r matches Ok(s) ==> self.class_object_spec(text@, ty) == Some(s@),
            r is Err <==> self.class_object_spec(text@, ty) is None,
    {
        match self.fact_at(ty) {
            Some(f) => match &f.class_object {
                Some(t) => Ok(t.render(text)),
                None => Err(EmitError::new("class has no erased object form")),
            },
            None => Err(EmitError::new("class has no erased object form")),
        }
    }

    /// Mark a timestamp-backed `Date` only when it crosses an erased value
    /// boundary.
    pub fn date_unknown_identity_text(&self, value_text: &str) -> (r: String)
        ensures
            r@ == date_identity_spec(value_text@),
    {
        wrap(
            "match ",
            value_text,
            ".clone() { SmeltUnknown::Object(value) if value.contains_key(\"__smelt_date\") => SmeltUnknown::Object(value), SmeltUnknown::Number(value) => SmeltUnknown::Object(SmeltObject::new(Vec::from([(\"__smelt_date\".to_owned(), SmeltUnknown::Number(value))]))), value => value }",
        )
    }

    /// Wraps a live concrete future in an erased, cloneable promise handle.
    pub fn promise_future_unknown_text(&self, future_text: &str, item_ty: usize) -> (r: Result<
        String,
        EmitError,
    >)
        requires
            self.wf(),
        ensures
            r matches Ok(s) ==> (self.erase_spec("smelt_value"@, item_ty, false) matches Some(vt)
                && s@ == promise_spec(future_text@, vt)),
            r is Err <==> self.erase_spec("smelt_value"@, item_ty, false) is None,
        decreases item_ty, 2nat,
    {
        let vt = self.erase_text("smelt_value", item_ty, false)?;
        let mut s = String::from_str("{ let smelt_future = ");
        s.append(future_text);
        s.append(
            "; SmeltUnknown::Promise(SmeltPromise::from_future(Box::pin(async move { let smelt_value = smelt_future.await?; Ok::<SmeltUnknown, Box<dyn std::error::Error>>(",
        );
        s.append(vt.as_str());
        s.append(") }))) }");
        Ok(s)
    }

    /// Wraps a rendered value expression of type `ty` into `SmeltUnknown`.
    pub fn erase_value_text(&self, value_text: &str, ty: usize) -> (r: Result<String, EmitError>)
        requires
            self.wf(),
        ensures
            r matches Ok(s) ==> self.erase_spec(value_text@, ty, false) == Some(s@),
            r is Err <==> self.erase_spec(value_text@, ty, false) is None,
    {
        self.erase_text(value_text, ty, false)
    }

    /// Boxes a typed rendered value into the erased `SmeltUnknown` form.
    pub fn erase_value(&self, value: &RenderedValue) -> (r: Result<String, EmitError>)
        requires
            self.wf(),
        ensures
            r matches Ok(s) ==> self.erase_spec(value.text@, value.ty, value.needs_parens) == Some(
                s@,
            ),
            r is Err <==> self.erase_spec(value.text@, value.ty, value.needs_parens) is None,
    {
        self.erase_text(value.text.as_str(), value.ty, value.needs_parens)
    }

    fn erase_text(&self, text: &str, ty: usize, parens: bool) -> (r: Result<String, EmitError>)
        requires
            self.wf(),
        ensures
            r matches Ok(s) ==> self.erase_spec(text@, ty, parens) == Some(s@),
            r is Err <==> self.erase_spec(text@, ty, parens) is None,
        decreases ty, 1nat,
    {
        proof {
            if ty < self.types.len() {
                assert(children_below(self.types@[ty as int], ty as int));
            }
        }
        let p = paren_text(text, parens);
        let t = match self.type_at(ty) {
            None => {
                return Ok(String::from_str("SmeltUnknown::Null"));
            },
            Some(t) => t,
        };
        match t {
            Type::Unknown => Ok(String::from_str(text)),
            Type::TypeParam { .. } => {
                if str_eq(text, "Default::default()") {
                    Ok(String::from_str("SmeltUnknown::Null"))
                } else {
                    Ok(wrap("(", text, ").into_smelt_unknown()"))
                }
            },
            Type::Nullish | Type::Never => Ok(String::from_str("SmeltUnknown::Null")),
            Type::Bool => Ok(wrap("SmeltUnknown::Bool(", text, ")")),
            Type::Int | Type::Float => {
                if str_eq(text, "Default::default()") || str_eq(text, "(Default::default())") {
                    Ok(String::from_str("SmeltUnknown::Number(0.0)"))
                } else {
                    Ok(wrap("SmeltUnknown::Number(", p.as_str(), " as f64)"))
                }
            },
            Type::Str => Ok(wrap("SmeltUnknown::String(", text, ")")),
            Type::List(item) => {
                if self.is_unknown_type(*item) {
                    Ok(wrap("SmeltUnknown::Array(", p.as_str(), ".into())"))
                } else {
                    let vw = self.erase_text("value", *item, false)?;
                    let mut s = wrap(
                        "{ let smelt_l = ",
                        p.as_str(),
                        "; let smelt_id = smelt_l.id(); let smelt_values: Vec<_> = smelt_l.into(); SmeltUnknown::Array(SmeltArray::with_id(smelt_id, smelt_values.into_iter().map(|value| ",
                    );
                    s.append(vw.as_str());
                    s.append(").collect::<Vec<_>>())) }");
                    Ok(s)
                }
            },
            Type::JsMap(_, _) => Ok(wrap("(", text, ").clone().into_smelt_unknown()")),
            Type::Dict(key, item) => {
                let key_str = self.is_str_type(*key);
                if key_str && self.is_unknown_type(*item) {
                    Ok(
                        wrap(
                            "SmeltUnknown::Object(SmeltObject::from_unknown_record((",
                            text,
                            ").clone()))",
                        ),
                    )
                } else if key_str {
                    let vw = self.erase_text("value", *item, false)?;
                    let mut s = wrap(
                        "{ let smelt_record = (",
                        text,
                        ").clone(); SmeltUnknown::Object(SmeltObject::with_id(smelt_record.id, smelt_record.iter().map(|(key, value)| (key, ",
                    );
                    s.append(vw.as_str());
                    s.append(")).collect())) }");
                    Ok(s)
                } else {
                    let kw = self.key_to_string_text("key", *key)?;
                    let vw = self.erase_text("value", *item, false)?;
                    let mut s = wrap(
                        "SmeltUnknown::Object(SmeltObject::new(",
                        p.as_str(),
                        ".into_iter().map(|(key, value)| (",
                    );
                    s.append(kw.as_str());
                    s.append(", ");
                    s.append(vw.as_str());
                    s.append(")).collect()))");
                    Ok(s)
                }
            },
            Type::Class { name, .. } => {
                let f = &self.facts[ty];
                let special = match f.class_kind {
                    ClassKind::RegExp | ClassKind::Match => true,
                    _ => false,
                };
                if special {
                    Ok(wrap("(", text, ").clone().into_smelt_unknown()"))
                } else if f.erased_class {
                    let n = self.symbol_name(*name)?;
                    if str_eq(n.as_str(), "Date") {
                        Ok(self.date_unknown_identity_text(text))
                    } else {
                        Ok(String::from_str(text))
                    }
                } else {
                    self.class_object_text(text, ty)
                }
            },
            Type::SetOf(item) => {
                let safe = match self.fact_at(*item) {
                    Some(f) => f.hash_set_key_safe,
                    None => false,
                };
                if !safe {
                    Ok(wrap("(", p.as_str(), ").clone().into_smelt_unknown()"))
                } else {
                    let vw = self.erase_text("value", *item, false)?;
                    let mut s = wrap(
                        "{ let mut values = ",
                        p.as_str(),
                        ".clone().into_iter().map(|value| ",
                    );
                    s.append(vw.as_str());
                    s.append(
                        ").collect::<Vec<_>>(); values.sort_by_key(smelt_unknown_stable_hash_key); SmeltUnknown::Array(values.into()) }",
                    );
                    Ok(s)
                }
            },
            Type::Tuple(items) => {
                let parts = self.erase_items(p.as_str(), items, ty)?;
                let joined = join(&parts, ", ");
                Ok(wrap("SmeltUnknown::Array(vec![", joined.as_str(), "].into())"))
            },
            Type::Optional(inner) => {
                let vw = self.erase_text("value", *inner, false)?;
                let mut s = String::from_str(p.as_str());
                s.append(".clone().map_or(SmeltUnknown::Undefined, |value| ");
                s.append(vw.as_str());
                s.append(")");
                Ok(s)
            },
            Type::Function(func) => {
                let f = &self.facts[ty];
                if f.erased_unknown_rest_function && !func.may_throw {
                    let mut s = String::from_str(p.as_str());
                    s.append(".clone().into_smelt_unknown()");
                    return Ok(s);
                }
                let args = match &f.smelt_args_text {
                    Some(a) => a,
                    None => {
                        return Err(EmitError::new("function has no erased argument list"));
                    },
                };
                let call = wrap("(smelt_function_value)(", args.as_str(), ")");
                let rt = self.function_return_text(call.as_str(), func.return_ty, func.may_throw, ty)?;
                let mut s = wrap(
                    "{ let smelt_function_value = ",
                    text,
                    "; if let Some(smelt_callable_object) = smelt_lookup_callable_object(&smelt_function_value) { smelt_callable_object } else { let smelt_function_origin = smelt_function_value.clone(); let smelt_erased_function: ::std::rc::Rc<dyn Fn(Vec<SmeltUnknown>) -> Result<SmeltUnknown, Box<dyn std::error::Error>>> = ::std::rc::Rc::new(move |smelt_args: Vec<SmeltUnknown>| ",
                );
                s.append(rt.as_str());
                s.append(
                    "); smelt_register_function_origin(&smelt_erased_function, smelt_function_origin); SmeltUnknown::Function(smelt_erased_function) } }",
                );
                Ok(s)
            },
            Type::Union(_) => {
                if self.facts[ty].concrete_union {
                    let mut s = String::from_str(text);
                    s.append(".into_smelt_unknown()");
                    Ok(s)
                } else {
                    Ok(String::from_str(text))
                }
            },
            Type::Future(item) => self.promise_future_unknown_text(text, *item),
            Type::Generator => {
                let mut s = String::from_str(p.as_str());
                s.append(".clone().into_smelt_unknown()");
                Ok(s)
            },
            Type::GeneratorResult { .. } => Err(
                EmitError::new(
                    "generator results require typed done/value projection before erasure",
                ),
            ),
        }
    }

    fn function_return_text(&self, call: &str, ret: usize, may_throw: bool, owner: usize) -> (r:
        Result<String, EmitError>)
        requires
            self.wf(),
        ensures
            r matches Ok(s) ==> self.function_return_spec(call@, ret, may_throw, owner) == Some(
                s@,
            ),
            r is Err <==> self.function_return_spec(call@, ret, may_throw, owner) is None,
        decreases owner, 0nat,
    {
        if self.is_nullish_type(ret) {
            if may_throw {
                return Ok(
                    wrap(
                        "{ ",
                        call,
                        "?; Ok::<SmeltUnknown, Box<dyn std::error::Error>>(SmeltUnknown::Undefined) }",
                    ),
                );
            } else {
                return Ok(
                    wrap(
                        "{ ",
                        call,
                        "; Ok::<SmeltUnknown, Box<dyn std::error::Error>>(SmeltUnknown::Undefined) }",
                    ),
                );
            }
        }
        if ret >= owner {
            return Err(EmitError::new("function return type is not interned before the function"));
        }
        let is_future = match self.type_at(ret) {
            Some(Type::Future(_)) => true,
            _ => false,
        };
        let no_fields = match self.fact_at(ret) {
            Some(f) => f.no_known_fields,
            None => false,
        };
        if is_future {
            let fc = if may_throw {
                let mut c = String::from_str(call);
                c.append("?");
                c
            } else {
                String::from_str(call)
            };
            let er = self.erase_text(fc.as_str(), ret, false)?;
            Ok(wrap("Ok::<SmeltUnknown, Box<dyn std::error::Error>>(", er.as_str(), ")"))
        } else if no_fields {
            if may_throw {
                Ok(String::from_str(call))
            } else {
                Ok(wrap("Ok::<SmeltUnknown, Box<dyn std::error::Error>>(", call, ")"))
            }
        } else if may_throw {
            let mut c = String::from_str(call);
            c.append("?");
            let er = self.erase_text(c.as_str(), ret, false)?;
            Ok(wrap("Ok::<SmeltUnknown, Box<dyn std::error::Error>>(", er.as_str(), ")"))
        } else {
            let er = self.erase_text(call, ret, false)?;
            Ok(wrap("Ok::<SmeltUnknown, Box<dyn std::error::Error>>(", er.as_str(), ")"))
        }
    }

    pub(crate) fn erase_items(&self, p: &str, items: &Vec<usize>, owner: usize) -> (r: Result<Vec<String>, EmitError>)
        requires
            self.wf(),
            owner < self.types.len(),
            crate::types::all_below(items@, owner as int),
        ensures
            r matches Ok(v) ==> self.erase_items_spec(p@, items@, owner, items.len() as nat) == Some(
                views(v@),
            ),
            r is Err <==> self.erase_items_spec(p@, items@, owner, items.len() as nat) is None,
        decreases owner, 0nat,
    {
        let mut out: Vec<String> = Vec::new();
        let mut k: usize = 0;
        while k < items.len()
            invariant
                self.wf(),
                owner < self.types.len(),
                crate::types::all_below(items@, owner as int),
                k <= items.len(),
                out.len() == k,
                self.erase_items_spec(p@, items@, owner, k as nat) == Some(views(out@)),
            decreases items.len() - k,
        {
            let idx = usize_text(k);
            let mut field = String::from_str(p);
            field.append(".");
            field.append(idx.as_str());
            field.append(".clone()");
            let e = self.erase_text(field.as_str(), items[k], false);
            match e {
                Ok(e) => {
                    let ghost before = out@;
                    out.push(e);
                    assert(views(out@) =~= views(before).push(out@[k as int]@));
                },
                Err(err) => {
                    assert(self.erase_items_spec(p@, items@, owner, (k + 1) as nat) is None);
                    assert forall|m: nat| k + 1 <= m <= items.len() implies self.erase_items_spec(p@, items@, owner, m) is None by {
                        self.lemma_items_none_propagates(p@, items@, owner, (k + 1) as nat, m);
                    }
                    return Err(err);
                },
            }
            k = k + 1;
        }
        Ok(out)
    }

    proof fn lemma_items_none_propagates(&self, p: Seq<char>, items: Seq<usize>, owner: usize, a: nat, b: nat)
        requires
            a <= b,
            self.erase_items_spec(p, items, owner, a) is None,
        ensures
            self.erase_items_spec(p, items, owner, b) is None,
        decreases b - a,
    {
        if a < b {
            self.lemma_items_none_propagates(p, items, owner, a, (b - 1) as nat);
        }
    }
}

} // verus!
