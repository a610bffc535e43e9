//! Coercing MIR operands: the operand-shaped twins of the rendered-text
//! coercions, which can also read where an operand comes from.

use vstd::prelude::*;
use crate::emitter::{name_listed, pair_listed, AdapterKind, EmitError, FunctionEmitter};
use crate::erase::{date_identity_spec, promise_spec, wrap};
use crate::mir::{Constant, LocalDecl, Operand, OperandKind, Place};
use crate::text::{ends_with, has_suffix, join, seq_join, str_eq};
use crate::types::{children_below, Type};
use crate::value_at_type::suffixed;

verus! {

/// `t` without a trailing `.clone()`.
pub open spec fn strip_clone(t: Seq<char>) -> Seq<char> {
    if has_suffix(t, ".clone()"@) {
        t.subrange(0, t.len() - ".clone()"@.len())
    } else {
        t
    }
}

/// The regular-expression metadata a string receiver answers for `name`.
pub open spec fn string_field_spec(recv: Seq<char>, name: Seq<char>) -> Seq<char> {
    if name == "source"@ {
        recv + ".clone()"@
    } else if name == "global"@ || name == "ignoreCase"@ || name == "ignore_case"@ || name
        == "multiline"@ {
        "false"@
    } else if name == "length"@ {
        "("@ + recv + ".chars().count() as i64)"@
    } else {
        "SmeltUnknown::Null"@
    }
}

/// The static type of the string field `name`.
pub open spec fn string_field_type(name: Seq<char>) -> Type {
    if name == "source"@ {
        Type::Str
    } else if name == "global"@ || name == "ignoreCase"@ || name == "ignore_case"@ || name
        == "multiline"@ {
        Type::Bool
    } else if name == "length"@ {
        Type::Int
    } else {
        Type::Unknown
    }
}

/// The erased function value that ignores its arguments and yields `null`.
pub open spec fn null_function_adapter() -> Seq<char> {
    "::std::rc::Rc::new(move |_smelt_args: Vec<SmeltUnknown>| Ok::<SmeltUnknown, Box<dyn std::error::Error>>(SmeltUnknown::Null))"@
}

/// The field place an operand reads, as `(base, field)`.
pub open spec fn op_field(op: Operand) -> Option<(usize, usize)> {
    match op.kind {
        OperandKind::Copy(Place::Field { base, field }) => Some((base, field)),
        OperandKind::Move(Place::Field { base, field }) => Some((base, field)),
        _ => None,
    }
}

impl FunctionEmitter {
    /// A `null` or `undefined` constant operand has the null type.
    pub open spec fn const_fits(&self, op: Operand) -> bool {
        is_const_nullish(op) ==> self.ty(op.ty) == Some(Type::Nullish)
    }
}

pub open spec fn is_const_null(op: Operand) -> bool {
    op.kind matches OperandKind::Const(Constant::Null)
}

pub open spec fn is_const_nullish(op: Operand) -> bool {
    op.kind matches OperandKind::Const(Constant::Null) || op.kind matches OperandKind::Const(
        Constant::Undefined,
    )
}

impl FunctionEmitter {
    pub open spec fn local_decl_spec(&self, l: usize) -> Option<LocalDecl> {
        if l < self.function.locals.len() {
            Some(self.function.locals@[l as int])
        } else {
            None
        }
    }

    /// The bare name of a source list local, `Some(None)` for any other
    /// operand, `None` where the local is not declared.
    pub open spec fn list_identity_spec(&self, op: Operand) -> Option<Option<Seq<char>>> {
        match op.local_spec() {
            None => Some(None),
            Some(l) => match self.local_decl_spec(l) {
                None => None,
                Some(d) => if d.temp {
                    Some(None)
                } else {
                    Some(Some(strip_clone(op.text@)))
                },
            },
        }
    }

    /// The bare name of a source future local, `Some(None)` for any other
    /// operand, `None` where the local is not declared.
    pub open spec fn future_identity_spec(&self, op: Operand) -> Option<Option<Seq<char>>> {
        match op.local_spec() {
            None => Some(None),
            Some(l) => match self.local_decl_spec(l) {
                None => None,
                Some(d) => if d.temp || !(self.ty(d.ty) matches Some(Type::Future(_))) {
                    Some(None)
                } else {
                    Some(Some(strip_clone(op.text@)))
                },
            },
        }
    }

    /// The erased text of an operand; `None` where emission fails.
    pub open spec fn erase_op_spec(&self, op: Operand) -> Option<Seq<char>> {
        let s = op.ty;
        let text = op.text@;
        if op.kind matches OperandKind::Const(Constant::Undefined) {
            Some("SmeltUnknown::Undefined"@)
        } else {
            match self.ty(s) {
                None => Some("SmeltUnknown::Null"@),
                Some(t) => match t {
                    Type::Unknown => Some(text),
                    Type::TypeParam { .. } => if self.type_param_in_scope(s) {
                        Some("("@ + text + ").into_smelt_unknown()"@)
                    } else {
                        Some(text)
                    },
                    Type::Nullish | Type::Never => Some("SmeltUnknown::Null"@),
                    Type::Bool => Some("SmeltUnknown::Bool("@ + text + ")"@),
                    Type::Int | Type::Float => Some("SmeltUnknown::Number("@ + text + " as f64)"@),
                    Type::Str => Some("SmeltUnknown::String("@ + text + ")"@),
                    Type::List(item) => if self.ty(item) == Some(Type::Unknown) {
                        Some("SmeltUnknown::Array("@ + text + ".into())"@)
                    } else {
                        let vw = if self.ty(item) == Some(Type::Nullish) && self.all_undefined_spec(
                            op,
                        ) {
                            Some("SmeltUnknown::Undefined"@)
                        } else {
                            self.erase_spec("value"@, item, false)
                        };
                        match vw {
                            Some(vw) => Some(
                                "{ let smelt_l = "@ + text
                                    + "; let smelt_id = smelt_l.id(); let smelt_values: Vec<_> = smelt_l.into(); SmeltUnknown::Array(SmeltArray::with_id(smelt_id, smelt_values.into_iter().map(|value| "@
                                    + vw + ").collect::<Vec<_>>())) }"@,
                            ),
                            None => None,
                        }
                    },
                    Type::JsMap(_, _) => Some("("@ + text + ").clone().into_smelt_unknown()"@),
                    Type::Dict(key, item) => if self.ty(key) == Some(Type::Str) && self.ty(item)
                        == Some(Type::Unknown) {
                        Some(
                            "SmeltUnknown::Object(SmeltObject::from_unknown_record(("@ + text
                                + ").clone()))"@,
                        )
                    } else if self.ty(key) == Some(Type::Str) {
                        match self.erase_spec("value"@, item, false) {
                            Some(vw) => Some(
                                "{ let smelt_record = ("@ + text
                                    + ").clone(); SmeltUnknown::Object(SmeltObject::with_id(smelt_record.id, smelt_record.iter().map(|(key, value)| (key, "@
                                    + vw + ")).collect())) }"@,
                            ),
                            None => None,
                        }
                    } else {
                        match (self.key_to_string_spec("key"@, key), self.erase_spec("value"@, item, false)) {
                            (Some(kw), Some(vw)) => Some(
                                "SmeltUnknown::Object(SmeltObject::new("@ + text
                                    + ".into_iter().map(|(key, value)| ("@ + kw + ", "@ + vw
                                    + ")).collect()))"@,
                            ),
                            _ => None,
                        }
                    },
                    Type::Class { name, .. } => if self.class_kind_of(s) is RegExp
                        || self.class_kind_of(s) is Match {
                        Some("("@ + text + ").clone().into_smelt_unknown()"@)
                    } else if self.erased_class(s) {
                        match self.symbol(name) {
                            None => None,
                            Some(n) => if n == "Date"@ {
                                Some(date_identity_spec(text))
                            } else {
                                Some(text)
                            },
                        }
                    } else {
                        self.class_object_spec(text, s)
                    },
                    Type::SetOf(item) => if !self.hash_set_key_safe(item) {
                        Some("("@ + text + ").clone().into_smelt_unknown()"@)
                    } else {
                        match (self.erase_spec("value"@, item, false), self.list_identity_spec(op)) {
                            (Some(vw), Some(Some(bare))) => Some(
                                "{ let smelt_list_id = smelt_list_identity(&("@ + bare
                                    + ") as *const _ as *const () as usize); let mut values = "@
                                    + text + ".clone().into_iter().map(|value| "@ + vw
                                    + ").collect::<Vec<_>>(); values.sort_by_key(smelt_unknown_stable_hash_key); SmeltUnknown::Array(SmeltArray::with_id(smelt_list_id, values)) }"@,
                            ),
                            (Some(vw), Some(None)) => Some(
                                "{ let mut values = "@ + text
                                    + ".clone().into_iter().map(|value| "@ + vw
                                    + ").collect::<Vec<_>>(); values.sort_by_key(smelt_unknown_stable_hash_key); SmeltUnknown::Array(values.into()) }"@,
                            ),
                            _ => None,
                        }
                    },
                    Type::Tuple(items) => match self.erase_items_spec(
                        text,
                        items@,
                        s,
                        items.len() as nat,
                    ) {
                        Some(parts) => Some(
                            "SmeltUnknown::Array(vec!["@ + seq_join(parts, ", "@) + "].into())"@,
                        ),
                        None => None,
                    },
                    Type::Optional(inner) => match self.erase_spec("value"@, inner, false) {
                        Some(vw) => Some(
                            text + ".clone().map_or(SmeltUnknown::Undefined, |value| "@ + vw
                                + ")"@,
                        ),
                        None => None,
                    },
                    Type::Function(f) => match op.function_item_key {
                        Some(key) => Some("__smelt_fn_value_"@ + key@ + "()"@),
                        None => match op.erased_call {
                            Some(c) => Some(c@),
                            None => if self.erased_rest_function(s) && !f.may_throw {
                                Some(text + ".clone().into_smelt_unknown()"@)
                            } else {
                                match op.rest_vector_adapter {
                                    Some(a) => Some("SmeltUnknown::Function("@ + a@ + ")"@),
                                    None => Some(
                                        "SmeltUnknown::Function("@ + null_function_adapter()
                                            + ")"@,
                                    ),
                                }
                            },
                        },
                    },
                    Type::Union(_) => if self.concrete_union(s) {
                        Some(text + ".into_smelt_unknown()"@)
                    } else {
                        Some(text)
                    },
                    Type::Future(item) => match self.future_identity_spec(op) {
                        None => None,
                        Some(Some(bare)) => Some(
                            "{ let smelt_promise_id = smelt_promise_identity(&("@ + bare
                                + ") as *const _ as *const () as usize); SmeltUnknown::Promise(SmeltPromise::pending_with_id(smelt_promise_id)) }"@,
                        ),
                        Some(None) => match self.erase_spec("smelt_value"@, item, false) {
                            Some(vt) => Some(promise_spec(text, vt)),
                            None => None,
                        },
                    },
                    Type::Generator => Some("("@ + text + ").clone().into_smelt_unknown()"@),
                    Type::GeneratorResult { .. } => None,
                },
            }
        }
    }

    /// The extraction of an operand into `target` leaves the erased path and
    /// unwraps a concrete `Option` first.
    pub open spec fn extract_unwraps(&self, op: Operand, target: usize) -> bool {
        let prim = self.ty(target) == Some(Type::Bool) || self.ty(target) == Some(Type::Int)
            || self.ty(target) == Some(Type::Float) || self.ty(target) == Some(Type::Str);
        let so = self.optional_inner_spec(op.ty);
        prim && so is Some && !(self.erased_kind(so->0) || self.erased_class(so->0))
    }

    /// `extract(op, target)`; `None` where emission fails.
    pub open spec fn extract_op_spec(&self, op: Operand, target: usize) -> Option<Seq<char>>
        decreases target, (if self.extract_unwraps(op, target) {
            4nat
        } else {
            0nat
        }),
    {
        if self.extract_unwraps(op, target) {
            self.vat_op_spec(op, target)
        } else if self.is_function_ty(op.ty) {
            match self.erase_op_spec(op) {
                Some(e) => self.extract_spec(e, target),
                None => None,
            }
        } else {
            self.extract_spec(op.text@, target)
        }
    }

    /// The function-to-function rung of the operand coercion.
    pub open spec fn fn_to_fn_spec(&self, op: Operand, target: usize) -> Option<Seq<char>> {
        let s = op.ty;
        let text = op.text@;
        if self.adapter(AdapterKind::ErasedRestFunction, s, target) is Some {
            self.adapter_spec(AdapterKind::ErasedRestFunction, text, s, target)
        } else if self.adapter(AdapterKind::RestVector, s, target) is Some {
            self.adapter_spec(AdapterKind::RestVector, text, s, target)
        } else if self.adapter(AdapterKind::FunctionShape, s, target) is Some {
            self.adapter_spec(AdapterKind::FunctionShape, text, s, target)
        } else if !(op.kind is Const) && op.function_parameter {
            self.borrowed_handle_spec(text, target)
        } else if name_listed(self.borrowed_captures@, text) {
            self.borrowed_handle_spec(text, target)
        } else {
            Some(text + ".clone()"@)
        }
    }

    /// An optional destination decides the operand's coercion itself.
    pub open spec fn optional_target_handles(&self, op: Operand, target: usize) -> bool {
        let s = op.ty;
        match self.optional_inner_spec(target) {
            None => false,
            Some(inner) => {
                ||| op.optional_element_read is Some
                ||| (self.optional_inner_spec(s) matches Some(si) && self.ty(si) == Some(
                    Type::Unknown,
                ) && (self.erased_kind(inner) || self.erased_class(inner)))
                ||| self.ty(s) == Some(Type::Nullish)
                ||| self.optional_wraps(op, inner)
                ||| self.ty(s) matches Some(Type::List(_)) || self.ty(s) matches Some(
                    Type::Dict(_, _),
                ) || self.ty(s) matches Some(Type::SetOf(_)) || self.ty(s) matches Some(
                    Type::Tuple(_),
                )
            },
        }
    }

    /// The operand coerces to `inner` and is wrapped in `Some`.
    pub open spec fn optional_wraps(&self, op: Operand, inner: usize) -> bool {
        let s = op.ty;
        ||| s == inner
        ||| pair_listed(self.optional_coercions@, s, inner)
        ||| self.erased_kind(inner)
        ||| self.erased_class(inner)
        ||| (self.is_function_ty(inner) && self.is_function_ty(s))
    }

    /// The optional-destination rung of the operand coercion.
    pub open spec fn optional_target_spec(&self, op: Operand, target: usize) -> Option<Seq<char>>
        decreases target, 1nat,
    {
        let s = op.ty;
        let inner = self.optional_inner_spec(target)->0;
        if op.optional_element_read is Some {
            Some(op.optional_element_read->0@)
        } else if self.optional_inner_spec(s) matches Some(si) && self.ty(si) == Some(Type::Unknown)
            && (self.erased_kind(inner) || self.erased_class(inner)) {
            Some(op.text@)
        } else if self.ty(s) == Some(Type::Nullish) {
            Some("None"@)
        } else if self.optional_wraps(op, inner) {
            if inner < target {
                match self.vat_op_spec(op, inner) {
                    Some(m) => Some("Some("@ + m + ")"@),
                    None => None,
                }
            } else {
                None
            }
        } else {
            Some("None"@)
        }
    }

    /// The list-to-list rung of the operand coercion.
    pub open spec fn list_to_list_op_spec(&self, op: Operand, si: usize, ti: usize) -> Option<
        Seq<char>,
    > {
        let erased_item = self.erased_kind(ti) || self.erased_class(ti);
        let el = if self.ty(si) == Some(Type::Nullish) && erased_item && self.all_undefined_spec(
            op,
        ) {
            Some("SmeltUnknown::Undefined"@)
        } else if self.list_item(si) is Some && erased_item {
            Some("value.into_smelt_unknown()"@)
        } else {
            self.vat_spec("value"@, si, ti, Seq::empty())
        };
        match el {
            Some(e) => Some(
                "{ let smelt_l: SmeltList<_> = ("@ + op.text@
                    + ").clone().into(); SmeltList::with_id(smelt_l.id(), smelt_l.into_iter().map(|value| "@
                    + e + ").collect::<Vec<_>>()) }"@,
            ),
            None => None,
        }
    }

    /// A string local's metadata field read flowing into an erased slot.
    pub open spec fn string_field_erase_spec(&self, op: Operand) -> Option<Seq<char>> {
        let (base, field) = op_field(op)->0;
        let d = self.local_decl_spec(base)->0;
        match self.symbol(field) {
            None => None,
            Some(name) => match self.find_interned(string_field_type(name)) {
                None => None,
                Some(fst) => self.erase_spec(string_field_spec(d.text@, name), fst, false),
            },
        }
    }

    /// `value_at_type(op, target)`; `None` where emission fails.
    pub open spec fn vat_op_spec(&self, op: Operand, target: usize) -> Option<Seq<char>>
        decreases target, 3nat,
    {
        let s = op.ty;
        let text = op.text@;
        let so = self.optional_inner_spec(s);
        let to = self.optional_inner_spec(target);
        if self.adapter(AdapterKind::InjectUnion, s, target) is Some {
            self.adapter_spec(AdapterKind::InjectUnion, text, s, target)
        } else if self.adapter(AdapterKind::ProjectUnion, s, target) is Some {
            self.adapter_spec(AdapterKind::ProjectUnion, text, s, target)
        } else if self.erased_target(target) && op_field(op) is Some && self.local_decl_spec(
            (op_field(op)->0).0,
        ) is None {
            None
        } else if self.erased_target(target) && op_field(op) is Some && self.ty(
            self.local_decl_spec((op_field(op)->0).0)->0.ty,
        ) == Some(Type::Str) {
            self.string_field_erase_spec(op)
        } else if s == target && !self.is_function_ty(target) {
            Some(text)
        } else if self.ty(target) matches Some(Type::TypeParam { .. }) && self.type_param_in_scope(
            target,
        ) {
            self.extract_op_spec(op, target)
        } else if (self.erased_kind(target) && !self.concrete_union(target)) || self.erased_class(
            target,
        ) {
            match op.erased_element_read {
                Some(r) => Some(r@),
                None => self.erase_op_spec(op),
            }
        } else if is_const_null(op) && to is Some && self.preserves_singletons_spec(to->0) {
            match self.find_interned(Type::Unknown) {
                None => None,
                Some(u) => match self.vat_spec("SmeltUnknown::Null"@, u, to->0, Seq::empty()) {
                    Some(m) => Some("Some("@ + m + ")"@),
                    None => None,
                },
            }
        } else if is_const_nullish(op) {
            self.default_text(target)
        } else if self.is_function_ty(target) && self.call_field(s) is Some {
            self.vat_spec(
                text + ".__smelt_call.clone()"@,
                self.call_field(s)->0,
                target,
                seq![(s, target)],
            )
        } else if so is Some && to is Some {
            if self.ty(so->0) == Some(Type::Optional(to->0)) {
                Some(text + ".clone().flatten()"@)
            } else if so->0 == to->0 {
                Some(text)
            } else {
                match self.vat_spec("value"@, so->0, to->0, Seq::empty()) {
                    Some(m) => Some(text + ".map(|value| "@ + m + ")"@),
                    None => None,
                }
            }
        } else if to is Some && op_field(op) is Some && (self.erased_kind(s) || self.erased_class(s)) {
            self.extract_op_spec(op, target)
        } else if self.optional_target_handles(op, target) {
            self.optional_target_spec(op, target)
        } else if self.erased_kind(s) || self.erased_class(s) {
            self.extract_op_spec(op, target)
        } else {
            self.vat_op_rest_spec(op, target)
        }
    }

    /// The concrete rungs of the operand coercion.
    pub open spec fn vat_op_rest_spec(&self, op: Operand, target: usize) -> Option<Seq<char>>
        decreases target, 2nat,
    {
        let s = op.ty;
        let text = op.text@;
        let so = self.optional_inner_spec(s);
        let ti = self.list_item(target);
        if self.adapter(AdapterKind::StructuralRecord, s, target) is Some {
            self.adapter_spec(AdapterKind::StructuralRecord, text, s, target)
        } else if (self.ty(s) matches Some(Type::Class { .. })) && self.dict_parts(target) is Some
            && self.adapter(AdapterKind::RecordToDict, s, target) is Some {
            self.adapter_spec(AdapterKind::RecordToDict, text, s, target)
        } else if self.ty(target) == Some(Type::Str) && self.regexp_class(s) {
            Some(self.regexp_literal.render_spec(text))
        } else if self.match_fn_result(s) && !self.match_fn_result_class(target) {
            self.extract_spec(text + ".value.clone()"@, target)
        } else if self.regexp_class(target) && self.ty(s) == Some(Type::Str) {
            Some("SmeltRegExp::new("@ + text + ", String::new())"@)
        } else if self.is_function_ty(s) && !self.is_function_ty(target) && !self.erased_kind(target)
            && !self.erased_class(target) {
            self.default_text(target)
        } else if self.ty(target) == Some(Type::Float) && self.ty(s) == Some(Type::Int) {
            Some(text + " as f64"@)
        } else if self.ty(target) == Some(Type::Int) && self.ty(s) == Some(Type::Float) {
            Some("("@ + text + " as f64).trunc() as i64"@)
        } else if self.ty(target) == Some(Type::Float) && self.ty(s) == Some(Type::Str) {
            Some(text + ".parse::<f64>().unwrap_or(0.0)"@)
        } else if self.is_function_ty(target) && self.is_function_ty(s) {
            self.fn_to_fn_spec(op, target)
        } else if so == Some(target) {
            match self.default_text(target) {
                Some(d) => Some(text + ".clone().unwrap_or("@ + d + ")"@),
                None => None,
            }
        } else if so is Some {
            match (self.vat_spec("value"@, so->0, target, Seq::empty()), self.default_text(target)) {
                (Some(m), Some(d)) => Some(text + ".clone().map_or("@ + d + ", |value| "@ + m + ")"@),
                _ => None,
            }
        } else if self.is_function_ty(target) {
            self.default_text(target)
        } else if self.list_item(s) is Some && ti is Some && self.list_item(s) != ti {
            self.list_to_list_op_spec(op, self.list_item(s)->0, ti->0)
        } else if ti is Some && self.erased_kind(ti->0) && !(self.ty(s) matches Some(Type::List(_))
            || self.ty(s) matches Some(Type::Dict(_, _)) || self.ty(s) matches Some(Type::SetOf(_))
            || self.ty(s) matches Some(Type::Tuple(_))) {
            if ti->0 < target {
                match self.vat_op_spec(op, ti->0) {
                    Some(item) => Some("SmeltList::from(vec!["@ + item + "])"@),
                    None => None,
                }
            } else {
                None
            }
        } else if self.dict_parts(s) is Some && ti is Some && self.is_function_ty(ti->0) {
            Some("SmeltList::new(Vec::new())"@)
        } else if self.dict_parts(s) is Some && ti is Some {
            match self.vat_spec("value"@, (self.dict_parts(s)->0).1, ti->0, Seq::empty()) {
                Some(item) => Some(
                    text + ".into_iter().map(|(_, value)| "@ + item + ").collect::<SmeltList<_>>()"@,
                ),
                None => None,
            }
        } else if self.list_item(s) is Some && self.dict_parts(target) is Some {
            self.list_to_dict_spec(text, s, target, Seq::empty())
        } else if self.list_item(s) is Some && self.tuple_items(target) is Some {
            self.list_to_tuple_spec(text, s, target, Seq::empty())
        } else if self.map_parts(s) is Some && self.map_parts(target) is Some && (self.map_parts(s)
            != self.map_parts(target) || pair_listed(self.map_backing_pairs@, s, target)) {
            self.map_to_map_spec(text, s, target, Seq::empty())
        } else if self.dict_parts(s) is Some && (self.ty(target) matches Some(Type::Class { .. }))
            && self.adapter(AdapterKind::DictToRecord, s, target) is Some {
            self.adapter_spec(AdapterKind::DictToRecord, text, s, target)
        } else {
            Some(text)
        }
    }
}


/// `t` without a trailing `.clone()`.
pub fn strip_clone_text(t: &str) -> (r: String)
    ensures
        r@ == strip_clone(t@),
{
    if ends_with(t, ".clone()") {
        let n = t.unicode_len();
        let m = ".clone()".unicode_len();
        String::from_str(t.substring_char(0, n - m))
    } else {
        String::from_str(t)
    }
}

impl FunctionEmitter {
    /// The declaration of local `l`.
    pub fn local_decl(&self, l: usize) -> (r: Result<&LocalDecl, EmitError>)
        ensures
            r matches Ok(d) ==> self.local_decl_spec(l) == Some(*d),
            r is Err <==> self.local_decl_spec(l) is None,
    {
        if l < self.function.locals.len() {
            Ok(&self.function.locals[l])
        } else {
            Err(EmitError::new("unknown local"))
        }
    }

    /// The bare name of a source list local being erased, if any.
    pub fn list_local_identity_key(&self, operand: &Operand) -> (r: Result<Option<String>, EmitError>)
        ensures
            r matches Ok(Some(k)) ==> self.list_identity_spec(*operand) == Some(Some(k@)),
            r matches Ok(None) ==> self.list_identity_spec(*operand) == Some(None::<Seq<char>>),
            r is Err <==> self.list_identity_spec(*operand) is None,
    {
        let local = match operand.local() {
            Some(l) => l,
            None => {
                return Ok(None);
            },
        };
        let d = self.local_decl(local)?;
        if d.temp {
            return Ok(None);
        }
        Ok(Some(strip_clone_text(operand.text.as_str())))
    }

    /// The bare name of a source future local being erased, if any.
    pub fn future_local_identity_key(&self, operand: &Operand) -> (r: Result<
        Option<String>,
        EmitError,
    >)
        ensures
            r matches Ok(Some(k)) ==> self.future_identity_spec(*operand) == Some(Some(k@)),
            r matches Ok(None) ==> self.future_identity_spec(*operand) == Some(None::<Seq<char>>),
            r is Err <==> self.future_identity_spec(*operand) is None,
    {
        let local = match operand.local() {
            Some(l) => l,
            None => {
                return Ok(None);
            },
        };
        let d = self.local_decl(local)?;
        let is_future = match self.type_at(d.ty) {
            Some(Type::Future(_)) => true,
            _ => false,
        };
        if d.temp || !is_future {
            return Ok(None);
        }
        Ok(Some(strip_clone_text(operand.text.as_str())))
    }

    /// Emits the regular-expression metadata fields read on a string.
    pub fn string_field_text(&self, receiver_text: &str, field: usize) -> (r: Result<
        String,
        EmitError,
    >)
        ensures
            r matches Ok(t) ==> self.symbol(field) matches Some(n) && t@ == string_field_spec(
                receiver_text@,
                n,
            ),
            r is Err <==> self.symbol(field) is None,
    {
        let name = self.symbol_name(field)?;
        let n = name.as_str();
        if str_eq(n, "source") {
            Ok(suffixed(receiver_text, ".clone()"))
        } else if str_eq(n, "global") || str_eq(n, "ignoreCase") || str_eq(n, "ignore_case")
            || str_eq(n, "multiline") {
            Ok(String::from_str("false"))
        } else if str_eq(n, "length") {
            Ok(wrap("(", receiver_text, ".chars().count() as i64)"))
        } else {
            Ok(String::from_str("SmeltUnknown::Null"))
        }
    }

    fn string_field_type_id(&self, name: &str) -> (r: Result<usize, EmitError>)
        ensures
            r matches Ok(id) ==> self.find_interned(string_field_type(name@)) == Some(id),
            r is Err <==> self.find_interned(string_field_type(name@)) is None,
    {
        if str_eq(name, "source") {
            self.type_id(&Type::Str)
        } else if str_eq(name, "global") || str_eq(name, "ignoreCase") || str_eq(name, "ignore_case")
            || str_eq(name, "multiline") {
            self.type_id(&Type::Bool)
        } else if str_eq(name, "length") {
            self.type_id(&Type::Int)
        } else {
            self.type_id(&Type::Unknown)
        }
    }

    fn string_field_erase_text(&self, operand: &Operand) -> (r: Result<String, EmitError>)
        requires
            self.wf(),
            op_field(*operand) is Some,
            self.local_decl_spec((op_field(*operand)->0).0) is Some,
        ensures
            r matches Ok(t) ==> self.string_field_erase_spec(*operand) == Some(t@),
            r is Err <==> self.string_field_erase_spec(*operand) is None,
    {
        let (base, field) = match &operand.kind {
            OperandKind::Copy(Place::Field { base, field }) => (*base, *field),
            OperandKind::Move(Place::Field { base, field }) => (*base, *field),
            _ => {
                return Err(EmitError::new("not a field read"));
            },
        };
        let d = self.local_decl(base)?;
        let name = self.symbol_name(field)?;
        let fst = self.string_field_type_id(name.as_str())?;
        let field_text = self.string_field_text(d.text.as_str(), field)?;
        self.erase_value_text(field_text.as_str(), fst)
    }

    fn type_param_in_scope_of(&self, t: usize) -> (r: bool)
        ensures
            r == self.type_param_in_scope(t),
    {
        match self.fact_at(t) {
            Some(f) => f.type_param_in_scope,
            None => false,
        }
    }

    /// Converts a statically typed operand into a tagged `SmeltUnknown` value.
    pub fn erase(&self, operand: &Operand) -> (r: Result<String, EmitError>)
        requires
            self.wf(),
        ensures
            r matches Ok(t) ==> self.erase_op_spec(*operand) == Some(t@),
            r is Err <==> self.erase_op_spec(*operand) is None,
    {
        if let OperandKind::Const(Constant::Undefined) = &operand.kind {
            return Ok(String::from_str("SmeltUnknown::Undefined"));
        }
        let s = operand.ty;
        let text = operand.text.as_str();
        proof {
            if s < self.types.len() {
                assert(children_below(self.types@[s as int], s as int));
            }
        }
        let t = match self.type_at(s) {
            None => {
                return Ok(String::from_str("SmeltUnknown::Null"));
            },
            Some(t) => t,
        };
        match t {
            Type::Unknown => Ok(String::from_str(text)),
            Type::TypeParam { .. } => {
                if self.type_param_in_scope_of(s) {
                    Ok(wrap("(", text, ").into_smelt_unknown()"))
                } else {
                    Ok(String::from_str(text))
                }
            },
            Type::Nullish | Type::Never => Ok(String::from_str("SmeltUnknown::Null")),
            Type::Bool => Ok(wrap("SmeltUnknown::Bool(", text, ")")),
            Type::Int | Type::Float => Ok(wrap("SmeltUnknown::Number(", text, " as f64)")),
            Type::Str => Ok(wrap("SmeltUnknown::String(", text, ")")),
            Type::List(item) => {
                if self.is_unknown_type(*item) {
                    return Ok(wrap("SmeltUnknown::Array(", text, ".into())"));
                }
                let vw = if self.is_nullish_type(*item) && self.list_local_all_undefined_constants(
                    operand,
                ) {
                    String::from_str("SmeltUnknown::Undefined")
                } else {
                    self.erase_value_text("value", *item)?
                };
                let mut out = wrap(
                    "{ let smelt_l = ",
                    text,
                    "; let smelt_id = smelt_l.id(); let smelt_values: Vec<_> = smelt_l.into(); SmeltUnknown::Array(SmeltArray::with_id(smelt_id, smelt_values.into_iter().map(|value| ",
                );
                out.append(vw.as_str());
                out.append(").collect::<Vec<_>>())) }");
                Ok(out)
            },
            Type::JsMap(_, _) => Ok(wrap("(", text, ").clone().into_smelt_unknown()")),
            Type::Dict(key, item) => {
                let key_str = self.is_str_type(*key);
                if key_str && self.is_unknown_type(*item) {
                    Ok(
                        wrap(
                            "SmeltUnknown::Object(SmeltObject::from_unknown_record((",
                            text,
                            ").clone()))",
                        ),
                    )
                } else if key_str {
                    let vw = self.erase_value_text("value", *item)?;
                    let mut out = wrap(
                        "{ let smelt_record = (",
                        text,
                        ").clone(); SmeltUnknown::Object(SmeltObject::with_id(smelt_record.id, smelt_record.iter().map(|(key, value)| (key, ",
                    );
                    out.append(vw.as_str());
                    out.append(")).collect())) }");
                    Ok(out)
                } else {
                    let kw = self.key_to_string_text("key", *key)?;
                    let vw = self.erase_value_text("value", *item)?;
                    let mut out = wrap(
                        "SmeltUnknown::Object(SmeltObject::new(",
                        text,
                        ".into_iter().map(|(key, value)| (",
                    );
                    out.append(kw.as_str());
                    out.append(", ");
                    out.append(vw.as_str());
                    out.append(")).collect()))");
                    Ok(out)
                }
            },
            Type::Class { name, .. } => {
                let special = match &self.facts[s].class_kind {
                    crate::types::ClassKind::RegExp | crate::types::ClassKind::Match => true,
                    _ => false,
                };
                if special {
                    Ok(wrap("(", text, ").clone().into_smelt_unknown()"))
                } else if self.is_erased_class_type(s) {
                    let n = self.symbol_name(*name)?;
                    if str_eq(n.as_str(), "Date") {
                        Ok(self.date_unknown_identity_text(text))
                    } else {
                        Ok(String::from_str(text))
                    }
                } else {
                    self.class_object_text(text, s)
                }
            },
            Type::SetOf(item) => {
                let safe = match self.fact_at(*item) {
                    Some(f) => f.hash_set_key_safe,
                    None => false,
                };
                if !safe {
                    return Ok(wrap("(", text, ").clone().into_smelt_unknown()"));
                }
                let vw = self.erase_value_text("value", *item)?;
                match self.list_local_identity_key(operand)? {
                    Some(bare) => {
                        let mut out = wrap(
                            "{ let smelt_list_id = smelt_list_identity(&(",
                            bare.as_str(),
                            ") as *const _ as *const () as usize); let mut values = ",
                        );
                        out.append(text);
                        out.append(".clone().into_iter().map(|value| ");
                        out.append(vw.as_str());
                        out.append(
                            ").collect::<Vec<_>>(); values.sort_by_key(smelt_unknown_stable_hash_key); SmeltUnknown::Array(SmeltArray::with_id(smelt_list_id, values)) }",
                        );
                        Ok(out)
                    },
                    None => {
                        let mut out = wrap(
                            "{ let mut values = ",
                            text,
                            ".clone().into_iter().map(|value| ",
                        );
                        out.append(vw.as_str());
                        out.append(
                            ").collect::<Vec<_>>(); values.sort_by_key(smelt_unknown_stable_hash_key); SmeltUnknown::Array(values.into()) }",
                        );
                        Ok(out)
                    },
                }
            },
            Type::Tuple(items) => {
                let parts = self.erase_items(text, items, s)?;
                let joined = join(&parts, ", ");
                Ok(wrap("SmeltUnknown::Array(vec![", joined.as_str(), "].into())"))
            },
            Type::Optional(inner) => {
                let vw = self.erase_value_text("value", *inner)?;
                let mut out = suffixed(text, ".clone().map_or(SmeltUnknown::Undefined, |value| ");
                out.append(vw.as_str());
                out.append(")");
                Ok(out)
            },
            Type::Function(f) => {
                if let Some(key) = &operand.function_item_key {
                    return Ok(wrap("__smelt_fn_value_", key.as_str(), "()"));
                }
                if let Some(c) = &operand.erased_call {
                    return Ok(c.clone());
                }
                let rest = match self.fact_at(s) {
                    Some(facts) => facts.erased_unknown_rest_function,
                    None => false,
                };
                if rest && !f.may_throw {
                    return Ok(suffixed(text, ".clone().into_smelt_unknown()"));
                }
                match &operand.rest_vector_adapter {
                    Some(a) => Ok(wrap("SmeltUnknown::Function(", a.as_str(), ")")),
                    None => Ok(
                        wrap(
                            "SmeltUnknown::Function(",
                            "::std::rc::Rc::new(move |_smelt_args: Vec<SmeltUnknown>| Ok::<SmeltUnknown, Box<dyn std::error::Error>>(SmeltUnknown::Null))",
                            ")",
                        ),
                    ),
                }
            },
            Type::Union(_) => {
                if self.is_concrete_union(s) {
                    Ok(suffixed(text, ".into_smelt_unknown()"))
                } else {
                    Ok(String::from_str(text))
                }
            },
            Type::Future(item) => {
                match self.future_local_identity_key(operand)? {
                    Some(bare) => Ok(
                        wrap(
                            "{ let smelt_promise_id = smelt_promise_identity(&(",
                            bare.as_str(),
                            ") as *const _ as *const () as usize); SmeltUnknown::Promise(SmeltPromise::pending_with_id(smelt_promise_id)) }",
                        ),
                    ),
                    None => self.promise_future_unknown_text(text, *item),
                }
            },
            Type::Generator => Ok(wrap("(", text, ").clone().into_smelt_unknown()")),
            Type::GeneratorResult { .. } => Err(
                EmitError::new(
                    "generator results require typed done/value projection before erasure",
                ),
            ),
        }
    }


    fn extract_unwraps_exec(&self, operand: &Operand, target: usize) -> (r: bool)
        ensures
            r == self.extract_unwraps(*operand, target),
    {
        let prim = match self.type_at(target) {
            Some(Type::Bool) | Some(Type::Int) | Some(Type::Float) | Some(Type::Str) => true,
            _ => false,
        };
        match self.optional_inner_ty(operand.ty) {
            Some(inner) => prim && !(self.is_erased_kind(inner) || self.is_erased_class_type(inner)),
            None => false,
        }
    }

    /// Emits extraction of an operand from `SmeltUnknown` into a concrete type.
    pub fn extract(&self, value: &Operand, target: usize) -> (r: Result<String, EmitError>)
        requires
            self.wf(),
        ensures
            r matches Ok(t) ==> self.extract_op_spec(*value, target) == Some(t@),
            r is Err <==> self.extract_op_spec(*value, target) is None,
        decreases target, (if self.extract_unwraps(*value, target) {
            4nat
        } else {
            0nat
        }),
    {
        if self.extract_unwraps_exec(value, target) {
            return self.value_at_type(value, target);
        }
        if self.is_function_type(value.ty) {
            let erased = self.erase(value)?;
            return self.extract_value_text(erased.as_str(), target);
        }
        self.extract_value_text(value.text.as_str(), target)
    }

    fn fn_to_fn_text(&self, operand: &Operand, target: usize) -> (r: Result<String, EmitError>)
        ensures
            r matches Ok(t) ==> self.fn_to_fn_spec(*operand, target) == Some(t@),
            r is Err <==> self.fn_to_fn_spec(*operand, target) is None,
    {
        let s = operand.ty;
        let text = operand.text.as_str();
        if let Some(a) = self.adapter_text(AdapterKind::ErasedRestFunction, text, s, target) {
            return Ok(a);
        }
        if let Some(a) = self.adapter_text(AdapterKind::RestVector, text, s, target) {
            return Ok(a);
        }
        if let Some(a) = self.adapter_text(AdapterKind::FunctionShape, text, s, target) {
            return Ok(a);
        }
        let is_place = match &operand.kind {
            OperandKind::Const(_) => false,
            _ => true,
        };
        if is_place && operand.function_parameter {
            return self.borrowed_function_handle_text(text, target);
        }
        if self.is_borrowed_callback_capture_name(text) {
            return self.borrowed_function_handle_text(text, target);
        }
        Ok(suffixed(text, ".clone()"))
    }

    fn optional_wraps_exec(&self, operand: &Operand, inner: usize) -> (r: bool)
        ensures
            r == self.optional_wraps(*operand, inner),
    {
        let s = operand.ty;
        s == inner || Self::pair_in(&self.optional_coercions, s, inner) || self.is_erased_kind(inner)
            || self.is_erased_class_type(inner) || (self.is_function_type(inner)
            && self.is_function_type(s))
    }

    fn optional_target_handles_exec(&self, operand: &Operand, target: usize) -> (r: bool)
        ensures
            r == self.optional_target_handles(*operand, target),
    {
        let s = operand.ty;
        let inner = match self.optional_inner_ty(target) {
            Some(i) => i,
            None => {
                return false;
            },
        };
        let unknown_inner = match self.optional_inner_ty(s) {
            Some(si) => self.is_unknown_type(si) && (self.is_erased_kind(inner)
                || self.is_erased_class_type(inner)),
            None => false,
        };
        operand.optional_element_read.is_some() || unknown_inner || self.is_type(s, &Type::Nullish)
            || self.optional_wraps_exec(operand, inner) || self.is_collection_type(s)
    }

    fn optional_target_text(&self, operand: &Operand, target: usize) -> (r: Result<String, EmitError>)
        requires
            self.wf(),
            self.optional_inner_spec(target) is Some,
        ensures
            r matches Ok(t) ==> self.optional_target_spec(*operand, target) == Some(t@),
            r is Err <==> self.optional_target_spec(*operand, target) is None,
        decreases target, 1nat,
    {
        proof {
            if target < self.types.len() {
                assert(children_below(self.types@[target as int], target as int));
            }
        }
        let s = operand.ty;
        let inner = self.optional_inner_ty(target).unwrap();
        if let Some(r) = &operand.optional_element_read {
            return Ok(r.clone());
        }
        let unknown_inner = match self.optional_inner_ty(s) {
            Some(si) => self.is_unknown_type(si) && (self.is_erased_kind(inner)
                || self.is_erased_class_type(inner)),
            None => false,
        };
        if unknown_inner {
            return Ok(operand.text.clone());
        }
        if self.is_type(s, &Type::Nullish) {
            return Ok(String::from_str("None"));
        }
        if self.optional_wraps_exec(operand, inner) {
            if inner >= target {
                return Err(EmitError::new("optional inner type is not interned before the option"));
            }
            let m = self.value_at_type(operand, inner)?;
            return Ok(wrap("Some(", m.as_str(), ")"));
        }
        Ok(String::from_str("None"))
    }

    fn list_to_list_op_text(&self, operand: &Operand, si: usize, ti: usize) -> (r: Result<
        String,
        EmitError,
    >)
        requires
            self.wf(),
        ensures
            r matches Ok(t) ==> self.list_to_list_op_spec(*operand, si, ti) == Some(t@),
            r is Err <==> self.list_to_list_op_spec(*operand, si, ti) is None,
    {
        let erased_item = self.is_erased_kind(ti) || self.is_erased_class_type(ti);
        let el = if self.is_nullish_type(si) && erased_item
            && self.list_local_all_undefined_constants(operand) {
            String::from_str("SmeltUnknown::Undefined")
        } else if self.list_item_of(si).is_some() && erased_item {
            String::from_str("value.into_smelt_unknown()")
        } else {
            let empty: Vec<(usize, usize)> = Vec::new();
            self.vat_text("value", si, ti, &empty)?
        };
        let mut out = wrap(
            "{ let smelt_l: SmeltList<_> = (",
            operand.text.as_str(),
            ").clone().into(); SmeltList::with_id(smelt_l.id(), smelt_l.into_iter().map(|value| ",
        );
        out.append(el.as_str());
        out.append(").collect::<Vec<_>>()) }");
        Ok(out)
    }

    /// Converts an operand to Rust text at the destination type `target`,
    /// wrapping into or extracting from `SmeltUnknown` where needed.
    pub fn value_at_type(&self, operand: &Operand, target: usize) -> (r: Result<String, EmitError>)
        requires
            self.wf(),
        ensures
            r matches Ok(t) ==> self.vat_op_spec(*operand, target) == Some(t@),
            r is Err <==> self.vat_op_spec(*operand, target) is None,
        decreases target, 3nat,
    {
        let s = operand.ty;
        let text = operand.text.as_str();
        if let Some(a) = self.adapter_text(AdapterKind::InjectUnion, text, s, target) {
            return Ok(a);
        }
        if let Some(a) = self.adapter_text(AdapterKind::ProjectUnion, text, s, target) {
            return Ok(a);
        }
        let target_erased = (self.is_erased_kind(target) && !self.is_concrete_union(target))
            || self.is_erased_class_type(target);
        if target_erased {
            let base = match &operand.kind {
                OperandKind::Copy(Place::Field { base, .. }) => Some(*base),
                OperandKind::Move(Place::Field { base, .. }) => Some(*base),
                _ => None,
            };
            if let Some(base) = base {
                let d = self.local_decl(base)?;
                if self.is_str_type(d.ty) {
                    return self.string_field_erase_text(operand);
                }
            }
        }
        if s == target && !self.is_function_type(target) {
            return Ok(String::from_str(text));
        }
        let target_type_param = match self.type_at(target) {
            Some(Type::TypeParam { .. }) => true,
            _ => false,
        };
        if target_type_param && self.type_param_in_scope_of(target) {
            return self.extract(operand, target);
        }
        if target_erased {
            return match &operand.erased_element_read {
                Some(r) => Ok(r.clone()),
                None => self.erase(operand),
            };
        }
        let so = self.optional_inner_ty(s);
        let to = self.optional_inner_ty(target);
        let (is_null, is_nullish) = match &operand.kind {
            OperandKind::Const(Constant::Null) => (true, true),
            OperandKind::Const(Constant::Undefined) => (false, true),
            _ => (false, false),
        };
        if is_null {
            if let Some(inner) = to {
                if self.optional_inner_preserves_erased_singletons(inner) {
                    let u = self.type_id(&Type::Unknown)?;
                    let empty: Vec<(usize, usize)> = Vec::new();
                    let m = self.vat_text("SmeltUnknown::Null", u, inner, &empty)?;
                    return Ok(wrap("Some(", m.as_str(), ")"));
                }
            }
        }
        if is_nullish {
            return self.default_value(target);
        }
        if self.is_function_type(target) {
            if let Some(call_ty) = self.call_field_of(s) {
                let mut stack: Vec<(usize, usize)> = Vec::new();
                stack.push((s, target));
                assert(stack@ =~= seq![(s, target)]);
                let slot = suffixed(text, ".__smelt_call.clone()");
                return self.vat_text(slot.as_str(), call_ty, target, &stack);
            }
        }
        if let (Some(si), Some(ti)) = (so, to) {
            if self.optional_inner_ty(si) == Some(ti) {
                return Ok(suffixed(text, ".clone().flatten()"));
            }
            if si == ti {
                return Ok(String::from_str(text));
            }
            let empty: Vec<(usize, usize)> = Vec::new();
            let m = self.vat_text("value", si, ti, &empty)?;
            let mut out = suffixed(text, ".map(|value| ");
            out.append(m.as_str());
            out.append(")");
            return Ok(out);
        }
        let source_erased = self.is_erased_kind(s) || self.is_erased_class_type(s);
        let is_field = match &operand.kind {
            OperandKind::Copy(Place::Field { .. }) | OperandKind::Move(Place::Field { .. }) => true,
            _ => false,
        };
        if to.is_some() && is_field && source_erased {
            return self.extract(operand, target);
        }
        if self.optional_target_handles_exec(operand, target) {
            return self.optional_target_text(operand, target);
        }
        if source_erased {
            return self.extract(operand, target);
        }
        self.value_at_type_rest(operand, target)
    }

    fn value_at_type_rest(&self, operand: &Operand, target: usize) -> (r: Result<String, EmitError>)
        requires
            self.wf(),
        ensures
            r matches Ok(t) ==> self.vat_op_rest_spec(*operand, target) == Some(t@),
            r is Err <==> self.vat_op_rest_spec(*operand, target) is None,
        decreases target, 2nat,
    {
        proof {
            if target < self.types.len() {
                assert(children_below(self.types@[target as int], target as int));
            }
        }
        let s = operand.ty;
        let text = operand.text.as_str();
        if let Some(a) = self.adapter_text(AdapterKind::StructuralRecord, text, s, target) {
            return Ok(a);
        }
        if self.is_class_type(s) && self.dict_parts_of(target).is_some() {
            if let Some(a) = self.adapter_text(AdapterKind::RecordToDict, text, s, target) {
                return Ok(a);
            }
        }
        if self.is_type(target, &Type::Str) && self.is_regexp_class(s) {
            return Ok(self.regexp_literal.render(text));
        }
        if self.match_fn_result_of(s) && !self.match_fn_result_class_of(target) {
            let read = suffixed(text, ".value.clone()");
            return self.extract_value_text(read.as_str(), target);
        }
        if self.is_regexp_class(target) && self.is_type(s, &Type::Str) {
            return Ok(wrap("SmeltRegExp::new(", text, ", String::new())"));
        }
        let target_fn = self.is_function_type(target);
        let source_fn = self.is_function_type(s);
        if source_fn && !target_fn && !self.is_erased_kind(target) && !self.is_erased_class_type(
            target,
        ) {
            return self.default_value(target);
        }
        if self.is_type(target, &Type::Float) && self.is_type(s, &Type::Int) {
            return Ok(suffixed(text, " as f64"));
        }
        if self.is_type(target, &Type::Int) && self.is_type(s, &Type::Float) {
            return Ok(wrap("(", text, " as f64).trunc() as i64"));
        }
        if self.is_type(target, &Type::Float) && self.is_type(s, &Type::Str) {
            return Ok(suffixed(text, ".parse::<f64>().unwrap_or(0.0)"));
        }
        if target_fn && source_fn {
            return self.fn_to_fn_text(operand, target);
        }
        let so = self.optional_inner_ty(s);
        if so == Some(target) {
            let d = self.default_value(target)?;
            let mut out = suffixed(text, ".clone().unwrap_or(");
            out.append(d.as_str());
            out.append(")");
            return Ok(out);
        }
        if let Some(inner) = so {
            let empty: Vec<(usize, usize)> = Vec::new();
            let m = self.vat_text("value", inner, target, &empty)?;
            let d = self.default_value(target)?;
            let mut out = suffixed(text, ".clone().map_or(");
            out.append(d.as_str());
            out.append(", |value| ");
            out.append(m.as_str());
            out.append(")");
            return Ok(out);
        }
        if target_fn {
            return self.default_value(target);
        }
        let sl = self.list_item_of(s);
        let tl = self.list_item_of(target);
        if let (Some(si), Some(ti)) = (sl, tl) {
            if si != ti {
                return self.list_to_list_op_text(operand, si, ti);
            }
        }
        if let Some(ti) = tl {
            if self.is_erased_kind(ti) && !self.is_collection_type(s) {
                if ti >= target {
                    return Err(EmitError::new("list item type is not interned before the list"));
                }
                let item = self.value_at_type(operand, ti)?;
                return Ok(wrap("SmeltList::from(vec![", item.as_str(), "])"));
            }
        }
        let sd = self.dict_parts_of(s);
        if let (Some(parts), Some(ti)) = (sd, tl) {
            if self.is_function_type(ti) {
                return Ok(String::from_str("SmeltList::new(Vec::new())"));
            }
            let empty: Vec<(usize, usize)> = Vec::new();
            let item = self.vat_text("value", parts.1, ti, &empty)?;
            let mut out = suffixed(text, ".into_iter().map(|(_, value)| ");
            out.append(item.as_str());
            out.append(").collect::<SmeltList<_>>()");
            return Ok(out);
        }
        let empty: Vec<(usize, usize)> = Vec::new();
        if sl.is_some() && self.dict_parts_of(target).is_some() {
            return self.list_to_dict(text, s, target, &empty);
        }
        if sl.is_some() && self.tuple_items_of(target).is_some() {
            return self.list_to_tuple(text, s, target, &empty);
        }
        if let (Some(a), Some(b)) = (self.map_parts_of(s), self.map_parts_of(target)) {
            if a.0 != b.0 || a.1 != b.1 || Self::pair_in(&self.map_backing_pairs, s, target) {
                return self.map_to_map(text, s, target, &empty);
            }
        }
        if sd.is_some() && self.is_class_type(target) {
            if let Some(a) = self.adapter_text(AdapterKind::DictToRecord, text, s, target) {
                return Ok(a);
            }
        }
        Ok(String::from_str(text))
    }
}

} // verus!
