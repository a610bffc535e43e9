//! Emission rules that render operands through the coercion seam: runtime
//! helper calls on erased values, keyed reads, console arguments and call
//! argument lists.

use vstd::prelude::*;
use crate::emitter::{EmitError, FunctionEmitter};
use crate::erase::wrap;
use crate::mir::{Operand, OperandKind, Place};
use crate::text::{debug_quote, debug_quoted, join, seq_join, str_eq, views};
use crate::types::{ClassKind, Type};
use crate::value_at_type::suffixed;

verus! {

/// How `console.log` spells an absent optional value.
pub enum AbsentSpelling {
    Undefined,
    Null,
}

/// The quoted word for an absent value, as `{:?}` prints it.
pub open spec fn absent_quoted(absent: AbsentSpelling) -> Seq<char> {
    match absent {
        AbsentSpelling::Undefined => "\"undefined\""@,
        AbsentSpelling::Null => "\"null\""@,
    }
}

fn absent_quoted_text(absent: &AbsentSpelling) -> (r: &'static str)
    ensures
        r@ == absent_quoted(*absent),
{
    match absent {
        AbsentSpelling::Undefined => "\"undefined\"",
        AbsentSpelling::Null => "\"null\"",
    }
}

/// The JavaScript `RegExp` metadata field `name` read on `recv`.
/// A field read on a regular-expression match of class kind `kind`.
pub open spec fn match_field_spec(recv: Seq<char>, kind: ClassKind, name: Seq<char>) -> Seq<char> {
    if kind is MatchGroups {
        recv + ".named_group_owned("@ + debug_quoted(name) + ")"@
    } else if name == "index"@ {
        recv + ".index()"@
    } else if name == "length"@ {
        recv + ".length()"@
    } else if name == "input"@ {
        recv + ".input_owned()"@
    } else if name == "groups"@ {
        recv + ".clone()"@
    } else {
        "SmeltUnknown::Null"@
    }
}

pub open spec fn regexp_field_spec(recv: Seq<char>, name: Seq<char>) -> Seq<char> {
    if name == "source"@ {
        recv + ".source.clone()"@
    } else if name == "flags"@ {
        recv + ".flags.clone()"@
    } else if name == "global"@ {
        recv + ".has_flag('g')"@
    } else if name == "ignoreCase"@ || name == "ignore_case"@ {
        recv + ".has_flag('i')"@
    } else if name == "multiline"@ {
        recv + ".has_flag('m')"@
    } else if name == "sticky"@ {
        recv + ".has_flag('y')"@
    } else if name == "unicode"@ {
        recv + ".has_flag('u')"@
    } else if name == "dotAll"@ || name == "dot_all"@ {
        recv + ".has_flag('s')"@
    } else if name == "lastIndex"@ || name == "last_index"@ {
        "(*"@ + recv + ".last_index.borrow() as f64)"@
    } else if name == "constructor"@ {
        "SmeltUnknown::Object(SmeltObject::new(Vec::from([])))"@
    } else {
        "SmeltUnknown::Null"@
    }
}

impl FunctionEmitter {
    /// `f(v)` where `v` is `op` coerced to `unknown`.
    pub open spec fn unknown_call_spec(&self, op: Operand, prefix: Seq<char>, suffix: Seq<char>) -> Option<
        Seq<char>,
    > {
        match self.find_interned(Type::Unknown) {
            None => None,
            Some(u) => match self.vat_op_spec(op, u) {
                Some(t) => Some(prefix + t + suffix),
                None => None,
            },
        }
    }

    fn unknown_call_text(&self, value: &Operand, prefix: &str, suffix: &str) -> (r: Result<
        String,
        EmitError,
    >)
        requires
            self.wf(),
        ensures
            r matches Ok(t) ==> self.unknown_call_spec(*value, prefix@, suffix@) == Some(t@),
            r is Err <==> self.unknown_call_spec(*value, prefix@, suffix@) is None,
    {
        let u = self.type_id(&Type::Unknown)?;
        let t = self.value_at_type(value, u)?;
        Ok(wrap(prefix, t.as_str(), suffix))
    }

    /// Emits the prototype probe of a value through the runtime helper.
    pub fn prototype_sentinel_text(&self, value: &Operand) -> (r: Result<String, EmitError>)
        requires
            self.wf(),
        ensures
            r matches Ok(t) ==> self.unknown_call_spec(*value, "smelt_prototype_sentinel(&("@, "))"@)
                == Some(t@),
            r is Err <==> self.unknown_call_spec(*value, "smelt_prototype_sentinel(&("@, "))"@) is None,
    {
        self.unknown_call_text(value, "smelt_prototype_sentinel(&(", "))")
    }

    /// Emits `Object(value)` as a boxed primitive.
    pub fn box_primitive_text(&self, value: &Operand) -> (r: Result<String, EmitError>)
        requires
            self.wf(),
        ensures
            r matches Ok(t) ==> self.unknown_call_spec(*value, "smelt_box_value("@, ")"@) == Some(t@),
            r is Err <==> self.unknown_call_spec(*value, "smelt_box_value("@, ")"@) is None,
    {
        self.unknown_call_text(value, "smelt_box_value(", ")")
    }

    /// Emits `Object.create(proto)` as a fresh erased object.
    pub fn object_from_prototype_text(&self, prototype: &Operand) -> (r: Result<String, EmitError>)
        requires
            self.wf(),
        ensures
            r matches Ok(t) ==> self.unknown_call_spec(*prototype, "smelt_object_from_prototype("@, ")"@)
                == Some(t@),
            r is Err <==> self.unknown_call_spec(*prototype, "smelt_object_from_prototype("@, ")"@)
                is None,
    {
        self.unknown_call_text(prototype, "smelt_object_from_prototype(", ")")
    }

    /// Emits the `Object.prototype.toString.call(x)` tag probe.
    pub fn object_to_string_tag_text(&self, value: &Operand) -> (r: Result<String, EmitError>)
        requires
            self.wf(),
        ensures
            r matches Ok(t) ==> self.unknown_call_spec(*value, "smelt_object_to_string_tag(&("@, "))"@)
                == Some(t@),
            r is Err <==> self.unknown_call_spec(*value, "smelt_object_to_string_tag(&("@, "))"@)
                is None,
    {
        self.unknown_call_text(value, "smelt_object_to_string_tag(&(", "))")
    }

    /// Emits `structuredClone(x)` as a fresh-identity deep copy.
    pub fn structured_clone_text(&self, value: &Operand) -> (r: Result<String, EmitError>)
        requires
            self.wf(),
        ensures
            r matches Ok(t) ==> self.unknown_call_spec(*value, "smelt_structured_clone("@, ")"@) == Some(
                t@,
            ),
            r is Err <==> self.unknown_call_spec(*value, "smelt_structured_clone("@, ")"@) is None,
    {
        self.unknown_call_text(value, "smelt_structured_clone(", ")")
    }

    pub open spec fn match_index_spec(&self, recv: Seq<char>, index: Operand) -> Option<Seq<char>> {
        let it = if self.numeric_spec(index.ty) {
            Some(index.text@)
        } else {
            match self.find_interned(Type::Float) {
                None => None,
                Some(f) => self.vat_op_spec(index, f),
            }
        };
        match it {
            Some(it) => Some(recv + ".group_owned("@ + it + " as usize)"@),
            None => None,
        }
    }

    /// Emits a numbered capture-group read against a concrete `SmeltMatch`.
    pub fn match_index_text(&self, receiver_text: &str, index: &Operand) -> (r: Result<
        String,
        EmitError,
    >)
        requires
            self.wf(),
        ensures
            r matches Ok(t) ==> self.match_index_spec(receiver_text@, *index) == Some(t@),
            r is Err <==> self.match_index_spec(receiver_text@, *index) is None,
    {
        let it = if self.is_numeric_type(index.ty) {
            index.text.clone()
        } else {
            let f = self.type_id(&Type::Float)?;
            self.value_at_type(index, f)?
        };
        let mut out = suffixed(receiver_text, ".group_owned(");
        out.append(it.as_str());
        out.append(" as usize)");
        Ok(out)
    }

    pub open spec fn dict_read_spec(&self, store: Seq<char>, key_ty: usize, index: Operand) -> Option<
        Seq<char>,
    > {
        let key = if self.ty(key_ty) == Some(Type::Str) {
            if index.ty == key_ty {
                self.vat_op_spec(index, key_ty)
            } else {
                self.key_to_string_spec(index.text@, index.ty)
            }
        } else {
            self.vat_op_spec(index, key_ty)
        };
        match key {
            None => None,
            Some(k) => if self.smelt_record_key(key_ty) || self.js_key_map_key(key_ty) {
                Some(store + ".get(&"@ + k + ")"@)
            } else {
                Some(store + ".get(&"@ + k + ").cloned()"@)
            },
        }
    }

    /// Emits an `Option<T>`-returning keyed read against a `Dict`-typed store.
    pub fn dict_index_optional_read_text(&self, store_text: &str, key_ty: usize, index: &Operand) -> (r:
        Result<String, EmitError>)
        requires
            self.wf(),
        ensures
            r matches Ok(t) ==> self.dict_read_spec(store_text@, key_ty, *index) == Some(t@),
            r is Err <==> self.dict_read_spec(store_text@, key_ty, *index) is None,
    {
        let key = if self.is_str_type(key_ty) {
            if index.ty == key_ty {
                self.value_at_type(index, key_ty)?
            } else {
                self.key_to_string_text(index.text.as_str(), index.ty)?
            }
        } else {
            self.value_at_type(index, key_ty)?
        };
        let mut out = suffixed(store_text, ".get(&");
        out.append(key.as_str());
        if self.fact_flag_record_or_js_map(key_ty) {
            out.append(")");
        } else {
            out.append(").cloned()");
        }
        Ok(out)
    }

    pub open spec fn option_value_spec(&self, op: Operand, inner: usize) -> Seq<char> {
        if self.ty(inner) == Some(Type::Int) {
            op.text@ + ".unwrap_or(0_i64)"@
        } else if self.ty(inner) == Some(Type::Float) {
            op.text@ + ".unwrap_or(0.0)"@
        } else {
            op.text@
        }
    }

    /// Emits an `Option<T>` value expression with a default for arithmetic.
    pub fn option_value_text(&self, operand: &Operand, inner: usize) -> (r: String)
        ensures
            r@ == self.option_value_spec(*operand, inner),
    {
        match self.type_at(inner) {
            Some(Type::Int) => suffixed(operand.text.as_str(), ".unwrap_or(0_i64)"),
            Some(Type::Float) => suffixed(operand.text.as_str(), ".unwrap_or(0.0)"),
            _ => operand.text.clone(),
        }
    }

    /// Emits an unwrapped optional arithmetic operand coerced to `target`.
    pub fn option_value_as_type_text(&self, operand: &Operand, inner: usize, target: usize) -> (r:
        Result<String, EmitError>)
        requires
            self.wf(),
        ensures
            r matches Ok(t) ==> self.vat_spec(self.option_value_spec(*operand, inner), inner, target, Seq::empty())
                == Some(t@),
            r is Err <==> self.vat_spec(self.option_value_spec(*operand, inner), inner, target, Seq::empty())
                is None,
    {
        let value = self.option_value_text(operand, inner);
        self.value_at_type_text(value.as_str(), inner, target)
    }

    /// Converts an awaited future operand without cloning it.
    pub fn await_operand_text(&self, operand: &Operand) -> (r: String)
        ensures
            operand.kind is Const ==> r@ == operand.text@,
            !(operand.kind is Const) ==> r@ == operand.place_text@,
    {
        match &operand.kind {
            OperandKind::Const(_) => operand.text.clone(),
            _ => operand.place_text.clone(),
        }
    }

    /// Renders an array-literal element by value: a moved local is read as a
    /// copy, every other operand is unchanged.
    pub fn list_literal_operand(&self, operand: &Operand) -> (r: Operand)
        ensures
            operand.kind matches OperandKind::Move(Place::Local(l)) ==> r.kind == OperandKind::Copy(
                Place::Local(l),
            ),
            !(operand.kind matches OperandKind::Move(Place::Local(_))) ==> r.kind == operand.kind,
            r.ty == operand.ty,
            r.text == operand.text,
            r.place_text == operand.place_text,
            r.borrow_text == operand.borrow_text,
            r.float_text == operand.float_text,
            r.erased_element_read == operand.erased_element_read,
            r.optional_element_read == operand.optional_element_read,
            r.function_parameter == operand.function_parameter,
            r.function_item_key == operand.function_item_key,
            r.erased_call == operand.erased_call,
            r.rest_vector_adapter == operand.rest_vector_adapter,
            r.truthy_text == operand.truthy_text,
            r.string_text == operand.string_text,
            r == crate::rvalue_text::list_lit(*operand),
    {
        let kind = match &operand.kind {
            OperandKind::Move(Place::Local(l)) => OperandKind::Copy(Place::Local(*l)),
            k => k.copy(),
        };
        Operand {
            kind,
            ty: operand.ty,
            text: operand.text.clone(),
            place_text: operand.place_text.clone(),
            borrow_text: operand.borrow_text.clone(),
            float_text: operand.float_text.clone(),
            erased_element_read: clone_opt(&operand.erased_element_read),
            optional_element_read: clone_opt(&operand.optional_element_read),
            function_parameter: operand.function_parameter,
            function_item_key: clone_opt(&operand.function_item_key),
            erased_call: clone_opt(&operand.erased_call),
            rest_vector_adapter: clone_opt(&operand.rest_vector_adapter),
            truthy_text: operand.truthy_text.clone(),
            string_text: clone_opt(&operand.string_text),
        }
    }
}

/// A copy of an optional string.
pub fn clone_opt(s: &Option<String>) -> (r: Option<String>)
    ensures
        r == *s,
{
    match s {
        Some(t) => Some(t.clone()),
        None => None,
    }
}


impl FunctionEmitter {
    /// Validates two same-typed set operands, returning their set type.
    pub fn validate_set_pair_operands(&self, left: &Operand, right: &Operand, context: &str) -> (r:
        Result<usize, EmitError>)
        ensures
            r matches Ok(t) ==> t == left.ty && right.ty == left.ty && self.ty(left.ty) matches Some(
                Type::SetOf(_),
            ),
            r matches Err(e) ==> (right.ty != left.ty && e.message@ == context@
                + " operands must have the same set type"@) || (right.ty == left.ty && !(self.ty(
                left.ty,
            ) matches Some(Type::SetOf(_))) && e.message@ == context@ + " operands must be sets"@),
            r is Err <==> (right.ty != left.ty || !(self.ty(left.ty) matches Some(Type::SetOf(_)))),
    {
        let left_ty = left.ty;
        if right.ty != left_ty {
            let msg = suffixed(context, " operands must have the same set type");
            return Err(EmitError { message: msg });
        }
        match self.type_at(left_ty) {
            Some(Type::SetOf(_)) => Ok(left_ty),
            _ => {
                let msg = suffixed(context, " operands must be sets");
                Err(EmitError { message: msg })
            },
        }
    }

    /// Emits a field read on a regular-expression match: a named group of
    /// the match's groups, or the match's own metadata.
    pub fn match_field_text(&self, receiver_text: &str, kind: ClassKind, field: usize) -> (r: Result<
        String,
        EmitError,
    >)
        ensures
            r matches Ok(t) ==> self.symbol(field) matches Some(n) && t@ == match_field_spec(
                receiver_text@,
                kind,
                n,
            ),
            r is Err <==> self.symbol(field) is None,
    {
        let name = self.symbol_name(field)?;
        let n = name.as_str();
        match kind {
            ClassKind::MatchGroups => {
                let quoted = debug_quote(n);
                let mut s = wrap(receiver_text, ".named_group_owned(", quoted.as_str());
                s.append(")");
                Ok(s)
            },
            _ => if str_eq(n, "index") {
                Ok(suffixed(receiver_text, ".index()"))
            } else if str_eq(n, "length") {
                Ok(suffixed(receiver_text, ".length()"))
            } else if str_eq(n, "input") {
                Ok(suffixed(receiver_text, ".input_owned()"))
            } else if str_eq(n, "groups") {
                Ok(suffixed(receiver_text, ".clone()"))
            } else {
                Ok(String::from_str("SmeltUnknown::Null"))
            },
        }
    }

    /// Emits JavaScript RegExp metadata field reads.
    pub fn regexp_field_text(&self, receiver_text: &str, field: usize) -> (r: Result<
        String,
        EmitError,
    >)
        ensures
            r matches Ok(t) ==> self.symbol(field) matches Some(n) && t@ == regexp_field_spec(
                receiver_text@,
                n,
            ),
            r is Err <==> self.symbol(field) is None,
    {
        let name = self.symbol_name(field)?;
        let n = name.as_str();
        if str_eq(n, "source") {
            Ok(suffixed(receiver_text, ".source.clone()"))
        } else if str_eq(n, "flags") {
            Ok(suffixed(receiver_text, ".flags.clone()"))
        } else if str_eq(n, "global") {
            Ok(suffixed(receiver_text, ".has_flag('g')"))
        } else if str_eq(n, "ignoreCase") || str_eq(n, "ignore_case") {
            Ok(suffixed(receiver_text, ".has_flag('i')"))
        } else if str_eq(n, "multiline") {
            Ok(suffixed(receiver_text, ".has_flag('m')"))
        } else if str_eq(n, "sticky") {
            Ok(suffixed(receiver_text, ".has_flag('y')"))
        } else if str_eq(n, "unicode") {
            Ok(suffixed(receiver_text, ".has_flag('u')"))
        } else if str_eq(n, "dotAll") || str_eq(n, "dot_all") {
            Ok(suffixed(receiver_text, ".has_flag('s')"))
        } else if str_eq(n, "lastIndex") || str_eq(n, "last_index") {
            Ok(wrap("(*", receiver_text, ".last_index.borrow() as f64)"))
        } else if str_eq(n, "constructor") {
            Ok(String::from_str("SmeltUnknown::Object(SmeltObject::new(Vec::from([])))"))
        } else {
            Ok(String::from_str("SmeltUnknown::Null"))
        }
    }

    pub open spec fn timer_args_spec(&self, extra: Option<Operand>) -> Option<Seq<char>> {
        match extra {
            None => Some(Seq::empty()),
            Some(op) => match self.find_interned(Type::Unknown) {
                None => None,
                Some(u) => match self.find_interned(Type::List(u)) {
                    None => None,
                    Some(args_ty) => match self.vat_op_spec(op, args_ty) {
                        None => None,
                        Some(t) => Some(
                            "let smelt_timer_args: Vec<SmeltUnknown> = "@
                                + self.list_read.render_spec(t)
                                + ".iter().cloned().collect(); "@,
                        ),
                    },
                },
            },
        }
    }

    /// Renders the `let smelt_timer_args = ...;` prelude for forwarded timer
    /// arguments, or an empty string when the timer call has no extras.
    pub fn timer_extra_args_binding(&self, extra: Option<&Operand>) -> (r: Result<String, EmitError>)
        requires
            self.wf(),
        ensures
            r matches Ok(t) ==> self.timer_args_spec(
                match extra {
                    Some(o) => Some(*o),
                    None => None,
                },
            ) == Some(t@),
            r is Err <==> self.timer_args_spec(
                match extra {
                    Some(o) => Some(*o),
                    None => None,
                },
            ) is None,
    {
        let op = match extra {
            None => {
                return Ok(String::new());
            },
            Some(o) => o,
        };
        let u = self.type_id(&Type::Unknown)?;
        let args_ty = self.type_id(&Type::List(u))?;
        let t = self.value_at_type(op, args_ty)?;
        let read = self.list_read.render(t.as_str());
        Ok(
            wrap(
                "let smelt_timer_args: Vec<SmeltUnknown> = ",
                read.as_str(),
                ".iter().cloned().collect(); ",
            ),
        )
    }

    /// Whether awaiting this operand yields an erased value: a future whose
    /// output is `unknown`.
    pub fn awaited_operand_is_erased(&self, operand: &Operand) -> (r: bool)
        ensures
            r == (self.ty(operand.ty) matches Some(Type::Future(o)) && self.ty(o) == Some(
                Type::Unknown,
            )),
    {
        match self.type_at(operand.ty) {
            Some(Type::Future(o)) => self.is_unknown_type(*o),
            _ => false,
        }
    }

    /// The future item type when the operand is a list of futures.
    pub fn async_list_operand_item_type(&self, operand: &Operand) -> (r: Option<usize>)
        ensures
            r == (match self.ty(operand.ty) {
                Some(Type::List(item)) => if self.ty(item) matches Some(Type::Future(_)) {
                    Some(item)
                } else {
                    None
                },
                _ => None,
            }),
    {
        match self.type_at(operand.ty) {
            Some(Type::List(item)) => match self.type_at(*item) {
                Some(Type::Future(_)) => Some(*item),
                _ => None,
            },
            _ => None,
        }
    }

    /// Hoists a place-based promise callback into a cloned binding; returns
    /// `(prelude, callback_expr)`.
    pub fn promise_callback_hoist(&self, callback: &Operand) -> (r: (String, String))
        ensures
            !(callback.kind is Const) ==> r.0@ == "let smelt_promise_callback = ("@ + callback.text@
                + ").clone(); "@ && r.1@ == "smelt_promise_callback"@,
            callback.kind is Const ==> r.0@ == Seq::<char>::empty() && r.1@ == callback.text@,
    {
        match &callback.kind {
            OperandKind::Const(_) => (String::new(), callback.text.clone()),
            _ => (
                wrap("let smelt_promise_callback = (", callback.text.as_str(), ").clone(); "),
                String::from_str("smelt_promise_callback"),
            ),
        }
    }

    /// Each operand coerced to `target`, for the first `n` operands.
    pub open spec fn vat_all_spec(&self, ops: Seq<Operand>, target: usize, n: nat) -> Option<
        Seq<Seq<char>>,
    >
        decreases n,
    {
        if n == 0 {
            Some(Seq::empty())
        } else {
            match (self.vat_all_spec(ops, target, (n - 1) as nat), self.vat_op_spec(ops[n - 1], target)) {
                (Some(done), Some(t)) => Some(done.push(t)),
                _ => None,
            }
        }
    }

    proof fn lemma_vat_all_none(&self, ops: Seq<Operand>, target: usize, a: nat, b: nat)
        requires
            a <= b,
            self.vat_all_spec(ops, target, a) is None,
        ensures
            self.vat_all_spec(ops, target, b) is None,
        decreases b - a,
    {
        if a < b {
            self.lemma_vat_all_none(ops, target, a, (b - 1) as nat);
        }
    }

    pub(crate) fn vat_all(&self, ops: &Vec<Operand>, target: usize) -> (r: Result<Vec<String>, EmitError>)
        requires
            self.wf(),
        ensures
            r matches Ok(v) ==> self.vat_all_spec(ops@, target, ops.len() as nat) == Some(views(v@)),
            r is Err <==> self.vat_all_spec(ops@, target, ops.len() as nat) is None,
    {
        let mut out: Vec<String> = Vec::new();
        let mut k: usize = 0;
        while k < ops.len()
            invariant
                self.wf(),
                k <= ops.len(),
                out.len() == k,
                self.vat_all_spec(ops@, target, k as nat) == Some(views(out@)),
            decreases ops.len() - k,
        {
            match self.value_at_type(&ops[k], target) {
                Ok(t) => {
                    let ghost before = out@;
                    out.push(t);
                    assert(views(out@) =~= views(before).push(out@[k as int]@));
                },
                Err(e) => {
                    proof {
                        self.lemma_vat_all_none(ops@, target, (k + 1) as nat, ops.len() as nat);
                    }
                    return Err(e);
                },
            }
            k = k + 1;
        }
        Ok(out)
    }

    pub open spec fn erased_args_spec(&self, args: Seq<Operand>) -> Option<Seq<char>> {
        match self.find_interned(Type::Unknown) {
            None => None,
            Some(u) => match self.vat_all_spec(args, u, args.len()) {
                Some(parts) => Some("vec!["@ + seq_join(parts, ", "@) + "]"@),
                None => None,
            },
        }
    }

    /// Renders arguments for a call into an erased function: each erased to
    /// `SmeltUnknown` and packed into a `vec![..]`.
    pub fn erased_call_args_text(&self, args: &Vec<Operand>) -> (r: Result<String, EmitError>)
        requires
            self.wf(),
        ensures
            r matches Ok(t) ==> self.erased_args_spec(args@) == Some(t@),
            r is Err <==> self.erased_args_spec(args@) is None,
    {
        let u = self.type_id(&Type::Unknown)?;
        let parts = self.vat_all(args, u)?;
        let joined = join(&parts, ", ");
        Ok(wrap("vec![", joined.as_str(), "]"))
    }
}


/// `format!("{}", v)`-style text for one console value.
pub open spec fn fmt_display(v: Seq<char>) -> Seq<char> {
    "format!(\"{}\", "@ + v + ")"@
}

/// `format!("{:?}", v)`-style text for one console value.
pub open spec fn fmt_debug(v: Seq<char>) -> Seq<char> {
    "format!(\"{:?}\", "@ + v + ")"@
}

/// The table cases `key => value`, with each key quoted as `{:?}` quotes it.
pub open spec fn table_case_spec(key: Seq<char>, value: Seq<char>) -> Seq<char> {
    debug_quoted(key) + " => "@ + value
}

impl FunctionEmitter {
    /// The first `n` cases of a function table, each coerced to `dest`.
    pub open spec fn table_cases_spec(&self, cases: Seq<(String, Operand)>, dest: usize, n: nat) -> Option<
        Seq<Seq<char>>,
    >
        decreases n,
    {
        if n == 0 {
            Some(Seq::empty())
        } else {
            match (
                self.table_cases_spec(cases, dest, (n - 1) as nat),
                self.vat_op_spec(cases[n - 1].1, dest),
            ) {
                (Some(done), Some(t)) => Some(done.push(table_case_spec(cases[n - 1].0@, t))),
                _ => None,
            }
        }
    }

    proof fn lemma_table_none(&self, cases: Seq<(String, Operand)>, dest: usize, a: nat, b: nat)
        requires
            a <= b,
            self.table_cases_spec(cases, dest, a) is None,
        ensures
            self.table_cases_spec(cases, dest, b) is None,
        decreases b - a,
    {
        if a < b {
            self.lemma_table_none(cases, dest, a, (b - 1) as nat);
        }
    }

    pub open spec fn table_lookup_spec(&self, key: Operand, cases: Seq<(String, Operand)>, dest: usize) -> Option<
        Seq<char>,
    > {
        match self.table_cases_spec(cases, dest, cases.len()) {
            None => None,
            Some(parts) => Some(
                "{ let __smelt_function_key = "@ + key.text@
                    + "; match __smelt_function_key.as_str() { "@ + seq_join(parts, ", "@)
                    + ", _ => panic!(\"unknown function table key: {}\", __smelt_function_key) } }"@,
            ),
        }
    }

    /// Emits Rust that selects a function value from a static string-keyed
    /// table.
    pub fn function_table_lookup_text(&self, key: &Operand, cases: &Vec<(String, Operand)>, dest_ty: usize) -> (r:
        Result<String, EmitError>)
        requires
            self.wf(),
        ensures
            r matches Ok(t) ==> self.table_lookup_spec(*key, cases@, dest_ty) == Some(t@),
            r is Err <==> self.table_lookup_spec(*key, cases@, dest_ty) is None,
    {
        let mut parts: Vec<String> = Vec::new();
        let mut k: usize = 0;
        while k < cases.len()
            invariant
                self.wf(),
                k <= cases.len(),
                parts.len() == k,
                self.table_cases_spec(cases@, dest_ty, k as nat) == Some(views(parts@)),
            decreases cases.len() - k,
        {
            let case = &cases[k];
            match self.value_at_type(&case.1, dest_ty) {
                Ok(t) => {
                    let mut c = debug_quote(case.0.as_str());
                    c.append(" => ");
                    c.append(t.as_str());
                    let ghost before = parts@;
                    parts.push(c);
                    assert(views(parts@) =~= views(before).push(parts@[k as int]@));
                },
                Err(e) => {
                    proof {
                        self.lemma_table_none(cases@, dest_ty, (k + 1) as nat, cases.len() as nat);
                    }
                    return Err(e);
                },
            }
            k = k + 1;
        }
        let joined = join(&parts, ", ");
        let mut out = wrap(
            "{ let __smelt_function_key = ",
            key.text.as_str(),
            "; match __smelt_function_key.as_str() { ",
        );
        out.append(joined.as_str());
        out.append(", _ => panic!(\"unknown function table key: {}\", __smelt_function_key) } }");
        Ok(out)
    }

    /// The console rendering of `v`, of type `ty`, as a `String` expression.
    pub open spec fn console_value_spec(&self, v: Seq<char>, ty: usize, absent: AbsentSpelling) -> Option<
        Seq<char>,
    >
        decreases ty,
    {
        if ty == self.none_ty {
            Some("\"null\".to_owned()"@)
        } else if self.ty(ty) matches Some(Type::List(_)) || self.ty(ty) matches Some(
            Type::Dict(_, _),
        ) || self.ty(ty) matches Some(Type::Tuple(_)) {
            Some(fmt_debug(v))
        } else if self.ty(ty) == Some(Type::Bool) || self.ty(ty) == Some(Type::Int) || self.ty(ty)
            == Some(Type::Float) || self.ty(ty) == Some(Type::Str) || self.ty(ty) == Some(
            Type::Unknown,
        ) {
            Some(fmt_display(v))
        } else if self.optional_inner_spec(ty) is Some {
            let inner = self.optional_inner_spec(ty)->0;
            if inner < ty {
                match self.console_value_spec(v, inner, absent) {
                    Some(present) => Some(
                        "match "@ + v + " { Some(value) => "@ + present + ", None => "@
                            + absent_quoted(absent) + ".to_owned() }"@,
                    ),
                    None => None,
                }
            } else {
                None
            }
        } else {
            match self.erase_spec(v + ".clone()"@, ty, false) {
                Some(e) => Some(fmt_display(e)),
                None => None,
            }
        }
    }

    fn is_list_dict_tuple(&self, ty: usize) -> (r: bool)
        ensures
            r == (self.ty(ty) matches Some(Type::List(_)) || self.ty(ty) matches Some(
                Type::Dict(_, _),
            ) || self.ty(ty) matches Some(Type::Tuple(_))),
    {
        match self.type_at(ty) {
            Some(Type::List(_)) | Some(Type::Dict(_, _)) | Some(Type::Tuple(_)) => true,
            _ => false,
        }
    }

    fn is_displayable(&self, ty: usize) -> (r: bool)
        ensures
            r == (self.ty(ty) == Some(Type::Bool) || self.ty(ty) == Some(Type::Int) || self.ty(ty)
                == Some(Type::Float) || self.ty(ty) == Some(Type::Str) || self.ty(ty) == Some(
                Type::Unknown,
            )),
    {
        match self.type_at(ty) {
            Some(Type::Bool) | Some(Type::Int) | Some(Type::Float) | Some(Type::Str) | Some(
                Type::Unknown,
            ) => true,
            _ => false,
        }
    }

    /// Renders `value_text` of type `ty` as a `String` expression,
    /// console-style.
    pub fn console_value_text(&self, value_text: &str, ty: usize, absent: &AbsentSpelling) -> (r:
        Result<String, EmitError>)
        requires
            self.wf(),
        ensures
            r matches Ok(t) ==> self.console_value_spec(value_text@, ty, *absent) == Some(t@),
            r is Err <==> self.console_value_spec(value_text@, ty, *absent) is None,
        decreases ty,
    {
        if ty == self.none_ty {
            return Ok(String::from_str("\"null\".to_owned()"));
        }
        if self.is_list_dict_tuple(ty) {
            return Ok(wrap("format!(\"{:?}\", ", value_text, ")"));
        }
        if self.is_displayable(ty) {
            return Ok(wrap("format!(\"{}\", ", value_text, ")"));
        }
        if let Some(inner) = self.optional_inner_ty(ty) {
            if inner >= ty {
                return Err(EmitError::new("optional inner type is not interned before the option"));
            }
            let present = self.console_value_text(value_text, inner, absent)?;
            let mut out = wrap("match ", value_text, " { Some(value) => ");
            out.append(present.as_str());
            out.append(", None => ");
            out.append(absent_quoted_text(absent));
            out.append(".to_owned() }");
            return Ok(out);
        }
        let cloned = suffixed(value_text, ".clone()");
        let erased = self.erase_value_text(cloned.as_str(), ty)?;
        Ok(wrap("format!(\"{}\", ", erased.as_str(), ")"))
    }

    pub open spec fn console_optional_spec(&self, op: Operand, absent: AbsentSpelling) -> Option<
        Seq<char>,
    > {
        match self.optional_inner_spec(op.ty) {
            None => None,
            Some(inner) => match self.console_value_spec("value"@, inner, absent) {
                None => None,
                Some(present) => Some(
                    "match &"@ + op.text@ + " { Some(value) => "@ + present + ", None => "@
                        + absent_quoted(absent) + ".to_owned() }"@,
                ),
            },
        }
    }

    /// Renders an optional console argument as a `String` expression that
    /// prints the value inside it, or the absent word.
    pub fn console_optional_text(&self, operand: &Operand, absent: &AbsentSpelling) -> (r: Result<
        String,
        EmitError,
    >)
        requires
            self.wf(),
        ensures
            r matches Ok(t) ==> self.console_optional_spec(*operand, *absent) == Some(t@),
            r is Err <==> self.console_optional_spec(*operand, *absent) is None,
    {
        let inner = match self.optional_inner_ty(operand.ty) {
            Some(i) => i,
            None => {
                return Err(
                    EmitError::new("console optional rendering requires an optional operand"),
                );
            },
        };
        let present = self.console_value_text("value", inner, absent)?;
        let mut out = wrap("match &", operand.text.as_str(), " { Some(value) => ");
        out.append(present.as_str());
        out.append(", None => ");
        out.append(absent_quoted_text(absent));
        out.append(".to_owned() }");
        Ok(out)
    }

    /// The console format spec and value text of one `console.log` argument.
    pub open spec fn console_arg_spec(&self, op: Operand, absent: AbsentSpelling) -> Option<
        (Seq<char>, Seq<char>),
    > {
        let ty = op.ty;
        if ty == self.none_ty {
            Some(("{}"@, "\"null\""@))
        } else if self.ty(ty) matches Some(Type::List(_)) || self.ty(ty) matches Some(
            Type::Dict(_, _),
        ) || self.ty(ty) matches Some(Type::Tuple(_)) {
            Some(("{:?}"@, op.text@))
        } else if self.optional_inner_spec(ty) is Some {
            match self.console_optional_spec(op, absent) {
                Some(t) => Some(("{}"@, t)),
                None => None,
            }
        } else if self.ty(ty) == Some(Type::Bool) || self.ty(ty) == Some(Type::Int) || self.ty(ty)
            == Some(Type::Float) || self.ty(ty) == Some(Type::Str) || self.ty(ty) == Some(
            Type::Unknown,
        ) {
            Some(("{}"@, op.text@))
        } else {
            match self.erase_spec(op.text@, ty, false) {
                Some(e) => Some(("{}"@, e)),
                None => None,
            }
        }
    }

    /// Converts an operand to a `console.log` argument: its format spec and
    /// its value text.
    pub fn console_arg_text(&self, operand: &Operand, absent: &AbsentSpelling) -> (r: Result<
        (&'static str, String),
        EmitError,
    >)
        requires
            self.wf(),
        ensures
            r matches Ok(p) ==> self.console_arg_spec(*operand, *absent) == Some((p.0@, p.1@)),
            r is Err <==> self.console_arg_spec(*operand, *absent) is None,
    {
        let ty = operand.ty;
        if ty == self.none_ty {
            Ok(("{}", String::from_str("\"null\"")))
        } else if self.is_list_dict_tuple(ty) {
            Ok(("{:?}", operand.text.clone()))
        } else if self.optional_inner_ty(ty).is_some() {
            let t = self.console_optional_text(operand, absent)?;
            Ok(("{}", t))
        } else if self.is_displayable(ty) {
            Ok(("{}", operand.text.clone()))
        } else {
            let e = self.erase_value_text(operand.text.as_str(), ty)?;
            Ok(("{}", e))
        }
    }
}

} // verus!
