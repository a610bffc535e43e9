//! Call-argument rendering for function values: the erased argument vector
//! an adapter passes to an erased callable, the packed rest vector, the
//! redistribution of a spread across leading positionals, and calls through
//! a callable object's `__smelt_call` slot.

use vstd::prelude::*;
use crate::emitter::{EmitError, FunctionEmitter};
use crate::erase::wrap;
use crate::mir::Operand;
use crate::numtext::{decimal, usize_text};
use crate::text::{join, seq_join, views};
use crate::types::{FunctionType, Type};
use crate::value_at_type::suffixed;

verus! {

/// An element type a rest vector pushes unchanged into the erased vector.
pub open spec fn passes_unchanged(t: Option<Type>) -> bool {
    match t {
        Some(Type::Unknown) => true,
        Some(Type::Never) => true,
        Some(Type::Nullish) => true,
        Some(Type::TypeParam { .. }) => true,
        _ => false,
    }
}

impl FunctionEmitter {
    /// Parameter `k` of a callback of function type `ty` is taken by shared
    /// reference.
    pub open spec fn shared_ref_param(&self, ty: usize, k: nat) -> bool {
        self.fact(ty) matches Some(f) && f.shared_ref_params@.contains(k as usize)
    }

    /// The statement that adds the adapter argument `arg{k}` of a callback of
    /// function type `ty` to the erased argument vector.
    pub open spec fn call_arg_stmt(&self, ty: usize, f: FunctionType, k: nat) -> Option<Seq<char>> {
        let param = f.params@[k as int];
        let idx = decimal(k);
        let rest_item = if f.rest == Some(k as usize) {
            match self.ty(param) {
                Some(Type::List(item)) => Some(item),
                _ => None,
            }
        } else {
            None
        };
        match rest_item {
            Some(item) => {
                let item_text = if passes_unchanged(self.ty(item)) {
                    Some("value"@)
                } else {
                    self.erase_spec("value"@, item, false)
                };
                match item_text {
                    Some(t) => Some(
                        "smelt_call_args.extend(arg"@ + idx + ".clone().into_iter().map(|value| "@ + t
                            + "));"@,
                    ),
                    None => None,
                }
            },
            None => {
                let arg_text = if f.mutable_params@.contains(k as usize) || self.shared_ref_param(ty, k) {
                    "arg"@ + idx + ".clone()"@
                } else {
                    "arg"@ + idx
                };
                match self.erase_spec(arg_text, param, false) {
                    Some(t) => Some("smelt_call_args.push("@ + t + ");"@),
                    None => None,
                }
            },
        }
    }

    /// The statements for the first `n` parameters.
    pub open spec fn call_arg_stmts(&self, ty: usize, f: FunctionType, n: nat) -> Option<Seq<Seq<char>>>
        decreases n,
    {
        if n == 0 {
            Some(Seq::empty())
        } else {
            match (self.call_arg_stmts(ty, f, (n - 1) as nat), self.call_arg_stmt(ty, f, (n - 1) as nat)) {
                (Some(done), Some(t)) => Some(done.push(t)),
                _ => None,
            }
        }
    }

    proof fn lemma_call_arg_stmts_none(&self, ty: usize, f: FunctionType, a: nat, b: nat)
        requires
            a <= b,
            self.call_arg_stmts(ty, f, a) is None,
        ensures
            self.call_arg_stmts(ty, f, b) is None,
        decreases b - a,
    {
        if a < b {
            self.lemma_call_arg_stmts_none(ty, f, a, (b - 1) as nat);
        }
    }

    /// The erased argument vector that an adapter for function type `ty`
    /// builds from its parameters `arg0, arg1, ..`.
    pub open spec fn unknown_call_args_spec(&self, ty: usize) -> Option<Seq<char>> {
        match self.ty(ty) {
            Some(Type::Function(f)) => match self.call_arg_stmts(ty, f, f.params.len() as nat) {
                Some(stmts) => Some(
                    "{ let mut smelt_call_args = Vec::new(); "@ + seq_join(stmts, " "@)
                        + " smelt_call_args }"@,
                ),
                None => None,
            },
            _ => None,
        }
    }

    /// Renders the erased argument vector an adapter for function type `ty`
    /// passes to an erased callable: each parameter `arg{i}` erased in turn,
    /// cloned out of a reference parameter, and a rest list spread element
    /// by element.
    pub fn unknown_function_call_args_text(&self, ty: usize) -> (r: Result<String, EmitError>)
        requires
            self.wf(),
        ensures
            r matches Ok(t) ==> self.unknown_call_args_spec(ty) == Some(t@),
            r is Err <==> self.unknown_call_args_spec(ty) is None,
    {
        let function = match self.type_at(ty) {
            Some(Type::Function(f)) => f,
            _ => {
                return Err(EmitError::new("adapter argument vector needs a function type"));
            },
        };
        let shared: &Vec<usize> = match self.fact_at(ty) {
            Some(f) => &f.shared_ref_params,
            None => {
                return Err(EmitError::new("function type has no facts"));
            },
        };
        let mut stmts: Vec<String> = Vec::new();
        let mut i: usize = 0;
        while i < function.params.len()
            invariant
                self.wf(),
                i <= function.params.len(),
                self.ty(ty) == Some(Type::Function(*function)),
                self.fact(ty) matches Some(f) && f.shared_ref_params == *shared,
                stmts.len() == i,
                self.call_arg_stmts(ty, *function, i as nat) == Some(views(stmts@)),
            decreases function.params.len() - i,
        {
            let param = function.params[i];
            let idx = usize_text(i);
            let rest_item = if function.rest == Some(i) {
                match self.type_at(param) {
                    Some(Type::List(item)) => Some(*item),
                    _ => None,
                }
            } else {
                None
            };
            let stmt = match rest_item {
                Some(item) => {
                    let unchanged = match self.type_at(item) {
                        Some(Type::Unknown) | Some(Type::Never) | Some(Type::Nullish) | Some(
                            Type::TypeParam { .. },
                        ) => true,
                        _ => false,
                    };
                    let item_text = if unchanged {
                        Ok(String::from_str("value"))
                    } else {
                        self.erase_value_text("value", item)
                    };
                    match item_text {
                        Ok(t) => {
                            let mut s = String::from_str("smelt_call_args.extend(arg");
                            s.append(idx.as_str());
                            s.append(".clone().into_iter().map(|value| ");
                            s.append(t.as_str());
                            s.append("));");
                            Ok(s)
                        },
                        Err(e) => Err(e),
                    }
                },
                None => {
                    let by_reference = crate::capture_analysis::seq_has(&function.mutable_params, i)
                        || crate::capture_analysis::seq_has(shared, i);
                    let mut arg = String::from_str("arg");
                    arg.append(idx.as_str());
                    if by_reference {
                        arg.append(".clone()");
                    }
                    match self.erase_value_text(arg.as_str(), param) {
                        Ok(t) => Ok(wrap("smelt_call_args.push(", t.as_str(), ");")),
                        Err(e) => Err(e),
                    }
                },
            };
            match stmt {
                Ok(t) => {
                    let ghost before = stmts@;
                    stmts.push(t);
                    assert(views(stmts@) =~= views(before).push(stmts@[i as int]@));
                },
                Err(e) => {
                    proof {
                        self.lemma_call_arg_stmts_none(
                            ty,
                            *function,
                            (i + 1) as nat,
                            function.params.len() as nat,
                        );
                    }
                    return Err(e);
                },
            }
            i = i + 1;
        }
        let joined = join(&stmts, " ");
        Ok(wrap("{ let mut smelt_call_args = Vec::new(); ", joined.as_str(), " smelt_call_args }"))
    }
}


/// `callee.__smelt_call.clone()`: the callable a callable-object record holds.
pub open spec fn slot_text(callee: Seq<char>) -> Seq<char> {
    callee + ".__smelt_call.clone()"@
}

impl FunctionEmitter {
    /// Each operand erased, for the first `n` operands.
    pub open spec fn erase_all_spec(&self, ops: Seq<Operand>, n: nat) -> Option<Seq<Seq<char>>>
        decreases n,
    {
        if n == 0 {
            Some(Seq::empty())
        } else {
            match (self.erase_all_spec(ops, (n - 1) as nat), self.erase_op_spec(ops[n - 1])) {
                (Some(done), Some(t)) => Some(done.push(t)),
                _ => None,
            }
        }
    }

    proof fn lemma_erase_all_none(&self, ops: Seq<Operand>, a: nat, b: nat)
        requires
            a <= b,
            self.erase_all_spec(ops, a) is None,
        ensures
            self.erase_all_spec(ops, b) is None,
        decreases b - a,
    {
        if a < b {
            self.lemma_erase_all_none(ops, a, (b - 1) as nat);
        }
    }

    pub(crate) fn erase_all(&self, ops: &Vec<Operand>) -> (r: Result<Vec<String>, EmitError>)
        requires
            self.wf(),
        ensures
            r matches Ok(v) ==> self.erase_all_spec(ops@, ops.len() as nat) == Some(views(v@)),
            r is Err <==> self.erase_all_spec(ops@, ops.len() as nat) is None,
    {
        let mut out: Vec<String> = Vec::new();
        let mut i: usize = 0;
        while i < ops.len()
            invariant
                self.wf(),
                i <= ops.len(),
                out.len() == i,
                self.erase_all_spec(ops@, i as nat) == Some(views(out@)),
            decreases ops.len() - i,
        {
            match self.erase(&ops[i]) {
                Ok(t) => {
                    let ghost before = out@;
                    out.push(t);
                    assert(views(out@) =~= views(before).push(out@[i as int]@));
                },
                Err(e) => {
                    proof {
                        self.lemma_erase_all_none(ops@, (i + 1) as nat, ops.len() as nat);
                    }
                    return Err(e);
                },
            }
            i = i + 1;
        }
        Ok(out)
    }

    /// Each operand coerced to the matching parameter type, for the first
    /// `n` pairs.
    pub open spec fn vat_zip_spec(&self, ops: Seq<Operand>, params: Seq<usize>, n: nat) -> Option<
        Seq<Seq<char>>,
    >
        decreases n,
    {
        if n == 0 {
            Some(Seq::empty())
        } else {
            match (
                self.vat_zip_spec(ops, params, (n - 1) as nat),
                self.vat_op_spec(ops[n - 1], params[n - 1]),
            ) {
                (Some(done), Some(t)) => Some(done.push(t)),
                _ => None,
            }
        }
    }

    proof fn lemma_vat_zip_none(&self, ops: Seq<Operand>, params: Seq<usize>, a: nat, b: nat)
        requires
            a <= b,
            self.vat_zip_spec(ops, params, a) is None,
        ensures
            self.vat_zip_spec(ops, params, b) is None,
        decreases b - a,
    {
        if a < b {
            self.lemma_vat_zip_none(ops, params, a, (b - 1) as nat);
        }
    }

    pub(crate) fn vat_zip(&self, ops: &Vec<Operand>, params: &Vec<usize>) -> (r: Result<Vec<String>, EmitError>)
        requires
            self.wf(),
        ensures
            r matches Ok(v) ==> self.vat_zip_spec(
                ops@,
                params@,
                if ops.len() < params.len() {
                    ops.len() as nat
                } else {
                    params.len() as nat
                },
            ) == Some(views(v@)),
            r is Err <==> self.vat_zip_spec(
                ops@,
                params@,
                if ops.len() < params.len() {
                    ops.len() as nat
                } else {
                    params.len() as nat
                },
            ) is None,
    {
        let n = if ops.len() < params.len() {
            ops.len()
        } else {
            params.len()
        };
        let mut out: Vec<String> = Vec::new();
        let mut i: usize = 0;
        while i < n
            invariant
                self.wf(),
                n == (if ops.len() < params.len() {
                    ops.len()
                } else {
                    params.len()
                }),
                i <= n,
                out.len() == i,
                self.vat_zip_spec(ops@, params@, i as nat) == Some(views(out@)),
            decreases n - i,
        {
            match self.value_at_type(&ops[i], params[i]) {
                Ok(t) => {
                    let ghost before = out@;
                    out.push(t);
                    assert(views(out@) =~= views(before).push(out@[i as int]@));
                },
                Err(e) => {
                    proof {
                        self.lemma_vat_zip_none(ops@, params@, (i + 1) as nat, n as nat);
                    }
                    return Err(e);
                },
            }
            i = i + 1;
        }
        Ok(out)
    }

    /// The packed rest vector for a callee whose only parameter is an erased
    /// rest list, or `None` where the call passes its arguments as they are.
    pub open spec fn rest_vector_spec(&self, args: Seq<Operand>, f: Option<FunctionType>) -> Option<
        Option<Seq<Seq<char>>>,
    > {
        match f {
            None => Some(None),
            Some(ft) => if ft.rest != Some(0usize) || ft.params.len() != 1 {
                Some(None)
            } else {
                match self.ty(ft.params@[0]) {
                    Some(Type::List(item)) => if self.ty(item) != Some(Type::Unknown) || args.len() == 0
                        || (args.len() == 1 && args[0].ty == ft.params@[0]) {
                        Some(None)
                    } else {
                        match self.vat_all_spec(args, item, args.len()) {
                            Some(items) => Some(
                                Some(seq!["SmeltList::from(vec!["@ + seq_join(items, ", "@) + "])"@]),
                            ),
                            None => None,
                        }
                    },
                    _ => Some(None),
                }
            },
        }
    }

    /// Packs positional arguments into the single erased rest list of a
    /// callee declared `(...args: unknown[])`; `None` where the call needs no
    /// packing (no such callee, no arguments, or one argument that already
    /// is the list).
    pub fn rest_vector_call_args_text(&self, args: &Vec<Operand>, function: Option<&FunctionType>) -> (r:
        Result<Option<Vec<String>>, EmitError>)
        requires
            self.wf(),
        ensures
            r matches Ok(Some(v)) ==> self.rest_vector_spec(
                args@,
                match function {
                    Some(f) => Some(*f),
                    None => None,
                },
            ) == Some(Some(views(v@))),
            r matches Ok(None) ==> self.rest_vector_spec(
                args@,
                match function {
                    Some(f) => Some(*f),
                    None => None,
                },
            ) == Some(None::<Seq<Seq<char>>>),
            r is Err <==> self.rest_vector_spec(
                args@,
                match function {
                    Some(f) => Some(*f),
                    None => None,
                },
            ) is None,
    {
        let ft = match function {
            Some(f) => f,
            None => {
                return Ok(None);
            },
        };
        if ft.rest != Some(0usize) || ft.params.len() != 1 {
            return Ok(None);
        }
        let param = ft.params[0];
        let item = match self.type_at(param) {
            Some(Type::List(item)) => *item,
            _ => {
                return Ok(None);
            },
        };
        if !self.is_unknown_type(item) || args.len() == 0 || (args.len() == 1 && args[0].ty == param) {
            return Ok(None);
        }
        let items = self.vat_all(args, item)?;
        let joined = join(&items, ", ");
        let packed = wrap("SmeltList::from(vec![", joined.as_str(), "])");
        let v = vec![packed];
        assert(views(v@) =~= seq!["SmeltList::from(vec!["@ + joined@ + "])"@]);
        Ok(Some(v))
    }

    /// The positional arguments `0..n` of a spread call, each read from the
    /// packed list, coerced, and passed in its parameter's form.
    pub open spec fn spread_positionals(&self, ty: usize, f: FunctionType, unknown: usize, n: nat) -> Option<
        Seq<Seq<char>>,
    >
        decreases n,
    {
        if n == 0 {
            Some(Seq::empty())
        } else {
            let k = (n - 1) as nat;
            match self.spread_positionals(ty, f, unknown, k) {
                None => None,
                Some(done) => match self.vat_spec(
                    "smelt_spread_args.get("@ + decimal(k)
                        + ").cloned().unwrap_or(SmeltUnknown::Undefined)"@,
                    unknown,
                    f.params@[k as int],
                    Seq::empty(),
                ) {
                    None => None,
                    Some(coerced) => match self.callback_arg_form(ty, k as int) {
                        Some(form) => Some(done.push(form.render_spec(coerced))),
                        None => None,
                    },
                },
            }
        }
    }

    proof fn lemma_spread_positionals_none(&self, ty: usize, f: FunctionType, unknown: usize, a: nat, b: nat)
        requires
            a <= b,
            self.spread_positionals(ty, f, unknown, a) is None,
        ensures
            self.spread_positionals(ty, f, unknown, b) is None,
        decreases b - a,
    {
        if a < b {
            self.lemma_spread_positionals_none(ty, f, unknown, a, (b - 1) as nat);
        }
    }

    /// The call arguments of a spread across leading positional parameters
    /// and a rest list, read from `smelt_spread_args`; `None` unless the
    /// callee of type `ty` has positionals before its final rest parameter.
    pub open spec fn spread_spec(&self, ty: usize, f: FunctionType) -> Option<Option<Seq<char>>> {
        match f.rest {
            None => Some(None),
            Some(r) => if r == 0 || f.params.len() != r + 1 {
                Some(None)
            } else {
                match self.ty(f.params@[r as int]) {
                    Some(Type::List(rest_item)) => match self.find_interned(Type::Unknown) {
                        None => None,
                        Some(u) => match self.spread_positionals(ty, f, u, r as nat) {
                            None => None,
                            Some(positionals) => {
                                let skip = "SmeltList::from(smelt_spread_args.iter().skip("@ + decimal(
                                    r as nat,
                                ) + ").cloned()"@;
                                let rest_text = if self.ty(rest_item) == Some(Type::Unknown) {
                                    Some(skip + ".collect::<Vec<_>>())"@)
                                } else {
                                    match self.vat_spec("value"@, u, rest_item, Seq::empty()) {
                                        Some(item_text) => Some(
                                            skip + ".map(|value| "@ + item_text
                                                + ").collect::<Vec<_>>())"@,
                                        ),
                                        None => None,
                                    }
                                };
                                match rest_text {
                                    Some(t) => Some(Some(seq_join(positionals.push(t), ", "@))),
                                    None => None,
                                }
                            },
                        },
                    },
                    _ => Some(None),
                }
            },
        }
    }

    /// Renders the arguments of a spread call to a callee of function type
    /// `ty` with leading positional parameters before its rest: each
    /// positional reads its element of `smelt_spread_args` (absent ones are
    /// `undefined`), and the rest collects the remainder.
    pub fn spread_leading_positional_call_args_text(&self, ty: usize, function: &FunctionType) -> (r:
        Result<Option<String>, EmitError>)
        requires
            self.wf(),
        ensures
            r matches Ok(Some(t)) ==> self.spread_spec(ty, *function) == Some(Some(t@)),
            r matches Ok(None) ==> self.spread_spec(ty, *function) == Some(None::<Seq<char>>),
            r is Err <==> self.spread_spec(ty, *function) is None,
    {
        let r = match function.rest {
            Some(r) => r,
            None => {
                return Ok(None);
            },
        };
        if r == 0 || r == usize::MAX || function.params.len() != r + 1 {
            return Ok(None);
        }
        let rest_param = function.params[r];
        let rest_item = match self.type_at(rest_param) {
            Some(Type::List(item)) => *item,
            _ => {
                return Ok(None);
            },
        };
        let u = self.type_id(&Type::Unknown)?;
        let mut rendered: Vec<String> = Vec::new();
        let mut k: usize = 0;
        while k < r
            invariant
                self.wf(),
                k <= r,
                r != 0,
                function.rest == Some(r),
                r + 1 == function.params.len(),
                self.ty(function.params@[r as int]) == Some(Type::List(rest_item)),
                self.find_interned(Type::Unknown) == Some(u),
                rendered.len() == k,
                self.spread_positionals(ty, *function, u, k as nat) == Some(views(rendered@)),
            decreases r - k,
        {
            let idx = usize_text(k);
            let mut element = String::from_str("smelt_spread_args.get(");
            element.append(idx.as_str());
            element.append(").cloned().unwrap_or(SmeltUnknown::Undefined)");
            let coerced = match self.value_at_type_text(element.as_str(), u, function.params[k]) {
                Ok(t) => t,
                Err(e) => {
                    proof {
                        self.lemma_spread_positionals_none(ty, *function, u, (k + 1) as nat, r as nat);
                    }
                    return Err(e);
                },
            };
            let form = match self.fact_at(ty) {
                Some(f) => if k < f.callback_arg_forms.len() {
                    &f.callback_arg_forms[k]
                } else {
                    proof {
                        self.lemma_spread_positionals_none(ty, *function, u, (k + 1) as nat, r as nat);
                    }
                    return Err(EmitError::new("callback parameter has no argument form"));
                },
                None => {
                    proof {
                        self.lemma_spread_positionals_none(ty, *function, u, (k + 1) as nat, r as nat);
                    }
                    return Err(EmitError::new("callback parameter has no argument form"));
                },
            };
            let ghost before = rendered@;
            rendered.push(form.render(coerced.as_str()));
            assert(views(rendered@) =~= views(before).push(rendered@[k as int]@));
            k = k + 1;
        }
        let idx = usize_text(r);
        let mut skip = String::from_str("SmeltList::from(smelt_spread_args.iter().skip(");
        skip.append(idx.as_str());
        skip.append(").cloned()");
        let rest_text = if self.is_unknown_type(rest_item) {
            suffixed(skip.as_str(), ".collect::<Vec<_>>())")
        } else {
            let item_text = self.value_at_type_text("value", u, rest_item)?;
            let mut t = suffixed(skip.as_str(), ".map(|value| ");
            t.append(item_text.as_str());
            t.append(").collect::<Vec<_>>())");
            t
        };
        let ghost before = rendered@;
        rendered.push(rest_text);
        assert(views(rendered@) =~= views(before).push(rendered@[r as int]@));
        Ok(Some(join(&rendered, ", ")))
    }

    /// The call of a callable-object record `callee` through its
    /// `__smelt_call` slot, coerced to `dest_ty`; `None` for any callee that
    /// is not a callable-object record.
    pub open spec fn slot_call_spec(&self, callee: Operand, args: Seq<Operand>, dest_ty: usize) -> Option<
        Option<Seq<char>>,
    > {
        match self.call_field(callee.ty) {
            None => Some(None),
            Some(call_ty) => match self.ty(call_ty) {
                Some(Type::Function(f)) => {
                    let slot = slot_text(callee.text@);
                    let call = if self.erased_rest_function(call_ty) && !f.may_throw {
                        match (self.erase_all_spec(args, args.len()), self.find_interned(Type::Unknown)) {
                            (Some(items), Some(u)) => Some(
                                (slot + ".call(vec!["@ + seq_join(items, ", "@) + "])"@, u),
                            ),
                            _ => None,
                        }
                    } else {
                        let n: nat = if args.len() < f.params.len() {
                            args.len()
                        } else {
                            f.params.len() as nat
                        };
                        match self.vat_zip_spec(args, f.params@, n) {
                            Some(items) => {
                                let direct = "("@ + slot + ")("@ + seq_join(items, ", "@) + ")"@;
                                Some(
                                    (
                                        if f.may_throw {
                                            if self.propagates_errors {
                                                direct + "?"@
                                            } else {
                                                direct
                                                    + ".unwrap_or_else(|error| panic!(\"{}\", error))"@
                                            }
                                        } else {
                                            direct
                                        },
                                        f.return_ty,
                                    ),
                                )
                            },
                            None => None,
                        }
                    };
                    match call {
                        None => None,
                        Some((text, source)) => if self.ty(dest_ty) == Some(Type::Nullish) {
                            Some(Some("{ "@ + text + "; () }"@))
                        } else {
                            match self.vat_spec(text, source, dest_ty, Seq::empty()) {
                                Some(t) => Some(Some(t)),
                                None => None,
                            }
                        },
                    }
                },
                _ => Some(None),
            },
        }
    }

    /// Renders a call whose callee is a callable-object record through the
    /// `__smelt_call` slot holding its callable, with the slot's own calling
    /// convention: the erased argument vector for the erased rest shape, a
    /// direct call coercing each argument otherwise.
    pub fn callable_object_slot_call_text(&self, callee: &Operand, args: &Vec<Operand>, dest_ty: usize) -> (r:
        Result<Option<String>, EmitError>)
        requires
            self.wf(),
        ensures
            r matches Ok(Some(t)) ==> self.slot_call_spec(*callee, args@, dest_ty) == Some(Some(t@)),
            r matches Ok(None) ==> self.slot_call_spec(*callee, args@, dest_ty) == Some(None::<Seq<char>>),
            r is Err <==> self.slot_call_spec(*callee, args@, dest_ty) is None,
    {
        let call_ty = match self.call_field_of(callee.ty) {
            Some(t) => t,
            None => {
                return Ok(None);
            },
        };
        let function = match self.type_at(call_ty) {
            Some(Type::Function(f)) => f,
            _ => {
                return Ok(None);
            },
        };
        let slot = suffixed(callee.text.as_str(), ".__smelt_call.clone()");
        let erased_rest = match self.fact_at(call_ty) {
            Some(f) => f.erased_unknown_rest_function,
            None => false,
        };
        let (call, source) = if erased_rest && !function.may_throw {
            let items = self.erase_all(args)?;
            let u = self.type_id(&Type::Unknown)?;
            let joined = join(&items, ", ");
            let mut t = suffixed(slot.as_str(), ".call(vec![");
            t.append(joined.as_str());
            t.append("])");
            (t, u)
        } else {
            let items = self.vat_zip(args, &function.params)?;
            let joined = join(&items, ", ");
            let mut direct = wrap("(", slot.as_str(), ")(");
            direct.append(joined.as_str());
            direct.append(")");
            let text = if function.may_throw {
                if self.propagates_errors {
                    suffixed(direct.as_str(), "?")
                } else {
                    suffixed(direct.as_str(), ".unwrap_or_else(|error| panic!(\"{}\", error))")
                }
            } else {
                direct
            };
            (text, function.return_ty)
        };
        if self.is_nullish_type(dest_ty) {
            return Ok(Some(wrap("{ ", call.as_str(), "; () }")));
        }
        let t = self.value_at_type_text(call.as_str(), source, dest_ty)?;
        Ok(Some(t))
    }
}

} // verus!
