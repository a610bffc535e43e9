//! Rendering an rvalue at its destination type: the dispatch over the rvalue
//! forms whose text this library builds, and the coercion every rendered
//! rvalue passes through on its way into a concrete-union or list slot.

use vstd::prelude::*;
use crate::emitter::{EmitError, FunctionEmitter};
use crate::erase::wrap;
use crate::call_shapes::{dynamic_callable_dispatch_text, dynamic_dispatch_spec};
use crate::closure_value::any_borrowed_callback;
use crate::generator_yield::opt_view;
use crate::mir::{Operand, OperandKind, Place, ResumeKind, Rvalue};
use crate::text::{has_prefix, join, seq_join, starts_with, str_eq, views};
use crate::types::{children_below, Type};

verus! {

/// An array-literal element read by value: a moved local is read as a copy.
pub open spec fn list_lit(op: Operand) -> Operand {
    Operand {
        kind: match op.kind {
            OperandKind::Move(Place::Local(l)) => OperandKind::Copy(Place::Local(l)),
            k => k,
        },
        ..op
    }
}

/// Every operand read by value.
pub open spec fn lits(ops: Seq<Operand>) -> Seq<Operand> {
    ops.map_values(|o: Operand| list_lit(o))
}

/// The Rust text of each operand.
pub open spec fn op_texts(ops: Seq<Operand>) -> Seq<Seq<char>> {
    ops.map_values(|o: Operand| o.text@)
}

/// A tuple expression of `n` items whose texts are joined in `t`.
pub open spec fn tuple_text(n: nat, t: Seq<char>) -> Seq<char> {
    if n == 1 {
        "("@ + t + ",)"@
    } else {
        "("@ + t + ")"@
    }
}

/// `n` copies of one type.
pub open spec fn repeated(n: nat, ty: usize) -> Seq<usize> {
    Seq::new(n, |k: int| ty)
}

impl FunctionEmitter {
    /// An optional operand read where the narrowing already proved it
    /// present, at its own inner type.
    pub open spec fn narrowed_use(&self, op: Operand, dest: usize) -> bool {
        &&& self.ty(op.ty) matches Some(Type::Optional(inner))
        &&& inner == dest
        &&& !(self.ty(dest) matches Some(Type::Function(_)))
    }

    /// A destination whose values are stored erased.
    pub open spec fn erased_dest(&self, dest: usize) -> bool {
        ||| self.ty(dest) matches Some(Type::Unknown)
        ||| self.ty(dest) matches Some(Type::TypeParam { .. })
        ||| self.ty(dest) matches Some(Type::Union(_))
        ||| self.erased_class(dest)
    }

    /// The inner type of an optional destination that an array literal fills
    /// by rendering at the inner type and wrapping in `Some`.
    pub open spec fn list_option_inner(&self, dest: usize) -> Option<usize> {
        match self.ty(dest) {
            Some(Type::Optional(inner)) => if self.ty(inner) matches Some(Type::List(_))
                || self.erased_dest(inner) {
                Some(inner)
            } else {
                None
            },
            _ => None,
        }
    }

    /// Each operand coerced to `params[k]`, for operands from `offset` on
    /// and the first `n` parameters.
    pub open spec fn vat_from_spec(
        &self,
        ops: Seq<Operand>,
        offset: int,
        params: Seq<usize>,
        n: nat,
    ) -> Option<Seq<Seq<char>>>
        decreases n,
    {
        if n == 0 {
            Some(Seq::empty())
        } else {
            match (
                self.vat_from_spec(ops, offset, params, (n - 1) as nat),
                self.vat_op_spec(ops[offset + n - 1], params[n - 1]),
            ) {
                (Some(done), Some(t)) => Some(done.push(t)),
                _ => None,
            }
        }
    }

    /// An array literal at a destination that is not optional.
    pub open spec fn list_literal_spec(&self, items: Seq<Operand>, dest: usize) -> Option<Seq<char>> {
        let tuple_targets = match self.ty(dest) {
            Some(Type::Tuple(targets)) => if targets.len() == items.len() {
                Some(targets@)
            } else {
                None
            },
            _ => None,
        };
        if let Some(targets) = tuple_targets {
            match self.vat_zip_spec(lits(items), targets, items.len()) {
                Some(ts) => Some(tuple_text(items.len(), seq_join(ts, ", "@))),
                None => None,
            }
        } else if self.erased_dest(dest) {
            match self.erase_all_spec(lits(items), items.len()) {
                Some(ts) => Some("SmeltUnknown::Array(vec!["@ + seq_join(ts, ", "@) + "].into())"@),
                None => None,
            }
        } else if let Some(Type::List(item)) = self.ty(dest) {
            match (self.vat_zip_spec(lits(items), repeated(items.len(), item), items.len()), self.rust_text(item)) {
                (Some(ts), Some(elem)) => Some(
                    "SmeltList::from({ let smelt_list_items: Vec<"@ + elem + "> = vec!["@ + seq_join(
                        ts,
                        ", "@,
                    ) + "]; smelt_list_items })"@,
                ),
                _ => None,
            }
        } else {
            Some("vec!["@ + seq_join(op_texts(items), ", "@) + "]"@)
        }
    }

    /// A set literal.
    pub open spec fn set_literal_spec(&self, items: Seq<Operand>, dest: usize) -> Option<Seq<char>> {
        let js_set = self.ty(dest) matches Some(Type::SetOf(item)) && !self.hash_set_key_safe(item);
        if items.len() == 0 {
            Some(
                if js_set {
                    "SmeltJsSet::new()"@
                } else {
                    "::std::collections::HashSet::new()"@
                },
            )
        } else {
            let texts = match self.ty(dest) {
                Some(Type::SetOf(item)) => self.vat_zip_spec(items, repeated(items.len(), item), items.len()),
                _ => Some(op_texts(items)),
            };
            match texts {
                Some(ts) => Some(
                    if js_set {
                        "SmeltJsSet::from(["@ + seq_join(ts, ", "@) + "])"@
                    } else {
                        "::std::collections::HashSet::from(["@ + seq_join(ts, ", "@) + "])"@
                    },
                ),
                None => None,
            }
        }
    }

    /// A tuple literal: at a tuple destination its trailing items fill the
    /// destination's slots.
    pub open spec fn tuple_literal_spec(&self, items: Seq<Operand>, dest: usize) -> Option<Seq<char>> {
        match self.ty(dest) {
            Some(Type::Tuple(targets)) => if targets.len() > items.len() {
                None
            } else {
                match self.vat_from_spec(
                    items,
                    items.len() - targets.len(),
                    targets@,
                    targets.len() as nat,
                ) {
                    Some(ts) => Some(tuple_text(targets.len() as nat, seq_join(ts, ", "@))),
                    None => None,
                }
            },
            _ => if items.len() == 0 {
                Some("()"@)
            } else {
                Some(tuple_text(items.len(), seq_join(op_texts(items), ", "@)))
            },
        }
    }

    /// The command a generator is resumed with.
    pub open spec fn resume_command_spec(&self, value: Option<Operand>, kind: ResumeKind) -> Option<
        Seq<char>,
    > {
        let raw = match value {
            Some(v) => v.text@,
            None => "Default::default()"@,
        };
        match kind {
            ResumeKind::Next => Some("SmeltGeneratorCommand::Next("@ + raw + ")"@),
            ResumeKind::Return => Some("SmeltGeneratorCommand::Return("@ + raw + ")"@),
            ResumeKind::Throw => match value {
                Some(v) => match self.find_interned(Type::Unknown) {
                    Some(u) => match self.vat_op_spec(v, u) {
                        Some(t) => Some("SmeltGeneratorCommand::Throw("@ + t + ")"@),
                        None => None,
                    },
                    None => None,
                },
                None => Some("SmeltGeneratorCommand::Throw(SmeltUnknown::Undefined)"@),
            },
        }
    }

    /// The value a generator resume result carries, at the destination type.
    pub open spec fn generator_value_spec(&self, result: Operand, dest: usize) -> Option<Seq<char>> {
        match self.ty(result.ty) {
            Some(Type::GeneratorResult { yield_ty, return_ty }) => match (
                self.vat_spec("value"@, yield_ty, dest, Seq::empty()),
                self.vat_spec("value"@, return_ty, dest, Seq::empty()),
            ) {
                (Some(y), Some(r)) => Some(
                    "match "@ + result.text@ + " { SmeltGeneratorResult::Yielded(value) => "@ + y
                        + ", SmeltGeneratorResult::Complete(value) => "@ + r + " }"@,
                ),
                _ => None,
            },
            _ => None,
        }
    }

    /// The rvalue forms this library renders; `InstanceOf` further needs its
    /// class walk to stop.
    pub open spec fn rvalue_renderable(&self, value: Rvalue) -> bool {
        value matches Rvalue::InstanceOf { value: v, class } ==> self.instance_of_walk_stops(v, class)
    }

    /// The Rust text of an rvalue at a destination type, before the
    /// destination's own coercion.
    pub open spec fn rvalue_inner_spec(&self, value: Rvalue, dest: usize) -> Option<Seq<char>>
        decreases dest, 0nat,
    {
        match value {
            Rvalue::Use(op) => if self.narrowed_use(op, dest) {
                Some(op.text@ + ".clone().expect(\"optional value was absent after narrowing\")"@)
            } else {
                self.vat_op_spec(op, dest)
            },
            Rvalue::List(items) => match self.list_option_inner(dest) {
                Some(inner) => if (inner as int) < (dest as int) {
                    match self.rvalue_spec(value, inner) {
                        Some(t) => Some("Some("@ + t + ")"@),
                        None => None,
                    }
                } else {
                    None
                },
                None => self.list_literal_spec(items@, dest),
            },
            Rvalue::SetLiteral(items) => self.set_literal_spec(items@, dest),
            Rvalue::Tuple(items) => self.tuple_literal_spec(items@, dest),
            Rvalue::GeneratorNext { generator, sent, resume } => match self.resume_command_spec(
                sent,
                resume,
            ) {
                Some(c) => Some(generator.text@ + ".resume("@ + c + ")"@),
                None => None,
            },
            Rvalue::GeneratorDone { result } => Some(
                "matches!("@ + result.text@ + ", SmeltGeneratorResult::Complete(_))"@,
            ),
            Rvalue::GeneratorValue { result } => self.generator_value_spec(result, dest),
            Rvalue::Conditional { cond, then_operand, else_operand } => match (
                self.vat_op_spec(then_operand, dest),
                self.vat_op_spec(else_operand, dest),
            ) {
                (Some(t), Some(e)) => Some(
                    "if "@ + cond.text@ + " { "@ + t + " } else { "@ + e + " }"@,
                ),
                _ => None,
            },
            Rvalue::FunctionTableLookup { key, cases } => self.table_lookup_spec(key, cases@, dest),
            Rvalue::InstanceOf { value: v, class } => self.instance_of_spec(v, class),
            Rvalue::UnknownIs { value: v, tag } => Some(self.tag_check_spec(v, tag)),
            Rvalue::TypeofValue { value: v } => self.typeof_spec(v),
            Rvalue::PrototypeSentinel { value: v } => self.unknown_call_spec(
                v,
                "smelt_prototype_sentinel(&("@,
                "))"@,
            ),
            Rvalue::BoxPrimitive { value: v } => self.unknown_call_spec(v, "smelt_box_value("@, ")"@),
            Rvalue::ObjectFromPrototype { prototype } => self.unknown_call_spec(
                prototype,
                "smelt_object_from_prototype("@,
                ")"@,
            ),
            Rvalue::ObjectToStringTag { operand } => self.unknown_call_spec(
                operand,
                "smelt_object_to_string_tag(&("@,
                "))"@,
            ),
            Rvalue::StructuredClone { operand } => self.unknown_call_spec(
                operand,
                "smelt_structured_clone("@,
                ")"@,
            ),
            Rvalue::Binary { op, lhs, rhs } => self.binary_spec(op, lhs, rhs, dest),
            Rvalue::Unary { op, operand } => self.unary_spec(op, operand, dest),
            Rvalue::Closure { id, text, rewritten_text } => if !(self.ty(dest) matches Some(Type::Function(_)))
                && !self.erased_relational_spec(dest) {
                self.default_text(dest)
            } else if id < self.closures.len() && any_borrowed_callback(self.closures@[id as int].captures@)
                && (self.closures@[id as int].escapes || !(self.ty(dest) matches Some(Type::Function(_)))) {
                self.default_text(dest)
            } else {
                self.closure_for_type_spec(id, dest, text@, rewritten_text@)
            },
            Rvalue::GeneratorYield { value: v, cleanup_text, handler } => self.generator_yield_spec(
                v,
                opt_view(cleanup_text),
                handler,
            ),
            Rvalue::Await(op) => if self.ty(op.ty) == Some(Type::Nullish) {
                self.default_text(dest)
            } else {
                Some(
                    (if op.kind is Const {
                        op.text@
                    } else {
                        op.place_text@
                    }) + ".await?"@,
                )
            },
            Rvalue::ClosureCall { callee, args } => if self.erased_relational_spec(callee.ty) {
                match self.erase_all_spec(args@, args.len() as nat) {
                    Some(items) => {
                        let call = dynamic_dispatch_spec(callee.text@, "vec!["@ + seq_join(items, ", "@) + "]"@);
                        if self.ty(dest) matches Some(Type::Function(_)) {
                            Some(call)
                        } else {
                            match self.find_interned(Type::Unknown) {
                                Some(u) => self.vat_spec(call, u, dest, Seq::empty()),
                                None => None,
                            }
                        }
                    },
                    None => None,
                }
            } else {
                None
            },
            _ => None,
        }
    }

    /// The Rust text of an rvalue stored into a slot of type `dest`.
    pub open spec fn rvalue_spec(&self, value: Rvalue, dest: usize) -> Option<Seq<char>>
        decreases dest, 1nat,
    {
        match self.rvalue_inner_spec(value, dest) {
            None => None,
            Some(t) => if has_prefix(t, "SmeltUnknown::"@) && (self.ty(dest) matches Some(
                Type::Union(_),
            )) && self.concrete_union(dest) {
                match self.rust_text(dest) {
                    Some(u) => Some(u + "::from_smelt_unknown("@ + t + ")"@),
                    None => None,
                }
            } else if self.ty(dest) matches Some(Type::List(_)) {
                if t == "Default::default()"@ {
                    Some("SmeltList::default()"@)
                } else {
                    Some("Into::<SmeltList<_>>::into("@ + t + ")"@)
                }
            } else {
                Some(t)
            },
        }
    }
}

/// `n` copies of `ty`.
fn repeated_ty(n: usize, ty: usize) -> (r: Vec<usize>)
    ensures
        r@ == repeated(n as nat, ty),
{
    let mut out: Vec<usize> = Vec::new();
    let mut i: usize = 0;
    while i < n
        invariant
            i <= n,
            out@ =~= repeated(i as nat, ty),
        decreases n - i,
    {
        out.push(ty);
        i = i + 1;
    }
    out
}

/// The Rust text of each operand.
fn texts_of(ops: &Vec<Operand>) -> (r: Vec<String>)
    ensures
        views(r@) == op_texts(ops@),
{
    let mut out: Vec<String> = Vec::new();
    let mut i: usize = 0;
    while i < ops.len()
        invariant
            i <= ops.len(),
            views(out@) =~= op_texts(ops@).take(i as int),
        decreases ops.len() - i,
    {
        let t = ops[i].text.clone();
        let ghost before = out@;
        out.push(t);
        assert(views(out@) =~= views(before).push(ops@[i as int].text@));
        assert(op_texts(ops@).take(i + 1) =~= op_texts(ops@).take(i as int).push(ops@[i as int].text@));
        i = i + 1;
    }
    assert(op_texts(ops@).take(ops.len() as int) =~= op_texts(ops@));
    out
}

impl FunctionEmitter {
    proof fn lemma_vat_from_none(&self, ops: Seq<Operand>, offset: int, params: Seq<usize>, a: nat, b: nat)
        requires
            a <= b,
            self.vat_from_spec(ops, offset, params, a) is None,
        ensures
            self.vat_from_spec(ops, offset, params, b) is None,
        decreases b - a,
    {
        if a < b {
            self.lemma_vat_from_none(ops, offset, params, a, (b - 1) as nat);
        }
    }

    /// Every operand read by value.
    fn lit_all(&self, ops: &Vec<Operand>) -> (r: Vec<Operand>)
        ensures
            r@ == lits(ops@),
    {
        let mut out: Vec<Operand> = Vec::new();
        let mut i: usize = 0;
        while i < ops.len()
            invariant
                i <= ops.len(),
                out@ =~= lits(ops@).take(i as int),
            decreases ops.len() - i,
        {
            out.push(self.list_literal_operand(&ops[i]));
            assert(out@ =~= lits(ops@).take(i + 1));
            i = i + 1;
        }
        assert(lits(ops@).take(ops.len() as int) =~= lits(ops@));
        out
    }

    /// Coerces `ops[offset + k]` to `params[k]` for every parameter.
    fn vat_from(&self, ops: &Vec<Operand>, offset: usize, params: &Vec<usize>) -> (r: Result<
        Vec<String>,
        EmitError,
    >)
        requires
            self.wf(),
            offset + params.len() <= ops.len(),
        ensures
            r matches Ok(v) ==> self.vat_from_spec(ops@, offset as int, params@, params.len() as nat)
                == Some(views(v@)),
            r is Err <==> self.vat_from_spec(ops@, offset as int, params@, params.len() as nat) is None,
    {
        let mut out: Vec<String> = Vec::new();
        let mut i: usize = 0;
        while i < params.len()
            invariant
                self.wf(),
                offset + params.len() <= ops.len(),
                i <= params.len(),
                out.len() == i,
                self.vat_from_spec(ops@, offset as int, params@, i as nat) == Some(views(out@)),
            decreases params.len() - i,
        {
            match self.value_at_type(&ops[offset + i], params[i]) {
                Ok(t) => {
                    let ghost before = out@;
                    out.push(t);
                    assert(views(out@) =~= views(before).push(out@[i as int]@));
                },
                Err(e) => {
                    proof {
                        self.lemma_vat_from_none(ops@, offset as int, params@, (i + 1) as nat, params.len() as nat);
                    }
                    return Err(e);
                },
            }
            i = i + 1;
        }
        Ok(out)
    }

    fn is_erased_dest(&self, dest: usize) -> (r: bool)
        ensures
            r == self.erased_dest(dest),
    {
        match self.type_at(dest) {
            Some(Type::Unknown) | Some(Type::TypeParam { .. }) | Some(Type::Union(_)) => true,
            _ => self.is_erased_class_type(dest),
        }
    }

    fn list_option_inner_ty(&self, dest: usize) -> (r: Option<usize>)
        ensures
            r == self.list_option_inner(dest),
    {
        match self.type_at(dest) {
            Some(Type::Optional(inner)) => {
                let is_list = match self.type_at(*inner) {
                    Some(Type::List(_)) => true,
                    _ => false,
                };
                if is_list || self.is_erased_dest(*inner) {
                    Some(*inner)
                } else {
                    None
                }
            },
            _ => None,
        }
    }

    /// Renders an array literal at a destination that is not optional: the
    /// slots of a tuple of the same arity, an erased array, a typed list, or
    /// a plain vector.
    fn list_literal_text(&self, items: &Vec<Operand>, dest: usize) -> (r: Result<String, EmitError>)
        requires
            self.wf(),
        ensures
            r matches Ok(t) ==> self.list_literal_spec(items@, dest) == Some(t@),
            r is Err <==> self.list_literal_spec(items@, dest) is None,
    {
        if let Some(Type::Tuple(targets)) = self.type_at(dest) {
            if targets.len() == items.len() {
                let lit = self.lit_all(items);
                let ts = self.vat_zip(&lit, targets)?;
                let joined = join(&ts, ", ");
                return if targets.len() == 1 {
                    Ok(wrap("(", joined.as_str(), ",)"))
                } else {
                    Ok(wrap("(", joined.as_str(), ")"))
                };
            }
        }
        if self.is_erased_dest(dest) {
            let lit = self.lit_all(items);
            let ts = self.erase_all(&lit)?;
            let joined = join(&ts, ", ");
            return Ok(self.erase_array_text(joined.as_str()));
        }
        if let Some(Type::List(item)) = self.type_at(dest) {
            let lit = self.lit_all(items);
            let tys = repeated_ty(items.len(), *item);
            let ts = self.vat_zip(&lit, &tys)?;
            let elem = self.rust_type_text(*item)?;
            let joined = join(&ts, ", ");
            let mut s = wrap("SmeltList::from({ let smelt_list_items: Vec<", elem.as_str(), "> = vec![");
            s.append(joined.as_str());
            s.append("]; smelt_list_items })");
            return Ok(s);
        }
        let ts = texts_of(items);
        let joined = join(&ts, ", ");
        Ok(wrap("vec![", joined.as_str(), "]"))
    }

    /// Renders a set literal into a hash set, or into the insertion-ordered
    /// set when the item type cannot key a hash set.
    fn set_literal_text(&self, items: &Vec<Operand>, dest: usize) -> (r: Result<String, EmitError>)
        requires
            self.wf(),
        ensures
            r matches Ok(t) ==> self.set_literal_spec(items@, dest) == Some(t@),
            r is Err <==> self.set_literal_spec(items@, dest) is None,
    {
        let js_set = match self.type_at(dest) {
            Some(Type::SetOf(item)) => match self.fact_at(*item) {
                Some(f) => !f.hash_set_key_safe,
                None => true,
            },
            _ => false,
        };
        if items.len() == 0 {
            return Ok(
                if js_set {
                    String::from_str("SmeltJsSet::new()")
                } else {
                    String::from_str("::std::collections::HashSet::new()")
                },
            );
        }
        let ts = match self.type_at(dest) {
            Some(Type::SetOf(item)) => {
                let tys = repeated_ty(items.len(), *item);
                self.vat_zip(items, &tys)?
            },
            _ => texts_of(items),
        };
        let joined = join(&ts, ", ");
        if js_set {
            Ok(wrap("SmeltJsSet::from([", joined.as_str(), "])"))
        } else {
            Ok(wrap("::std::collections::HashSet::from([", joined.as_str(), "])"))
        }
    }

    /// Renders a tuple literal; at a tuple destination its trailing items
    /// fill the destination's slots.
    fn tuple_literal_text(&self, items: &Vec<Operand>, dest: usize) -> (r: Result<String, EmitError>)
        requires
            self.wf(),
        ensures
            r matches Ok(t) ==> self.tuple_literal_spec(items@, dest) == Some(t@),
            r is Err <==> self.tuple_literal_spec(items@, dest) is None,
    {
        if let Some(Type::Tuple(targets)) = self.type_at(dest) {
            if targets.len() > items.len() {
                return Err(EmitError::new("tuple destination has more items than literal"));
            }
            let offset = items.len() - targets.len();
            let ts = self.vat_from(items, offset, targets)?;
            let joined = join(&ts, ", ");
            return if targets.len() == 1 {
                Ok(wrap("(", joined.as_str(), ",)"))
            } else {
                Ok(wrap("(", joined.as_str(), ")"))
            };
        }
        if items.len() == 0 {
            return Ok(String::from_str("()"));
        }
        let ts = texts_of(items);
        let joined = join(&ts, ", ");
        if items.len() == 1 {
            Ok(wrap("(", joined.as_str(), ",)"))
        } else {
            Ok(wrap("(", joined.as_str(), ")"))
        }
    }

    /// Renders the command a generator is resumed with.
    fn resume_command_text(&self, sent: &Option<Operand>, resume: &ResumeKind) -> (r: Result<
        String,
        EmitError,
    >)
        requires
            self.wf(),
        ensures
            r matches Ok(t) ==> self.resume_command_spec(*sent, *resume) == Some(t@),
            r is Err <==> self.resume_command_spec(*sent, *resume) is None,
    {
        let raw = match sent {
            Some(v) => v.text.clone(),
            None => String::from_str("Default::default()"),
        };
        match resume {
            ResumeKind::Next => Ok(wrap("SmeltGeneratorCommand::Next(", raw.as_str(), ")")),
            ResumeKind::Return => Ok(wrap("SmeltGeneratorCommand::Return(", raw.as_str(), ")")),
            ResumeKind::Throw => match sent {
                Some(v) => {
                    let unknown = self.type_id(&Type::Unknown)?;
                    let thrown = self.value_at_type(v, unknown)?;
                    Ok(wrap("SmeltGeneratorCommand::Throw(", thrown.as_str(), ")"))
                },
                None => Ok(String::from_str("SmeltGeneratorCommand::Throw(SmeltUnknown::Undefined)")),
            },
        }
    }

    /// Renders the value a generator resume result carries, at the
    /// destination type.
    fn generator_value_text(&self, result: &Operand, dest: usize) -> (r: Result<String, EmitError>)
        requires
            self.wf(),
        ensures
            r matches Ok(t) ==> self.generator_value_spec(*result, dest) == Some(t@),
            r is Err <==> self.generator_value_spec(*result, dest) is None,
    {
        let (yield_ty, return_ty) = match self.type_at(result.ty) {
            Some(Type::GeneratorResult { yield_ty, return_ty }) => (*yield_ty, *return_ty),
            _ => {
                return Err(EmitError::new("generator value read has non-result operand"));
            },
        };
        let yielded = self.value_at_type_text("value", yield_ty, dest)?;
        let returned = self.value_at_type_text("value", return_ty, dest)?;
        let mut s = wrap("match ", result.text.as_str(), " { SmeltGeneratorResult::Yielded(value) => ");
        s.append(yielded.as_str());
        s.append(", SmeltGeneratorResult::Complete(value) => ");
        s.append(returned.as_str());
        s.append(" }");
        Ok(s)
    }
}

impl FunctionEmitter {
    /// Renders an rvalue at a destination type, before the destination's own
    /// coercion: each form dispatched to its rule. A call of an erased
    /// function value is the run-time dispatch over its erased arguments,
    /// coerced from the erased value to the destination unless the
    /// destination is itself a function type. A generator's yield is its
    /// suspension point over the resuming command. An await of a value of the
    /// null type is the destination's default; any other await is the awaited
    /// operand's text followed by `.await?`. A closure literal is the
    /// destination's default where the destination holds no function, or
    /// where the closure keeps a borrowed callback it cannot take with it;
    /// otherwise it is the closure at the destination type. Calls of typed
    /// function values, and the model's in-place and other forms, are refused
    /// with an error.
    fn rvalue_text_for_dest_inner(&self, value: &Rvalue, dest_ty: usize) -> (r: Result<
        String,
        EmitError,
    >)
        requires
            self.wf(),
            self.rvalue_renderable(*value),
        ensures
            r matches Ok(t) ==> self.rvalue_inner_spec(*value, dest_ty) == Some(t@),
            r is Err <==> self.rvalue_inner_spec(*value, dest_ty) is None,
        decreases dest_ty, 0nat,
    {
        match value {
            Rvalue::Use(op) => {
                let narrowed = match self.type_at(op.ty) {
                    Some(Type::Optional(inner)) => *inner == dest_ty && match self.type_at(dest_ty) {
                        Some(Type::Function(_)) => false,
                        _ => true,
                    },
                    _ => false,
                };
                if narrowed {
                    let mut s = op.text.clone();
                    s.append(".clone().expect(\"optional value was absent after narrowing\")");
                    Ok(s)
                } else {
                    self.value_at_type(op, dest_ty)
                }
            },
            Rvalue::List(items) => match self.list_option_inner_ty(dest_ty) {
                Some(inner) => {
                    proof {
                        assert(children_below(self.types@[dest_ty as int], dest_ty as int));
                    }
                    let t = self.rvalue_text_for_dest(value, inner)?;
                    Ok(wrap("Some(", t.as_str(), ")"))
                },
                None => self.list_literal_text(items, dest_ty),
            },
            Rvalue::SetLiteral(items) => self.set_literal_text(items, dest_ty),
            Rvalue::Tuple(items) => self.tuple_literal_text(items, dest_ty),
            Rvalue::GeneratorNext { generator, sent, resume } => {
                let command = self.resume_command_text(sent, resume)?;
                let mut s = generator.text.clone();
                s.append(".resume(");
                s.append(command.as_str());
                s.append(")");
                Ok(s)
            },
            Rvalue::GeneratorDone { result } => Ok(
                wrap("matches!(", result.text.as_str(), ", SmeltGeneratorResult::Complete(_))"),
            ),
            Rvalue::GeneratorValue { result } => self.generator_value_text(result, dest_ty),
            Rvalue::Conditional { cond, then_operand, else_operand } => {
                let then_text = self.value_at_type(then_operand, dest_ty)?;
                let else_text = self.value_at_type(else_operand, dest_ty)?;
                let mut s = wrap("if ", cond.text.as_str(), " { ");
                s.append(then_text.as_str());
                s.append(" } else { ");
                s.append(else_text.as_str());
                s.append(" }");
                Ok(s)
            },
            Rvalue::FunctionTableLookup { key, cases } => self.function_table_lookup_text(
                key,
                cases,
                dest_ty,
            ),
            Rvalue::InstanceOf { value: v, class } => self.instance_of_text(v, *class),
            Rvalue::UnknownIs { value: v, tag } => self.tag_check(v, *tag),
            Rvalue::TypeofValue { value: v } => self.typeof_value_text(v),
            Rvalue::PrototypeSentinel { value: v } => self.prototype_sentinel_text(v),
            Rvalue::BoxPrimitive { value: v } => self.box_primitive_text(v),
            Rvalue::ObjectFromPrototype { prototype } => self.object_from_prototype_text(prototype),
            Rvalue::ObjectToStringTag { operand } => self.object_to_string_tag_text(operand),
            Rvalue::StructuredClone { operand } => self.structured_clone_text(operand),
            Rvalue::Binary { op, lhs, rhs } => self.binary_rvalue_text(op, lhs, rhs, dest_ty),
            Rvalue::Unary { op, operand } => self.unary_rvalue_text(op, operand, dest_ty),
            Rvalue::Closure { id, text, rewritten_text } => {
                let is_function = match self.type_at(dest_ty) {
                    Some(Type::Function(_)) => true,
                    _ => false,
                };
                if !is_function && !self.callee_is_dynamically_dispatched(dest_ty) {
                    return self.default_value(dest_ty);
                }
                if *id < self.closures.len() && self.captures_borrowed_callback(&self.closures[*id])
                    && (self.closures[*id].escapes || !is_function) {
                    return self.default_value(dest_ty);
                }
                self.closure_text_for_type(*id, dest_ty, text.as_str(), rewritten_text.as_str())
            },
            Rvalue::GeneratorYield { value: v, cleanup_text, handler } => self.generator_yield_text(v, cleanup_text, handler),
            Rvalue::Await(op) => {
                match self.type_at(op.ty) {
                    Some(Type::Nullish) => {
                        return self.default_value(dest_ty);
                    },
                    _ => {},
                }
                let mut s = self.await_operand_text(op);
                s.append(".await?");
                Ok(s)
            },
            Rvalue::ClosureCall { callee, args } => {
                if !self.callee_is_dynamically_dispatched(callee.ty) {
                    return Err(EmitError::new("calls of typed function values have no rvalue text here"));
                }
                let items = self.erase_all(args)?;
                let vector = wrap("vec![", join(&items, ", ").as_str(), "]");
                let call = dynamic_callable_dispatch_text(callee.text.as_str(), vector.as_str());
                match self.type_at(dest_ty) {
                    Some(Type::Function(_)) => {
                        return Ok(call);
                    },
                    _ => {},
                }
                let unknown = self.type_id(&Type::Unknown)?;
                self.value_at_type_text(call.as_str(), unknown, dest_ty)
            },
            _ => Err(EmitError::new("in-place and other rvalues have no text of their own")),
        }
    }

    /// Renders an rvalue stored into a slot of type `dest_ty`: a bare erased
    /// constructor stored into a concrete union is rebuilt into the union,
    /// and a value stored into a list slot is converted into the
    /// identity-bearing list.
    pub fn rvalue_text_for_dest(&self, value: &Rvalue, dest_ty: usize) -> (r: Result<String, EmitError>)
        requires
            self.wf(),
            self.rvalue_renderable(*value),
        ensures
            r matches Ok(t) ==> self.rvalue_spec(*value, dest_ty) == Some(t@),
            r is Err <==> self.rvalue_spec(*value, dest_ty) is None,
        decreases dest_ty, 1nat,
    {
        let text = self.rvalue_text_for_dest_inner(value, dest_ty)?;
        let union_dest = match self.type_at(dest_ty) {
            Some(Type::Union(_)) => self.is_concrete_union(dest_ty),
            _ => false,
        };
        if starts_with(text.as_str(), "SmeltUnknown::") && union_dest {
            let u = self.rust_type_text(dest_ty)?;
            let mut s = wrap(u.as_str(), "::from_smelt_unknown(", text.as_str());
            s.append(")");
            return Ok(s);
        }
        if let Some(Type::List(_)) = self.type_at(dest_ty) {
            if str_eq(text.as_str(), "Default::default()") {
                return Ok(String::from_str("SmeltList::default()"));
            }
            return Ok(wrap("Into::<SmeltList<_>>::into(", text.as_str(), ")"));
        }
        Ok(text)
    }

    /// Renders an rvalue whose value is discarded: stored into the
    /// `null`/`undefined` slot.
    pub fn rvalue_text(&self, value: &Rvalue) -> (r: Result<String, EmitError>)
        requires
            self.wf(),
            self.rvalue_renderable(*value),
        ensures
            r matches Ok(t) ==> self.rvalue_spec(*value, self.none_ty) == Some(t@),
            r is Err <==> self.rvalue_spec(*value, self.none_ty) is None,
    {
        self.rvalue_text_for_dest(value, self.none_ty)
    }
}

} // verus!
