//! Closure values at a contextual type: the capture prelude that clones
//! what a `move` closure takes with it, the `Rc` callback a function-typed
//! slot holds, and the erased function an erased-rest slot holds.

use vstd::prelude::*;
use crate::emitter::{EmitError, FunctionEmitter};
use crate::erase::wrap;
use crate::mir::{BasicBlock, Capture, MirClosure, Operand, Rvalue, Statement};
use crate::numtext::{decimal, usize_text};
use crate::text::{has_prefix, join, name_in, seq_join, starts_with, views};
use crate::types::Type;

verus! {

/// The first capture of `source` among the first `k` captures.
pub open spec fn first_capture_in(captures: Seq<Capture>, source: usize, k: nat) -> Option<Capture>
    decreases k,
{
    if k == 0 || k > captures.len() {
        None
    } else {
        match first_capture_in(captures, source, (k - 1) as nat) {
            Some(c) => Some(c),
            None => if captures[k - 1].source_local == source {
                Some(captures[k - 1])
            } else {
                None
            },
        }
    }
}

/// Some capture binds a callback parameter held by borrowed reference.
pub open spec fn any_borrowed_callback(captures: Seq<Capture>) -> bool {
    exists|k: int| 0 <= k < captures.len() && #[trigger] captures[k].borrowed_callback
}

/// Every parameter of the closure has a local declaration.
pub open spec fn params_declared(c: MirClosure) -> bool {
    forall|k: int| 0 <= k < c.params.len() ==> (#[trigger] c.params@[k] as int) < c.locals.len()
}

/// The views of pairs of strings.
pub open spec fn pair_views(pairs: Seq<(String, String)>) -> Seq<(Seq<char>, Seq<char>)> {
    pairs.map_values(|p: (String, String)| (p.0@, p.1@))
}

/// The place a shared capture named `name` is read through.
pub open spec fn shared_cell_read(name: Seq<char>) -> Seq<char> {
    "(*smelt_capture_"@ + name + ".borrow_mut())"@
}

impl FunctionEmitter {
    /// The prelude line for one capture, with the binding's name and whether
    /// it is shared; `None` where the capture needs no line: an unknown
    /// local, a callback parameter, a local not yet bound, a binding already
    /// read through a shared cell, or a name already cloned.
    pub open spec fn capture_line_spec(&self, c: MirClosure, cap: Capture, seen: Seq<Seq<char>>) -> Option<
        (Seq<char>, Seq<char>, bool),
    > {
        match self.local_decl_spec(cap.source_local) {
            None => None,
            Some(d) => {
                let is_param = self.function.params@.contains(cap.source_local);
                let name = d.name@;
                if (self.ty(d.ty) matches Some(Type::Function(_))) && is_param {
                    None
                } else if !is_param && !self.declared_locals@.contains(cap.source_local) {
                    None
                } else if has_prefix(name, "(*smelt_capture_"@) {
                    None
                } else if seen.contains(name) {
                    None
                } else if self.needs_shared_spec(c, cap) || self.shared_storage_spec(cap.source_local) {
                    Some((name, "let smelt_capture_"@ + name + " = smelt_capture_"@ + name + ".clone();"@, true))
                } else {
                    let writes = match first_capture_in(c.captures@, cap.source_local, c.captures.len() as nat) {
                        Some(f) => self.capture_writes_spec(c, f),
                        None => false,
                    };
                    let m = if self.mutable_locals@.contains(cap.source_local) || writes {
                        "mut "@
                    } else {
                        Seq::empty()
                    };
                    Some((name, "let "@ + m + name + " = "@ + name + ".clone();"@, false))
                }
            },
        }
    }

    /// The prelude lines of the first `k` captures, the names they clone, and
    /// the rewrites of the shared ones to their cells.
    pub open spec fn prelude_spec(&self, c: MirClosure, k: nat) -> (
        Seq<Seq<char>>,
        Seq<Seq<char>>,
        Seq<(Seq<char>, Seq<char>)>,
    )
        decreases k,
    {
        if k == 0 || k > c.captures.len() {
            (Seq::empty(), Seq::empty(), Seq::empty())
        } else {
            let (lines, seen, reps) = self.prelude_spec(c, (k - 1) as nat);
            match self.capture_line_spec(c, c.captures@[k - 1], seen) {
                None => (lines, seen, reps),
                Some((name, line, shared)) => (
                    lines.push(line),
                    seen.push(name),
                    if shared {
                        reps.push((name, shared_cell_read(name)))
                    } else {
                        reps
                    },
                ),
            }
        }
    }

    /// The erased function a closure becomes in an erased-rest slot: the
    /// callback called with its parameters read from the erased arguments,
    /// its result erased, and its length; a function item used as a value
    /// is read through its per-item accessor instead.
    pub open spec fn erased_closure_spec(&self, c: MirClosure, adjusted: Seq<char>) -> Option<Seq<char>> {
        if !params_declared(c) {
            None
        } else {
            let call = if c.can_throw {
                "(smelt_callback)("@ + c.smelt_args_text@ + ").unwrap_or_else(|error| panic!(\"{}\", error))"@
            } else {
                "(smelt_callback)("@ + c.smelt_args_text@ + ")"@
            };
            match self.find_interned(Type::Unknown) {
                None => None,
                Some(u) => {
                    let ret = if self.ty(c.return_ty) == Some(Type::Nullish) {
                        Some("{ "@ + call + "; SmeltUnknown::Null }"@)
                    } else {
                        self.vat_spec(call, c.return_ty, u, Seq::empty())
                    };
                    match ret {
                        None => None,
                        Some(rt) => match c.function_item_key {
                            Some(key) => Some("__smelt_fn_erased_"@ + key@ + "()"@),
                            None => {
                                let length: nat = match c.required_params {
                                    Some(n) => n as nat,
                                    None => match c.rest {
                                        Some(r) => r as nat,
                                        None => c.params.len() as nat,
                                    },
                                };
                                Some(
                                    "SmeltErasedFunction { callback: { let smelt_callback = ::std::rc::Rc::new("@
                                        + adjusted
                                        + "); ::std::rc::Rc::new(move |smelt_args: Vec<SmeltUnknown>| "@ + rt
                                        + ") }, length: "@ + decimal(length) + ".0, object: None }"@,
                                )
                            },
                        },
                    }
                },
            }
        }
    }

    /// A closure literal stored at `dest`: in a function-typed slot a `move`
    /// closure behind an `Rc`, cloning its captures first (an escaping
    /// closure that keeps a borrowed callback is the slot's default instead),
    /// or the erased function where the slot's type erases its rest; any
    /// other slot takes the literal as it is.
    pub open spec fn closure_for_type_spec(&self, id: usize, dest: usize, text: Seq<char>, rewritten: Seq<char>) -> Option<
        Seq<char>,
    > {
        if id >= self.closures.len() {
            None
        } else {
            let c = self.closures@[id as int];
            match self.ty(dest) {
                Some(Type::Function(f)) => if c.escapes && any_borrowed_callback(c.captures@) {
                    self.default_text(dest)
                } else {
                    let adjusted = if c.captures.len() == 0 || has_prefix(text, "move "@) || has_prefix(text, "{"@) {
                        text
                    } else {
                        let lines = self.prelude_spec(c, c.captures.len() as nat).0;
                        if lines.len() == 0 {
                            "move "@ + rewritten
                        } else {
                            "{\n    "@ + seq_join(lines, "\n    "@) + "\n    move "@ + rewritten + "\n}"@
                        }
                    };
                    if self.erased_rest_function(dest) && !f.may_throw {
                        self.erased_closure_spec(c, adjusted)
                    } else {
                        Some("::std::rc::Rc::new("@ + adjusted + ")"@)
                    }
                },
                _ => Some(text),
            }
        }
    }

    fn first_capture_writes(&self, c: &MirClosure, source: usize) -> (r: bool)
        ensures
            r == (match first_capture_in(c.captures@, source, c.captures.len() as nat) {
                Some(f) => self.capture_writes_spec(*c, f),
                None => false,
            }),
    {
        let mut i: usize = 0;
        while i < c.captures.len()
            invariant
                i <= c.captures.len(),
                first_capture_in(c.captures@, source, i as nat) is None,
            decreases c.captures.len() - i,
        {
            if c.captures[i].source_local == source {
                proof {
                    lemma_first_capture_stays(c.captures@, source, (i + 1) as nat, c.captures.len() as nat);
                }
                return self.closure_capture_body_writes(c, &c.captures[i]);
            }
            i = i + 1;
        }
        false
    }

    fn capture_line(&self, c: &MirClosure, cap: &Capture, seen: &Vec<String>) -> (r: Option<(String, String, bool)>)
        ensures
            r matches Some(t) ==> self.capture_line_spec(*c, *cap, views(seen@)) == Some((t.0@, t.1@, t.2)),
            r is None <==> self.capture_line_spec(*c, *cap, views(seen@)) is None,
    {
        if cap.source_local >= self.function.locals.len() {
            return None;
        }
        let d = &self.function.locals[cap.source_local];
        let is_param = crate::capture_analysis::seq_has(&self.function.params, cap.source_local);
        let is_function = match self.type_at(d.ty) {
            Some(Type::Function(_)) => true,
            _ => false,
        };
        if is_function && is_param {
            return None;
        }
        if !is_param && !crate::capture_analysis::seq_has(&self.declared_locals, cap.source_local) {
            return None;
        }
        if starts_with(d.name.as_str(), "(*smelt_capture_") {
            return None;
        }
        let dup = name_in(seen, d.name.as_str());
        proof {
            if dup {
                let k = choose|k: int| 0 <= k < seen.len() && seen@[k]@ == d.name@;
                assert(views(seen@)[k] == d.name@);
            } else {
                assert forall|k: int| 0 <= k < views(seen@).len() implies views(seen@)[k] != d.name@ by {
                    assert(seen@[k]@ != d.name@);
                }
            }
        }
        if dup {
            return None;
        }
        let name = d.name.as_str();
        if self.closure_capture_needs_shared_access(c, cap) || self.local_uses_shared_capture_storage(cap.source_local) {
            let mut line = wrap("let smelt_capture_", name, " = smelt_capture_");
            line.append(name);
            line.append(".clone();");
            return Some((d.name.clone(), line, true));
        }
        let writes = self.first_capture_writes(c, cap.source_local);
        let m = if crate::capture_analysis::seq_has(&self.mutable_locals, cap.source_local) || writes {
            "mut "
        } else {
            ""
        };
        proof {
            reveal_strlit("");
        }
        let mut line = wrap("let ", m, name);
        line.append(" = ");
        line.append(name);
        line.append(".clone();");
        Some((d.name.clone(), line, false))
    }

    fn erased_closure_text(&self, c: &MirClosure, adjusted: &str) -> (r: Result<String, EmitError>)
        requires
            self.wf(),
        ensures
            r matches Ok(t) ==> self.erased_closure_spec(*c, adjusted@) == Some(t@),
            r is Err <==> self.erased_closure_spec(*c, adjusted@) is None,
    {
        let mut k: usize = 0;
        while k < c.params.len()
            invariant
                k <= c.params.len(),
                forall|j: int| 0 <= j < k ==> (#[trigger] c.params@[j] as int) < c.locals.len(),
            decreases c.params.len() - k,
        {
            if c.params[k] >= c.locals.len() {
                return Err(EmitError::new("closure param has no local declaration"));
            }
            k = k + 1;
        }
        let call = if c.can_throw {
            wrap("(smelt_callback)(", c.smelt_args_text.as_str(), ").unwrap_or_else(|error| panic!(\"{}\", error))")
        } else {
            wrap("(smelt_callback)(", c.smelt_args_text.as_str(), ")")
        };
        let unknown = self.type_id(&Type::Unknown)?;
        let returns_null = match self.type_at(c.return_ty) {
            Some(Type::Nullish) => true,
            _ => false,
        };
        let rt = if returns_null {
            wrap("{ ", call.as_str(), "; SmeltUnknown::Null }")
        } else {
            self.value_at_type_text(call.as_str(), c.return_ty, unknown)?
        };
        match &c.function_item_key {
            Some(key) => Ok(wrap("__smelt_fn_erased_", key.as_str(), "()")),
            None => {
                let length = match c.required_params {
                    Some(n) => n,
                    None => match c.rest {
                        Some(r) => r,
                        None => c.params.len(),
                    },
                };
                let mut s = wrap("SmeltErasedFunction { callback: { let smelt_callback = ::std::rc::Rc::new(", adjusted, "); ::std::rc::Rc::new(move |smelt_args: Vec<SmeltUnknown>| ");
                s.append(rt.as_str());
                s.append(") }, length: ");
                s.append(usize_text(length).as_str());
                s.append(".0, object: None }");
                Ok(s)
            },
        }
    }

    /// Renders a closure literal stored at `dest_ty`. `closure_text` is the
    /// closure's literal; `rewritten_closure_text` is that literal with each
    /// shared capture's uses rewritten to its cell, by the rewrites
    /// `closure_capture_prelude` gives. In a function-typed slot the result
    /// is the `move` closure behind an `Rc`, its captures cloned first (the
    /// slot's default for an escaping closure that keeps a borrowed
    /// callback), or, where the slot's type erases its rest and cannot throw,
    /// the erased function calling it; any other slot takes the literal as
    /// it is.
    pub fn closure_text_for_type(&self, id: usize, dest_ty: usize, closure_text: &str, rewritten_closure_text: &str) -> (r: Result<
        String,
        EmitError,
    >)
        requires
            self.wf(),
        ensures
            r matches Ok(t) ==> self.closure_for_type_spec(id, dest_ty, closure_text@, rewritten_closure_text@) == Some(t@),
            r is Err <==> self.closure_for_type_spec(id, dest_ty, closure_text@, rewritten_closure_text@) is None,
    {
        if id >= self.closures.len() {
            return Err(EmitError::new("closure rvalue references an unknown closure"));
        }
        let c = &self.closures[id];
        let may_throw = match self.type_at(dest_ty) {
            Some(Type::Function(f)) => f.may_throw,
            _ => {
                return Ok(String::from_str(closure_text));
            },
        };
        if c.escapes && self.captures_borrowed_callback(c) {
            return self.default_value(dest_ty);
        }
        let adjusted = if c.captures.len() == 0 || starts_with(closure_text, "move ") || starts_with(closure_text, "{") {
            String::from_str(closure_text)
        } else {
            let (lines, _) = self.closure_capture_prelude(c);
            if lines.len() == 0 {
                wrap("move ", rewritten_closure_text, "")
            } else {
                let mut s = wrap("{\n    ", join(&lines, "\n    ").as_str(), "\n    move ");
                s.append(rewritten_closure_text);
                s.append("\n}");
                s
            }
        };
        proof {
            reveal_strlit("");
        }
        let erased_rest = match self.fact_at(dest_ty) {
            Some(f) => f.erased_unknown_rest_function,
            None => false,
        };
        if erased_rest && !may_throw {
            self.erased_closure_text(c, adjusted.as_str())
        } else {
            Ok(wrap("::std::rc::Rc::new(", adjusted.as_str(), ")"))
        }
    }

    /// The closure literal a callback operand names: the literal of the first
    /// closure built into the local it reads.
    pub open spec fn closure_operand_spec(&self, op: Operand) -> Option<Seq<char>> {
        match op.local_spec() {
            Some(l) => match closure_built_in(self.function.blocks@, l, self.function.blocks.len() as nat) {
                Some(c) => Some(c.1),
                None => None,
            },
            None => None,
        }
    }

    fn find_closure_built(&self, l: usize) -> (r: Option<(usize, usize)>)
        ensures
            r is None <==> closure_built_in(self.function.blocks@, l, self.function.blocks.len() as nat) is None,
            r matches Some((b, k)) ==> b < self.function.blocks.len() && k < self.function.blocks@[b as int].statements.len()
                && (self.function.blocks@[b as int].statements@[k as int] matches Statement::Assign {
                    dest,
                    value: Rvalue::Closure { id, text, rewritten_text },
                } && closure_built_in(self.function.blocks@, l, self.function.blocks.len() as nat) == Some(
                    (id, text@, rewritten_text@),
                )),
    {
        let ghost blocks = self.function.blocks@;
        let mut b: usize = 0;
        while b < self.function.blocks.len()
            invariant
                b <= self.function.blocks.len(),
                blocks == self.function.blocks@,
                closure_built_in(blocks, l, b as nat) is None,
            decreases self.function.blocks.len() - b,
        {
            let stmts = &self.function.blocks[b].statements;
            let mut k: usize = 0;
            while k < stmts.len()
                invariant
                    b < self.function.blocks.len(),
                    blocks == self.function.blocks@,
                    *stmts == blocks[b as int].statements,
                    k <= stmts.len(),
                    closure_built_in(blocks, l, b as nat) is None,
                    closure_built_in_block(stmts@, l, k as nat) is None,
                decreases stmts.len() - k,
            {
                match &stmts[k] {
                    Statement::Assign { dest, value: Rvalue::Closure { id, text, rewritten_text } } => {
                        if *dest == l {
                            proof {
                                assert(closure_built_in_block(stmts@, l, (k + 1) as nat) == Some((*id, text@, rewritten_text@)));
                                lemma_closure_in_block_stays(stmts@, l, (k + 1) as nat, stmts.len() as nat);
                                assert(closure_built_in(blocks, l, (b + 1) as nat) == Some((*id, text@, rewritten_text@)));
                                lemma_closure_in_blocks_stays(blocks, l, (b + 1) as nat, blocks.len() as nat);
                            }
                            return Some((b, k));
                        }
                    },
                    _ => {},
                }
                k = k + 1;
            }
            b = b + 1;
        }
        None
    }

    /// Resolves a callback operand to the closure literal that built it: an
    /// error where the operand reads no local or no closure is built into
    /// it.
    pub fn closure_operand_text(&self, operand: &Operand) -> (r: Result<String, EmitError>)
        ensures
            r matches Ok(t) ==> self.closure_operand_spec(*operand) == Some(t@),
            r is Err <==> self.closure_operand_spec(*operand) is None,
    {
        let l = match operand.local() {
            Some(l) => l,
            None => {
                return Err(EmitError::new("list callback must be a non-escaping closure local"));
            },
        };
        match self.find_closure_built(l) {
            Some((b, k)) => match &self.function.blocks[b].statements[k] {
                Statement::Assign { value: Rvalue::Closure { text, .. }, .. } => Ok(text.clone()),
                _ => Err(EmitError::new("list callback closure construction was not found")),
            },
            None => Err(EmitError::new("list callback closure construction was not found")),
        }
    }

    /// The closure an operand names, shaped for the operand's own type: the
    /// first closure built into the local it aliases through plain copies
    /// (at most eight).
    pub open spec fn closure_for_declared_type_spec(&self, op: Operand) -> Option<Seq<char>> {
        match op.local_spec() {
            None => None,
            Some(l) => {
                let src = self.source_local_spec(l, 8);
                match closure_built_in(self.function.blocks@, src, self.function.blocks.len() as nat) {
                    Some((id, text, rewritten)) => self.closure_for_type_spec(id, op.ty, text, rewritten),
                    None => None,
                }
            },
        }
    }

    /// Resolves a callback operand to the closure that built it, shaped for
    /// the operand's own (contextual) function type: the closure built into
    /// the local the operand aliases through plain copies.
    pub fn closure_operand_text_for_declared_type(&self, operand: &Operand) -> (r: Result<String, EmitError>)
        requires
            self.wf(),
        ensures
            r matches Ok(t) ==> self.closure_for_declared_type_spec(*operand) == Some(t@),
            r is Err <==> self.closure_for_declared_type_spec(*operand) is None,
    {
        let l = match operand.local() {
            Some(l) => l,
            None => {
                return Err(EmitError::new("list callback must be a non-escaping closure local"));
            },
        };
        let src = self.closure_source_local(l);
        match self.find_closure_built(src) {
            Some((b, k)) => match &self.function.blocks[b].statements[k] {
                Statement::Assign { value: Rvalue::Closure { id, text, rewritten_text }, .. } => self.closure_text_for_type(
                    *id,
                    operand.ty,
                    text.as_str(),
                    rewritten_text.as_str(),
                ),
                _ => Err(EmitError::new("list callback closure construction was not found")),
            },
            None => Err(EmitError::new("list callback closure construction was not found")),
        }
    }

    /// Parameter `i` of closure `c` in the literal of an escaping closure
    /// that keeps a borrowed callback: named by position, at its contextual
    /// type where that is the optional of its flat type.
    pub open spec fn ignored_param_spec(&self, c: MirClosure, target: Seq<usize>, i: int) -> Option<Seq<char>> {
        let p = c.params@[i];
        if p >= c.locals.len() {
            None
        } else {
            let lt = c.locals@[p as int].ty;
            let ty = if i < target.len() && self.flat_local_spec(target[i], lt) {
                target[i]
            } else {
                lt
            };
            match self.rust_text(ty) {
                Some(t) => Some("arg"@ + decimal(i as nat) + ": "@ + t),
                None => None,
            }
        }
    }

    /// The first `k` parameters of that literal, then its ignored surplus
    /// parameters.
    pub open spec fn ignored_params_spec(&self, c: MirClosure, target: Seq<usize>, extra: Seq<usize>, k: nat) -> Option<
        Seq<Seq<char>>,
    >
        decreases k,
    {
        if k == 0 {
            Some(Seq::empty())
        } else if k > c.params.len() + extra.len() {
            None
        } else {
            let i = k - 1;
            let p = if i < c.params.len() {
                self.ignored_param_spec(c, target, i)
            } else {
                let j = i - c.params.len();
                match self.rust_text(extra[j]) {
                    Some(t) => Some("_arg"@ + decimal(j as nat) + ": "@ + t),
                    None => None,
                }
            };
            match (self.ignored_params_spec(c, target, extra, (k - 1) as nat), p) {
                (Some(ps), Some(x)) => Some(ps.push(x)),
                _ => None,
            }
        }
    }

    /// The literal of an escaping closure that keeps a borrowed callback: it
    /// cannot take the callback with it, so it ignores its parameters and
    /// returns its return type's default.
    pub open spec fn borrowed_callback_closure_spec(
        &self,
        id: usize,
        extra: Seq<usize>,
        target: Seq<usize>,
        return_override: Option<usize>,
    ) -> Option<Seq<char>> {
        if id >= self.closures.len() {
            None
        } else {
            let c = self.closures@[id as int];
            let rt = match return_override {
                Some(r) => r,
                None => c.return_ty,
            };
            match (
                self.ignored_params_spec(c, target, extra, (c.params.len() + extra.len()) as nat),
                self.rust_text(rt),
                self.default_text(rt),
            ) {
                (Some(ps), Some(t), Some(d)) => Some("|"@ + seq_join(ps, ", "@) + "| -> "@ + t + " { "@ + d + " }"@),
                _ => None,
            }
        }
    }

    /// Renders the literal of an escaping closure that keeps a borrowed
    /// callback: its parameters (re-typed as the contextual function type
    /// spells them where that added an optional wrapper) and one ignored
    /// parameter per surplus contextual argument, returning the return
    /// type's default.
    pub fn borrowed_callback_closure_text(
        &self,
        id: usize,
        extra_param_tys: &Vec<usize>,
        target_param_tys: &Vec<usize>,
        return_override: Option<usize>,
    ) -> (r: Result<String, EmitError>)
        requires
            id < self.closures.len() ==> self.closures@[id as int].params.len() + extra_param_tys.len() <= usize::MAX,
        ensures
            r matches Ok(t) ==> self.borrowed_callback_closure_spec(id, extra_param_tys@, target_param_tys@, return_override) == Some(t@),
            r is Err <==> self.borrowed_callback_closure_spec(id, extra_param_tys@, target_param_tys@, return_override) is None,
    {
        if id >= self.closures.len() {
            return Err(EmitError::new("closure rvalue references an unknown closure"));
        }
        let c = &self.closures[id];
        let n = c.params.len();
        let total = n + extra_param_tys.len();
        let mut params: Vec<String> = Vec::new();
        let mut k: usize = 0;
        while k < total
            invariant
                id < self.closures.len(),
                *c == self.closures@[id as int],
                n == c.params.len(),
                total == n + extra_param_tys.len(),
                k <= total,
                self.ignored_params_spec(*c, target_param_tys@, extra_param_tys@, k as nat) == Some(views(params@)),
            decreases total - k,
        {
            let p: Result<String, EmitError> = if k < n {
                let param = c.params[k];
                if param >= c.locals.len() {
                    Err(EmitError::new("closure param has no local declaration"))
                } else {
                    let lt = c.locals[param].ty;
                    let ty = if k < target_param_tys.len() && self.optional_target_matches_flat_local(target_param_tys[k], lt) {
                        target_param_tys[k]
                    } else {
                        lt
                    };
                    match self.rust_type_text(ty) {
                        Ok(t) => {
                            let mut s = wrap("arg", usize_text(k).as_str(), ": ");
                            s.append(t.as_str());
                            Ok(s)
                        },
                        Err(e) => Err(e),
                    }
                }
            } else {
                match self.rust_type_text(extra_param_tys[k - n]) {
                    Ok(t) => {
                        let mut s = wrap("_arg", usize_text(k - n).as_str(), ": ");
                        s.append(t.as_str());
                        Ok(s)
                    },
                    Err(e) => Err(e),
                }
            };
            match p {
                Ok(x) => {
                    let ghost before = views(params@);
                    params.push(x);
                    assert(views(params@) =~= before.push(x@));
                },
                Err(e) => {
                    proof {
                        self.lemma_ignored_none(*c, target_param_tys@, extra_param_tys@, (k + 1) as nat, total as nat);
                    }
                    return Err(e);
                },
            }
            k = k + 1;
        }
        let rt = match return_override {
            Some(r) => r,
            None => c.return_ty,
        };
        let t = self.rust_type_text(rt)?;
        let d = self.default_value(rt)?;
        let mut s = wrap("|", join(&params, ", ").as_str(), "| -> ");
        s.append(t.as_str());
        s.append(" { ");
        s.append(d.as_str());
        s.append(" }");
        Ok(s)
    }

    proof fn lemma_ignored_none(&self, c: MirClosure, target: Seq<usize>, extra: Seq<usize>, k: nat, m: nat)
        requires
            k <= m,
            self.ignored_params_spec(c, target, extra, k) is None,
        ensures
            self.ignored_params_spec(c, target, extra, m) is None,
        decreases m - k,
    {
        if k < m {
            self.lemma_ignored_none(c, target, extra, k, (m - 1) as nat);
        }
    }

    /// Returns whether some capture of `c` binds a borrowed callback
    /// parameter.
    pub fn captures_borrowed_callback(&self, c: &MirClosure) -> (r: bool)
        ensures
            r == any_borrowed_callback(c.captures@),
    {
        let mut i: usize = 0;
        while i < c.captures.len()
            invariant
                i <= c.captures.len(),
                forall|k: int| 0 <= k < i ==> !(#[trigger] c.captures@[k]).borrowed_callback,
            decreases c.captures.len() - i,
        {
            if c.captures[i].borrowed_callback {
                assert(c.captures@[i as int].borrowed_callback);
                return true;
            }
            i = i + 1;
        }
        false
    }

    /// Returns the prelude that clones a closure's captures before it moves
    /// them, and the rewrites of each shared capture's uses to its cell.
    pub fn closure_capture_prelude(&self, c: &MirClosure) -> (r: (Vec<String>, Vec<(String, String)>))
        ensures
            views(r.0@) == self.prelude_spec(*c, c.captures.len() as nat).0,
            pair_views(r.1@) == self.prelude_spec(*c, c.captures.len() as nat).2,
    {
        let mut lines: Vec<String> = Vec::new();
        let mut seen: Vec<String> = Vec::new();
        let mut reps: Vec<(String, String)> = Vec::new();
        let mut i: usize = 0;
        while i < c.captures.len()
            invariant
                i <= c.captures.len(),
                views(lines@) == self.prelude_spec(*c, i as nat).0,
                views(seen@) == self.prelude_spec(*c, i as nat).1,
                pair_views(reps@) == self.prelude_spec(*c, i as nat).2,
            decreases c.captures.len() - i,
        {
            let ghost before = (views(lines@), views(seen@), pair_views(reps@));
            match self.capture_line(c, &c.captures[i], &seen) {
                None => {},
                Some((name, line, shared)) => {
                    lines.push(line);
                    if shared {
                        let cell = wrap("(*smelt_capture_", name.as_str(), ".borrow_mut())");
                        reps.push((name.clone(), cell));
                    }
                    seen.push(name);
                },
            }
            proof {
                assert(views(lines@) =~= self.prelude_spec(*c, (i + 1) as nat).0);
                assert(views(seen@) =~= self.prelude_spec(*c, (i + 1) as nat).1);
                assert(pair_views(reps@) =~= self.prelude_spec(*c, (i + 1) as nat).2);
            }
            i = i + 1;
        }
        (lines, reps)
    }
}

/// The first closure built into local `l` among the first `k` statements:
/// its id, literal and capture-rewritten literal.
pub open spec fn closure_built_in_block(stmts: Seq<Statement>, l: usize, k: nat) -> Option<(usize, Seq<char>, Seq<char>)>
    decreases k,
{
    if k == 0 || k > stmts.len() {
        None
    } else {
        match closure_built_in_block(stmts, l, (k - 1) as nat) {
            Some(t) => Some(t),
            None => match stmts[k - 1] {
                Statement::Assign { dest, value: Rvalue::Closure { id, text, rewritten_text } } => if dest == l {
                    Some((id, text@, rewritten_text@))
                } else {
                    None
                },
                _ => None,
            },
        }
    }
}

/// The first closure built into local `l` among the first `b` blocks, in
/// block order.
pub open spec fn closure_built_in(blocks: Seq<BasicBlock>, l: usize, b: nat) -> Option<(usize, Seq<char>, Seq<char>)>
    decreases b,
{
    if b == 0 || b > blocks.len() {
        None
    } else {
        match closure_built_in(blocks, l, (b - 1) as nat) {
            Some(t) => Some(t),
            None => closure_built_in_block(blocks[b - 1].statements@, l, blocks[b - 1].statements.len() as nat),
        }
    }
}

/// A closure found among the first `k` statements stays the first found.
pub proof fn lemma_closure_in_block_stays(stmts: Seq<Statement>, l: usize, k: nat, m: nat)
    requires
        k <= m <= stmts.len(),
        closure_built_in_block(stmts, l, k) is Some,
    ensures
        closure_built_in_block(stmts, l, m) == closure_built_in_block(stmts, l, k),
    decreases m - k,
{
    if k < m {
        lemma_closure_in_block_stays(stmts, l, k, (m - 1) as nat);
    }
}

/// A closure found among the first `b` blocks stays the first found.
pub proof fn lemma_closure_in_blocks_stays(blocks: Seq<BasicBlock>, l: usize, b: nat, m: nat)
    requires
        b <= m <= blocks.len(),
        closure_built_in(blocks, l, b) is Some,
    ensures
        closure_built_in(blocks, l, m) == closure_built_in(blocks, l, b),
    decreases m - b,
{
    if b < m {
        lemma_closure_in_blocks_stays(blocks, l, b, (m - 1) as nat);
    }
}

/// A capture found among the first `k` captures stays the first one found.
pub proof fn lemma_first_capture_stays(captures: Seq<Capture>, source: usize, k: nat, m: nat)
    requires
        k <= m <= captures.len(),
        first_capture_in(captures, source, k) is Some,
    ensures
        first_capture_in(captures, source, m) == first_capture_in(captures, source, k),
    decreases m - k,
{
    if k < m {
        lemma_first_capture_stays(captures, source, k, (m - 1) as nat);
    }
}

} // verus!
