//! Closures: the parameters a closure takes from its contextual function
//! type, the walk over a closure body's blocks that structures its branches
//! and loops, and the explicit `return` a body reached inside a generated
//! loop leaves through.

use vstd::prelude::*;
use crate::emitter::{EmitError, FunctionEmitter};
use crate::erase::wrap;
use crate::mir::{Constant, MatchArm, MirClosure, Operand, OperandKind, Terminator};
use crate::capture_analysis::seq_has;
use crate::cfg_queries::cfg;
use crate::graph::reaches;
use crate::types::Type;
use crate::text::views;

verus! {

/// What a closure body emits where its control flow returns to a block it
/// is still emitting.
pub open spec fn recursion_panic() -> Seq<char> {
    "    panic!(\"recursive closure control flow is not structured yet\")\n"@
}

/// A loop-shaped block: its statements and branch inside `loop { .. }`.
pub open spec fn loop_text(body: Seq<char>, cond: Seq<char>, then_text: Seq<char>, else_text: Seq<char>) -> Seq<char> {
    "    loop {\n"@ + body + "    if "@ + cond + " {\n"@ + then_text + "    } else {\n"@ + else_text + "    }\n"@
        + "    }\n"@
}

/// A branch: the block's statements, then the two arms.
pub open spec fn branch_text(body: Seq<char>, cond: Seq<char>, then_text: Seq<char>, else_text: Seq<char>) -> Seq<char> {
    body + "    if "@ + cond + " {\n"@ + then_text + "    } else {\n"@ + else_text + "    }\n"@
}

/// A binding of a local to the value of `value`.
pub open spec fn let_line(name: Seq<char>, ty: Seq<char>, value: Seq<char>) -> Seq<char> {
    "    let "@ + name + ": "@ + ty + " = "@ + value + ";\n"@
}

/// A thrown value leaving the closure through its error channel.
pub open spec fn throw_line(value: Seq<char>) -> Seq<char> {
    "    return Err::<_, Box<dyn std::error::Error>>(std::io::Error::new(std::io::ErrorKind::Other, format!(\"{}\", "@
        + value + ")).into());\n"@
}

/// The views of optional strings.
pub open spec fn opt_views(parts: Seq<Option<String>>) -> Seq<Option<Seq<char>>> {
    parts.map_values(|p: Option<String>| match p {
        Some(s) => Some(s@),
        None => None,
    })
}

/// The text `a` followed by `b`.
fn cat(a: &str, b: &str) -> (r: String)
    ensures
        r@ == a@ + b@,
{
    let mut s = String::from_str(a);
    s.append(b);
    s
}

impl FunctionEmitter {
    /// The tail lines of a closure body that returns `op` at its end.
    pub open spec fn closure_tail_spec(&self, op: Operand) -> Option<Seq<char>> {
        if self.function.return_ty == self.none_ty {
            let discard = if !(op.kind matches OperandKind::Const(Constant::Null)) && op.ty != self.none_ty {
                "    "@ + op.text@ + ";\n"@
            } else {
                Seq::empty()
            };
            let tail = if self.function.can_throw {
                "    Ok::<(), Box<dyn std::error::Error>>(())\n"@
            } else {
                "    ()\n"@
            };
            Some(discard + tail)
        } else {
            let rt = self.closure_return_ty(op);
            match self.vat_op_spec(op, rt) {
                Some(v) => if self.function.can_throw {
                    match self.rust_text(rt) {
                        Some(t) => Some("    Ok::<"@ + t + ", Box<dyn std::error::Error>>("@ + v + ")\n"@),
                        None => None,
                    }
                } else {
                    Some("    "@ + v + "\n"@)
                },
                None => None,
            }
        }
    }

    /// The binding of local `dest` to `value`, by the local's name and Rust
    /// type.
    pub open spec fn bind_spec(&self, dest: usize, value: Seq<char>) -> Option<Seq<char>> {
        match self.local_decl_spec(dest) {
            Some(d) => match self.rust_text(d.ty) {
                Some(t) => Some(let_line(d.name@, t, value)),
                None => None,
            },
            None => None,
        }
    }

    /// The text of the closure body from block `b` until block `stop`, with
    /// the blocks in `active` still being emitted, given each block's
    /// statements as `stmts[b]` and the call its terminator makes as
    /// `calls[b]`.
    pub open spec fn closure_block_spec(
        &self,
        b: usize,
        stop: Option<usize>,
        in_loop: bool,
        active: Seq<usize>,
        stmts: Seq<Seq<char>>,
        calls: Seq<Option<Seq<char>>>,
    ) -> Option<Seq<char>>
        decreases self.function.blocks.len() - active.len(), 2nat, 0nat,
    {
        let n = self.function.blocks.len();
        if stop == Some(b) {
            Some(Seq::empty())
        } else if active.contains(b) {
            Some(recursion_panic())
        } else if b >= n || active.len() >= n || b >= stmts.len() {
            None
        } else {
            let act = active.push(b);
            let body = stmts[b as int];
            match self.function.blocks@[b as int].terminator {
                None => None,
                Some(Terminator::Switch { cond, then_block, else_block }) => if reaches(
                    cfg(self.function.blocks@),
                    then_block,
                    b,
                    Set::empty(),
                ) {
                    match (
                        self.closure_block_spec(then_block, Some(b), true, act, stmts, calls),
                        self.closure_block_spec(else_block, Some(b), true, act, stmts, calls),
                    ) {
                        (Some(x), Some(y)) => Some(loop_text(body, cond.truthy_text@, x, y)),
                        _ => None,
                    }
                } else {
                    match (
                        self.closure_block_spec(then_block, stop, in_loop, act, stmts, calls),
                        self.closure_block_spec(else_block, stop, in_loop, act, stmts, calls),
                    ) {
                        (Some(x), Some(y)) => Some(branch_text(body, cond.truthy_text@, x, y)),
                        _ => None,
                    }
                },
                Some(Terminator::Return(op)) => match if in_loop {
                    self.closure_return_spec(op)
                } else {
                    self.closure_tail_spec(op)
                } {
                    Some(t) => Some(body + t),
                    None => None,
                },
                Some(Terminator::Goto(t)) => if stop == Some(t) {
                    Some(body)
                } else {
                    match self.closure_block_spec(t, stop, in_loop, act, stmts, calls) {
                        Some(x) => Some(body + x),
                        None => None,
                    }
                },
                Some(Terminator::Call { dest, next, .. }) => {
                    let call = if (b as int) < calls.len() {
                        calls[b as int]
                    } else {
                        None
                    };
                    match call {
                        Some(c) => match (
                            self.bind_spec(dest, c),
                            self.closure_block_spec(next, stop, in_loop, act, stmts, calls),
                        ) {
                            (Some(l), Some(x)) => Some(body + l + x),
                            _ => None,
                        },
                        None => None,
                    }
                },
                Some(Terminator::Await { future, dest, next }) => {
                    let awaited = if future.kind is Const {
                        future.text@
                    } else {
                        future.place_text@
                    };
                    match (
                        self.bind_spec(dest, awaited + ".await"@),
                        self.closure_block_spec(next, stop, in_loop, act, stmts, calls),
                    ) {
                        (Some(l), Some(x)) => Some(body + l + x),
                        _ => None,
                    }
                },
                Some(Terminator::Match { scrutinee_text, arms, default, join }) => match self.closure_match_spec(
                    scrutinee_text@,
                    arms@,
                    default,
                    join,
                    stop,
                    in_loop,
                    act,
                    stmts,
                    calls,
                ) {
                    Some(m) => Some(body + m),
                    None => None,
                },
                Some(Terminator::Throw(op)) => Some(body + throw_line(op.text@)),
                Some(Terminator::Unreachable) => Some(body + "    unreachable!()\n"@),
                Some(_) => None,
            }
        }
    }
    /// The `match` a multi-way branch becomes: every arm and the default run
    /// up to the join block, which follows the `match` and runs up to `stop`.
    pub open spec fn closure_match_spec(
        &self,
        scrutinee_text: Seq<char>,
        arms: Seq<MatchArm>,
        default: Option<usize>,
        join: Option<usize>,
        stop: Option<usize>,
        in_loop: bool,
        act: Seq<usize>,
        stmts: Seq<Seq<char>>,
        calls: Seq<Option<Seq<char>>>,
    ) -> Option<Seq<char>>
        decreases self.function.blocks.len() - act.len() + 1, 1nat, 0nat,
    {
        if act.len() > self.function.blocks.len() {
            None
        } else {
            let d = match default {
                Some(d) => match self.closure_block_spec(d, join, in_loop, act, stmts, calls) {
                    Some(x) => Some("        _ => {\n"@ + x + "        }\n"@),
                    None => None,
                },
                None => Some("        _ => {}\n"@),
            };
            let j = match join {
                Some(j) => self.closure_block_spec(j, stop, in_loop, act, stmts, calls),
                None => Some(Seq::empty()),
            };
            match (self.closure_arms_spec(arms, arms.len(), join, in_loop, act, stmts, calls), d, j) {
                (Some(a), Some(d), Some(j)) => Some(
                    "    match "@ + scrutinee_text + " {\n"@ + a + d + (if join is Some {
                        "    };\n"@
                    } else {
                        "    }\n"@
                    }) + j,
                ),
                _ => None,
            }
        }
    }

    /// The text of the first `k` arms of a multi-way branch, each emitted up
    /// to the join block.
    pub open spec fn closure_arms_spec(
        &self,
        arms: Seq<MatchArm>,
        k: nat,
        join: Option<usize>,
        in_loop: bool,
        act: Seq<usize>,
        stmts: Seq<Seq<char>>,
        calls: Seq<Option<Seq<char>>>,
    ) -> Option<Seq<char>>
        decreases self.function.blocks.len() - act.len() + 1, 0nat, k,
    {
        if k == 0 {
            Some(Seq::empty())
        } else if act.len() > self.function.blocks.len() || k > arms.len() {
            None
        } else {
            match (
                self.closure_arms_spec(arms, (k - 1) as nat, join, in_loop, act, stmts, calls),
                self.closure_block_spec(arms[k - 1].target, join, in_loop, act, stmts, calls),
            ) {
                (Some(p), Some(x)) => Some(p + "        "@ + arms[k - 1].label_text@ + " => {\n"@ + x + "        }\n"@),
                _ => None,
            }
        }
    }

    /// A failed arm fails every longer prefix of the arms.
    pub proof fn lemma_arms_none(
        &self,
        arms: Seq<MatchArm>,
        k: nat,
        m: nat,
        join: Option<usize>,
        in_loop: bool,
        act: Seq<usize>,
        stmts: Seq<Seq<char>>,
        calls: Seq<Option<Seq<char>>>,
    )
        requires
            k <= m,
            self.closure_arms_spec(arms, k, join, in_loop, act, stmts, calls) is None,
        ensures
            self.closure_arms_spec(arms, m, join, in_loop, act, stmts, calls) is None,
        decreases m - k,
    {
        if k < m {
            self.lemma_arms_none(arms, k, (m - 1) as nat, join, in_loop, act, stmts, calls);
        }
    }

    /// The type a returned operand is coerced to: the declared return type,
    /// or the item of a declared future when the operand is a resolved value.
    pub open spec fn closure_return_ty(&self, op: Operand) -> usize {
        let ret = self.function.return_ty;
        match self.ty(ret) {
            Some(Type::Future(item)) => if self.ty(op.ty) matches Some(Type::Future(_)) {
                ret
            } else {
                item
            },
            _ => ret,
        }
    }

    /// The lines of an explicit `return` of `op` from the closure body.
    pub open spec fn closure_return_spec(&self, op: Operand) -> Option<Seq<char>> {
        if self.function.return_ty == self.none_ty {
            let discard = if !(op.kind matches OperandKind::Const(Constant::Null)) && op.ty != self.none_ty {
                "    "@ + op.text@ + ";\n"@
            } else {
                Seq::empty()
            };
            let tail = if self.function.can_throw {
                "    return Ok::<(), Box<dyn std::error::Error>>(());\n"@
            } else {
                "    return ();\n"@
            };
            Some(discard + tail)
        } else {
            let rt = self.closure_return_ty(op);
            match self.vat_op_spec(op, rt) {
                Some(v) => if self.function.can_throw {
                    match self.rust_text(rt) {
                        Some(t) => Some(
                            "    return Ok::<"@ + t + ", Box<dyn std::error::Error>>("@ + v + ");\n"@,
                        ),
                        None => None,
                    }
                } else {
                    Some("    return "@ + v + ";\n"@)
                },
                None => None,
            }
        }
    }

    /// Emits the explicit `return` of `operand` that leaves a closure body
    /// from inside a generated loop: a discarded value is evaluated and the
    /// unit returned, any other is coerced to the declared return type, or to
    /// the item of a declared future when the operand is already resolved,
    /// and wrapped in `Ok` when the body can throw. On an error nothing is
    /// written.
    pub fn emit_closure_return_statement(&self, operand: &Operand, out: &mut String) -> (r: Result<
        (),
        EmitError,
    >)
        requires
            self.wf(),
        ensures
            r is Ok ==> (self.closure_return_spec(*operand) matches Some(t) && final(out)@ == old(out)@ + t),
            r is Err ==> self.closure_return_spec(*operand) is None && final(out)@ == old(out)@,
    {
        if self.function.return_ty == self.none_ty {
            let is_null = match &operand.kind {
                OperandKind::Const(Constant::Null) => true,
                _ => false,
            };
            let mut lines = String::new();
            if !is_null && operand.ty != self.none_ty {
                lines.append("    ");
                lines.append(operand.text.as_str());
                lines.append(";\n");
            }
            if self.function.can_throw {
                lines.append("    return Ok::<(), Box<dyn std::error::Error>>(());\n");
            } else {
                lines.append("    return ();\n");
            }
            out.append(lines.as_str());
            return Ok(());
        }
        let operand_is_future = match self.type_at(operand.ty) {
            Some(Type::Future(_)) => true,
            _ => false,
        };
        let return_ty = match self.type_at(self.function.return_ty) {
            Some(Type::Future(item)) => if operand_is_future {
                self.function.return_ty
            } else {
                *item
            },
            _ => self.function.return_ty,
        };
        let value = self.value_at_type(operand, return_ty)?;
        let line = if self.function.can_throw {
            let t = self.rust_type_text(return_ty)?;
            let mut s = wrap("    return Ok::<", t.as_str(), ", Box<dyn std::error::Error>>(");
            s.append(value.as_str());
            s.append(");\n");
            s
        } else {
            wrap("    return ", value.as_str(), ";\n")
        };
        out.append(line.as_str());
        Ok(())
    }

    /// The parameter types of the contextual function type `dest` beyond
    /// the closure's own parameters: the closure takes one ignored parameter
    /// of each, since a callback may accept fewer arguments than it is
    /// called with.
    pub open spec fn extra_param_tys_spec(&self, closure: MirClosure, dest: usize) -> Seq<usize> {
        match self.ty(dest) {
            Some(Type::Function(f)) => if closure.params.len() <= f.params.len() {
                f.params@.skip(closure.params.len() as int)
            } else {
                Seq::empty()
            },
            _ => Seq::empty(),
        }
    }

    /// The parameter types of the contextual function type `dest` at the
    /// closure's own parameters.
    pub open spec fn target_param_tys_spec(&self, closure: MirClosure, dest: usize) -> Seq<usize> {
        match self.ty(dest) {
            Some(Type::Function(f)) => f.params@.take(
                if closure.params.len() <= f.params.len() {
                    closure.params.len() as int
                } else {
                    f.params.len() as int
                },
            ),
            _ => Seq::empty(),
        }
    }

    /// Returns the parameter types of the contextual function type `dest_ty`
    /// beyond the closure's own parameters, one ignored parameter each.
    pub fn closure_extra_param_tys(&self, closure: &MirClosure, dest_ty: usize) -> (r: Vec<usize>)
        ensures
            r@ == self.extra_param_tys_spec(*closure, dest_ty),
    {
        let mut out: Vec<usize> = Vec::new();
        if let Some(Type::Function(f)) = self.type_at(dest_ty) {
            let mut i: usize = closure.params.len();
            if i > f.params.len() {
                return out;
            }
            let start = i;
            while i < f.params.len()
                invariant
                    start == closure.params.len(),
                    start <= i <= f.params.len(),
                    out@ =~= f.params@.subrange(start as int, i as int),
                decreases f.params.len() - i,
            {
                out.push(f.params[i]);
                i = i + 1;
            }
            assert(f.params@.skip(start as int) =~= f.params@.subrange(start as int, f.params.len() as int));
        }
        out
    }

    /// Returns the parameter types of the contextual function type `dest_ty`
    /// at the closure's own parameters.
    pub fn closure_target_param_tys(&self, closure: &MirClosure, dest_ty: usize) -> (r: Vec<usize>)
        ensures
            r@ == self.target_param_tys_spec(*closure, dest_ty),
    {
        let mut out: Vec<usize> = Vec::new();
        if let Some(Type::Function(f)) = self.type_at(dest_ty) {
            let n = if closure.params.len() <= f.params.len() {
                closure.params.len()
            } else {
                f.params.len()
            };
            let mut i: usize = 0;
            while i < n
                invariant
                    n <= f.params.len(),
                    i <= n,
                    out@ =~= f.params@.take(i as int),
                decreases n - i,
            {
                out.push(f.params[i]);
                i = i + 1;
            }
        }
        out
    }


    fn closure_tail_text(&self, operand: &Operand) -> (r: Result<String, EmitError>)
        requires
            self.wf(),
        ensures
            r matches Ok(t) ==> self.closure_tail_spec(*operand) == Some(t@),
            r is Err <==> self.closure_tail_spec(*operand) is None,
    {
        if self.function.return_ty == self.none_ty {
            let is_null = match &operand.kind {
                OperandKind::Const(Constant::Null) => true,
                _ => false,
            };
            let mut lines = String::new();
            if !is_null && operand.ty != self.none_ty {
                lines.append("    ");
                lines.append(operand.text.as_str());
                lines.append(";\n");
            }
            if self.function.can_throw {
                lines.append("    Ok::<(), Box<dyn std::error::Error>>(())\n");
            } else {
                lines.append("    ()\n");
            }
            return Ok(lines);
        }
        let operand_is_future = match self.type_at(operand.ty) {
            Some(Type::Future(_)) => true,
            _ => false,
        };
        let return_ty = match self.type_at(self.function.return_ty) {
            Some(Type::Future(item)) => if operand_is_future {
                self.function.return_ty
            } else {
                *item
            },
            _ => self.function.return_ty,
        };
        let value = self.value_at_type(operand, return_ty)?;
        if self.function.can_throw {
            let t = self.rust_type_text(return_ty)?;
            let mut s = wrap("    Ok::<", t.as_str(), ", Box<dyn std::error::Error>>(");
            s.append(value.as_str());
            s.append(")\n");
            Ok(s)
        } else {
            Ok(wrap("    ", value.as_str(), "\n"))
        }
    }

    fn bind_text(&self, dest: usize, value: &str) -> (r: Result<String, EmitError>)
        ensures
            r matches Ok(t) ==> self.bind_spec(dest, value@) == Some(t@),
            r is Err <==> self.bind_spec(dest, value@) is None,
    {
        let decl = self.local_decl(dest)?;
        let t = self.rust_type_text(decl.ty)?;
        let mut s = wrap("    let ", decl.name.as_str(), ": ");
        s.append(t.as_str());
        s.append(" = ");
        s.append(value);
        s.append(";\n");
        Ok(s)
    }

    fn closure_block_at(
        &self,
        b: usize,
        stop: Option<usize>,
        in_loop: bool,
        active: &mut Vec<usize>,
        stmt_texts: &Vec<String>,
        call_texts: &Vec<Option<String>>,
    ) -> (r: Result<String, EmitError>)
        requires
            self.wf(),
        ensures
            final(active)@ == old(active)@,
            r matches Ok(t) ==> self.closure_block_spec(b, stop, in_loop, old(active)@, views(stmt_texts@), opt_views(call_texts@)) == Some(t@),
            r is Err <==> self.closure_block_spec(b, stop, in_loop, old(active)@, views(stmt_texts@), opt_views(call_texts@)) is None,
        decreases self.function.blocks.len() - old(active)@.len(), 2nat,
    {
        let ghost stmts = views(stmt_texts@);
        let ghost calls = opt_views(call_texts@);
        if stop == Some(b) {
            return Ok(String::new());
        }
        if seq_has(active, b) {
            return Ok(String::from_str("    panic!(\"recursive closure control flow is not structured yet\")\n"));
        }
        let n = self.function.blocks.len();
        if b >= n || active.len() >= n || b >= stmt_texts.len() {
            return Err(EmitError::new("closure block is not in the closure body"));
        }
        let ghost start = active@;
        active.push(b);
        let ghost act = active@;
        let body = stmt_texts[b].as_str();
        proof {
            assert(stmts[b as int] == body@);
        }
        let result: Result<String, EmitError> = match &self.function.blocks[b].terminator {
            None => Err(EmitError::new("closure basic block has no terminator")),
            Some(Terminator::Switch { cond, then_block, else_block }) => {
                let mut visited: Vec<usize> = Vec::new();
                let loops = self.block_can_reach(*then_block, b, &mut visited);
                proof {
                    assert(Seq::<usize>::empty().to_set() =~= Set::<usize>::empty());
                }
                if loops {
                    match self.closure_block_at(*then_block, Some(b), true, active, stmt_texts, call_texts) {
                        Ok(x) => match self.closure_block_at(*else_block, Some(b), true, active, stmt_texts, call_texts) {
                            Ok(y) => {
                                let mut s = wrap("    loop {\n", body, "    if ");
                                s.append(cond.truthy_text.as_str());
                                s.append(" {\n");
                                s.append(x.as_str());
                                s.append("    } else {\n");
                                s.append(y.as_str());
                                s.append("    }\n");
                                s.append("    }\n");
                                Ok(s)
                            },
                            Err(e) => Err(e),
                        },
                        Err(e) => Err(e),
                    }
                } else {
                    match self.closure_block_at(*then_block, stop, in_loop, active, stmt_texts, call_texts) {
                        Ok(x) => match self.closure_block_at(*else_block, stop, in_loop, active, stmt_texts, call_texts) {
                            Ok(y) => {
                                let mut s = wrap(body, "    if ", cond.truthy_text.as_str());
                                s.append(" {\n");
                                s.append(x.as_str());
                                s.append("    } else {\n");
                                s.append(y.as_str());
                                s.append("    }\n");
                                Ok(s)
                            },
                            Err(e) => Err(e),
                        },
                        Err(e) => Err(e),
                    }
                }
            },
            Some(Terminator::Return(op)) => {
                let t = if in_loop {
                    let mut lines = String::new();
                    match self.emit_closure_return_statement(op, &mut lines) {
                        Ok(()) => Ok(lines),
                        Err(e) => Err(e),
                    }
                } else {
                    self.closure_tail_text(op)
                };
                match t {
                    Ok(t) => Ok(cat(body, t.as_str())),
                    Err(e) => Err(e),
                }
            },
            Some(Terminator::Goto(t)) => {
                if stop == Some(*t) {
                    Ok(String::from_str(body))
                } else {
                    match self.closure_block_at(*t, stop, in_loop, active, stmt_texts, call_texts) {
                        Ok(x) => Ok(cat(body, x.as_str())),
                        Err(e) => Err(e),
                    }
                }
            },
            Some(Terminator::Call { dest, next, .. }) => {
                let call: Option<&String> = if b < call_texts.len() {
                    match &call_texts[b] {
                        Some(c) => Some(c),
                        None => None,
                    }
                } else {
                    None
                };
                proof {
                    if (b as int) < calls.len() {
                        assert(calls[b as int] == match call_texts@[b as int] {
                            Some(c) => Some(c@),
                            None => None::<Seq<char>>,
                        });
                    }
                }
                match call {
                    Some(c) => match self.bind_text(*dest, c.as_str()) {
                        Ok(l) => match self.closure_block_at(*next, stop, in_loop, active, stmt_texts, call_texts) {
                            Ok(x) => Ok(wrap(body, l.as_str(), x.as_str())),
                            Err(e) => Err(e),
                        },
                        Err(e) => Err(e),
                    },
                    None => Err(EmitError::new("closure call has no rendered call")),
                }
            },
            Some(Terminator::Await { future, dest, next }) => {
                let mut awaited = self.await_operand_text(future);
                awaited.append(".await");
                match self.bind_text(*dest, awaited.as_str()) {
                    Ok(l) => match self.closure_block_at(*next, stop, in_loop, active, stmt_texts, call_texts) {
                        Ok(x) => Ok(wrap(body, l.as_str(), x.as_str())),
                        Err(e) => Err(e),
                    },
                    Err(e) => Err(e),
                }
            },
            Some(Terminator::Match { scrutinee_text, arms, default, join }) => {
                match self.closure_match_at(scrutinee_text, arms, *default, *join, stop, in_loop, active, stmt_texts, call_texts) {
                    Ok(m) => Ok(cat(body, m.as_str())),
                    Err(e) => Err(e),
                }
            },
            Some(Terminator::Throw(op)) => {
                let mut s = wrap(body, "    return Err::<_, Box<dyn std::error::Error>>(std::io::Error::new(std::io::ErrorKind::Other, format!(\"{}\", ", op.text.as_str());
                s.append(")).into());\n");
                Ok(s)
            },
            Some(Terminator::Unreachable) => Ok(cat(body, "    unreachable!()\n")),
            Some(_) => Err(EmitError::new("closure basic block has an unknown terminator")),
        };
        active.pop();
        proof {
            assert(active@ =~= start);
        }
        result
    }

    fn closure_match_at(
        &self,
        scrutinee_text: &String,
        arms: &Vec<MatchArm>,
        default: Option<usize>,
        join: Option<usize>,
        stop: Option<usize>,
        in_loop: bool,
        active: &mut Vec<usize>,
        stmt_texts: &Vec<String>,
        call_texts: &Vec<Option<String>>,
    ) -> (r: Result<String, EmitError>)
        requires
            self.wf(),
            old(active)@.len() <= self.function.blocks.len(),
        ensures
            final(active)@ == old(active)@,
            r matches Ok(t) ==> self.closure_match_spec(scrutinee_text@, arms@, default, join, stop, in_loop, old(active)@, views(stmt_texts@), opt_views(call_texts@)) == Some(t@),
            r is Err <==> self.closure_match_spec(scrutinee_text@, arms@, default, join, stop, in_loop, old(active)@, views(stmt_texts@), opt_views(call_texts@)) is None,
        decreases self.function.blocks.len() - old(active)@.len() + 1, 1nat,
    {
        let a = self.closure_arms_at(arms, join, in_loop, active, stmt_texts, call_texts)?;
        let d = match default {
            Some(d) => {
                let x = self.closure_block_at(d, join, in_loop, active, stmt_texts, call_texts)?;
                wrap("        _ => {\n", x.as_str(), "        }\n")
            },
            None => String::from_str("        _ => {}\n"),
        };
        let j = match join {
            Some(j) => self.closure_block_at(j, stop, in_loop, active, stmt_texts, call_texts)?,
            None => String::new(),
        };
        let mut s = wrap("    match ", scrutinee_text.as_str(), " {\n");
        s.append(a.as_str());
        s.append(d.as_str());
        if join.is_some() {
            s.append("    };\n");
        } else {
            s.append("    }\n");
        }
        s.append(j.as_str());
        Ok(s)
    }

    fn closure_arms_at(
        &self,
        arms: &Vec<MatchArm>,
        join: Option<usize>,
        in_loop: bool,
        active: &mut Vec<usize>,
        stmt_texts: &Vec<String>,
        call_texts: &Vec<Option<String>>,
    ) -> (r: Result<String, EmitError>)
        requires
            self.wf(),
            old(active)@.len() <= self.function.blocks.len(),
        ensures
            final(active)@ == old(active)@,
            r matches Ok(t) ==> self.closure_arms_spec(arms@, arms.len() as nat, join, in_loop, old(active)@, views(stmt_texts@), opt_views(call_texts@)) == Some(t@),
            r is Err <==> self.closure_arms_spec(arms@, arms.len() as nat, join, in_loop, old(active)@, views(stmt_texts@), opt_views(call_texts@)) is None,
        decreases self.function.blocks.len() - old(active)@.len() + 1, 0nat,
    {
        let ghost start = active@;
        let ghost stmts = views(stmt_texts@);
        let ghost calls = opt_views(call_texts@);
        let mut s = String::new();
        let mut i: usize = 0;
        while i < arms.len()
            invariant
                self.wf(),
                i <= arms.len(),
                active@ == start,
                old(active)@ == start,
                start.len() <= self.function.blocks.len(),
                stmts == views(stmt_texts@),
                calls == opt_views(call_texts@),
                self.closure_arms_spec(arms@, i as nat, join, in_loop, start, stmts, calls) == Some(s@),
            decreases arms.len() - i,
        {
            match self.closure_block_at(arms[i].target, join, in_loop, active, stmt_texts, call_texts) {
                Ok(x) => {
                    s.append("        ");
                    s.append(arms[i].label_text.as_str());
                    s.append(" => {\n");
                    s.append(x.as_str());
                    s.append("        }\n");
                },
                Err(e) => {
                    proof {
                        self.lemma_arms_none(arms@, (i + 1) as nat, arms.len() as nat, join, in_loop, start, stmts, calls);
                    }
                    return Err(e);
                },
            }
            i = i + 1;
        }
        Ok(s)
    }

    /// Emits the closure body from block `start` until block `stop`: each
    /// block's statements (`stmt_texts[b]`), then its terminator. A branch
    /// whose taken side can come back to the branch becomes a `loop`, with
    /// every return inside it explicit; a return at the end of the body is
    /// its tail; a call or await binds its destination local (`call_texts[b]`
    /// is the rendered call); a jump back into a block still being emitted
    /// panics, as unstructured control flow. A multi-way branch becomes a
    /// `match` whose arms run up to the join block, which follows the `match`.
    pub fn closure_block_text(
        &self,
        stmt_texts: &Vec<String>,
        call_texts: &Vec<Option<String>>,
        start: usize,
        stop: Option<usize>,
        in_loop: bool,
    ) -> (r: Result<String, EmitError>)
        requires
            self.wf(),
        ensures
            r matches Ok(t) ==> self.closure_block_spec(start, stop, in_loop, Seq::empty(), views(stmt_texts@), opt_views(call_texts@)) == Some(t@),
            r is Err <==> self.closure_block_spec(start, stop, in_loop, Seq::empty(), views(stmt_texts@), opt_views(call_texts@)) is None,
    {
        let mut active: Vec<usize> = Vec::new();
        self.closure_block_at(start, stop, in_loop, &mut active, stmt_texts, call_texts)
    }

}

} // verus!
