//! Closure literals: the parameter list a closure takes (re-typed to its
//! contextual function type where that dropped an optional wrapper, with
//! ignored parameters for surplus contextual arguments), the body, and the
//! synchronous, fallible or async shape the literal takes. These functions
//! run on the emitter of the closure body itself: its `function` is the
//! closure's body, its parameters named as the literal binds them.

use vstd::prelude::*;
use crate::emitter::{EmitError, FunctionEmitter};
use crate::erase::wrap;
use crate::closure_body::opt_views;
use crate::mir_queries::block_awaits;
use crate::numtext::{decimal, usize_text};
use crate::text::{join, seq_join, views};
use crate::types::Type;

verus! {

/// The error channel's type around an `Ok` type.
pub open spec fn result_of(ok: Seq<char>) -> Seq<char> {
    "Result<"@ + ok + ", Box<dyn std::error::Error>>"@
}

impl FunctionEmitter {
    /// The closure body awaits somewhere.
    pub open spec fn body_awaits(&self) -> bool {
        exists|b: int| 0 <= b < self.function.blocks.len() && block_awaits(#[trigger] self.function.blocks@[b])
    }

    /// Parameter `i` of the closure and the line rebinding it: re-typed to
    /// `target[i]` and rebound to its own type where the target is the
    /// optional of its flat type, else declared at its own type.
    pub open spec fn closure_param_spec(&self, target: Seq<usize>, i: int) -> Option<(Seq<char>, Seq<char>)> {
        let param = self.function.params@[i];
        match self.local_decl_spec(param) {
            None => None,
            Some(d) => {
                let m = if self.mutable_locals@.contains(param) {
                    "mut "@
                } else {
                    Seq::empty()
                };
                match self.rust_text(d.ty) {
                    None => None,
                    Some(lt) => if i < target.len() && self.flat_local_spec(target[i], d.ty) {
                        match (self.rust_text(target[i]), self.vat_spec(d.name@, target[i], d.ty, Seq::empty())) {
                            (Some(tt), Some(c)) => Some(
                                (d.name@ + ": "@ + tt, "let "@ + m + d.name@ + ": "@ + lt + " = "@ + c + ";\n"@),
                            ),
                            _ => None,
                        }
                    } else {
                        Some((m + d.name@ + ": "@ + lt, Seq::empty()))
                    },
                }
            },
        }
    }

    /// The first `k` parameters and their rebinding lines.
    pub open spec fn closure_params_spec(&self, target: Seq<usize>, k: nat) -> Option<(Seq<Seq<char>>, Seq<char>)>
        decreases k,
    {
        if k == 0 {
            Some((Seq::empty(), Seq::empty()))
        } else if k > self.function.params.len() {
            None
        } else {
            match (self.closure_params_spec(target, (k - 1) as nat), self.closure_param_spec(target, k - 1)) {
                (Some((ps, rb)), Some((p, r))) => Some((ps.push(p), rb + r)),
                _ => None,
            }
        }
    }

    /// The ignored parameters for the first `k` surplus contextual arguments.
    pub open spec fn extra_params_spec(&self, extra: Seq<usize>, k: nat) -> Option<Seq<Seq<char>>>
        decreases k,
    {
        if k == 0 {
            Some(Seq::empty())
        } else if k > extra.len() {
            None
        } else {
            match (self.extra_params_spec(extra, (k - 1) as nat), self.rust_text(extra[k - 1])) {
                (Some(ps), Some(t)) => Some(ps.push("_arg"@ + decimal((k - 1) as nat) + ": "@ + t)),
                _ => None,
            }
        }
    }

    /// The value an async closure's wrapper hands back from its body's value.
    pub open spec fn async_return_value_spec(&self, out: Seq<char>, erased: bool, yields: bool) -> Seq<char> {
        let ok = if erased {
            "SmeltUnknown"@
        } else {
            out
        };
        let v = if yields {
            "smelt_async_output"@
        } else if self.function.can_throw {
            "smelt_async_value?"@
        } else {
            "smelt_async_value"@
        };
        let lead = if yields && self.function.can_throw {
            "let smelt_async_output = smelt_async_value?.await; "@
        } else if yields {
            "let smelt_async_output = smelt_async_value.await?; "@
        } else {
            Seq::empty()
        };
        lead + "Ok::<"@ + ok + ", Box<dyn std::error::Error>>("@ + v + (if erased {
            ".into_smelt_unknown()"@
        } else {
            Seq::empty()
        }) + ")"@
    }

    /// An async closure literal: the body's value awaited inside an async
    /// block behind the runtime future, its captures cloned first.
    pub open spec fn async_literal_spec(&self, params: Seq<char>, body: Seq<char>, async_capture_prelude: Seq<char>) -> Option<Seq<char>> {
        let rt = self.function.return_ty;
        let output_ty = match self.ty(rt) {
            Some(Type::Future(item)) => item,
            _ => rt,
        };
        match self.rust_text(output_ty) {
            None => None,
            Some(out) => {
                let erased = self.erased_relational_spec(output_ty);
                let yields = self.yields_future_spec();
                let annotation = if self.function.can_throw && !yields {
                    ": "@ + result_of(
                        if erased {
                            "SmeltUnknown"@
                        } else {
                            out
                        },
                    )
                } else {
                    Seq::empty()
                };
                Some(
                    "|"@ + params + "| { "@ + async_capture_prelude
                        + "SmeltFuture::from_future(Box::pin(async move {\n        let smelt_async_value"@
                        + annotation + " = {\n"@ + body + "        };\n        "@
                        + self.async_return_value_spec(out, erased, yields)
                        + "\n    }) as ::std::pin::Pin<Box<dyn ::std::future::Future<Output = "@
                        + result_of(out) + ">>>) }"@,
                )
            },
        }
    }

    /// The closure literal around its parameter list and body.
    pub open spec fn literal_from_parts_spec(&self, params: Seq<char>, body: Seq<char>, async_capture_prelude: Seq<char>) -> Option<
        Seq<char>,
    > {
        let rt = self.function.return_ty;
        if (self.ty(rt) matches Some(Type::Future(_))) || self.body_awaits() {
            self.async_literal_spec(params, body, async_capture_prelude)
        } else if self.function.can_throw {
            match self.rust_text(rt) {
                Some(t) => Some("|"@ + params + "| -> "@ + result_of(t) + " {\n"@ + body + "    }"@),
                None => None,
            }
        } else {
            Some("|"@ + params + "| {\n"@ + body + "    }"@)
        }
    }

    /// The closure literal: its parameters, then its body (the rebinding
    /// lines, `mutable_preludes`, and the blocks from `entry`). A closure that
    /// returns a future or awaits becomes an async block behind the runtime
    /// future, preceded by `async_capture_prelude`; a fallible one spells its
    /// `Result` return type; any other is a plain block.
    pub open spec fn closure_literal_spec(
        &self,
        extra: Seq<usize>,
        target: Seq<usize>,
        entry: usize,
        mutable_preludes: Seq<char>,
        async_capture_prelude: Seq<char>,
        stmts: Seq<Seq<char>>,
        calls: Seq<Option<Seq<char>>>,
    ) -> Option<Seq<char>> {
        match (
            self.closure_params_spec(target, self.function.params.len() as nat),
            self.extra_params_spec(extra, extra.len()),
            self.closure_block_spec(entry, None, false, Seq::empty(), stmts, calls),
        ) {
            (Some((ps, rebinds)), Some(xs), Some(blocks)) => {
                let params = seq_join(ps + xs, ", "@);
                let body = rebinds + mutable_preludes + blocks;
                self.literal_from_parts_spec(params, body, async_capture_prelude)
            },
            _ => None,
        }
    }
    fn closure_param_text(&self, target: &Vec<usize>, i: usize) -> (r: Result<(String, String), EmitError>)
        requires
            self.wf(),
            i < self.function.params.len(),
        ensures
            r matches Ok(p) ==> self.closure_param_spec(target@, i as int) == Some((p.0@, p.1@)),
            r is Err <==> self.closure_param_spec(target@, i as int) is None,
    {
        let param = self.function.params[i];
        let d = self.local_decl(param)?;
        let needs_mut = crate::capture_analysis::seq_has(&self.mutable_locals, param);
        let m = if needs_mut {
            "mut "
        } else {
            ""
        };
        proof {
            reveal_strlit("");
        }
        let lt = self.rust_type_text(d.ty)?;
        if i < target.len() && self.optional_target_matches_flat_local(target[i], d.ty) {
            let tt = self.rust_type_text(target[i])?;
            let c = self.value_at_type_text(d.name.as_str(), target[i], d.ty)?;
            let p = wrap(d.name.as_str(), ": ", tt.as_str());
            let mut rb = wrap("let ", m, d.name.as_str());
            rb.append(": ");
            rb.append(lt.as_str());
            rb.append(" = ");
            rb.append(c.as_str());
            rb.append(";\n");
            Ok((p, rb))
        } else {
            let mut p = wrap(m, d.name.as_str(), ": ");
            p.append(lt.as_str());
            Ok((p, String::new()))
        }
    }

    /// Renders the closure literal of the closure body this emitter emits.
    /// `extra_param_tys` are the types of the surplus contextual arguments
    /// (one ignored `_argN` parameter each), `target_param_tys` the
    /// contextual types of its own parameters; `entry` is the body's first
    /// block; `mutable_preludes` the lines that bind its mutable locals;
    /// `async_capture_prelude` the lines that clone the captures an async body
    /// moves; `stmt_texts[b]` and `call_texts[b]` each block's statements and
    /// call, as `closure_block_text` takes them.
    pub fn closure_text_with_extra_params(
        &self,
        extra_param_tys: &Vec<usize>,
        target_param_tys: &Vec<usize>,
        entry: usize,
        mutable_preludes: &str,
        async_capture_prelude: &str,
        stmt_texts: &Vec<String>,
        call_texts: &Vec<Option<String>>,
    ) -> (r: Result<String, EmitError>)
        requires
            self.wf(),
        ensures
            r matches Ok(t) ==> self.closure_literal_spec(extra_param_tys@, target_param_tys@, entry, mutable_preludes@, async_capture_prelude@, views(stmt_texts@), opt_views(call_texts@)) == Some(t@),
            r is Err <==> self.closure_literal_spec(extra_param_tys@, target_param_tys@, entry, mutable_preludes@, async_capture_prelude@, views(stmt_texts@), opt_views(call_texts@)) is None,
    {
        let (mut params, rebinds) = self.closure_params_text(target_param_tys)?;
        let extras = self.extra_params_text(extra_param_tys)?;
        let ghost ps = views(params@);
        let mut k: usize = 0;
        while k < extras.len()
            invariant
                k <= extras.len(),
                views(params@) =~= ps + views(extras@).take(k as int),
            decreases extras.len() - k,
        {
            let ghost before = views(params@);
            params.push(extras[k].clone());
            assert(views(extras@).take(k + 1) =~= views(extras@).take(k as int).push(extras@[k as int]@));
            assert(views(params@) =~= before.push(extras@[k as int]@));
            k = k + 1;
        }
        assert(views(extras@).take(extras.len() as int) =~= views(extras@));
        let block_text = self.closure_block_text(stmt_texts, call_texts, entry, None, false)?;
        let params_text = join(&params, ", ");
        let mut body = rebinds;
        body.append(mutable_preludes);
        body.append(block_text.as_str());
        self.literal_from_parts(params_text.as_str(), body.as_str(), async_capture_prelude)
    }

    fn literal_from_parts(&self, params_text: &str, body: &str, async_capture_prelude: &str) -> (r: Result<String, EmitError>)
        ensures
            r matches Ok(t) ==> self.literal_from_parts_spec(params_text@, body@, async_capture_prelude@) == Some(t@),
            r is Err <==> self.literal_from_parts_spec(params_text@, body@, async_capture_prelude@) is None,
    {
        let rt = self.function.return_ty;
        let output_ty = match self.type_at(rt) {
            Some(Type::Future(item)) => Some(*item),
            _ => None,
        };
        if output_ty.is_some() || self.closure_body_awaits() {
            self.async_literal_text(params_text, body, async_capture_prelude)
        } else if self.function.can_throw {
            let t = self.rust_type_text(rt)?;
            let mut s = wrap("|", params_text, "| -> ");
            s.append("Result<");
            s.append(t.as_str());
            s.append(", Box<dyn std::error::Error>>");
            s.append(" {\n");
            s.append(body);
            s.append("    }");
            Ok(s)
        } else {
            let mut s = wrap("|", params_text, "| {\n");
            s.append(body);
            s.append("    }");
            Ok(s)
        }
    }

    fn closure_params_text(&self, target_param_tys: &Vec<usize>) -> (r: Result<(Vec<String>, String), EmitError>)
        requires
            self.wf(),
        ensures
            r matches Ok(p) ==> self.closure_params_spec(target_param_tys@, self.function.params.len() as nat) == Some((views(p.0@), p.1@)),
            r is Err <==> self.closure_params_spec(target_param_tys@, self.function.params.len() as nat) is None,
    {
        let mut params: Vec<String> = Vec::new();
        let mut rebinds = String::new();
        let mut i: usize = 0;
        while i < self.function.params.len()
            invariant
                self.wf(),
                i <= self.function.params.len(),
                self.closure_params_spec(target_param_tys@, i as nat) == Some((views(params@), rebinds@)),
            decreases self.function.params.len() - i,
        {
            match self.closure_param_text(target_param_tys, i) {
                Ok((p, rb)) => {
                    let ghost before = views(params@);
                    params.push(p);
                    rebinds.append(rb.as_str());
                    assert(views(params@) =~= before.push(p@));
                },
                Err(e) => {
                    proof {
                        self.lemma_params_none(target_param_tys@, (i + 1) as nat, self.function.params.len() as nat);
                    }
                    return Err(e);
                },
            }
            i = i + 1;
        }
        Ok((params, rebinds))
    }

    fn extra_params_text(&self, extra_param_tys: &Vec<usize>) -> (r: Result<Vec<String>, EmitError>)
        ensures
            r matches Ok(p) ==> self.extra_params_spec(extra_param_tys@, extra_param_tys.len() as nat) == Some(views(p@)),
            r is Err <==> self.extra_params_spec(extra_param_tys@, extra_param_tys.len() as nat) is None,
    {
        let mut params: Vec<String> = Vec::new();
        let mut k: usize = 0;
        while k < extra_param_tys.len()
            invariant
                k <= extra_param_tys.len(),
                self.extra_params_spec(extra_param_tys@, k as nat) == Some(views(params@)),
            decreases extra_param_tys.len() - k,
        {
            match self.rust_type_text(extra_param_tys[k]) {
                Ok(t) => {
                    let ghost before = views(params@);
                    let mut p = wrap("_arg", usize_text(k).as_str(), ": ");
                    p.append(t.as_str());
                    params.push(p);
                    assert(views(params@) =~= before.push(p@));
                },
                Err(e) => {
                    proof {
                        self.lemma_extra_none(extra_param_tys@, (k + 1) as nat, extra_param_tys.len() as nat);
                    }
                    return Err(e);
                },
            }
            k = k + 1;
        }
        Ok(params)
    }

    fn async_return_value_text(&self, ok_text: &str, erased: bool, yields: bool) -> (r: String)
        requires
            erased ==> ok_text@ == "SmeltUnknown"@,
        ensures
            forall|out: Seq<char>| (!erased ==> out == ok_text@) ==> r@ == self.async_return_value_spec(out, erased, yields),
    {
        let mut rv = if yields {
            if self.function.can_throw {
                String::from_str("let smelt_async_output = smelt_async_value?.await; ")
            } else {
                String::from_str("let smelt_async_output = smelt_async_value.await?; ")
            }
        } else {
            String::new()
        };
        rv.append("Ok::<");
        rv.append(ok_text);
        rv.append(", Box<dyn std::error::Error>>(");
        if yields {
            rv.append("smelt_async_output");
        } else if self.function.can_throw {
            rv.append("smelt_async_value?");
        } else {
            rv.append("smelt_async_value");
        }
        if erased {
            rv.append(".into_smelt_unknown()");
        }
        rv.append(")");
        rv
    }

    fn async_literal_text(&self, params_text: &str, body: &str, async_capture_prelude: &str) -> (r: Result<String, EmitError>)
        ensures
            r matches Ok(t) ==> self.async_literal_spec(params_text@, body@, async_capture_prelude@) == Some(t@),
            r is Err <==> self.async_literal_spec(params_text@, body@, async_capture_prelude@) is None,
    {
        let rt = self.function.return_ty;
        let output_ty = match self.type_at(rt) {
            Some(Type::Future(item)) => *item,
            _ => rt,
        };
        let out = self.rust_type_text(output_ty)?;
        let erased = self.callee_is_dynamically_dispatched(output_ty);
        let yields = self.closure_yields_future_value()?;
        let ok_text = if erased {
            "SmeltUnknown"
        } else {
            out.as_str()
        };
        let annotation = if self.function.can_throw && !yields {
            let mut a = wrap(": ", "Result<", ok_text);
            a.append(", Box<dyn std::error::Error>>");
            a
        } else {
            String::new()
        };
        let rv = self.async_return_value_text(ok_text, erased, yields);
        let mut s = wrap("|", params_text, "| { ");
        s.append(async_capture_prelude);
        s.append("SmeltFuture::from_future(Box::pin(async move {\n        let smelt_async_value");
        s.append(annotation.as_str());
        s.append(" = {\n");
        s.append(body);
        s.append("        };\n        ");
        s.append(rv.as_str());
        s.append("\n    }) as ::std::pin::Pin<Box<dyn ::std::future::Future<Output = ");
        s.append("Result<");
        s.append(out.as_str());
        s.append(", Box<dyn std::error::Error>>");
        s.append(">>>) }");
        Ok(s)
    }

    proof fn lemma_params_none(&self, target: Seq<usize>, k: nat, m: nat)
        requires
            k <= m,
            self.closure_params_spec(target, k) is None,
        ensures
            self.closure_params_spec(target, m) is None,
        decreases m - k,
    {
        if k < m {
            self.lemma_params_none(target, k, (m - 1) as nat);
        }
    }

    proof fn lemma_extra_none(&self, extra: Seq<usize>, k: nat, m: nat)
        requires
            k <= m,
            self.extra_params_spec(extra, k) is None,
        ensures
            self.extra_params_spec(extra, m) is None,
        decreases m - k,
    {
        if k < m {
            self.lemma_extra_none(extra, k, (m - 1) as nat);
        }
    }
}

} // verus!
