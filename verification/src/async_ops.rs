//! Runtime-backed async operations: promise combinators, timers, the
//! `Promise` constructor and its continuations, task spawning and HTTP
//! fetches.

use vstd::prelude::*;
use crate::emitter::{EmitError, FunctionEmitter};
use crate::erase::wrap;
use crate::mir::Operand;
use crate::numtext::{decimal, usize_text};
use crate::text::{join, seq_join, views, wrap_each, wrapped_each};
use crate::types::{ClassKind, FunctionType, Template, Type};
use crate::value_at_type::suffixed;

verus! {

/// The async operations the runtime implements.
pub enum AsyncOp {
    All,
    AllSettled,
    Race,
    ExitDrain,
    Sleep,
    Resolve,
    Reject,
    SetTimeout,
    ClearTimeout,
    SetInterval,
    ClearInterval,
    Promise,
    Then,
    Catch,
    SpawnLocal,
    CreateTask,
    WaitFor,
    HttpFetch,
    HttpGetText,
}

/// The runtime's names for the helpers async code calls, and the text other
/// parts of the code generator render for it.
pub struct RuntimeNames {
    pub sleep_ms: String,
    pub set_timeout: String,
    pub clear_timeout: String,
    pub set_interval: String,
    pub clear_interval: String,
    pub promise_race: String,
    pub run_until_exit: String,
    pub spawn_promise_task: String,
    /// The adapter a thrown value enters the error channel through.
    pub throw_fn: String,
    /// The error payload of a rejection with no reason.
    pub undefined_thrown_payload: String,
    /// The full HTTP client call of `fetch(request)`, around the request's
    /// text.
    pub fetch_request: Template,
    /// The fallible parser `JSON.parse` calls.
    pub json_parse: String,
    /// The fallible decoder `decodeURI` calls.
    pub decode_uri: String,
    /// The fallible decoder `decodeURIComponent` calls.
    pub decode_uri_component: String,
}

/// The text an awaited operand is read by: a constant's value, a place
/// without its clone.
pub open spec fn await_text_spec(op: Operand) -> Seq<char> {
    if op.kind is Const {
        op.text@
    } else {
        op.place_text@
    }
}

/// The erased callable probe that calls a timer callback held as
/// `SmeltUnknown`.
pub open spec fn erased_timer_call(extra: bool) -> Seq<char> {
    "{ let smelt_function_value = smelt_timer_callback.clone(); let smelt_callable = match smelt_function_value { SmeltUnknown::Function(smelt_function) => Some(smelt_function), SmeltUnknown::Object(smelt_object) => match smelt_object.get(\"__smelt_call\") { Some(SmeltUnknown::Function(smelt_function)) => Some(smelt_function.clone()), _ => None }, _ => None }; if let Some(smelt_function) = smelt_callable { (smelt_function)("@
        + (if extra {
        "smelt_timer_args.clone()"@
    } else {
        "Vec::new()"@
    })
        + ").map(|_| ()) } else { Err(std::io::Error::new(std::io::ErrorKind::Other, \"timer callback is not callable\").into()) } }"@
}

/// The erased callable probe that calls a promise continuation held as
/// `SmeltUnknown` with `arg`.
pub open spec fn erased_continuation_call(callee: Seq<char>, arg: Seq<char>) -> Seq<char> {
    "{ let smelt_callable = match ("@ + callee
        + ").clone() { SmeltUnknown::Function(smelt_function) => Some(smelt_function), SmeltUnknown::Object(smelt_object) => match smelt_object.get(\"__smelt_call\") { Some(SmeltUnknown::Function(smelt_function)) => Some(smelt_function), _ => None }, _ => None }; match smelt_callable { Some(smelt_function) => (smelt_function)(vec![IntoSmeltUnknown::into_smelt_unknown("@
        + arg + ")]).unwrap_or_else(|error| smelt_panic_throw(error)), None => { let _ = "@ + arg
        + "; SmeltUnknown::Undefined } } }"@
}

/// The argument vector a statically typed timer callback reads from.
pub open spec fn timer_source(extra: bool) -> Seq<char> {
    if extra {
        "smelt_timer_args"@
    } else {
        "smelt_timer_args_empty"@
    }
}

/// The empty argument vector bound when the timer forwards nothing.
pub open spec fn timer_prelude(extra: bool) -> Seq<char> {
    if extra {
        Seq::empty()
    } else {
        "let smelt_timer_args_empty: Vec<SmeltUnknown> = Vec::new(); "@
    }
}

/// `{ prelude let _ = call; Ok(()) }`.
pub open spec fn discard_call(prelude: Seq<char>, call: Seq<char>) -> Seq<char> {
    "{ "@ + prelude + "let _ = "@ + call + "; Ok::<(), Box<dyn std::error::Error>>(()) }"@
}

impl FunctionEmitter {
    /// The form in which parameter `k` of a callback of function type `ty`
    /// receives an owned argument.
    pub open spec fn callback_arg_form(&self, ty: usize, k: int) -> Option<Template> {
        match self.fact(ty) {
            Some(f) => if 0 <= k < f.callback_arg_forms.len() {
                Some(f.callback_arg_forms@[k])
            } else {
                None
            },
            None => None,
        }
    }

    pub open spec fn callback_param_by_ref(&self, ty: usize) -> bool {
        self.fact(ty) matches Some(f) && f.callback_param_by_ref
    }

    /// The argument passed to parameter `k` of a statically typed timer
    /// callback, read from the forwarded vector `src`.
    pub open spec fn timer_arg_spec(
        &self,
        src: Seq<char>,
        f: FunctionType,
        k: nat,
        unknown: usize,
        unknown_list: usize,
    ) -> Option<Seq<char>> {
        if f.rest == Some(k as usize) {
            self.vat_spec(
                "SmeltList::from("@ + src + ".iter().skip("@ + decimal(k)
                    + ").cloned().collect::<Vec<_>>())"@,
                unknown_list,
                f.params@[k as int],
                Seq::empty(),
            )
        } else {
            self.vat_spec(
                src + ".get("@ + decimal(k) + ").cloned().unwrap_or(SmeltUnknown::Undefined)"@,
                unknown,
                f.params@[k as int],
                Seq::empty(),
            )
        }
    }

    /// The arguments of the first `n` parameters.
    pub open spec fn timer_args_n(
        &self,
        src: Seq<char>,
        f: FunctionType,
        n: nat,
        unknown: usize,
        unknown_list: usize,
    ) -> Option<Seq<Seq<char>>>
        decreases n,
    {
        if n == 0 {
            Some(Seq::empty())
        } else {
            match (
                self.timer_args_n(src, f, (n - 1) as nat, unknown, unknown_list),
                self.timer_arg_spec(src, f, (n - 1) as nat, unknown, unknown_list),
            ) {
                (Some(done), Some(t)) => Some(done.push(t)),
                _ => None,
            }
        }
    }

    proof fn lemma_timer_args_none(
        &self,
        src: Seq<char>,
        f: FunctionType,
        a: nat,
        b: nat,
        unknown: usize,
        unknown_list: usize,
    )
        requires
            a <= b,
            self.timer_args_n(src, f, a, unknown, unknown_list) is None,
        ensures
            self.timer_args_n(src, f, b, unknown, unknown_list) is None,
        decreases b - a,
    {
        if a < b {
            self.lemma_timer_args_none(src, f, a, (b - 1) as nat, unknown, unknown_list);
        }
    }

    /// The direct call of a statically typed timer callback of type `ty`.
    pub open spec fn timer_typed_spec(&self, ty: usize, f: FunctionType, extra: bool) -> Option<
        Seq<char>,
    > {
        match self.find_interned(Type::Unknown) {
            None => None,
            Some(u) => match self.find_interned(Type::List(u)) {
                None => None,
                Some(ul) => {
                    let prelude = timer_prelude(extra);
                    if self.erased_rest_function(ty) && !f.may_throw {
                        Some(
                            discard_call(
                                prelude,
                                "smelt_timer_callback.call("@ + timer_source(extra) + ".clone())"@,
                            ),
                        )
                    } else {
                        match self.timer_args_n(
                            timer_source(extra),
                            f,
                            f.params.len() as nat,
                            u,
                            ul,
                        ) {
                            None => None,
                            Some(args) => {
                                let call = "(smelt_timer_callback)("@ + seq_join(args, ", "@)
                                    + ")"@;
                                if f.may_throw {
                                    Some("{ "@ + prelude + "("@ + call + ").map(|_| ()) }"@)
                                } else {
                                    Some(discard_call(prelude, call))
                                }
                            },
                        }
                    }
                },
            },
        }
    }

    /// The invocation of a `setTimeout`/`setInterval` callback.
    pub open spec fn timer_callback_spec(&self, callback: Operand, extra: bool) -> Option<
        Seq<char>,
    > {
        match self.ty(callback.ty) {
            Some(Type::Function(f)) => if !extra && f.params.len() == 0 {
                Some(
                    if f.may_throw {
                        "(smelt_timer_callback)().map(|_| ())"@
                    } else {
                        "Ok::<(), Box<dyn std::error::Error>>({ (smelt_timer_callback)(); () })"@
                    },
                )
            } else {
                self.timer_typed_spec(callback.ty, f, extra)
            },
            _ => Some(erased_timer_call(extra)),
        }
    }

    /// The call of a `.then`/`.catch` continuation `callee` on `arg`.
    pub open spec fn continuation_call_spec(
        &self,
        callback: Operand,
        callee: Seq<char>,
        arg: Seq<char>,
    ) -> Option<Seq<char>> {
        match self.ty(callback.ty) {
            Some(Type::Unknown) => Some(erased_continuation_call(callee, arg)),
            Some(Type::Function(f)) => if self.erased_rest_function(callback.ty) && !f.may_throw {
                Some(
                    "("@ + callee + ").call(vec![IntoSmeltUnknown::into_smelt_unknown("@ + arg
                        + ")])"@,
                )
            } else if f.rest is None && f.params.len() == 0 {
                Some("({ let _ = "@ + arg + "; ("@ + callee + ")() })"@)
            } else if f.params.len() > 0 {
                match self.callback_arg_form(callback.ty, 0) {
                    Some(form) => Some("("@ + callee + ")("@ + form.render_spec(arg) + ")"@),
                    None => None,
                }
            } else {
                Some("("@ + callee + ")("@ + arg + ")"@)
            },
            _ => Some("("@ + callee + ")("@ + arg + ")"@),
        }
    }

    /// Renders the direct call of a statically typed timer callback of type
    /// `ty`, adapting the forwarded argument vector to its parameters.
    pub fn timer_typed_callback_call_text(
        &self,
        ty: usize,
        function: &FunctionType,
        extra: Option<&Operand>,
    ) -> (r: Result<String, EmitError>)
        requires
            self.wf(),
        ensures
            r matches Ok(t) ==> self.timer_typed_spec(ty, *function, extra is Some) == Some(t@),
            r is Err <==> self.timer_typed_spec(ty, *function, extra is Some) is None,
    {
        let u = self.type_id(&Type::Unknown)?;
        let ul = self.type_id(&Type::List(u))?;
        let has_extra = extra.is_some();
        let src = if has_extra {
            "smelt_timer_args"
        } else {
            "smelt_timer_args_empty"
        };
        let prelude = if has_extra {
            String::new()
        } else {
            String::from_str("let smelt_timer_args_empty: Vec<SmeltUnknown> = Vec::new(); ")
        };
        let erased_rest = match self.fact_at(ty) {
            Some(f) => f.erased_unknown_rest_function,
            None => false,
        };
        if erased_rest && !function.may_throw {
            let call = wrap("smelt_timer_callback.call(", src, ".clone())");
            let mut s = String::from_str("{ ");
            s.append(prelude.as_str());
            s.append("let _ = ");
            s.append(call.as_str());
            s.append("; Ok::<(), Box<dyn std::error::Error>>(()) }");
            return Ok(s);
        }
        let mut call_args: Vec<String> = Vec::new();
        let mut i: usize = 0;
        while i < function.params.len()
            invariant
                self.wf(),
                i <= function.params.len(),
                src@ == timer_source(has_extra),
                has_extra == extra is Some,
                u == self.find_interned(Type::Unknown)->0,
                ul == self.find_interned(Type::List(u))->0,
                self.find_interned(Type::Unknown) is Some,
                self.find_interned(Type::List(u)) is Some,
                !(self.erased_rest_function(ty) && !function.may_throw),
                call_args.len() == i,
                self.timer_args_n(src@, *function, i as nat, u, ul) == Some(views(call_args@)),
            decreases function.params.len() - i,
        {
            let param = function.params[i];
            let idx = usize_text(i);
            let rendered = if function.rest == Some(i) {
                let mut t = String::from_str("SmeltList::from(");
                t.append(src);
                t.append(".iter().skip(");
                t.append(idx.as_str());
                t.append(").cloned().collect::<Vec<_>>())");
                self.value_at_type_text(t.as_str(), ul, param)
            } else {
                let mut t = String::from_str(src);
                t.append(".get(");
                t.append(idx.as_str());
                t.append(").cloned().unwrap_or(SmeltUnknown::Undefined)");
                self.value_at_type_text(t.as_str(), u, param)
            };
            match rendered {
                Ok(a) => {
                    let ghost before = call_args@;
                    call_args.push(a);
                    assert(views(call_args@) =~= views(before).push(call_args@[i as int]@));
                },
                Err(e) => {
                    proof {
                        self.lemma_timer_args_none(
                            src@,
                            *function,
                            (i + 1) as nat,
                            function.params.len() as nat,
                            u,
                            ul,
                        );
                    }
                    return Err(e);
                },
            }
            i = i + 1;
        }
        let joined = join(&call_args, ", ");
        let call = wrap("(smelt_timer_callback)(", joined.as_str(), ")");
        let mut s = String::from_str("{ ");
        s.append(prelude.as_str());
        if function.may_throw {
            s.append("(");
            s.append(call.as_str());
            s.append(").map(|_| ()) }");
        } else {
            s.append("let _ = ");
            s.append(call.as_str());
            s.append("; Ok::<(), Box<dyn std::error::Error>>(()) }");
        }
        Ok(s)
    }

    /// Renders the invocation of a `setTimeout`/`setInterval` callback: a
    /// parameterless closure directly, a statically typed callback through
    /// its parameters, anything else through the erased callable probe.
    pub fn timer_callback_call_text(&self, callback: &Operand, extra: Option<&Operand>) -> (r:
        Result<String, EmitError>)
        requires
            self.wf(),
        ensures
            r matches Ok(t) ==> self.timer_callback_spec(*callback, extra is Some) == Some(t@),
            r is Err <==> self.timer_callback_spec(*callback, extra is Some) is None,
    {
        match self.type_at(callback.ty) {
            Some(Type::Function(function)) => {
                if extra.is_none() && function.params.len() == 0 {
                    return Ok(
                        if function.may_throw {
                            String::from_str("(smelt_timer_callback)().map(|_| ())")
                        } else {
                            String::from_str(
                                "Ok::<(), Box<dyn std::error::Error>>({ (smelt_timer_callback)(); () })",
                            )
                        },
                    );
                }
                self.timer_typed_callback_call_text(callback.ty, function, extra)
            },
            _ => {
                let mut s = String::from_str(
                    "{ let smelt_function_value = smelt_timer_callback.clone(); let smelt_callable = match smelt_function_value { SmeltUnknown::Function(smelt_function) => Some(smelt_function), SmeltUnknown::Object(smelt_object) => match smelt_object.get(\"__smelt_call\") { Some(SmeltUnknown::Function(smelt_function)) => Some(smelt_function.clone()), _ => None }, _ => None }; if let Some(smelt_function) = smelt_callable { (smelt_function)(",
                );
                s.append(
                    if extra.is_some() {
                        "smelt_timer_args.clone()"
                    } else {
                        "Vec::new()"
                    },
                );
                s.append(
                    ").map(|_| ()) } else { Err(std::io::Error::new(std::io::ErrorKind::Other, \"timer callback is not callable\").into()) } }",
                );
                Ok(s)
            },
        }
    }

    /// Renders the call of a `.then`/`.catch` continuation, spelled
    /// `callback_text`, on the erased argument expression `arg_expr`,
    /// following the continuation's calling convention.
    pub fn promise_callback_invocation_with(
        &self,
        callback: &Operand,
        callback_text: &str,
        arg_expr: &str,
    ) -> (r: Result<String, EmitError>)
        ensures
            r matches Ok(t) ==> self.continuation_call_spec(*callback, callback_text@, arg_expr@)
                == Some(t@),
            r is Err <==> self.continuation_call_spec(*callback, callback_text@, arg_expr@) is None,
    {
        match self.type_at(callback.ty) {
            Some(Type::Unknown) => {
                let mut s = wrap(
                    "{ let smelt_callable = match (",
                    callback_text,
                    ").clone() { SmeltUnknown::Function(smelt_function) => Some(smelt_function), SmeltUnknown::Object(smelt_object) => match smelt_object.get(\"__smelt_call\") { Some(SmeltUnknown::Function(smelt_function)) => Some(smelt_function), _ => None }, _ => None }; match smelt_callable { Some(smelt_function) => (smelt_function)(vec![IntoSmeltUnknown::into_smelt_unknown(",
                );
                s.append(arg_expr);
                s.append(
                    ")]).unwrap_or_else(|error| smelt_panic_throw(error)), None => { let _ = ",
                );
                s.append(arg_expr);
                s.append("; SmeltUnknown::Undefined } } }");
                Ok(s)
            },
            Some(Type::Function(function)) => {
                let erased_rest = match self.fact_at(callback.ty) {
                    Some(f) => f.erased_unknown_rest_function,
                    None => false,
                };
                if erased_rest && !function.may_throw {
                    let mut s = wrap(
                        "(",
                        callback_text,
                        ").call(vec![IntoSmeltUnknown::into_smelt_unknown(",
                    );
                    s.append(arg_expr);
                    s.append(")])");
                    return Ok(s);
                }
                if function.rest.is_none() && function.params.len() == 0 {
                    let mut s = wrap("({ let _ = ", arg_expr, "; (");
                    s.append(callback_text);
                    s.append(")() })");
                    return Ok(s);
                }
                if function.params.len() > 0 {
                    let form = match self.fact_at(callback.ty) {
                        Some(f) => if f.callback_arg_forms.len() > 0 {
                            &f.callback_arg_forms[0]
                        } else {
                            return Err(EmitError::new("callback parameter has no argument form"));
                        },
                        None => {
                            return Err(EmitError::new("callback parameter has no argument form"));
                        },
                    };
                    let arg_text = form.render(arg_expr);
                    let mut s = wrap("(", callback_text, ")(");
                    s.append(arg_text.as_str());
                    s.append(")");
                    return Ok(s);
                }
                let mut s = wrap("(", callback_text, ")(");
                s.append(arg_expr);
                s.append(")");
                Ok(s)
            },
            _ => {
                let mut s = wrap("(", callback_text, ")(");
                s.append(arg_expr);
                s.append(")");
                Ok(s)
            },
        }
    }
}


/// A boxed future that settles with `body`.
pub open spec fn settled_future(body: Seq<char>) -> Seq<char> {
    "SmeltFuture::from_future(Box::pin(async move { Ok::<_, Box<dyn std::error::Error>>("@ + body + ") }))"@
}

fn settled_future_text(body: &str) -> (r: String)
    ensures
        r@ == settled_future(body@),
{
    wrap("SmeltFuture::from_future(Box::pin(async move { Ok::<_, Box<dyn std::error::Error>>(", body, ") }))")
}

/// An awaited slot, flattened through a nested erased promise when the
/// awaited value is erased.
pub open spec fn flatten_slot(slot: Seq<char>, erased: bool) -> Seq<char> {
    if erased {
        "smelt_await_flatten("@ + slot + "?).await?"@
    } else {
        slot + "?"@
    }
}

fn flatten_slot_text(slot: &str, erased: bool) -> (r: String)
    ensures
        r@ == flatten_slot(slot@, erased),
{
    if erased {
        wrap("smelt_await_flatten(", slot, "?).await?")
    } else {
        suffixed(slot, "?")
    }
}

/// The awaited text of each operand.
pub open spec fn awaits(ops: Seq<Operand>) -> Seq<Seq<char>> {
    Seq::new(ops.len(), |k: int| await_text_spec(ops[k]))
}

/// The opening of a future that first sleeps `duration` milliseconds.
pub open spec fn sleep_then(sleep: Seq<char>, duration: Seq<char>) -> Seq<char> {
    "SmeltFuture::from_future(Box::pin(async move { "@ + sleep + "("@ + duration + " as f64).await; "@
}

fn sleep_then_text(sleep: &str, duration: &str) -> (r: String)
    ensures
        r@ == sleep_then(sleep@, duration@),
{
    let mut s = wrap("SmeltFuture::from_future(Box::pin(async move { ", sleep, "(");
    s.append(duration);
    s.append(" as f64).await; ");
    s
}

/// `callee(arg)` for a runtime helper taking one operand.
pub open spec fn helper_call(callee: Seq<char>, arg: Seq<char>) -> Seq<char> {
    callee + "("@ + arg + ")"@
}

/// The `fetch(url)` client call for a string URL.
pub open spec fn fetch_url(url: Seq<char>) -> Seq<char> {
    "SmeltFuture::from_future(Box::pin(async move {                      let smelt_http = reqwest::get("@ + url + ").await.expect(\"HTTP request failed\");                      let smelt_status = f64::from(smelt_http.status().as_u16());                      let smelt_reason = smelt_http.status().canonical_reason().unwrap_or_default().to_owned();                      let smelt_pairs: Vec<(String, String)> = smelt_http.headers().iter().map(|(smelt_name, smelt_value)| (smelt_name.as_str().to_owned(), smelt_value.to_str().unwrap_or_default().to_owned())).collect();                      let smelt_bytes = smelt_http.bytes().await.expect(\"HTTP response body read failed\").to_vec();                      Ok::<_, Box<dyn std::error::Error>>(SmeltResponse::from_parts(smelt_status, smelt_reason, SmeltHeaders::from_pairs(smelt_pairs), SmeltBody::from_bytes(smelt_bytes))) }))"@
}

/// The `fetch(url)` text-body GET.
pub open spec fn get_text(url: Seq<char>) -> Seq<char> {
    "SmeltFuture::from_future(Box::pin(async move { Ok::<_, Box<dyn std::error::Error>>(reqwest::get("@ + url + ").await.expect(\"HTTP GET failed\").text().await.expect(\"HTTP response body read failed\")) }))"@
}

impl FunctionEmitter {
    /// The item type of a list-of-futures operand.
    pub open spec fn list_future_item(&self, op: Operand) -> Option<usize> {
        match self.ty(op.ty) {
            Some(Type::List(item)) => if self.ty(item) matches Some(Type::Future(_)) {
                Some(item)
            } else {
                None
            },
            _ => None,
        }
    }

    /// A future whose output is erased.
    pub open spec fn future_of_unknown(&self, ty: usize) -> bool {
        self.ty(ty) matches Some(Type::Future(o)) && self.ty(o) == Some(Type::Unknown)
    }

    /// The joined-future slot of each operand, flattened where erased.
    pub open spec fn joined_values(&self, ops: Seq<Operand>) -> Seq<Seq<char>> {
        Seq::new(
            ops.len(),
            |k: int| flatten_slot("__smelt_joined."@ + decimal(k as nat), self.future_of_unknown(ops[k].ty)),
        )
    }

    /// The value tuple of `Promise.all` over separately awaited operands.
    pub open spec fn joined_body(&self, ops: Seq<Operand>) -> Seq<char> {
        if ops.len() == 0 {
            "()"@
        } else if ops.len() == 1 {
            "("@ + flatten_slot(await_text_spec(ops[0]) + ".await"@, self.future_of_unknown(ops[0].ty))
                + ",)"@
        } else {
            "{ let __smelt_joined = "@ + ("tokio::join!("@ + seq_join(awaits(ops), ", "@) + ")"@)
                + "; ("@ + seq_join(self.joined_values(ops), ", "@) + ") }"@
        }
    }

    /// `Promise.all` and `Promise.allSettled`.
    pub open spec fn all_spec(&self, args: Seq<Operand>) -> Seq<char> {
        if args.len() == 1 && self.list_future_item(args[0]) is Some {
            let list = await_text_spec(args[0]);
            if self.future_of_unknown(self.list_future_item(args[0])->0) {
                "SmeltFuture::from_future(Box::pin(async move { let mut __smelt_pending = Vec::new(); for __smelt_future in "@ + list + " { __smelt_pending.push(__smelt_future.await?); } let mut __smelt_values = Vec::with_capacity(__smelt_pending.len()); for __smelt_value in __smelt_pending { __smelt_values.push(smelt_await_flatten(__smelt_value).await?); } Ok::<_, Box<dyn std::error::Error>>(SmeltList::from(__smelt_values)) }))"@
            } else {
                "SmeltFuture::from_future(Box::pin(async move { let mut __smelt_values = Vec::new(); for __smelt_future in "@ + list + " { __smelt_values.push(__smelt_future.await?); } Ok::<_, Box<dyn std::error::Error>>(SmeltList::from(__smelt_values)) }))"@
            }
        } else {
            settled_future(self.joined_body(args))
        }
    }

    /// `Promise.race`, polling its racers in source order.
    pub open spec fn race_spec(&self, args: Seq<Operand>) -> Option<Seq<char>> {
        if args.len() == 0 {
            None
        } else if args.len() == 1 {
            Some(settled_future(await_text_spec(args[0]) + ".await?"@))
        } else {
            Some(
                settled_future(
                    "{ let mut smelt_racers: Vec<::std::pin::Pin<Box<dyn ::std::future::Future<Output = Result<_, Box<dyn std::error::Error>>>>>> = Vec::new(); "@ + seq_join(
                        wrapped_each(awaits(args), "smelt_racers.push(Box::pin(::std::future::IntoFuture::into_future("@, ")));"@),
                        " "@,
                    ) + " "@ + self.runtime.promise_race@ + "(smelt_racers).await? }"@,
                ),
            )
        }
    }

    /// The error payload of a thrown value of `reason`'s type.
    pub open spec fn thrown_payload_spec(&self, reason: Operand) -> Option<Seq<char>> {
        match self.fact(reason.ty) {
            Some(f) => match f.thrown_payload {
                Some(t) => Some(t.render_spec(reason.text@)),
                None => None,
            },
            None => None,
        }
    }

    /// `Promise.resolve(v)` after one deferred tick.
    pub open spec fn resolve_spec(&self, args: Seq<Operand>, dest_ty: usize) -> Option<Seq<char>> {
        if args.len() == 0 {
            None
        } else {
            let value = if args.len() > 1 {
                match self.ty(dest_ty) {
                    Some(Type::Future(item)) => self.vat_op_spec(args[1], item),
                    _ => None,
                }
            } else {
                Some("()"@)
            };
            match value {
                Some(v) => Some(
                    sleep_then(self.runtime.sleep_ms@, args[0].text@) + "Ok::<_, Box<dyn std::error::Error>>("@ + v + ") }))"@,
                ),
                None => None,
            }
        }
    }

    /// `Promise.reject(reason)` after one deferred tick.
    pub open spec fn reject_spec(&self, args: Seq<Operand>) -> Option<Seq<char>> {
        if args.len() == 0 {
            None
        } else {
            let payload = if args.len() > 1 {
                self.thrown_payload_spec(args[1])
            } else {
                Some(self.runtime.undefined_thrown_payload@)
            };
            match payload {
                Some(p) => Some(
                    sleep_then(self.runtime.sleep_ms@, args[0].text@) + "Err::<_, Box<dyn std::error::Error>>("@ + p + ") }))"@,
                ),
                None => None,
            }
        }
    }

    /// `setTimeout`/`setInterval` through the runtime helper `set_fn`.
    pub open spec fn set_timer_spec(&self, set_fn: Seq<char>, args: Seq<Operand>) -> Option<
        Seq<char>,
    > {
        if args.len() < 2 {
            None
        } else {
            let extra = args.len() > 2;
            match self.timer_callback_spec(args[0], extra) {
                None => None,
                Some(call) => match self.timer_args_spec(
                    if extra {
                        Some(args[2])
                    } else {
                        None
                    },
                ) {
                    None => None,
                    Some(binding) => match self.find_interned(Type::Float) {
                        None => None,
                        Some(float) => match self.vat_op_spec(args[1], float) {
                            None => None,
                            Some(duration) => Some(
                                "{ let smelt_timer_callback = "@ + args[0].text@ + ".clone(); "@ + binding + set_fn
                                    + "(::std::rc::Rc::new(::std::cell::RefCell::new(move || { "@ + call + " })), "@ + duration + " as f64) }"@,
                            ),
                        },
                    },
                },
            }
        }
    }

    /// How the `Promise` constructor calls its executor with the
    /// synthesized `resolve` and `reject`.
    pub open spec fn executor_call_spec(&self, executor: Operand) -> Seq<char> {
        let text = executor.text@;
        let both = "("@ + text + ")(smelt_resolve, smelt_reject);"@;
        match self.ty(executor.ty) {
            Some(Type::Function(f)) => if f.rest == Some(0usize) && f.params.len() == 1 {
                "("@ + text + ")(SmeltList::from(vec![smelt_resolve, smelt_reject]));"@
            } else if f.rest is None && f.params.len() == 0 {
                "let _ = &smelt_resolve; let _ = &smelt_reject; ("@ + text + ")();"@
            } else if f.rest is None && f.params.len() == 1 {
                "let _ = &smelt_reject; ("@ + text + ")(smelt_resolve);"@
            } else {
                both
            },
            _ => both,
        }
    }

    /// The `Promise` constructor: a result cell the synthesized `resolve`
    /// and `reject` settle, and a future that polls it.
    pub open spec fn promise_spec(&self, args: Seq<Operand>, dest_ty: usize) -> Option<Seq<char>> {
        if args.len() != 1 {
            None
        } else {
            match self.ty(dest_ty) {
                Some(Type::Future(output)) => match self.rust_text(output) {
                    None => None,
                    Some(output_text) => match (if self.ty(output) == Some(Type::Nullish) {
                        self.find_interned(Type::Unknown)
                    } else {
                        Some(output)
                    }) {
                        None => None,
                        Some(input) => match self.rust_text(input) {
                            None => None,
                            Some(input_text) => {
                                let by_ref = self.callback_param_by_ref(input);
                                let resolve_input = if by_ref {
                                    "&"@ + input_text
                                } else {
                                    input_text
                                };
                                match self.vat_spec(
                                    if by_ref {
                                        "value.clone()"@
                                    } else {
                                        "value"@
                                    },
                                    input,
                                    output,
                                    Seq::empty(),
                                ) {
                                    None => None,
                                    Some(resolve_value) => match self.find_interned(Type::Unknown) {
                                        None => None,
                                        Some(u) => {
                                            let reject_by_ref = self.callback_param_by_ref(u);
                                            let reject_input = if reject_by_ref {
                                                "&SmeltUnknown"@
                                            } else {
                                                "SmeltUnknown"@
                                            };
                                            let reject_value = if reject_by_ref {
                                                "error.clone()"@
                                            } else {
                                                "error"@
                                            };
                                            Some(
                                                "{ let smelt_promise_result: ::std::rc::Rc<::std::cell::RefCell<Option<Result<"@ + output_text + ", Box<dyn std::error::Error>>>>> = ::std::rc::Rc::new(::std::cell::RefCell::new(None)); let smelt_resolve_result = smelt_promise_result.clone(); let smelt_reject_result = smelt_promise_result.clone(); let smelt_resolve: ::std::rc::Rc<dyn Fn("@ + resolve_input
                                                    + ") -> ()> = ::std::rc::Rc::new(move |value: "@ + resolve_input + "| { *smelt_resolve_result.borrow_mut() = Some(Ok("@
                                                    + resolve_value + ")); }); let smelt_reject: ::std::rc::Rc<dyn Fn("@ + reject_input
                                                    + ") -> ()> = ::std::rc::Rc::new(move |error: "@ + reject_input + "| { *smelt_reject_result.borrow_mut() = Some(Err("@
                                                    + self.runtime.throw_fn@ + "("@ + reject_value
                                                    + "))); }); "@ + self.executor_call_spec(args[0])
                                                    + " SmeltFuture::from_future(Box::pin(async move { loop { if let Some(result) = smelt_promise_result.borrow_mut().take() { break result; } tokio::task::yield_now().await; "@ + self.runtime.sleep_ms@
                                                    + "(0.0).await; } })) }"@,
                                            )
                                        },
                                    },
                                }
                            },
                        },
                    },
                },
                _ => None,
            }
        }
    }

    /// The callback binding and expression `promise_callback_hoist` gives.
    pub open spec fn hoist_spec(&self, callback: Operand) -> (Seq<char>, Seq<char>) {
        if callback.kind is Const {
            (Seq::empty(), callback.text@)
        } else {
            (
                "let smelt_promise_callback = ("@ + callback.text@ + ").clone(); "@,
                "smelt_promise_callback"@,
            )
        }
    }

    /// `future.then(callback)`.
    pub open spec fn then_spec(&self, args: Seq<Operand>, dest_ty: usize) -> Option<Seq<char>> {
        if args.len() != 2 || !(self.ty(args[0].ty) matches Some(Type::Future(_))) {
            None
        } else {
            let future_text = await_text_spec(args[0]);
            let (prelude, callee) = self.hoist_spec(args[1]);
            match self.continuation_call_spec(args[1], callee, "smelt_value"@) {
                None => None,
                Some(invocation) => match self.ty(dest_ty) {
                    Some(Type::Future(output)) => match (match self.ty(args[1].ty) {
                        Some(Type::Function(f)) => Some(f.return_ty),
                        _ => self.find_interned(Type::Unknown),
                    }) {
                        None => None,
                        Some(ret) => {
                            let (settle, settled) = match self.ty(ret) {
                                Some(Type::Future(item)) => (
                                    "let smelt_callback_value = "@ + invocation + ".await?;"@,
                                    item,
                                ),
                                _ => ("let smelt_callback_value = "@ + invocation + ";"@, ret),
                            };
                            match self.vat_spec("smelt_callback_value"@, settled, output, Seq::empty()) {
                                None => None,
                                Some(out) => Some(
                                    "{ "@ + prelude + "SmeltFuture::from_future(Box::pin(async move { let smelt_value = "@ + future_text + ".await?; "@
                                        + settle + " Ok::<_, Box<dyn std::error::Error>>("@ + out + ") })) }"@,
                                ),
                            }
                        },
                    },
                    _ => None,
                },
            }
        }
    }

    /// `future.catch(callback)`: the handler runs on rejection and the
    /// future settles with the output type's default.
    pub open spec fn catch_spec(&self, args: Seq<Operand>) -> Option<Seq<char>> {
        if args.len() != 2 {
            None
        } else {
            match self.ty(args[0].ty) {
                Some(Type::Future(output)) => {
                    let (prelude, callee) = self.hoist_spec(args[1]);
                    match self.continuation_call_spec(
                        args[1],
                        callee,
                        "SmeltUnknown::String(smelt_error.to_string().into())"@,
                    ) {
                        None => None,
                        Some(invocation) => match self.default_text(output) {
                            None => None,
                            Some(d) => Some(
                                "{ "@ + prelude + "SmeltFuture::from_future(Box::pin(async move { match "@ + await_text_spec(args[0])
                                    + ".await { Ok(smelt_value) => Ok::<_, Box<dyn std::error::Error>>(smelt_value), Err(smelt_error) => { let _ = "@ + invocation + "; Ok::<_, Box<dyn std::error::Error>>("@ + d + ") } } })) }"@,
                            ),
                        },
                    }
                },
                _ => None,
            }
        }
    }

    /// A request-class value: `fetch` sends its method, headers and body.
    pub open spec fn request_class(&self, ty: usize) -> bool {
        &&& self.ty(ty) matches Some(Type::Class { .. })
        &&& self.class_kind_of(ty) is Request
    }

    /// `fetch(url)` or `fetch(request)`.
    pub open spec fn http_fetch_spec(&self, args: Seq<Operand>) -> Option<Seq<char>> {
        if args.len() == 0 {
            None
        } else if self.request_class(args[0].ty) {
            Some(self.runtime.fetch_request.render_spec(args[0].text@))
        } else if self.ty(args[0].ty) != Some(Type::Str) {
            None
        } else {
            Some(fetch_url(args[0].text@))
        }
    }

    /// The Rust text of a runtime-backed async operation `op` on `args`,
    /// producing a value of type `dest_ty`.
    pub open spec fn async_op_spec(&self, op: AsyncOp, args: Seq<Operand>, dest_ty: usize) -> Option<
        Seq<char>,
    > {
        match op {
            AsyncOp::All | AsyncOp::AllSettled => Some(self.all_spec(args)),
            AsyncOp::Race => self.race_spec(args),
            AsyncOp::ExitDrain => Some("SmeltFuture::from_future(Box::pin(async move { "@ + self.runtime.run_until_exit@ + "().await; Ok::<_, Box<dyn std::error::Error>>(()) }))"@),
            AsyncOp::Sleep => if args.len() == 0 {
                None
            } else {
                Some(sleep_then(self.runtime.sleep_ms@, args[0].text@) + "Ok::<_, Box<dyn std::error::Error>>(()) }))"@)
            },
            AsyncOp::Resolve => self.resolve_spec(args, dest_ty),
            AsyncOp::Reject => self.reject_spec(args),
            AsyncOp::SetTimeout => self.set_timer_spec(self.runtime.set_timeout@, args),
            AsyncOp::ClearTimeout => if args.len() == 0 {
                None
            } else {
                Some(helper_call(self.runtime.clear_timeout@, args[0].text@))
            },
            AsyncOp::SetInterval => self.set_timer_spec(self.runtime.set_interval@, args),
            AsyncOp::ClearInterval => if args.len() == 0 {
                None
            } else {
                Some(helper_call(self.runtime.clear_interval@, args[0].text@))
            },
            AsyncOp::Promise => self.promise_spec(args, dest_ty),
            AsyncOp::Then => self.then_spec(args, dest_ty),
            AsyncOp::Catch => self.catch_spec(args),
            AsyncOp::SpawnLocal => if args.len() != 1 {
                None
            } else {
                Some(
                    "{ "@ + self.runtime.spawn_promise_task@ + "(Box::pin(async move { let _ = "@ + await_text_spec(args[0])
                        + ".await; })); () }"@,
                )
            },
            AsyncOp::CreateTask => if args.len() == 0 {
                None
            } else {
                Some("SmeltFuture::from_future(Box::pin(async move { tokio::spawn(async move { "@ + await_text_spec(args[0]) + ".await }).await.expect(\"async task panicked\") }))"@)
            },
            AsyncOp::WaitFor => if args.len() < 2 {
                None
            } else {
                Some(
                    "SmeltFuture::from_future(Box::pin(async move { tokio::time::timeout(::std::time::Duration::from_millis("@ + args[1].text@ + " as u64), async move { "@ + await_text_spec(args[0]) + ".await }).await.expect(\"async timeout\")? }))"@,
                )
            },
            AsyncOp::HttpFetch => self.http_fetch_spec(args),
            AsyncOp::HttpGetText => if args.len() == 0 || self.ty(args[0].ty) != Some(Type::Str) {
                None
            } else {
                Some(get_text(args[0].text@))
            },
        }
    }
}

fn wrap_call(callee: &str, arg: &str) -> (r: String)
    ensures
        r@ == helper_call(callee@, arg@),
{
    let mut s = String::from_str(callee);
    s.append("(");
    s.append(arg);
    s.append(")");
    s
}

impl FunctionEmitter {
    fn await_texts(&self, args: &Vec<Operand>) -> (r: Vec<String>)
        ensures
            views(r@) == awaits(args@),
    {
        let mut out: Vec<String> = Vec::new();
        let mut i: usize = 0;
        while i < args.len()
            invariant
                i <= args.len(),
                out.len() == i,
                forall|k: int| 0 <= k < i ==> #[trigger] out@[k]@ == await_text_spec(args@[k]),
            decreases args.len() - i,
        {
            out.push(self.await_operand_text(&args[i]));
            i = i + 1;
        }
        assert(views(out@) =~= awaits(args@));
        out
    }

    fn joined_value_texts(&self, args: &Vec<Operand>) -> (r: Vec<String>)
        ensures
            views(r@) == self.joined_values(args@),
    {
        let mut out: Vec<String> = Vec::new();
        let mut i: usize = 0;
        while i < args.len()
            invariant
                i <= args.len(),
                out.len() == i,
                forall|k: int|
                    0 <= k < i ==> #[trigger] out@[k]@ == flatten_slot(
                        "__smelt_joined."@ + decimal(k as nat),
                        self.future_of_unknown(args@[k].ty),
                    ),
            decreases args.len() - i,
        {
            let idx = usize_text(i);
            let mut slot = String::from_str("__smelt_joined.");
            slot.append(idx.as_str());
            out.push(flatten_slot_text(slot.as_str(), self.awaited_operand_is_erased(&args[i])));
            i = i + 1;
        }
        assert(views(out@) =~= self.joined_values(args@));
        out
    }

    fn joined_body_text(&self, args: &Vec<Operand>) -> (r: String)
        ensures
            r@ == self.joined_body(args@),
    {
        if args.len() == 0 {
            return String::from_str("()");
        }
        if args.len() == 1 {
            let awaited = self.await_operand_text(&args[0]);
            let slot = suffixed(awaited.as_str(), ".await");
            let value = flatten_slot_text(slot.as_str(), self.awaited_operand_is_erased(&args[0]));
            return wrap("(", value.as_str(), ",)");
        }
        let rendered = self.await_texts(args);
        let joined_args = join(&rendered, ", ");
        let joined = wrap("tokio::join!(", joined_args.as_str(), ")");
        let values = self.joined_value_texts(args);
        let values_text = join(&values, ", ");
        let mut s = wrap("{ let __smelt_joined = ", joined.as_str(), "; (");
        s.append(values_text.as_str());
        s.append(") }");
        s
    }

    fn all_text(&self, args: &Vec<Operand>) -> (r: String)
        ensures
            r@ == self.all_spec(args@),
    {
        if args.len() == 1 {
            if let Some(item) = self.async_list_operand_item_type(&args[0]) {
                let list = self.await_operand_text(&args[0]);
                let erased = match self.type_at(item) {
                    Some(Type::Future(o)) => self.is_unknown_type(*o),
                    _ => false,
                };
                return if erased {
                    wrap("SmeltFuture::from_future(Box::pin(async move { let mut __smelt_pending = Vec::new(); for __smelt_future in ", list.as_str(), " { __smelt_pending.push(__smelt_future.await?); } let mut __smelt_values = Vec::with_capacity(__smelt_pending.len()); for __smelt_value in __smelt_pending { __smelt_values.push(smelt_await_flatten(__smelt_value).await?); } Ok::<_, Box<dyn std::error::Error>>(SmeltList::from(__smelt_values)) }))")
                } else {
                    wrap("SmeltFuture::from_future(Box::pin(async move { let mut __smelt_values = Vec::new(); for __smelt_future in ", list.as_str(), " { __smelt_values.push(__smelt_future.await?); } Ok::<_, Box<dyn std::error::Error>>(SmeltList::from(__smelt_values)) }))")
                };
            }
        }
        let body = self.joined_body_text(args);
        settled_future_text(body.as_str())
    }

    fn race_text(&self, args: &Vec<Operand>) -> (r: Result<String, EmitError>)
        ensures
            r matches Ok(t) ==> self.race_spec(args@) == Some(t@),
            r is Err <==> self.race_spec(args@) is None,
    {
        if args.len() == 0 {
            return Err(EmitError::new("async race requires at least one future operand"));
        }
        if args.len() == 1 {
            let awaited = self.await_operand_text(&args[0]);
            let body = suffixed(awaited.as_str(), ".await?");
            return Ok(settled_future_text(body.as_str()));
        }
        let rendered = self.await_texts(args);
        let pushes_each = wrap_each(&rendered, "smelt_racers.push(Box::pin(::std::future::IntoFuture::into_future(", ")));");
        let pushes = join(&pushes_each, " ");
        let mut body = wrap("{ let mut smelt_racers: Vec<::std::pin::Pin<Box<dyn ::std::future::Future<Output = Result<_, Box<dyn std::error::Error>>>>>> = Vec::new(); ", pushes.as_str(), " ");
        body.append(self.runtime.promise_race.as_str());
        body.append("(smelt_racers).await? }");
        Ok(settled_future_text(body.as_str()))
    }

    /// The error payload a thrown `reason` enters the error channel with.
    pub fn thrown_payload_text(&self, reason: &Operand) -> (r: Result<String, EmitError>)
        ensures
            r matches Ok(t) ==> self.thrown_payload_spec(*reason) == Some(t@),
            r is Err <==> self.thrown_payload_spec(*reason) is None,
    {
        match self.fact_at(reason.ty) {
            Some(f) => match &f.thrown_payload {
                Some(t) => Ok(t.render(reason.text.as_str())),
                None => Err(EmitError::new("thrown value type has no error payload form")),
            },
            None => Err(EmitError::new("thrown value type has no error payload form")),
        }
    }

    fn resolve_text(&self, args: &Vec<Operand>, dest_ty: usize) -> (r: Result<String, EmitError>)
        requires
            self.wf(),
        ensures
            r matches Ok(t) ==> self.resolve_spec(args@, dest_ty) == Some(t@),
            r is Err <==> self.resolve_spec(args@, dest_ty) is None,
    {
        if args.len() == 0 {
            return Err(EmitError::new("async resolve requires a duration operand"));
        }
        let value_text = if args.len() > 1 {
            match self.type_at(dest_ty) {
                Some(Type::Future(item)) => self.value_at_type(&args[1], *item)?,
                _ => {
                    return Err(EmitError::new("async resolve must produce a future type"));
                },
            }
        } else {
            String::from_str("()")
        };
        let mut s = sleep_then_text(self.runtime.sleep_ms.as_str(), args[0].text.as_str());
        s.append("Ok::<_, Box<dyn std::error::Error>>(");
        s.append(value_text.as_str());
        s.append(") }))");
        Ok(s)
    }

    fn reject_text(&self, args: &Vec<Operand>) -> (r: Result<String, EmitError>)
        ensures
            r matches Ok(t) ==> self.reject_spec(args@) == Some(t@),
            r is Err <==> self.reject_spec(args@) is None,
    {
        if args.len() == 0 {
            return Err(EmitError::new("async reject requires a duration operand"));
        }
        let payload = if args.len() > 1 {
            self.thrown_payload_text(&args[1])?
        } else {
            self.runtime.undefined_thrown_payload.clone()
        };
        let mut s = sleep_then_text(self.runtime.sleep_ms.as_str(), args[0].text.as_str());
        s.append("Err::<_, Box<dyn std::error::Error>>(");
        s.append(payload.as_str());
        s.append(") }))");
        Ok(s)
    }

    fn set_timer_text(&self, set_fn: &str, args: &Vec<Operand>, missing: &str) -> (r: Result<
        String,
        EmitError,
    >)
        requires
            self.wf(),
        ensures
            r matches Ok(t) ==> self.set_timer_spec(set_fn@, args@) == Some(t@),
            r is Err <==> self.set_timer_spec(set_fn@, args@) is None,
    {
        if args.len() < 2 {
            return Err(EmitError::new(missing));
        }
        let callback = &args[0];
        let extra: Option<&Operand> = if args.len() > 2 {
            Some(&args[2])
        } else {
            None
        };
        let callback_call = self.timer_callback_call_text(callback, extra)?;
        let extra_binding = self.timer_extra_args_binding(extra)?;
        let float = self.type_id(&Type::Float)?;
        let duration = self.value_at_type(&args[1], float)?;
        let mut s = wrap("{ let smelt_timer_callback = ", callback.text.as_str(), ".clone(); ");
        s.append(extra_binding.as_str());
        s.append(set_fn);
        s.append("(::std::rc::Rc::new(::std::cell::RefCell::new(move || { ");
        s.append(callback_call.as_str());
        s.append(" })), ");
        s.append(duration.as_str());
        s.append(" as f64) }");
        Ok(s)
    }

    fn clear_timer_text(&self, clear_fn: &str, args: &Vec<Operand>, missing: &str) -> (r: Result<
        String,
        EmitError,
    >)
        ensures
            r matches Ok(t) ==> args.len() > 0 && t@ == helper_call(clear_fn@, args@[0].text@),
            r is Err <==> args.len() == 0,
    {
        if args.len() == 0 {
            return Err(EmitError::new(missing));
        }
        Ok(wrap_call(clear_fn, args[0].text.as_str()))
    }

    fn executor_call_text(&self, executor: &Operand) -> (r: String)
        ensures
            r@ == self.executor_call_spec(*executor),
    {
        let text = executor.text.as_str();
        match self.type_at(executor.ty) {
            Some(Type::Function(f)) => {
                if f.rest == Some(0usize) && f.params.len() == 1 {
                    wrap("(", text, ")(SmeltList::from(vec![smelt_resolve, smelt_reject]));")
                } else if f.rest.is_none() && f.params.len() == 0 {
                    wrap("let _ = &smelt_resolve; let _ = &smelt_reject; (", text, ")();")
                } else if f.rest.is_none() && f.params.len() == 1 {
                    wrap("let _ = &smelt_reject; (", text, ")(smelt_resolve);")
                } else {
                    wrap("(", text, ")(smelt_resolve, smelt_reject);")
                }
            },
            _ => wrap("(", text, ")(smelt_resolve, smelt_reject);"),
        }
    }

    fn callback_param_by_ref_of(&self, ty: usize) -> (r: bool)
        ensures
            r == self.callback_param_by_ref(ty),
    {
        match self.fact_at(ty) {
            Some(f) => f.callback_param_by_ref,
            None => false,
        }
    }

    fn promise_text(&self, args: &Vec<Operand>, dest_ty: usize) -> (r: Result<String, EmitError>)
        requires
            self.wf(),
        ensures
            r matches Ok(t) ==> self.promise_spec(args@, dest_ty) == Some(t@),
            r is Err <==> self.promise_spec(args@, dest_ty) is None,
    {
        if args.len() != 1 {
            return Err(EmitError::new("Promise requires an executor operand"));
        }
        let output = match self.type_at(dest_ty) {
            Some(Type::Future(o)) => *o,
            _ => {
                return Err(EmitError::new("Promise destination must be a future"));
            },
        };
        let executor_call = self.executor_call_text(&args[0]);
        let output_text = self.rust_type_text(output)?;
        let input = if self.is_nullish_type(output) {
            self.type_id(&Type::Unknown)?
        } else {
            output
        };
        let input_text = self.rust_type_text(input)?;
        let by_ref = self.callback_param_by_ref_of(input);
        let resolve_input = if by_ref {
            let mut s = String::from_str("&");
            s.append(input_text.as_str());
            s
        } else {
            input_text
        };
        let resolve_value = self.value_at_type_text(
            if by_ref {
                "value.clone()"
            } else {
                "value"
            },
            input,
            output,
        )?;
        let u = self.type_id(&Type::Unknown)?;
        let reject_by_ref = self.callback_param_by_ref_of(u);
        let reject_input = if reject_by_ref {
            "&SmeltUnknown"
        } else {
            "SmeltUnknown"
        };
        let reject_value = if reject_by_ref {
            "error.clone()"
        } else {
            "error"
        };
        let mut s = wrap("{ let smelt_promise_result: ::std::rc::Rc<::std::cell::RefCell<Option<Result<", output_text.as_str(), ", Box<dyn std::error::Error>>>>> = ::std::rc::Rc::new(::std::cell::RefCell::new(None)); let smelt_resolve_result = smelt_promise_result.clone(); let smelt_reject_result = smelt_promise_result.clone(); let smelt_resolve: ::std::rc::Rc<dyn Fn(");
        s.append(resolve_input.as_str());
        s.append(") -> ()> = ::std::rc::Rc::new(move |value: ");
        s.append(resolve_input.as_str());
        s.append("| { *smelt_resolve_result.borrow_mut() = Some(Ok(");
        s.append(resolve_value.as_str());
        s.append(")); }); let smelt_reject: ::std::rc::Rc<dyn Fn(");
        s.append(reject_input);
        s.append(") -> ()> = ::std::rc::Rc::new(move |error: ");
        s.append(reject_input);
        s.append("| { *smelt_reject_result.borrow_mut() = Some(Err(");
        s.append(self.runtime.throw_fn.as_str());
        s.append("(");
        s.append(reject_value);
        s.append("))); }); ");
        s.append(executor_call.as_str());
        s.append(" SmeltFuture::from_future(Box::pin(async move { loop { if let Some(result) = smelt_promise_result.borrow_mut().take() { break result; } tokio::task::yield_now().await; ");
        s.append(self.runtime.sleep_ms.as_str());
        s.append("(0.0).await; } })) }");
        Ok(s)
    }

    fn then_text(&self, args: &Vec<Operand>, dest_ty: usize) -> (r: Result<String, EmitError>)
        requires
            self.wf(),
        ensures
            r matches Ok(t) ==> self.then_spec(args@, dest_ty) == Some(t@),
            r is Err <==> self.then_spec(args@, dest_ty) is None,
    {
        if args.len() != 2 {
            return Err(EmitError::new("Promise.then requires future and callback operands"));
        }
        let future = &args[0];
        let callback = &args[1];
        match self.type_at(future.ty) {
            Some(Type::Future(_)) => {},
            _ => {
                return Err(EmitError::new("Promise.then receiver must be a future"));
            },
        }
        let future_text = self.await_operand_text(future);
        let (prelude, callback_expr) = self.promise_callback_hoist(callback);
        let invocation = self.promise_callback_invocation_with(
            callback,
            callback_expr.as_str(),
            "smelt_value",
        )?;
        let output = match self.type_at(dest_ty) {
            Some(Type::Future(o)) => *o,
            _ => {
                return Err(EmitError::new("Promise.then result must be a future"));
            },
        };
        let ret = match self.type_at(callback.ty) {
            Some(Type::Function(f)) => f.return_ty,
            _ => self.type_id(&Type::Unknown)?,
        };
        let (settle, settled) = match self.type_at(ret) {
            Some(Type::Future(item)) => (
                wrap("let smelt_callback_value = ", invocation.as_str(), ".await?;"),
                *item,
            ),
            _ => (wrap("let smelt_callback_value = ", invocation.as_str(), ";"), ret),
        };
        let out = self.value_at_type_text("smelt_callback_value", settled, output)?;
        let mut s = wrap("{ ", prelude.as_str(), "SmeltFuture::from_future(Box::pin(async move { let smelt_value = ");
        s.append(future_text.as_str());
        s.append(".await?; ");
        s.append(settle.as_str());
        s.append(" Ok::<_, Box<dyn std::error::Error>>(");
        s.append(out.as_str());
        s.append(") })) }");
        Ok(s)
    }

    fn catch_text(&self, args: &Vec<Operand>) -> (r: Result<String, EmitError>)
        ensures
            r matches Ok(t) ==> self.catch_spec(args@) == Some(t@),
            r is Err <==> self.catch_spec(args@) is None,
    {
        if args.len() != 2 {
            return Err(EmitError::new("Promise.catch requires future and callback operands"));
        }
        let future = &args[0];
        let callback = &args[1];
        let output = match self.type_at(future.ty) {
            Some(Type::Future(o)) => *o,
            _ => {
                return Err(EmitError::new("Promise.catch receiver must be a future"));
            },
        };
        let future_text = self.await_operand_text(future);
        let (prelude, callback_expr) = self.promise_callback_hoist(callback);
        let invocation = self.promise_callback_invocation_with(
            callback,
            callback_expr.as_str(),
            "SmeltUnknown::String(smelt_error.to_string().into())",
        )?;
        let default_value = self.default_value(output)?;
        let mut s = wrap("{ ", prelude.as_str(), "SmeltFuture::from_future(Box::pin(async move { match ");
        s.append(future_text.as_str());
        s.append(".await { Ok(smelt_value) => Ok::<_, Box<dyn std::error::Error>>(smelt_value), Err(smelt_error) => { let _ = ");
        s.append(invocation.as_str());
        s.append("; Ok::<_, Box<dyn std::error::Error>>(");
        s.append(default_value.as_str());
        s.append(") } } })) }");
        Ok(s)
    }

    /// Whether `ty` is the host `Request` class.
    pub fn is_request_class_type(&self, ty: usize) -> (r: bool)
        ensures
            r == self.request_class(ty),
    {
        match self.type_at(ty) {
            Some(Type::Class { .. }) => {},
            _ => {
                return false;
            },
        }
        match self.fact_at(ty) {
            Some(f) => match f.class_kind {
                ClassKind::Request => true,
                _ => false,
            },
            None => false,
        }
    }

    fn http_fetch_text(&self, args: &Vec<Operand>) -> (r: Result<String, EmitError>)
        ensures
            r matches Ok(t) ==> self.http_fetch_spec(args@) == Some(t@),
            r is Err <==> self.http_fetch_spec(args@) is None,
    {
        if args.len() == 0 {
            return Err(EmitError::new("async fetch requires a URL operand"));
        }
        let url = &args[0];
        if self.is_request_class_type(url.ty) {
            return Ok(self.runtime.fetch_request.render(url.text.as_str()));
        }
        if !self.is_str_type(url.ty) {
            return Err(EmitError::new("async fetch URL must be a string"));
        }
        Ok(wrap("SmeltFuture::from_future(Box::pin(async move {                      let smelt_http = reqwest::get(", url.text.as_str(), ").await.expect(\"HTTP request failed\");                      let smelt_status = f64::from(smelt_http.status().as_u16());                      let smelt_reason = smelt_http.status().canonical_reason().unwrap_or_default().to_owned();                      let smelt_pairs: Vec<(String, String)> = smelt_http.headers().iter().map(|(smelt_name, smelt_value)| (smelt_name.as_str().to_owned(), smelt_value.to_str().unwrap_or_default().to_owned())).collect();                      let smelt_bytes = smelt_http.bytes().await.expect(\"HTTP response body read failed\").to_vec();                      Ok::<_, Box<dyn std::error::Error>>(SmeltResponse::from_parts(smelt_status, smelt_reason, SmeltHeaders::from_pairs(smelt_pairs), SmeltBody::from_bytes(smelt_bytes))) }))"))
    }

    /// Renders a runtime-backed async operation `op` on `args` as a Rust
    /// expression producing a value of type `dest_ty`.
    pub fn async_op_text(&self, op: AsyncOp, args: &Vec<Operand>, dest_ty: usize) -> (r: Result<
        String,
        EmitError,
    >)
        requires
            self.wf(),
        ensures
            r matches Ok(t) ==> self.async_op_spec(op, args@, dest_ty) == Some(t@),
            r is Err <==> self.async_op_spec(op, args@, dest_ty) is None,
    {
        match op {
            AsyncOp::All | AsyncOp::AllSettled => Ok(self.all_text(args)),
            AsyncOp::Race => self.race_text(args),
            AsyncOp::ExitDrain => Ok(
                wrap("SmeltFuture::from_future(Box::pin(async move { ", self.runtime.run_until_exit.as_str(), "().await; Ok::<_, Box<dyn std::error::Error>>(()) }))"),
            ),
            AsyncOp::Sleep => {
                if args.len() == 0 {
                    return Err(EmitError::new("async sleep requires a duration operand"));
                }
                let mut s = sleep_then_text(self.runtime.sleep_ms.as_str(), args[0].text.as_str());
                s.append("Ok::<_, Box<dyn std::error::Error>>(()) }))");
                Ok(s)
            },
            AsyncOp::Resolve => self.resolve_text(args, dest_ty),
            AsyncOp::Reject => self.reject_text(args),
            AsyncOp::SetTimeout => self.set_timer_text(
                self.runtime.set_timeout.as_str(),
                args,
                "setTimeout requires callback and duration operands",
            ),
            AsyncOp::ClearTimeout => self.clear_timer_text(
                self.runtime.clear_timeout.as_str(),
                args,
                "clearTimeout requires a timeout handle operand",
            ),
            AsyncOp::SetInterval => self.set_timer_text(
                self.runtime.set_interval.as_str(),
                args,
                "setInterval requires callback and period operands",
            ),
            AsyncOp::ClearInterval => self.clear_timer_text(
                self.runtime.clear_interval.as_str(),
                args,
                "clearInterval requires an interval handle operand",
            ),
            AsyncOp::Promise => self.promise_text(args, dest_ty),
            AsyncOp::Then => self.then_text(args, dest_ty),
            AsyncOp::Catch => self.catch_text(args),
            AsyncOp::SpawnLocal => {
                if args.len() != 1 {
                    return Err(EmitError::new("spawn local requires one future operand"));
                }
                let future_text = self.await_operand_text(&args[0]);
                let mut s = wrap("{ ", self.runtime.spawn_promise_task.as_str(), "(Box::pin(async move { let _ = ");
                s.append(future_text.as_str());
                s.append(".await; })); () }");
                Ok(s)
            },
            AsyncOp::CreateTask => {
                if args.len() == 0 {
                    return Err(EmitError::new("async task creation requires a future operand"));
                }
                let future_text = self.await_operand_text(&args[0]);
                Ok(wrap("SmeltFuture::from_future(Box::pin(async move { tokio::spawn(async move { ", future_text.as_str(), ".await }).await.expect(\"async task panicked\") }))"))
            },
            AsyncOp::WaitFor => {
                if args.len() < 2 {
                    return Err(EmitError::new("async wait_for requires a future and timeout operand"));
                }
                let future_text = self.await_operand_text(&args[0]);
                let mut s = wrap("SmeltFuture::from_future(Box::pin(async move { tokio::time::timeout(::std::time::Duration::from_millis(", args[1].text.as_str(), " as u64), async move { ");
                s.append(future_text.as_str());
                s.append(".await }).await.expect(\"async timeout\")? }))");
                Ok(s)
            },
            AsyncOp::HttpFetch => self.http_fetch_text(args),
            AsyncOp::HttpGetText => {
                if args.len() == 0 {
                    return Err(EmitError::new("async HTTP GET requires a URL operand"));
                }
                if !self.is_str_type(args[0].ty) {
                    return Err(EmitError::new("async HTTP GET URL must be a string"));
                }
                Ok(wrap("SmeltFuture::from_future(Box::pin(async move { Ok::<_, Box<dyn std::error::Error>>(reqwest::get(", args[0].text.as_str(), ").await.expect(\"HTTP GET failed\").text().await.expect(\"HTTP response body read failed\")) }))"))
            },
        }
    }
}

} // verus!
