//! Field reads on a named receiver value: string-keyed dictionary entries,
//! own fields of an erased object (with its getters and the abort-record
//! methods), the metadata of strings, regular expressions and matches, and
//! the stored fields and bound methods of classes.

use vstd::prelude::*;
use crate::emitter::{EmitError, FunctionEmitter};
use crate::erase::wrap;
use crate::mir::{FunctionOrigin, MirFunction};
use crate::numtext::{decimal, usize_text};
use crate::operand::string_field_spec;
use crate::operand_uses::{match_field_spec, regexp_field_spec};
use crate::text::{debug_quote, debug_quoted, join, seq_join, str_eq, views};
use crate::types::{ClassKind, Type};

verus! {

/// The first of `fs` that is the method `method` of class `class`.
pub open spec fn find_method(fs: Seq<MirFunction>, class: usize, method: usize) -> Option<MirFunction>
    decreases fs.len(),
{
    if fs.len() == 0 {
        None
    } else if fs[0].origin matches FunctionOrigin::ClassMethod { class: c, method: m } && c == class && m
        == method {
        Some(fs[0])
    } else {
        find_method(fs.drop_first(), class, method)
    }
}

/// The erased argument `index` a bound method reads from its argument vector.
pub open spec fn bound_arg(index: nat) -> Seq<char> {
    "smelt_args.get("@ + decimal(index) + ").cloned().unwrap_or(SmeltUnknown::Null)"@
}

/// The erased function value that calls `call` on a captured receiver.
pub open spec fn bound_method(receiver_clone: Seq<char>, call: Seq<char>) -> Seq<char> {
    "{ let smelt_receiver = "@ + receiver_clone
        + "; SmeltUnknown::Function(::std::rc::Rc::new(move |smelt_args: Vec<SmeltUnknown>| Ok::<SmeltUnknown, Box<dyn std::error::Error>>("@
        + call + "))) }"@
}

/// A method of the host abort records, bound through the runtime rather than
/// read as an own field.
pub open spec fn abort_method_name(name: Seq<char>) -> bool {
    name == "abort"@ || name == "addEventListener"@ || name == "removeEventListener"@ || name
        == "dispatchEvent"@ || name == "throwIfAborted"@
}

/// The own-field read of an erased object, running a getter it holds.
pub open spec fn erased_field_read(quoted: Seq<char>) -> Seq<char> {
    "SmeltUnknown::Object(map) => match map.get("@ + quoted
        + ").unwrap_or(SmeltUnknown::Null) { SmeltUnknown::Object(mut getter) if getter.contains_key(\"__smelt_get\") => match getter.remove(\"__smelt_get\") { Some(SmeltUnknown::Function(smelt_getter)) => (smelt_getter)(Vec::new()).unwrap_or_else(|error| panic!(\"{}\", error)), _ => SmeltUnknown::Null }, value => value }, _ => SmeltUnknown::Null }"@
}

/// The field read of an erased receiver.
pub open spec fn erased_field_spec(scrutinee: Seq<char>, name: Seq<char>) -> Seq<char> {
    let q = debug_quoted(name);
    let guard = if abort_method_name(name) {
        "SmeltUnknown::Object(map) if (map.contains_key(\"__smelt_abortcontroller\") || map.contains_key(\"__smelt_abortsignal\")) && !map.contains_key("@
            + q + ") => smelt_abort_method(map.clone(), "@ + q + "), "@
    } else {
        Seq::empty()
    };
    "match "@ + scrutinee + " { "@ + guard + erased_field_read(q)
}

/// The entry read of a string-keyed dictionary.
pub open spec fn dict_field_spec(recv: Seq<char>, quoted: Seq<char>, optional: bool, record: bool) -> Seq<char> {
    if optional {
        if record {
            recv + ".get("@ + quoted + ").flatten()"@
        } else {
            recv + ".get("@ + quoted + ").cloned().flatten()"@
        }
    } else if record {
        recv + ".get("@ + quoted + ").expect(\"missing field\")"@
    } else {
        recv + ".get("@ + quoted + ").cloned().expect(\"missing field\")"@
    }
}

impl FunctionEmitter {
    /// The parameter types after the receiver of `f`, for the first `n`.
    pub open spec fn bound_args_spec(&self, f: MirFunction, unknown: usize, n: nat) -> Option<Seq<Seq<char>>>
        decreases n,
    {
        if n == 0 {
            Some(Seq::empty())
        } else {
            let k = (n - 1) as nat;
            let param = f.params@[k + 1int];
            let t = if (param as int) < f.locals.len() {
                self.vat_spec(bound_arg(k), unknown, f.locals@[param as int].ty, Seq::empty())
            } else {
                None
            };
            match (self.bound_args_spec(f, unknown, k), t) {
                (Some(done), Some(t)) => Some(done.push(t)),
                _ => None,
            }
        }
    }

    proof fn lemma_bound_args_none(&self, f: MirFunction, unknown: usize, a: nat, b: nat)
        requires
            a <= b,
            self.bound_args_spec(f, unknown, a) is None,
        ensures
            self.bound_args_spec(f, unknown, b) is None,
        decreases b - a,
    {
        if a < b {
            self.lemma_bound_args_none(f, unknown, a, (b - 1) as nat);
        }
    }

    /// The erased result of a forwarded method call: a call of a method
    /// that returns nothing is evaluated, then `null` is given back.
    pub open spec fn forwarded_result_spec(&self, call: Seq<char>, ret: usize) -> Option<Seq<char>> {
        if self.ty(ret) matches Some(Type::Nullish) || self.ty(ret) matches Some(Type::Never) {
            Some("{ "@ + call + "; SmeltUnknown::Null }"@)
        } else {
            self.erase_spec(call, ret, false)
        }
    }

    /// A class method read as a value: an erased function that calls the
    /// method on a clone of the receiver; `Some(None)` where the class has no
    /// such method, concrete or abstract.
    pub open spec fn method_reference_spec(&self, recv: Seq<char>, class: usize, method: usize) -> Option<
        Option<Seq<char>>,
    > {
        match find_method(self.functions@, class, method) {
            None => Some(self.abstract_method_spec(class, method)),
            Some(f) => {
                let argc: nat = if f.params.len() > 0 {
                    (f.params.len() - 1) as nat
                } else {
                    0
                };
                match (self.ident(method), self.find_interned(Type::Unknown)) {
                    (Some(name), Some(u)) => match self.bound_args_spec(f, u, argc) {
                        Some(args) => {
                            let call = "smelt_receiver."@ + name + "("@ + seq_join(args, ", "@) + ")"@;
                            let returned = if f.can_throw && !f.is_generator {
                                call + "?"@
                            } else {
                                call
                            };
                            match self.forwarded_result_spec(returned, f.return_ty) {
                                Some(w) => {
                                    let receiver_clone = if recv == "self"@ {
                                        self.self_clone_spec(class)
                                    } else {
                                        recv + ".clone()"@
                                    };
                                    Some(Some(bound_method(receiver_clone, w)))
                                },
                                None => None,
                            }
                        },
                        None => None,
                    },
                    _ => None,
                }
            },
        }
    }

    /// A stored field of function type.
    pub open spec fn function_field(&self, ty: usize, field: usize) -> bool {
        match crate::capture_analysis::field_type_in(self.record_fields_of(ty), field) {
            Some(t) => self.ty(t) matches Some(Type::Function(_)),
            None => false,
        }
    }

    /// The stored field read `recv.field.clone()`.
    pub open spec fn stored_field_spec(&self, recv: Seq<char>, field: usize) -> Option<Seq<char>> {
        match self.ident(field) {
            Some(n) => Some(recv + "."@ + n + ".clone()"@),
            None => None,
        }
    }

    /// The field `field` read on the receiver `recv` of type `ty`.
    pub open spec fn field_access_spec(&self, recv: Seq<char>, ty: usize, field: usize) -> Option<Seq<char>> {
        let erased = self.ty(ty) matches Some(Type::Unknown) || self.ty(ty) matches Some(Type::Union(_))
            || self.ty(ty) matches Some(Type::TypeParam { .. }) || self.erased_class(ty);
        let str_dict = match self.ty(ty) {
            Some(Type::Dict(key, value)) => if self.ty(key) == Some(Type::Str) {
                Some((key, value))
            } else {
                None
            },
            _ => None,
        };
        if let Some((key, value)) = str_dict {
            match self.symbol(field) {
                Some(n) => Some(
                    dict_field_spec(
                        recv,
                        debug_quoted(n),
                        self.ty(value) matches Some(Type::Optional(_)),
                        self.smelt_record_key(key),
                    ),
                ),
                None => None,
            }
        } else if erased {
            match self.symbol(field) {
                Some(n) => {
                    let scrutinee = if (self.ty(ty) matches Some(Type::Union(_))) && self.concrete_union(ty) {
                        recv + ".clone().into_smelt_unknown()"@
                    } else {
                        recv
                    };
                    Some(erased_field_spec(scrutinee, n))
                },
                None => None,
            }
        } else if self.ty(ty) == Some(Type::Str) {
            match self.symbol(field) {
                Some(n) => Some(string_field_spec(recv, n)),
                None => None,
            }
        } else if (self.ty(ty) matches Some(Type::Class { .. })) && self.class_kind_of(ty) is RegExp {
            match self.symbol(field) {
                Some(n) => Some(regexp_field_spec(recv, n)),
                None => None,
            }
        } else if (self.ty(ty) matches Some(Type::Class { .. })) && (self.class_kind_of(ty) is Match
            || self.class_kind_of(ty) is MatchGroups) {
            match self.symbol(field) {
                Some(n) => Some(match_field_spec(recv, self.class_kind_of(ty), n)),
                None => None,
            }
        } else if self.function_field(ty, field) {
            self.stored_field_spec(recv, field)
        } else if let Some(Type::Class { name, .. }) = self.ty(ty) {
            match self.method_reference_spec(recv, name, field) {
                None => None,
                Some(Some(t)) => Some(t),
                Some(None) => self.stored_field_spec(recv, field),
            }
        } else {
            None
        }
    }

    fn find_method_fn(&self, class: usize, method: usize) -> (r: Option<&MirFunction>)
        ensures
            r matches Some(f) ==> find_method(self.functions@, class, method) == Some(*f),
            r is None <==> find_method(self.functions@, class, method) is None,
    {
        let mut i: usize = 0;
        assert(self.functions@.skip(0) =~= self.functions@);
        while i < self.functions.len()
            invariant
                i <= self.functions.len(),
                find_method(self.functions@, class, method) == find_method(self.functions@.skip(i as int), class, method),
            decreases self.functions.len() - i,
        {
            assert(self.functions@.skip(i as int).drop_first() =~= self.functions@.skip(i + 1));
            let is_it = match self.functions[i].origin {
                FunctionOrigin::ClassMethod { class: c, method: m } => c == class && m == method,
                _ => false,
            };
            if is_it {
                return Some(&self.functions[i]);
            }
            i = i + 1;
        }
        None
    }

    fn bound_args_text(&self, f: &MirFunction, unknown: usize) -> (r: Result<Vec<String>, EmitError>)
        requires
            self.wf(),
            f.params.len() > 0,
        ensures
            r matches Ok(v) ==> self.bound_args_spec(*f, unknown, (f.params.len() - 1) as nat) == Some(views(v@)),
            r is Err <==> self.bound_args_spec(*f, unknown, (f.params.len() - 1) as nat) is None,
    {
        let n = f.params.len() - 1;
        let mut out: Vec<String> = Vec::new();
        let mut i: usize = 0;
        while i < n
            invariant
                self.wf(),
                n == f.params.len() - 1,
                i <= n,
                out.len() == i,
                self.bound_args_spec(*f, unknown, i as nat) == Some(views(out@)),
            decreases n - i,
        {
            let param = f.params[i + 1];
            let t = if param < f.locals.len() {
                let item = wrap("smelt_args.get(", usize_text(i).as_str(), ").cloned().unwrap_or(SmeltUnknown::Null)");
                self.value_at_type_text(item.as_str(), unknown, f.locals[param].ty)
            } else {
                Err(EmitError::new("method parameter has no local"))
            };
            match t {
                Ok(t) => {
                    let ghost before = out@;
                    out.push(t);
                    assert(views(out@) =~= views(before).push(out@[i as int]@));
                },
                Err(e) => {
                    proof {
                        self.lemma_bound_args_none(*f, unknown, (i + 1) as nat, n as nat);
                    }
                    return Err(e);
                },
            }
            i = i + 1;
        }
        Ok(out)
    }

    /// Emits a class method read as a value, such as `this.set`: an erased
    /// function that captures a clone of the receiver and forwards every
    /// invocation to the method, each argument coerced to the parameter's
    /// type; a method that returns nothing is called and `null` given back.
    /// `None` where the class has no such method, concrete or abstract.
    pub fn class_method_reference_text(&self, receiver_text: &str, class: usize, method: usize) -> (r: Result<
        Option<String>,
        EmitError,
    >)
        requires
            self.wf(),
        ensures
            r matches Ok(Some(t)) ==> self.method_reference_spec(receiver_text@, class, method) == Some(Some(t@)),
            r matches Ok(None) ==> self.method_reference_spec(receiver_text@, class, method) == Some(
                None::<Seq<char>>,
            ),
            r is Err <==> self.method_reference_spec(receiver_text@, class, method) is None,
    {
        let function = match self.find_method_fn(class, method) {
            Some(f) => f,
            None => {
                return self.abstract_class_method_reference_text(class, method);
            },
        };
        let name = self.ident_text(method)?;
        let unknown = self.type_id(&Type::Unknown)?;
        let args = if function.params.len() > 0 {
            self.bound_args_text(function, unknown)?
        } else {
            let none: Vec<String> = Vec::new();
            assert(views(none@) =~= Seq::<Seq<char>>::empty());
            none
        };
        let joined = join(&args, ", ");
        let mut call = wrap("smelt_receiver.", name.as_str(), "(");
        call.append(joined.as_str());
        call.append(")");
        if function.can_throw && !function.is_generator {
            call.append("?");
        }
        let returns_nothing = match self.type_at(function.return_ty) {
            Some(Type::Nullish) | Some(Type::Never) => true,
            _ => false,
        };
        let wrapped = if returns_nothing {
            wrap("{ ", call.as_str(), "; SmeltUnknown::Null }")
        } else {
            self.erase_value_text(call.as_str(), function.return_ty)?
        };
        let receiver_clone = if str_eq(receiver_text, "self") {
            self.self_struct_clone_text(class)?
        } else {
            let mut rc = String::from_str(receiver_text);
            rc.append(".clone()");
            rc
        };
        let mut s = wrap("{ let smelt_receiver = ", receiver_clone.as_str(), "; SmeltUnknown::Function(::std::rc::Rc::new(move |smelt_args: Vec<SmeltUnknown>| Ok::<SmeltUnknown, Box<dyn std::error::Error>>(");
        s.append(wrapped.as_str());
        s.append("))) }");
        Ok(Some(s))
    }

    fn class_kind_at(&self, ty: usize) -> (r: ClassKind)
        ensures
            r == self.class_kind_of(ty),
    {
        match self.fact_at(ty) {
            Some(f) => match f.class_kind {
                ClassKind::Plain => ClassKind::Plain,
                ClassKind::RegExp => ClassKind::RegExp,
                ClassKind::Match => ClassKind::Match,
                ClassKind::MatchGroups => ClassKind::MatchGroups,
                ClassKind::Blob => ClassKind::Blob,
                ClassKind::Request => ClassKind::Request,
            },
            None => ClassKind::Plain,
        }
    }

    fn is_function_field(&self, ty: usize, field: usize) -> (r: bool)
        ensures
            r == self.function_field(ty, field),
    {
        let found = match self.record_fields_ref(ty) {
            Some(fields) => crate::capture_analysis::field_type_find(fields, field),
            None => None,
        };
        match found {
            Some(t) => match self.type_at(t) {
                Some(Type::Function(_)) => true,
                _ => false,
            },
            None => false,
        }
    }

    fn stored_field_text(&self, receiver_text: &str, field: usize) -> (r: Result<String, EmitError>)
        ensures
            r matches Ok(t) ==> self.stored_field_spec(receiver_text@, field) == Some(t@),
            r is Err <==> self.stored_field_spec(receiver_text@, field) is None,
    {
        let name = self.ident_text(field)?;
        let mut s = wrap(receiver_text, ".", name.as_str());
        s.append(".clone()");
        Ok(s)
    }

    fn erased_field_text(&self, scrutinee: &str, name: &str) -> (r: String)
        ensures
            r@ == erased_field_spec(scrutinee@, name@),
    {
        let q = debug_quote(name);
        let abort = str_eq(name, "abort") || str_eq(name, "addEventListener") || str_eq(name, "removeEventListener")
            || str_eq(name, "dispatchEvent") || str_eq(name, "throwIfAborted");
        let mut guard = String::new();
        if abort {
            guard.append("SmeltUnknown::Object(map) if (map.contains_key(\"__smelt_abortcontroller\") || map.contains_key(\"__smelt_abortsignal\")) && !map.contains_key(");
            guard.append(q.as_str());
            guard.append(") => smelt_abort_method(map.clone(), ");
            guard.append(q.as_str());
            guard.append("), ");
        }
        let mut s = wrap("match ", scrutinee, " { ");
        s.append(guard.as_str());
        s.append("SmeltUnknown::Object(map) => match map.get(");
        s.append(q.as_str());
        s.append(").unwrap_or(SmeltUnknown::Null) { SmeltUnknown::Object(mut getter) if getter.contains_key(\"__smelt_get\") => match getter.remove(\"__smelt_get\") { Some(SmeltUnknown::Function(smelt_getter)) => (smelt_getter)(Vec::new()).unwrap_or_else(|error| panic!(\"{}\", error)), _ => SmeltUnknown::Null }, value => value }, _ => SmeltUnknown::Null }");
        s
    }

    /// Emits the read of field `field` on a named receiver value of type
    /// `receiver_ty`: the entry of a string-keyed dictionary, the own field
    /// of an erased object (running a getter it holds, and binding the
    /// methods of the host abort records), the metadata of a string, regular
    /// expression or match, a stored function field, a bound class method, or
    /// else the stored field.
    pub fn field_access_text(&self, receiver_text: &str, receiver_ty: usize, field: usize) -> (r: Result<
        String,
        EmitError,
    >)
        requires
            self.wf(),
        ensures
            r matches Ok(t) ==> self.field_access_spec(receiver_text@, receiver_ty, field) == Some(t@),
            r is Err <==> self.field_access_spec(receiver_text@, receiver_ty, field) is None,
    {
        if let Some(Type::Dict(key, value)) = self.type_at(receiver_ty) {
            let key_is_str = match self.type_at(*key) {
                Some(Type::Str) => true,
                _ => false,
            };
            if key_is_str {
                let name = self.symbol_name(field)?;
                let q = debug_quote(name.as_str());
                let optional = match self.type_at(*value) {
                    Some(Type::Optional(_)) => true,
                    _ => false,
                };
                let record = match self.fact_at(*key) {
                    Some(f) => f.smelt_record_key,
                    None => false,
                };
                let mut s = wrap(receiver_text, ".get(", q.as_str());
                if optional {
                    if record {
                        s.append(").flatten()");
                    } else {
                        s.append(").cloned().flatten()");
                    }
                } else if record {
                    s.append(").expect(\"missing field\")");
                } else {
                    s.append(").cloned().expect(\"missing field\")");
                }
                return Ok(s);
            }
        }
        let erased = match self.type_at(receiver_ty) {
            Some(Type::Unknown) | Some(Type::Union(_)) | Some(Type::TypeParam { .. }) => true,
            _ => self.is_erased_class_type(receiver_ty),
        };
        if erased {
            let name = self.symbol_name(field)?;
            let union = match self.type_at(receiver_ty) {
                Some(Type::Union(_)) => self.is_concrete_union(receiver_ty),
                _ => false,
            };
            let mut scrutinee = String::from_str(receiver_text);
            if union {
                scrutinee.append(".clone().into_smelt_unknown()");
            }
            return Ok(self.erased_field_text(scrutinee.as_str(), name.as_str()));
        }
        let is_class = match self.type_at(receiver_ty) {
            Some(Type::Str) => {
                return self.string_field_text(receiver_text, field);
            },
            Some(Type::Class { .. }) => true,
            _ => false,
        };
        let kind = self.class_kind_at(receiver_ty);
        if is_class {
            match kind {
                ClassKind::RegExp => {
                    return self.regexp_field_text(receiver_text, field);
                },
                ClassKind::Match | ClassKind::MatchGroups => {
                    return self.match_field_text(receiver_text, kind, field);
                },
                _ => {},
            }
        }
        if self.is_function_field(receiver_ty, field) {
            return self.stored_field_text(receiver_text, field);
        }
        let name = match self.type_at(receiver_ty) {
            Some(Type::Class { name, .. }) => *name,
            _ => {
                return Err(EmitError::new("field read needs a class or string-keyed dictionary receiver"));
            },
        };
        match self.class_method_reference_text(receiver_text, name, field)? {
            Some(t) => Ok(t),
            None => self.stored_field_text(receiver_text, field),
        }
    }

}

} // verus!
