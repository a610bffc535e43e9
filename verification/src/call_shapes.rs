//! Call sites: the calls of the runtime builtins that print and parse, the
//! run-time dispatch of a call of an erased function value, and
//! what a static call site reads from its callee: whether the call yields a
//! native future that must be wrapped into the runtime future, and the type
//! parameters of the class a constructor or method belongs to.

use vstd::prelude::*;
use crate::emitter::{EmitError, FunctionEmitter};
use crate::erase::wrap;
use crate::value_at_type::suffixed;
use crate::mir::{BuiltinFn, Callee, FunctionOrigin, MirFunction, Operand, OperandKind, Place};
use crate::capture_analysis::seq_has;
use crate::operand_uses::AbsentSpelling;
use crate::text::{join, seq_join, str_eq, views};
use crate::types::Type;

verus! {

/// A function whose call yields a native future: an async function that is
/// neither a generator nor a class method.
pub open spec fn native_async(f: MirFunction) -> bool {
    f.is_async && !f.is_generator && !(f.origin is ClassMethod)
}

/// The class a constructor or instance method belongs to; static methods and
/// free functions carry none of a class's type parameters.
pub open spec fn instance_class(f: MirFunction) -> Option<usize> {
    match f.origin {
        FunctionOrigin::ClassConstructor { class } => Some(class),
        FunctionOrigin::ClassMethod { class, .. } => Some(class),
        _ => None,
    }
}

/// The format specs of rendered console arguments.
pub open spec fn formats(ps: Seq<(Seq<char>, Seq<char>)>) -> Seq<Seq<char>> {
    ps.map_values(|p: (Seq<char>, Seq<char>)| p.0)
}

/// The value texts of rendered console arguments.
pub open spec fn values(ps: Seq<(Seq<char>, Seq<char>)>) -> Seq<Seq<char>> {
    ps.map_values(|p: (Seq<char>, Seq<char>)| p.1)
}

/// The run-time dispatch of a call of an erased value: the function it
/// holds, or the function in its `__smelt_call` slot, called with the
/// erased arguments; `null` when it holds neither.
pub open spec fn dynamic_dispatch_spec(callee: Seq<char>, args: Seq<char>) -> Seq<char> {
    "{ let smelt_function_value = "@ + callee + "; let smelt_call_args: Vec<SmeltUnknown> = Into::into("@ + args
        + "); let smelt_callable = match smelt_function_value { SmeltUnknown::Function(smelt_function) => Some(smelt_function), SmeltUnknown::Object(smelt_object) => match smelt_object.get(\"__smelt_call\") { Some(SmeltUnknown::Function(smelt_function)) => Some(smelt_function.clone()), _ => None }, _ => None }; if let Some(smelt_function) = smelt_callable { (smelt_function)(smelt_call_args).unwrap_or_else(|error| panic!(\"{}\", error)) } else { SmeltUnknown::Null } }"@
}

/// Renders the run-time dispatch of a call of an erased value. `callee_text`
/// is the callee's value already taken as an owned temporary.
pub fn dynamic_callable_dispatch_text(callee_text: &str, args_expr: &str) -> (r: String)
    ensures
        r@ == dynamic_dispatch_spec(callee_text@, args_expr@),
{
    let mut s = wrap("{ let smelt_function_value = ", callee_text, "; let smelt_call_args: Vec<SmeltUnknown> = Into::into(");
    s.append(args_expr);
    s.append("); let smelt_callable = match smelt_function_value { SmeltUnknown::Function(smelt_function) => Some(smelt_function), SmeltUnknown::Object(smelt_object) => match smelt_object.get(\"__smelt_call\") { Some(SmeltUnknown::Function(smelt_function)) => Some(smelt_function.clone()), _ => None }, _ => None }; if let Some(smelt_function) = smelt_callable { (smelt_function)(smelt_call_args).unwrap_or_else(|error| panic!(\"{}\", error)) } else { SmeltUnknown::Null } }");
    s
}

impl FunctionEmitter {
    /// The first `n` console arguments, each as its format spec and value.
    pub open spec fn console_args_spec(&self, args: Seq<Operand>, absent: AbsentSpelling, n: nat) -> Option<
        Seq<(Seq<char>, Seq<char>)>,
    >
        decreases n,
    {
        if n == 0 {
            Some(Seq::empty())
        } else {
            match (self.console_args_spec(args, absent, (n - 1) as nat), self.console_arg_spec(args[n - 1], absent)) {
                (Some(done), Some(p)) => Some(done.push(p)),
                _ => None,
            }
        }
    }

    proof fn lemma_console_args_none(&self, args: Seq<Operand>, absent: AbsentSpelling, a: nat, b: nat)
        requires
            a <= b,
            self.console_args_spec(args, absent, a) is None,
        ensures
            self.console_args_spec(args, absent, b) is None,
        decreases b - a,
    {
        if a < b {
            self.lemma_console_args_none(args, absent, a, (b - 1) as nat);
        }
    }

    /// A stream write through the printing macro `mac` of the first argument,
    /// or of the empty string.
    pub open spec fn console_write_spec(&self, args: Seq<Operand>, mac: Seq<char>) -> Option<Seq<char>> {
        let p = if args.len() > 0 {
            self.console_arg_spec(args[0], AbsentSpelling::Undefined)
        } else {
            Some(("{}"@, "\"\""@))
        };
        match p {
            Some((f, v)) => Some("{ "@ + mac + "!(\""@ + f + "\", "@ + v + "); }"@),
            None => None,
        }
    }

    /// The text of a call of a printing, parsing or decoding builtin, of a
    /// program function, of an erased function value through the run-time
    /// dispatch, or of a typed function value over its rendered arguments.
    pub open spec fn call_spec(&self, callee: Callee, args: Seq<Operand>) -> Option<Seq<char>> {
        match callee {
            Callee::Builtin(BuiltinFn::ConsoleLog { absent }) => match self.console_args_spec(
                args,
                absent,
                args.len(),
            ) {
                Some(ps) => Some(
                    if ps.len() == 0 {
                        "{ println!(); }"@
                    } else {
                        "{ println!(\""@ + seq_join(formats(ps), " "@) + "\", "@ + seq_join(values(ps), ", "@)
                            + "); }"@
                    },
                ),
                None => None,
            },
            Callee::Builtin(BuiltinFn::ConsoleWrite) => self.console_write_spec(args, "print"@),
            Callee::Builtin(BuiltinFn::ConsoleErrorWrite) => self.console_write_spec(args, "eprint"@),
            Callee::Builtin(BuiltinFn::JsonParse) => if args.len() > 0 && (self.ty(args[0].ty) matches Some(
                Type::Str,
            )) {
                Some(self.runtime.json_parse@ + "(&"@ + args[0].text@ + ")?"@)
            } else {
                None
            },
            Callee::Builtin(BuiltinFn::UriDecode { component }) => if args.len() > 0 {
                match args[0].string_text {
                    Some(v) => Some(
                        (if component {
                            self.runtime.decode_uri_component@
                        } else {
                            self.runtime.decode_uri@
                        }) + "("@ + v@ + ".as_str())?"@,
                    ),
                    None => None,
                }
            } else {
                None
            },
            Callee::Static(id, arg_texts) => match self.function_at(id) {
                Some(f) => self.static_call_spec(f, args, views(arg_texts@)),
                None => None,
            },
            Callee::Indirect(f, typed) => if self.erased_relational_spec(f.ty) {
                match self.erase_all_spec(args, args.len() as nat) {
                    Some(items) => Some(dynamic_dispatch_spec(f.text@, "vec!["@ + seq_join(items, ", "@) + "]"@)),
                    None => None,
                }
            } else {
                match self.ty(f.ty) {
                    Some(Type::Function(ft)) => {
                        let list = seq_join(views(typed.arg_texts@), ", "@);
                        if typed.erased_abi {
                            Some("("@ + f.text@ + ").call("@ + list + ")"@)
                        } else {
                            Some("("@ + f.text@ + ")("@ + list + ")"@ + (if ft.may_throw {
                                "?"@
                            } else {
                                Seq::empty()
                            }))
                        }
                    },
                    _ => None,
                }
            },
        }
    }

    fn console_write_text(&self, args: &Vec<Operand>, mac: &str) -> (r: Result<String, EmitError>)
        requires
            self.wf(),
        ensures
            r matches Ok(t) ==> self.console_write_spec(args@, mac@) == Some(t@),
            r is Err <==> self.console_write_spec(args@, mac@) is None,
    {
        let (f, v) = if args.len() > 0 {
            let p = self.console_arg_text(&args[0], &AbsentSpelling::Undefined)?;
            (p.0, p.1)
        } else {
            ("{}", String::from_str("\"\""))
        };
        let mut s = wrap("{ ", mac, "!(\"");
        s.append(f);
        s.append("\", ");
        s.append(v.as_str());
        s.append("); }");
        Ok(s)
    }

    /// Renders a call: `console.log` as one `println!` over every
    /// argument's format spec and value, a stream write as one
    /// `print!`/`eprint!`, `JSON.parse` of a string as the fallible runtime
    /// parser, a URI decoder as its fallible runtime adapter over the string
    /// read of its input, a call of a program function by its kind
    /// (constructor, method, static method, free function) over its rendered
    /// arguments, and the call of an erased function value (unknown,
    /// type-parameter, union or erased-class typed) as the run-time dispatch
    /// over its erased arguments; a typed function value is called directly
    /// (`?` after a fallible one) or through the erased function's `call`,
    /// over the argument list the value-call renderer gave it.
    pub fn call_text(&self, callee: &Callee, args: &Vec<Operand>) -> (r: Result<String, EmitError>)
        requires
            self.wf(),
        ensures
            r matches Ok(t) ==> self.call_spec(*callee, args@) == Some(t@),
            r is Err <==> self.call_spec(*callee, args@) is None,
    {
        match callee {
            Callee::Builtin(BuiltinFn::ConsoleLog { absent }) => {
                let mut fmts: Vec<String> = Vec::new();
                let mut vals: Vec<String> = Vec::new();
                let ghost mut ps: Seq<(Seq<char>, Seq<char>)> = Seq::empty();
                let mut i: usize = 0;
                while i < args.len()
                    invariant
                        self.wf(),
                        *callee == Callee::Builtin(BuiltinFn::ConsoleLog { absent: *absent }),
                        i <= args.len(),
                        self.console_args_spec(args@, *absent, i as nat) == Some(ps),
                        ps.len() == i,
                        views(fmts@) =~= formats(ps),
                        views(vals@) =~= values(ps),
                    decreases args.len() - i,
                {
                    match self.console_arg_text(&args[i], absent) {
                        Ok(p) => {
                            let ghost before_f = fmts@;
                            let ghost before_v = vals@;
                            fmts.push(String::from_str(p.0));
                            vals.push(p.1);
                            proof {
                                ps = ps.push((p.0@, p.1@));
                                assert(views(fmts@) =~= views(before_f).push(p.0@));
                                assert(views(vals@) =~= views(before_v).push(p.1@));
                                assert(formats(ps) =~= formats(ps.drop_last()).push(p.0@));
                                assert(values(ps) =~= values(ps.drop_last()).push(p.1@));
                            }
                        },
                        Err(e) => {
                            proof {
                                assert(self.console_arg_spec(args@[i as int], *absent) is None);
                                assert(self.console_args_spec(args@, *absent, (i + 1) as nat) is None);
                                self.lemma_console_args_none(args@, *absent, (i + 1) as nat, args.len() as nat);
                            }
                            return Err(e);
                        },
                    }
                    i = i + 1;
                }
                if args.len() == 0 {
                    return Ok(String::from_str("{ println!(); }"));
                }
                let f = join(&fmts, " ");
                let v = join(&vals, ", ");
                let mut s = wrap("{ println!(\"", f.as_str(), "\", ");
                s.append(v.as_str());
                s.append("); }");
                Ok(s)
            },
            Callee::Builtin(BuiltinFn::ConsoleWrite) => self.console_write_text(args, "print"),
            Callee::Builtin(BuiltinFn::ConsoleErrorWrite) => self.console_write_text(args, "eprint"),
            Callee::Builtin(BuiltinFn::JsonParse) => {
                if args.len() == 0 {
                    return Err(EmitError::new("JSON parse takes one string argument"));
                }
                match self.type_at(args[0].ty) {
                    Some(Type::Str) => {},
                    _ => {
                        return Err(EmitError::new("JSON parse input must be a string"));
                    },
                }
                let mut s = wrap(self.runtime.json_parse.as_str(), "(&", args[0].text.as_str());
                s.append(")?");
                Ok(s)
            },
            Callee::Builtin(BuiltinFn::UriDecode { component }) => {
                if args.len() == 0 {
                    return Err(EmitError::new("a URI decoder takes one string argument"));
                }
                let value = match &args[0].string_text {
                    Some(v) => v,
                    None => {
                        return Err(EmitError::new("URI decoder input is not string-like"));
                    },
                };
                let adapter = if *component {
                    self.runtime.decode_uri_component.as_str()
                } else {
                    self.runtime.decode_uri.as_str()
                };
                let mut s = wrap(adapter, "(", value.as_str());
                s.append(".as_str())?");
                Ok(s)
            },
            Callee::Static(id, arg_texts) => {
                if *id >= self.functions.len() {
                    return Err(EmitError::new("call references an unknown function"));
                }
                self.static_call_text(&self.functions[*id], args, arg_texts)
            },
            Callee::Indirect(f, typed) => {
                if !self.callee_is_dynamically_dispatched(f.ty) {
                    let may_throw = match self.type_at(f.ty) {
                        Some(Type::Function(ft)) => ft.may_throw,
                        _ => {
                            return Err(EmitError::new("indirect call target is not a function"));
                        },
                    };
                    let list = join(&typed.arg_texts, ", ");
                    if typed.erased_abi {
                        let mut s = wrap("(", f.text.as_str(), ").call(");
                        s.append(list.as_str());
                        s.append(")");
                        return Ok(s);
                    }
                    let mut s = wrap("(", f.text.as_str(), ")(");
                    s.append(list.as_str());
                    s.append(")");
                    if may_throw {
                        s.append("?");
                    }
                    return Ok(s);
                }
                let items = self.erase_all(args)?;
                let vector = wrap("vec![", join(&items, ", ").as_str(), "]");
                Ok(dynamic_callable_dispatch_text(f.text.as_str(), vector.as_str()))
            },
        }
    }

    /// The call of program function `f` with its arguments rendered as
    /// `arg_texts`: a constructor through the class's `new`, a method on its
    /// receiver's place (the callee's default result where the receiver is
    /// erased, the receiver's function-typed field of the same name where it
    /// has one), a static method through its class, and any other function
    /// by its Rust name; each followed by the callee's call suffix. A
    /// method call without a receiver, on a constant receiver, or of a list
    /// receiver's one-argument `concat` has no text here.
    pub open spec fn static_call_spec(&self, f: MirFunction, args: Seq<Operand>, arg_texts: Seq<Seq<char>>) -> Option<
        Seq<char>,
    > {
        let list = seq_join(arg_texts, ", "@);
        match f.origin {
            FunctionOrigin::ClassConstructor { class } => match self.ident(class) {
                Some(c) => Some(c + "::new("@ + list + ")"@ + f.call_suffix@),
                None => None,
            },
            FunctionOrigin::ClassMethod { method, .. } => if args.len() == 0 {
                None
            } else if self.erased_relational_spec(args[0].ty) {
                self.default_text(f.return_ty)
            } else if args[0].kind is Const {
                None
            } else {
                match self.ident(method) {
                    None => None,
                    Some(m) => match self.virtual_field_call_spec(args[0], m, args.drop_first()) {
                        None => None,
                        Some(Some(t)) => Some(t),
                        Some(None) => if m == "concat"@ && args.len() == 2 && (self.ty(args[0].ty) matches Some(
                            Type::List(_),
                        )) {
                            None
                        } else {
                            Some(args[0].place_text@ + "."@ + m + "("@ + list + ")"@ + f.call_suffix@)
                        },
                    },
                }
            },
            FunctionOrigin::ClassStaticMethod { class, method } => match (self.ident(class), self.ident(method)) {
                (Some(c), Some(m)) => Some(c + "::"@ + m + "("@ + list + ")"@ + f.call_suffix@),
                _ => None,
            },
            FunctionOrigin::Body => Some(f.rust_name@ + "("@ + list + ")"@ + f.call_suffix@),
        }
    }

    fn static_call_text(&self, f: &MirFunction, args: &Vec<Operand>, arg_texts: &Vec<String>) -> (r: Result<String, EmitError>)
        requires
            self.wf(),
        ensures
            r matches Ok(t) ==> self.static_call_spec(*f, args@, views(arg_texts@)) == Some(t@),
            r is Err <==> self.static_call_spec(*f, args@, views(arg_texts@)) is None,
    {
        let list = join(arg_texts, ", ");
        match &f.origin {
            FunctionOrigin::ClassConstructor { class } => {
                let c = self.ident_text(*class)?;
                let mut s = wrap(c.as_str(), "::new(", list.as_str());
                s.append(")");
                s.append(f.call_suffix.as_str());
                Ok(s)
            },
            FunctionOrigin::ClassMethod { method, .. } => {
                if args.len() == 0 {
                    return Err(EmitError::new("method call is missing a receiver"));
                }
                let receiver = &args[0];
                if self.callee_is_dynamically_dispatched(receiver.ty) {
                    return self.default_value(f.return_ty);
                }
                if let OperandKind::Const(_) = &receiver.kind {
                    return Err(EmitError::new("method receiver cannot be a constant"));
                }
                let m = self.ident_text(*method)?;
                let mut rest: Vec<Operand> = Vec::new();
                let mut i: usize = 1;
                while i < args.len()
                    invariant
                        1 <= i <= args.len(),
                        rest@ == args@.subrange(1, i as int),
                    decreases args.len() - i,
                {
                    rest.push(args[i].duplicate());
                    i = i + 1;
                }
                assert(rest@ =~= args@.drop_first());
                match self.call_virtual_function_field_text(receiver, m.as_str(), &rest)? {
                    Some(t) => {
                        return Ok(t);
                    },
                    None => {},
                }
                let is_list = match self.type_at(receiver.ty) {
                    Some(Type::List(_)) => true,
                    _ => false,
                };
                if str_eq(m.as_str(), "concat") && args.len() == 2 && is_list {
                    return Err(EmitError::new("list concatenation is rendered by the list helpers"));
                }
                let mut s = wrap(receiver.place_text.as_str(), ".", m.as_str());
                s.append("(");
                s.append(list.as_str());
                s.append(")");
                s.append(f.call_suffix.as_str());
                Ok(s)
            },
            FunctionOrigin::ClassStaticMethod { class, method } => {
                let c = self.ident_text(*class)?;
                let m = self.ident_text(*method)?;
                let mut s = wrap(c.as_str(), "::", m.as_str());
                s.append("(");
                s.append(list.as_str());
                s.append(")");
                s.append(f.call_suffix.as_str());
                Ok(s)
            },
            FunctionOrigin::Body => {
                let mut s = wrap(f.rust_name.as_str(), "(", list.as_str());
                s.append(")");
                s.append(f.call_suffix.as_str());
                Ok(s)
            },
        }
    }

    /// The program function with id `id`.
    pub open spec fn function_at(&self, id: usize) -> Option<MirFunction> {
        if id < self.functions.len() {
            Some(self.functions@[id as int])
        } else {
            None
        }
    }

    /// The call text of a call of `callee`, as a value of the runtime future
    /// type where the callee's call yields a native future.
    pub open spec fn native_async_call_spec(&self, callee: Callee, call: Seq<char>) -> Option<Seq<char>> {
        match callee {
            Callee::Static(id, _) => match self.function_at(id) {
                Some(f) => Some(
                    if native_async(f) {
                        "SmeltFuture::from_future(Box::pin("@ + call + "))"@
                    } else {
                        call
                    },
                ),
                None => None,
            },
            _ => Some(call),
        }
    }

    /// The type parameters, in declaration order, of the class whose
    /// constructor or instance method `f` is.
    pub open spec fn callee_class_params_spec(&self, f: MirFunction) -> Seq<usize> {
        match instance_class(f) {
            Some(c) => match self.class_named(c) {
                Some(info) => info.type_params@,
                None => Seq::empty(),
            },
            None => Seq::empty(),
        }
    }

    /// Wraps the call of an async free function into the runtime future type;
    /// other calls keep their text.
    pub fn wrap_native_async_call_text(&self, callee: &Callee, call_text: String) -> (r: Result<
        String,
        EmitError,
    >)
        ensures
            r matches Ok(t) ==> self.native_async_call_spec(*callee, call_text@) == Some(t@),
            r is Err <==> self.native_async_call_spec(*callee, call_text@) is None,
    {
        let id = match callee {
            Callee::Static(id, _) => *id,
            _ => {
                return Ok(call_text);
            },
        };
        if id >= self.functions.len() {
            return Err(EmitError::new("call references an unknown function"));
        }
        let function = &self.functions[id];
        let class_method = match function.origin {
            FunctionOrigin::ClassMethod { .. } => true,
            _ => false,
        };
        if function.is_async && !function.is_generator && !class_method {
            Ok(wrap("SmeltFuture::from_future(Box::pin(", call_text.as_str(), "))"))
        } else {
            Ok(call_text)
        }
    }

    /// The type parameters, in declaration order, of the class whose
    /// constructor or instance method `function` is; empty for free
    /// functions and static methods.
    pub fn callee_class_type_param_names(&self, function: &MirFunction) -> (r: Vec<usize>)
        ensures
            r@ == self.callee_class_params_spec(*function),
    {
        let class = match function.origin {
            FunctionOrigin::ClassConstructor { class } => class,
            FunctionOrigin::ClassMethod { class, .. } => class,
            _ => {
                return Vec::new();
            },
        };
        let info = match self.find_class_info(class) {
            Some(info) => info,
            None => {
                return Vec::new();
            },
        };
        let mut out: Vec<usize> = Vec::new();
        let mut k: usize = 0;
        while k < info.type_params.len()
            invariant
                k <= info.type_params.len(),
                out@ =~= info.type_params@.take(k as int),
            decreases info.type_params.len() - k,
        {
            out.push(info.type_params[k]);
            k = k + 1;
        }
        assert(info.type_params@.take(info.type_params.len() as int) =~= info.type_params@);
        out
    }

    /// The type parameters of the class whose constructor or instance method
    /// `function` is, as a collection to test membership in; empty for free
    /// functions and static methods.
    pub fn callee_class_type_params(&self, function: &MirFunction) -> (r: Vec<usize>)
        ensures
            r@.to_set() == self.callee_class_params_spec(*function).to_set(),
    {
        self.callee_class_type_param_names(function)
    }

    /// The static type of what a call of `callee` evaluates to.
    pub open spec fn call_source_ty_spec(&self, callee: Callee) -> Option<usize> {
        match callee {
            Callee::Builtin(BuiltinFn::JsonParse) => self.find_interned(Type::Unknown),
            Callee::Builtin(BuiltinFn::UriDecode { .. }) => self.find_interned(Type::Str),
            Callee::Builtin(_) => Some(self.none_ty),
            Callee::Static(id, _) => match self.function_at(id) {
                Some(f) => Some(f.return_ty),
                None => None,
            },
            Callee::Indirect(op, _) => if self.erased_relational_spec(op.ty) {
                self.find_interned(Type::Unknown)
            } else {
                match self.ty(op.ty) {
                    Some(Type::Function(f)) => Some(f.return_ty),
                    _ => None,
                }
            },
        }
    }

    /// Returns the static type of what a call of `callee` evaluates to: the
    /// unit for printing builtins, an erased value for `JSON.parse` and for a
    /// callee without a static signature, a string for the URI decoders, and
    /// otherwise the callee's declared return type.
    pub fn call_source_ty(&self, callee: &Callee) -> (r: Result<usize, EmitError>)
        ensures
            r matches Ok(t) ==> self.call_source_ty_spec(*callee) == Some(t),
            r is Err <==> self.call_source_ty_spec(*callee) is None,
    {
        match callee {
            Callee::Builtin(BuiltinFn::JsonParse) => self.type_id(&Type::Unknown),
            Callee::Builtin(BuiltinFn::UriDecode { .. }) => self.type_id(&Type::Str),
            Callee::Builtin(_) => Ok(self.none_ty),
            Callee::Static(id, _) => {
                if *id < self.functions.len() {
                    Ok(self.functions[*id].return_ty)
                } else {
                    Err(EmitError::new("call references an unknown function"))
                }
            },
            Callee::Indirect(op, _) => {
                if self.callee_is_dynamically_dispatched(op.ty) {
                    return self.type_id(&Type::Unknown);
                }
                match self.type_at(op.ty) {
                    Some(Type::Function(f)) => Ok(f.return_ty),
                    _ => Err(EmitError::new("indirect call target is not a function")),
                }
            },
        }
    }


    /// The list demoted to erased elements, or the value erased, that stands
    /// for a mutable reference whose rendering differs between caller and
    /// callee.
    pub open spec fn demoting_spec(&self, place_text: Seq<char>, place_ty: usize) -> Seq<char> {
        if self.ty(place_ty) matches Some(Type::List(_)) {
            place_text + ".clone().into_iter().map(IntoSmeltUnknown::into_smelt_unknown).collect::<SmeltList<_>>()"@
        } else {
            place_text + ".clone().into_smelt_unknown()"@
        }
    }

    /// Renders the erased copy passed in place of a mutable reference whose
    /// type the caller and the callee render differently: a list is demoted
    /// element by element, any other value erased whole.
    pub fn demoting_mutable_reference_text(&self, place_text: &str, place_ty: usize) -> (r: Result<
        String,
        EmitError,
    >)
        ensures
            r matches Ok(t) ==> t@ == self.demoting_spec(place_text@, place_ty),
            r is Ok,
    {
        match self.type_at(place_ty) {
            Some(Type::List(_)) => Ok(suffixed(
                place_text,
                ".clone().into_iter().map(IntoSmeltUnknown::into_smelt_unknown).collect::<SmeltList<_>>()",
            )),
            _ => Ok(suffixed(place_text, ".clone().into_smelt_unknown()")),
        }
    }


    /// A parameter of the function being emitted that already arrives as a
    /// mutable reference.
    #[verifier::opaque]
    pub open spec fn forwarded_mut_param(&self, l: usize) -> bool {
        &&& self.function.id != u32::MAX as usize
        &&& self.function.params@.contains(l)
        &&& self.needs_ref_spec(self.function, l, Seq::empty())
    }

    /// The mutable-reference argument for `op` at a parameter of type
    /// `target`, given whether caller and callee render the place's type
    /// alike.
    pub open spec fn mut_ref_arg_spec(&self, op: Operand, target: usize, renders_alike: bool) -> Option<Seq<char>> {
        let place = match op.kind {
            OperandKind::Copy(p) => Some(p),
            OperandKind::Move(p) => Some(p),
            OperandKind::Const(_) => None,
        };
        match place {
            Some(Place::Local(l)) if self.forwarded_mut_param(l) => Some(op.place_text@),
            Some(_) if op.ty == target => Some(
                "&mut "@ + if renders_alike {
                    op.place_text@
                } else {
                    self.demoting_spec(op.place_text@, op.ty)
                },
            ),
            _ => match self.vat_op_spec(op, target) {
                Some(t) => Some("&mut "@ + t),
                None => None,
            },
        }
    }

    /// Renders an argument passed by mutable reference: a parameter that
    /// already is one is forwarded, a place of the parameter's own type is
    /// borrowed (or, where caller and callee render its type differently,
    /// replaced by its erased copy, which makes the caller fall back to
    /// erasure), and any other value is coerced to the parameter type and
    /// borrowed as a temporary. `renders_alike` says whether the caller's and
    /// the callee's renderings of the type agree; for a call through a
    /// function value they always do.
    pub fn mutable_reference_argument_text(&self, operand: &Operand, target: usize, renders_alike: bool) -> (r:
        Result<String, EmitError>)
        requires
            self.wf(),
        ensures
            r matches Ok(t) ==> self.mut_ref_arg_spec(*operand, target, renders_alike) == Some(t@),
            r is Err <==> self.mut_ref_arg_spec(*operand, target, renders_alike) is None,
    {
        let is_place = match &operand.kind {
            OperandKind::Const(_) => false,
            _ => true,
        };
        if is_place {
            let local = match &operand.kind {
                OperandKind::Copy(Place::Local(l)) | OperandKind::Move(Place::Local(l)) => Some(*l),
                _ => None,
            };
            if let Some(l) = local {
                if self.is_forwarded_mut_param(l) {
                    return Ok(operand.place_text.clone());
                }
            }
            if operand.ty == target {
                let text = if renders_alike {
                    operand.place_text.clone()
                } else {
                    self.demoting_mutable_reference_text(operand.place_text.as_str(), operand.ty)?
                };
                let mut s = String::from_str("&mut ");
                s.append(text.as_str());
                return Ok(s);
            }
        }
        let t = self.value_at_type(operand, target)?;
        let mut s = String::from_str("&mut ");
        s.append(t.as_str());
        Ok(s)
    }

    fn is_forwarded_mut_param(&self, l: usize) -> (r: bool)
        ensures
            r == self.forwarded_mut_param(l),
    {
        proof {
            reveal(FunctionEmitter::forwarded_mut_param);
        }
        self.function.id != u32::MAX as usize && seq_has(&self.function.params, l)
            && self.parameter_needs_mutable_reference(l)
    }

}

} // verus!
