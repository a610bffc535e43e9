//! A generator's suspension point: the value it yields, and what it does
//! with the command it is resumed by (go on with a sent value, return, or
//! throw into its handler).

use vstd::prelude::*;
use crate::emitter::{EmitError, FunctionEmitter};
use crate::erase::wrap;
use crate::mir::{Operand, YieldHandler};
use crate::types::Type;

verus! {

/// The optional text's view.
pub open spec fn opt_view(t: Option<String>) -> Option<Seq<char>> {
    match t {
        Some(s) => Some(s@),
        None => None,
    }
}

impl FunctionEmitter {
    /// What a `Return` command does: return the sent value, after the
    /// cleanup region where there is one, through `Ok` in an async or
    /// fallible generator.
    pub open spec fn yield_return_spec(&self, cleanup: Option<Seq<char>>) -> Seq<char> {
        let wrapped = self.function.is_async || self.function.can_throw;
        match cleanup {
            Some(c) => "{ let smelt_forced_return = value; "@ + c + " "@ + (if wrapped {
                "return Ok(smelt_forced_return)"@
            } else {
                "return smelt_forced_return"@
            }) + " }"@,
            None => if wrapped {
                "return Ok(value)"@
            } else {
                "return value"@
            },
        }
    }

    /// What a `Throw` command does: bind the thrown value and run the
    /// handler's catch block, or run the cleanup region and panic, or panic.
    pub open spec fn yield_throw_spec(&self, cleanup: Option<Seq<char>>, handler: Option<YieldHandler>) -> Option<Seq<char>> {
        match handler {
            Some(h) => {
                let bind = match h.exception_local {
                    Some(l) => match (self.local_decl_spec(l), self.find_interned(Type::Unknown)) {
                        (Some(d), Some(u)) => match (self.vat_spec("error"@, u, d.ty, Seq::empty()), self.rust_text(d.ty)) {
                            (Some(v), Some(t)) => Some("let "@ + d.name@ + ": "@ + t + " = "@ + v + ";\n"@),
                            _ => None,
                        },
                        _ => None,
                    },
                    None => Some(Seq::empty()),
                };
                match bind {
                    Some(b) => Some("{ "@ + b + h.catch_text@ + " }"@),
                    None => None,
                }
            },
            None => match cleanup {
                Some(c) => Some("{ "@ + c + " panic!(\"{}\", error) }"@),
                None => Some("panic!(\"{}\", error)"@),
            },
        }
    }

    /// The suspension point: the yielded value (erased unless the
    /// generator's own return type is the generator type), then the match
    /// over the resuming command.
    pub open spec fn generator_yield_spec(&self, value: Operand, cleanup: Option<Seq<char>>, handler: Option<YieldHandler>) -> Option<
        Seq<char>,
    > {
        let yielded = if self.ty(self.function.return_ty) == Some(Type::Generator) {
            Some(value.text@)
        } else {
            match self.find_interned(Type::Unknown) {
                Some(u) => self.vat_op_spec(value, u),
                None => None,
            }
        };
        match (self.yield_throw_spec(cleanup, handler), yielded) {
            (Some(thrown), Some(y)) => Some(
                "{ co.yield_("@ + y
                    + ").await; let smelt_command = smelt_generator_input.borrow_mut().take().unwrap_or_else(|| SmeltGeneratorCommand::Next(Default::default())); match smelt_command { SmeltGeneratorCommand::Next(value) => value, SmeltGeneratorCommand::Return(value) => "@
                    + self.yield_return_spec(cleanup) + ", SmeltGeneratorCommand::Throw(error) => "@ + thrown + " } }"@,
            ),
            _ => None,
        }
    }

    fn yield_return_text(&self, cleanup: &Option<String>) -> (r: String)
        ensures
            r@ == self.yield_return_spec(opt_view(*cleanup)),
    {
        let wrapped = self.function.is_async || self.function.can_throw;
        match cleanup {
            Some(c) => {
                let mut s = wrap("{ let smelt_forced_return = value; ", c.as_str(), " ");
                if wrapped {
                    s.append("return Ok(smelt_forced_return)");
                } else {
                    s.append("return smelt_forced_return");
                }
                s.append(" }");
                s
            },
            None => if wrapped {
                String::from_str("return Ok(value)")
            } else {
                String::from_str("return value")
            },
        }
    }

    fn yield_throw_text(&self, cleanup: &Option<String>, handler: &Option<YieldHandler>) -> (r: Result<String, EmitError>)
        requires
            self.wf(),
        ensures
            r matches Ok(t) ==> self.yield_throw_spec(opt_view(*cleanup), *handler) == Some(t@),
            r is Err <==> self.yield_throw_spec(opt_view(*cleanup), *handler) is None,
    {
        match handler {
            Some(h) => {
                let mut s = String::from_str("{ ");
                match h.exception_local {
                    Some(l) => {
                        let d = self.local_decl(l)?;
                        let u = self.type_id(&Type::Unknown)?;
                        let v = self.value_at_type_text("error", u, d.ty)?;
                        let t = self.rust_type_text(d.ty)?;
                        s.append("let ");
                        s.append(d.name.as_str());
                        s.append(": ");
                        s.append(t.as_str());
                        s.append(" = ");
                        s.append(v.as_str());
                        s.append(";\n");
                    },
                    None => {},
                }
                s.append(h.catch_text.as_str());
                s.append(" }");
                Ok(s)
            },
            None => match cleanup {
                Some(c) => Ok(wrap("{ ", c.as_str(), " panic!(\"{}\", error) }")),
                None => Ok(String::from_str("panic!(\"{}\", error)")),
            },
        }
    }

    /// Renders a generator's suspension point: `co.yield_` of the yielded
    /// value, then the resuming command's match: a sent value is the
    /// expression's value, a `Return` returns it (after the cleanup region
    /// where there is one), a `Throw` enters the handler's catch block with
    /// the thrown value bound (or runs the cleanup and panics, or panics).
    pub fn generator_yield_text(&self, value: &Operand, cleanup_text: &Option<String>, handler: &Option<YieldHandler>) -> (r:
        Result<String, EmitError>)
        requires
            self.wf(),
        ensures
            r matches Ok(t) ==> self.generator_yield_spec(*value, opt_view(*cleanup_text), *handler) == Some(t@),
            r is Err <==> self.generator_yield_spec(*value, opt_view(*cleanup_text), *handler) is None,
    {
        let thrown = self.yield_throw_text(cleanup_text, handler)?;
        let is_generator = match self.type_at(self.function.return_ty) {
            Some(Type::Generator) => true,
            _ => false,
        };
        let yielded = if is_generator {
            value.text.clone()
        } else {
            let u = self.type_id(&Type::Unknown)?;
            self.value_at_type(value, u)?
        };
        let returned = self.yield_return_text(cleanup_text);
        let mut s = wrap("{ co.yield_(", yielded.as_str(), ").await; let smelt_command = smelt_generator_input.borrow_mut().take().unwrap_or_else(|| SmeltGeneratorCommand::Next(Default::default())); match smelt_command { SmeltGeneratorCommand::Next(value) => value, SmeltGeneratorCommand::Return(value) => ");
        s.append(returned.as_str());
        s.append(", SmeltGeneratorCommand::Throw(error) => ");
        s.append(thrown.as_str());
        s.append(" } }");
        Ok(s)
    }
}

} // verus!
