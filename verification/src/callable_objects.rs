//! Callable objects: a function value that also carries properties
//! (`Object.assign(fn, { .. })`, a callable interface), built either as an
//! erased object whose `__smelt_call` entry holds the function, or as the
//! interface's struct; and method calls through a record's function-typed
//! field.

use vstd::prelude::*;
use crate::emitter::{EmitError, FunctionEmitter};
use crate::erase::wrap;
use crate::mir::Operand;
use crate::text::{debug_quote, debug_quoted, join, seq_join, str_eq, views};
use crate::types::Type;

verus! {

/// The entry of an erased callable object that holds its function.
pub open spec fn call_entry(callable: Seq<char>) -> Seq<char> {
    "smelt_object.push((\"__smelt_call\".to_owned(), "@ + callable + "));"@
}

/// The entry of an erased callable object for the property `key`.
pub open spec fn prop_entry(key: Seq<char>, value: Seq<char>) -> Seq<char> {
    "smelt_object.push(("@ + debug_quoted(key) + ".to_owned(), "@ + value + "));"@
}

/// The entries a dynamic record source adds to an erased callable object:
/// its own entries but the call slot.
pub open spec fn spread_entry(spread: Seq<char>) -> Seq<char> {
    "if let SmeltUnknown::Object(smelt_spread) = "@ + spread
        + " { for (smelt_key, smelt_value) in smelt_spread.iter() { if smelt_key != \"__smelt_call\" { smelt_object.push((smelt_key, smelt_value)); } } }"@
}

impl FunctionEmitter {
    /// Symbol `s` spelled as a Rust identifier.
    pub open spec fn ident(&self, s: usize) -> Option<Seq<char>> {
        if s < self.symbol_idents.len() {
            Some(self.symbol_idents@[s as int]@)
        } else {
            None
        }
    }

    /// The fields of the structural record type `ty`, by symbol and type.
    pub open spec fn record_fields_of(&self, ty: usize) -> Seq<(usize, usize)> {
        match self.fact(ty) {
            Some(f) => f.record_fields@,
            None => Seq::empty(),
        }
    }

    /// The first of `fields` whose identifier is `name`.
    pub open spec fn field_named(&self, fields: Seq<(usize, usize)>, name: Seq<char>) -> Option<(usize, usize)>
        decreases fields.len(),
    {
        if fields.len() == 0 {
            None
        } else if self.ident(fields[0].0) == Some(name) {
            Some(fields[0])
        } else {
            self.field_named(fields.drop_first(), name)
        }
    }

    /// The value of the last of `props` whose identifier is `name`: a later
    /// property overwrites an earlier one.
    pub open spec fn prop_named(&self, props: Seq<(usize, Operand)>, name: Seq<char>) -> Option<Operand>
        decreases props.len(),
    {
        if props.len() == 0 {
            None
        } else if self.ident(props.last().0) == Some(name) {
            Some(props.last().1)
        } else {
            self.prop_named(props.drop_last(), name)
        }
    }

    /// The first `n` arguments, each coerced to its parameter's type where
    /// the function declares one.
    pub open spec fn args_for_params_spec(&self, args: Seq<Operand>, params: Seq<usize>, n: nat) -> Option<
        Seq<Seq<char>>,
    >
        decreases n,
    {
        if n == 0 {
            Some(Seq::empty())
        } else {
            let k = n - 1;
            let t = if k < params.len() {
                self.vat_op_spec(args[k], params[k])
            } else {
                Some(args[k].text@)
            };
            match (self.args_for_params_spec(args, params, (n - 1) as nat), t) {
                (Some(done), Some(t)) => Some(done.push(t)),
                _ => None,
            }
        }
    }

    proof fn lemma_args_for_params_none(&self, args: Seq<Operand>, params: Seq<usize>, a: nat, b: nat)
        requires
            a <= b,
            self.args_for_params_spec(args, params, a) is None,
        ensures
            self.args_for_params_spec(args, params, b) is None,
        decreases b - a,
    {
        if a < b {
            self.lemma_args_for_params_none(args, params, a, (b - 1) as nat);
        }
    }

    /// A method call through the receiver's function-typed record field of
    /// the same name; `Some(None)` where the receiver has no such field.
    pub open spec fn virtual_field_call_spec(&self, receiver: Operand, method: Seq<char>, args: Seq<Operand>) -> Option<
        Option<Seq<char>>,
    > {
        match self.field_named(self.record_fields_of(receiver.ty), method) {
            None => Some(None),
            Some(field) => match self.ty(field.1) {
                Some(Type::Function(f)) => match self.args_for_params_spec(args, f.params@, args.len()) {
                    Some(ts) => {
                        let call = "("@ + receiver.text@ + "."@ + method + ".clone())("@ + seq_join(ts, ", "@)
                            + ")"@;
                        Some(Some(if f.may_throw { call + "?"@ } else { call }))
                    },
                    None => None,
                },
                _ => Some(None),
            },
        }
    }

    /// The initializer of one field of a callable interface's struct.
    pub open spec fn callable_field_spec(
        &self,
        callable: Operand,
        props: Seq<(usize, Operand)>,
        field: (usize, usize),
    ) -> Option<Seq<char>> {
        match (self.symbol(field.0), self.ident(field.0)) {
            (Some(raw), Some(name)) => {
                let value = if raw == "__smelt_call"@ {
                    self.vat_op_spec(callable, field.1)
                } else if let Some(v) = self.prop_named(props, name) {
                    self.vat_op_spec(v, field.1)
                } else if self.ty(field.1) matches Some(Type::Optional(_)) {
                    self.default_text(field.1)
                } else {
                    None
                };
                match value {
                    Some(v) => Some(name + ": "@ + v),
                    None => None,
                }
            },
            _ => None,
        }
    }

    /// The initializers of the first `n` fields.
    pub open spec fn callable_fields_spec(
        &self,
        callable: Operand,
        props: Seq<(usize, Operand)>,
        fields: Seq<(usize, usize)>,
        n: nat,
    ) -> Option<Seq<Seq<char>>>
        decreases n,
    {
        if n == 0 {
            Some(Seq::empty())
        } else {
            match (
                self.callable_fields_spec(callable, props, fields, (n - 1) as nat),
                self.callable_field_spec(callable, props, fields[n - 1]),
            ) {
                (Some(done), Some(t)) => Some(done.push(t)),
                _ => None,
            }
        }
    }

    proof fn lemma_callable_fields_none(
        &self,
        callable: Operand,
        props: Seq<(usize, Operand)>,
        fields: Seq<(usize, usize)>,
        a: nat,
        b: nat,
    )
        requires
            a <= b,
            self.callable_fields_spec(callable, props, fields, a) is None,
        ensures
            self.callable_fields_spec(callable, props, fields, b) is None,
        decreases b - a,
    {
        if a < b {
            self.lemma_callable_fields_none(callable, props, fields, a, (b - 1) as nat);
        }
    }

    /// Every property is named by a symbol with a Rust identifier.
    pub open spec fn props_named(&self, props: Seq<(usize, Operand)>) -> bool {
        forall|k: int| 0 <= k < props.len() ==> (#[trigger] self.ident(props[k].0)) is Some
    }

    /// The struct literal of a callable interface; `Some(None)` where the
    /// destination is not a known record shape carrying the call slot.
    pub open spec fn callable_struct_spec(&self, callable: Operand, props: Seq<(usize, Operand)>, dest: usize) -> Option<
        Option<Seq<char>>,
    > {
        match self.ty(dest) {
            Some(Type::Class { name, args }) => {
                let fields = self.record_fields_of(dest);
                if !(self.fact(dest) matches Some(f) && f.interface_record) && self.class_named(name) is None {
                    Some(None)
                } else if fields.len() == 0 {
                    Some(None)
                } else if !(exists|k: int| 0 <= k < fields.len() && self.symbol(#[trigger] fields[k].0) == Some(
                    "__smelt_call"@,
                )) {
                    Some(None)
                } else if !self.props_named(props) {
                    None
                } else {
                    match (self.callable_fields_spec(callable, props, fields, fields.len()), self.ident(name)) {
                        (Some(ts), Some(struct_name)) => {
                            let all = if args.len() > 0 {
                                ts.push("_smelt_phantom: ::std::marker::PhantomData"@)
                            } else {
                                ts
                            };
                            Some(Some(struct_name + " { "@ + seq_join(all, ", "@) + " }"@))
                        },
                        _ => None,
                    }
                }
            },
            _ => Some(None),
        }
    }

    /// The erased entries for the first `n` properties.
    pub open spec fn prop_entries_spec(&self, props: Seq<(usize, Operand)>, n: nat) -> Option<Seq<Seq<char>>>
        decreases n,
    {
        if n == 0 {
            Some(Seq::empty())
        } else {
            let p = props[n - 1];
            match (self.prop_entries_spec(props, (n - 1) as nat), self.symbol(p.0), self.erase_op_spec(p.1)) {
                (Some(done), Some(key), Some(v)) => Some(done.push(prop_entry(key, v))),
                _ => None,
            }
        }
    }

    proof fn lemma_prop_entries_none(&self, props: Seq<(usize, Operand)>, a: nat, b: nat)
        requires
            a <= b,
            self.prop_entries_spec(props, a) is None,
        ensures
            self.prop_entries_spec(props, b) is None,
        decreases b - a,
    {
        if a < b {
            self.lemma_prop_entries_none(props, a, (b - 1) as nat);
        }
    }

    /// `Object.assign(callable, props, ..spreads)` stored at `dest`.
    pub open spec fn callable_assign_spec(
        &self,
        callable: Operand,
        props: Seq<(usize, Operand)>,
        spreads: Seq<Operand>,
        dest: usize,
    ) -> Option<Seq<char>> {
        let erased = self.ty(dest) matches Some(Type::Unknown) || self.ty(dest) matches Some(
            Type::TypeParam { .. },
        ) || self.ty(dest) matches Some(Type::Union(_)) || self.erased_class(dest);
        if erased {
            match (
                self.erase_op_spec(callable),
                self.prop_entries_spec(props, props.len()),
                self.erase_all_spec(spreads, spreads.len()),
            ) {
                (Some(c), Some(ps), Some(ss)) => {
                    let entries = seq![call_entry(c)] + ps + ss.map_values(|s: Seq<char>| spread_entry(s));
                    Some(
                        "{ let mut smelt_object = Vec::new(); "@ + seq_join(entries, " "@)
                            + " SmeltUnknown::Object(SmeltObject::new(smelt_object)) }"@,
                    )
                },
                _ => None,
            }
        } else if spreads.len() > 0 {
            None
        } else {
            match self.callable_struct_spec(callable, props, dest) {
                None => None,
                Some(Some(t)) => Some(t),
                Some(None) => Some(callable.text@),
            }
        }
    }
}

/// Appends every string of `src` to `dst`.
fn append_all(dst: &mut Vec<String>, src: &Vec<String>)
    ensures
        views(final(dst)@) == views(old(dst)@) + views(src@),
{
    let ghost start = views(dst@);
    let mut i: usize = 0;
    while i < src.len()
        invariant
            i <= src.len(),
            views(dst@) =~= start + views(src@).take(i as int),
        decreases src.len() - i,
    {
        let t = src[i].clone();
        let ghost before = dst@;
        dst.push(t);
        assert(views(dst@) =~= views(before).push(src@[i as int]@));
        assert(views(src@).take(i + 1) =~= views(src@).take(i as int).push(src@[i as int]@));
        i = i + 1;
    }
    assert(views(src@).take(src.len() as int) =~= views(src@));
}

/// The spread entries for each erased spread source.
fn spread_entries(spreads: &Vec<String>) -> (r: Vec<String>)
    ensures
        views(r@) == views(spreads@).map_values(|s: Seq<char>| spread_entry(s)),
{
    let mut out: Vec<String> = Vec::new();
    let mut i: usize = 0;
    while i < spreads.len()
        invariant
            i <= spreads.len(),
            views(out@) =~= views(spreads@).map_values(|s: Seq<char>| spread_entry(s)).take(i as int),
        decreases spreads.len() - i,
    {
        let mut e = wrap("if let SmeltUnknown::Object(smelt_spread) = ", spreads[i].as_str(), " { for (smelt_key, smelt_value) in smelt_spread.iter() { if smelt_key != \"__smelt_call\" { smelt_object.push((smelt_key, smelt_value)); } } }");
        let ghost before = out@;
        out.push(e);
        assert(views(out@) =~= views(before).push(spread_entry(spreads@[i as int]@)));
        i = i + 1;
    }
    assert(views(spreads@).map_values(|s: Seq<char>| spread_entry(s)).take(spreads.len() as int)
        =~= views(spreads@).map_values(|s: Seq<char>| spread_entry(s)));
    out
}

impl FunctionEmitter {
    pub(crate) fn ident_text(&self, s: usize) -> (r: Result<&String, EmitError>)
        ensures
            r matches Ok(t) ==> self.ident(s) == Some(t@),
            r is Err <==> self.ident(s) is None,
    {
        if s < self.symbol_idents.len() {
            Ok(&self.symbol_idents[s])
        } else {
            Err(EmitError::new("symbol has no Rust identifier"))
        }
    }

    pub(crate) fn record_fields_ref(&self, ty: usize) -> (r: Option<&Vec<(usize, usize)>>)
        ensures
            r matches Some(v) ==> v@ == self.record_fields_of(ty),
            r is None ==> self.record_fields_of(ty) == Seq::<(usize, usize)>::empty(),
    {
        match self.fact_at(ty) {
            Some(f) => Some(&f.record_fields),
            None => None,
        }
    }

    fn has_ident(&self, s: usize, name: &str) -> (r: bool)
        ensures
            r == (self.ident(s) == Some(name@)),
    {
        match self.ident_text(s) {
            Ok(t) => str_eq(t.as_str(), name),
            Err(_) => false,
        }
    }

    fn find_field_named(&self, fields: &Vec<(usize, usize)>, name: &str) -> (r: Option<(usize, usize)>)
        ensures
            r == self.field_named(fields@, name@),
    {
        let mut i: usize = 0;
        assert(fields@.skip(0) =~= fields@);
        while i < fields.len()
            invariant
                i <= fields.len(),
                self.field_named(fields@, name@) == self.field_named(fields@.skip(i as int), name@),
            decreases fields.len() - i,
        {
            assert(fields@.skip(i as int).drop_first() =~= fields@.skip(i + 1));
            if self.has_ident(fields[i].0, name) {
                return Some(fields[i]);
            }
            i = i + 1;
        }
        None
    }

    fn find_prop_named<'a>(&self, props: &'a Vec<(usize, Operand)>, name: &str) -> (r: Option<&'a Operand>)
        ensures
            r matches Some(v) ==> self.prop_named(props@, name@) == Some(*v),
            r is None <==> self.prop_named(props@, name@) is None,
    {
        let mut i: usize = props.len();
        assert(props@.take(props.len() as int) =~= props@);
        while i > 0
            invariant
                i <= props.len(),
                self.prop_named(props@, name@) == self.prop_named(props@.take(i as int), name@),
            decreases i,
        {
            assert(props@.take(i as int).last() == props@[i - 1]);
            assert(props@.take(i as int).drop_last() =~= props@.take(i - 1));
            if self.has_ident(props[i - 1].0, name) {
                return Some(&props[i - 1].1);
            }
            i = i - 1;
        }
        None
    }

    fn args_for_params(&self, args: &Vec<Operand>, params: &Vec<usize>) -> (r: Result<Vec<String>, EmitError>)
        requires
            self.wf(),
        ensures
            r matches Ok(v) ==> self.args_for_params_spec(args@, params@, args.len() as nat) == Some(views(v@)),
            r is Err <==> self.args_for_params_spec(args@, params@, args.len() as nat) is None,
    {
        let mut out: Vec<String> = Vec::new();
        let mut i: usize = 0;
        while i < args.len()
            invariant
                self.wf(),
                i <= args.len(),
                out.len() == i,
                self.args_for_params_spec(args@, params@, i as nat) == Some(views(out@)),
            decreases args.len() - i,
        {
            let t = if i < params.len() {
                self.value_at_type(&args[i], params[i])
            } else {
                Ok(args[i].text.clone())
            };
            match t {
                Ok(t) => {
                    let ghost before = out@;
                    out.push(t);
                    assert(views(out@) =~= views(before).push(out@[i as int]@));
                },
                Err(e) => {
                    proof {
                        self.lemma_args_for_params_none(args@, params@, (i + 1) as nat, args.len() as nat);
                    }
                    return Err(e);
                },
            }
            i = i + 1;
        }
        Ok(out)
    }

    /// Calls a method through the receiver's function-typed record field of
    /// the same name, each argument coerced to its parameter type; `None`
    /// where the receiver's record has no such field.
    pub fn call_virtual_function_field_text(&self, receiver: &Operand, method_name: &str, args: &Vec<Operand>) -> (r:
        Result<Option<String>, EmitError>)
        requires
            self.wf(),
        ensures
            r matches Ok(Some(t)) ==> self.virtual_field_call_spec(*receiver, method_name@, args@) == Some(
                Some(t@),
            ),
            r matches Ok(None) ==> self.virtual_field_call_spec(*receiver, method_name@, args@) == Some(
                None::<Seq<char>>,
            ),
            r is Err <==> self.virtual_field_call_spec(*receiver, method_name@, args@) is None,
    {
        let field = match self.record_fields_ref(receiver.ty) {
            Some(fields) => self.find_field_named(fields, method_name),
            None => None,
        };
        let field = match field {
            Some(f) => f,
            None => {
                return Ok(None);
            },
        };
        let function = match self.type_at(field.1) {
            Some(Type::Function(f)) => f,
            _ => {
                return Ok(None);
            },
        };
        let rendered = self.args_for_params(args, &function.params)?;
        let joined = join(&rendered, ", ");
        let mut call = wrap("(", receiver.text.as_str(), ".");
        call.append(method_name);
        call.append(".clone())(");
        call.append(joined.as_str());
        call.append(")");
        if function.may_throw {
            call.append("?");
        }
        Ok(Some(call))
    }

    fn callable_field_text(&self, callable: &Operand, props: &Vec<(usize, Operand)>, field: (usize, usize)) -> (r:
        Result<String, EmitError>)
        requires
            self.wf(),
        ensures
            r matches Ok(t) ==> self.callable_field_spec(*callable, props@, field) == Some(t@),
            r is Err <==> self.callable_field_spec(*callable, props@, field) is None,
    {
        let raw = self.symbol_name(field.0)?;
        let name = self.ident_text(field.0)?;
        let value = if str_eq(raw.as_str(), "__smelt_call") {
            self.value_at_type(callable, field.1)?
        } else {
            match self.find_prop_named(props, name.as_str()) {
                Some(v) => self.value_at_type(v, field.1)?,
                None => match self.type_at(field.1) {
                    Some(Type::Optional(_)) => self.default_value(field.1)?,
                    _ => {
                        return Err(EmitError::new("callable object construction is missing a value for a required field"));
                    },
                },
            }
        };
        Ok(wrap(name.as_str(), ": ", value.as_str()))
    }

    fn fields_have_call_slot(&self, fields: &Vec<(usize, usize)>) -> (r: bool)
        ensures
            r == (exists|k: int| 0 <= k < fields@.len() && self.symbol(#[trigger] fields@[k].0) == Some("__smelt_call"@)),
    {
        let mut i: usize = 0;
        while i < fields.len()
            invariant
                i <= fields.len(),
                forall|k: int| 0 <= k < i ==> self.symbol(#[trigger] fields@[k].0) != Some("__smelt_call"@),
            decreases fields.len() - i,
        {
            let is_slot = match self.symbol_name(fields[i].0) {
                Ok(n) => str_eq(n.as_str(), "__smelt_call"),
                Err(_) => false,
            };
            if is_slot {
                return true;
            }
            i = i + 1;
        }
        false
    }

    fn all_props_named(&self, props: &Vec<(usize, Operand)>) -> (r: bool)
        ensures
            r == self.props_named(props@),
    {
        let mut j: usize = 0;
        while j < props.len()
            invariant
                j <= props.len(),
                forall|k: int| 0 <= k < j ==> (#[trigger] self.ident(props@[k].0)) is Some,
            decreases props.len() - j,
        {
            if self.ident_text(props[j].0).is_err() {
                return false;
            }
            j = j + 1;
        }
        true
    }

    fn callable_fields_text(&self, callable: &Operand, props: &Vec<(usize, Operand)>, fields: &Vec<(usize, usize)>) -> (r:
        Result<Vec<String>, EmitError>)
        requires
            self.wf(),
        ensures
            r matches Ok(v) ==> self.callable_fields_spec(*callable, props@, fields@, fields.len() as nat) == Some(
                views(v@),
            ),
            r is Err <==> self.callable_fields_spec(*callable, props@, fields@, fields.len() as nat) is None,
    {
        let mut texts: Vec<String> = Vec::new();
        let mut k: usize = 0;
        while k < fields.len()
            invariant
                self.wf(),
                k <= fields.len(),
                texts.len() == k,
                self.callable_fields_spec(*callable, props@, fields@, k as nat) == Some(views(texts@)),
            decreases fields.len() - k,
        {
            match self.callable_field_text(callable, props, fields[k]) {
                Ok(t) => {
                    let ghost before = texts@;
                    texts.push(t);
                    assert(views(texts@) =~= views(before).push(texts@[k as int]@));
                },
                Err(e) => {
                    proof {
                        self.lemma_callable_fields_none(*callable, props@, fields@, (k + 1) as nat, fields.len() as nat);
                    }
                    return Err(e);
                },
            }
            k = k + 1;
        }
        Ok(texts)
    }

    /// Builds the struct literal of a callable interface: the callable fills
    /// the `__smelt_call` slot, every other field takes the last property of
    /// its name coerced to the field's type, or its default where optional.
    /// `None` where the destination is not a known record shape carrying the
    /// call slot.
    pub fn callable_object_struct_text(&self, callable: &Operand, props: &Vec<(usize, Operand)>, dest_ty: usize) -> (r:
        Result<Option<String>, EmitError>)
        requires
            self.wf(),
        ensures
            r matches Ok(Some(t)) ==> self.callable_struct_spec(*callable, props@, dest_ty) == Some(Some(t@)),
            r matches Ok(None) ==> self.callable_struct_spec(*callable, props@, dest_ty) == Some(
                None::<Seq<char>>,
            ),
            r is Err <==> self.callable_struct_spec(*callable, props@, dest_ty) is None,
    {
        let (name, type_args) = match self.type_at(dest_ty) {
            Some(Type::Class { name, args }) => (*name, args),
            _ => {
                return Ok(None);
            },
        };
        let interface = match self.fact_at(dest_ty) {
            Some(f) => f.interface_record,
            None => false,
        };
        if !interface && self.find_class_info(name).is_none() {
            return Ok(None);
        }
        let fields = match self.record_fields_ref(dest_ty) {
            Some(fields) => fields,
            None => {
                return Ok(None);
            },
        };
        if fields.len() == 0 {
            return Ok(None);
        }
        if !self.fields_have_call_slot(fields) {
            return Ok(None);
        }
        if !self.all_props_named(props) {
            return Err(EmitError::new("property symbol has no Rust identifier"));
        }
        let mut texts = self.callable_fields_text(callable, props, fields)?;
        let struct_name = self.ident_text(name)?;
        if type_args.len() > 0 {
            let ghost before = texts@;
            texts.push(String::from_str("_smelt_phantom: ::std::marker::PhantomData"));
            assert(views(texts@) =~= views(before).push("_smelt_phantom: ::std::marker::PhantomData"@));
        }
        let joined = join(&texts, ", ");
        let mut s = wrap(struct_name.as_str(), " { ", joined.as_str());
        s.append(" }");
        Ok(Some(s))
    }

    fn prop_entries(&self, props: &Vec<(usize, Operand)>) -> (r: Result<Vec<String>, EmitError>)
        requires
            self.wf(),
        ensures
            r matches Ok(v) ==> self.prop_entries_spec(props@, props.len() as nat) == Some(views(v@)),
            r is Err <==> self.prop_entries_spec(props@, props.len() as nat) is None,
    {
        let mut out: Vec<String> = Vec::new();
        let mut i: usize = 0;
        while i < props.len()
            invariant
                self.wf(),
                i <= props.len(),
                out.len() == i,
                self.prop_entries_spec(props@, i as nat) == Some(views(out@)),
            decreases props.len() - i,
        {
            let entry = match self.symbol_name(props[i].0) {
                Ok(key) => match self.erase(&props[i].1) {
                    Ok(v) => {
                        let quoted = debug_quote(key.as_str());
                        let mut e = wrap("smelt_object.push((", quoted.as_str(), ".to_owned(), ");
                        e.append(v.as_str());
                        e.append("));");
                        Ok(e)
                    },
                    Err(e) => Err(e),
                },
                Err(e) => Err(e),
            };
            match entry {
                Ok(t) => {
                    let ghost before = out@;
                    out.push(t);
                    assert(views(out@) =~= views(before).push(out@[i as int]@));
                },
                Err(e) => {
                    proof {
                        self.lemma_prop_entries_none(props@, (i + 1) as nat, props.len() as nat);
                    }
                    return Err(e);
                },
            }
            i = i + 1;
        }
        Ok(out)
    }

    /// Emits `Object.assign(callable, props, ..spreads)`: at an erased
    /// destination, an erased object whose `__smelt_call` entry holds the
    /// function, then each property, then each dynamic source's own entries;
    /// at a callable interface, its struct; elsewhere the bare callable.
    pub fn callable_object_assign_text(
        &self,
        callable: &Operand,
        props: &Vec<(usize, Operand)>,
        spreads: &Vec<Operand>,
        dest_ty: usize,
    ) -> (r: Result<String, EmitError>)
        requires
            self.wf(),
        ensures
            r matches Ok(t) ==> self.callable_assign_spec(*callable, props@, spreads@, dest_ty) == Some(t@),
            r is Err <==> self.callable_assign_spec(*callable, props@, spreads@, dest_ty) is None,
    {
        let erased = match self.type_at(dest_ty) {
            Some(Type::Unknown) | Some(Type::TypeParam { .. }) | Some(Type::Union(_)) => true,
            _ => self.is_erased_class_type(dest_ty),
        };
        if erased {
            let callable_text = self.erase(callable)?;
            let ps = self.prop_entries(props)?;
            let ss = self.erase_all(spreads)?;
            let mut entries: Vec<String> = Vec::new();
            entries.push(wrap("smelt_object.push((\"__smelt_call\".to_owned(), ", callable_text.as_str(), "));"));
            assert(views(entries@) =~= seq![call_entry(callable_text@)]);
            append_all(&mut entries, &ps);
            let spread_texts = spread_entries(&ss);
            append_all(&mut entries, &spread_texts);
            let joined = join(&entries, " ");
            let mut s = wrap("{ let mut smelt_object = Vec::new(); ", joined.as_str(), " SmeltUnknown::Object(SmeltObject::new(smelt_object)) }");
            return Ok(s);
        }
        if spreads.len() > 0 {
            return Err(EmitError::new("Object.assign with a dynamic record source onto a concrete callable interface is not supported"));
        }
        match self.callable_object_struct_text(callable, props, dest_ty)? {
            Some(t) => Ok(t),
            None => Ok(callable.text.clone()),
        }
    }
}

} // verus!
