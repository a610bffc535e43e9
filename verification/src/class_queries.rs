//! Questions about generated classes and about parameter and local types:
//! inheritance, abstract members, concrete clones, and blob construction.

use vstd::prelude::*;
use crate::emitter::{EmitError, FunctionEmitter};
use crate::erase::wrap;
use crate::mir::{ClassInfo, Operand};
use crate::text::{join, seq_join, views};
use crate::types::{same_type, same_type_spec, Type};

verus! {

/// The first class named `name` in `classes`.
pub open spec fn find_class(classes: Seq<ClassInfo>, name: usize) -> Option<ClassInfo>
    decreases classes.len(),
{
    if classes.len() == 0 {
        None
    } else if classes[0].name == name {
        Some(classes[0])
    } else {
        find_class(classes.drop_first(), name)
    }
}

/// `n` copies of `SmeltUnknown`.
pub open spec fn unknown_args(n: nat) -> Seq<Seq<char>> {
    Seq::new(n, |k: int| "SmeltUnknown"@)
}

/// The field initializers of a concrete clone of `self`.
pub open spec fn clone_fields(names: Seq<Seq<char>>) -> Seq<Seq<char>> {
    Seq::new(names.len(), |k: int| names[k] + ": self."@ + names[k] + ".clone()"@)
}

/// The erased callable that stands for an abstract method.
pub open spec fn abstract_method_text() -> Seq<char> {
    "SmeltUnknown::Function(::std::rc::Rc::new(move |_smelt_args: Vec<SmeltUnknown>| Ok::<SmeltUnknown, Box<dyn std::error::Error>>(SmeltUnknown::Null)))"@
}

impl FunctionEmitter {
    pub open spec fn class_named(&self, name: usize) -> Option<ClassInfo> {
        find_class(self.classes@, name)
    }

    /// The class reached from `name` after `k` steps up the base chain.
    pub open spec fn chain(&self, name: usize, k: nat) -> Option<usize>
        decreases k,
    {
        if k == 0 {
            Some(name)
        } else {
            match self.chain(name, (k - 1) as nat) {
                Some(c) => match self.class_named(c) {
                    Some(info) => info.base,
                    None => None,
                },
                None => None,
            }
        }
    }

    /// The walk up from `source` ends or reaches `target`.
    pub open spec fn walk_stops(&self, source: usize, target: usize) -> bool {
        exists|n: nat| #[trigger] self.chain(source, n) is None || self.chain(source, n) == Some(target)
    }

    pub open spec fn extends_spec(&self, source: usize, target: usize) -> bool {
        exists|k: nat| #[trigger] self.chain(source, k) == Some(target)
    }

    proof fn lemma_chain_none_stays(&self, name: usize, k: nat, j: nat)
        requires
            k <= j,
            self.chain(name, k) is None,
        ensures
            self.chain(name, j) is None,
        decreases j - k,
    {
        if k < j {
            self.lemma_chain_none_stays(name, k, (j - 1) as nat);
        }
    }

    /// The class named `name`.
    pub fn find_class_info(&self, name: usize) -> (r: Option<&ClassInfo>)
        ensures
            r matches Some(c) ==> self.class_named(name) == Some(*c),
            r is None <==> self.class_named(name) is None,
    {
        let mut i: usize = 0;
        assert(self.classes@.skip(0) =~= self.classes@);
        while i < self.classes.len()
            invariant
                i <= self.classes.len(),
                find_class(self.classes@, name) == find_class(self.classes@.skip(i as int), name),
            decreases self.classes.len() - i,
        {
            assert(self.classes@.skip(i as int).drop_first() =~= self.classes@.skip(i + 1));
            if self.classes[i].name == name {
                return Some(&self.classes[i]);
            }
            i = i + 1;
        }
        None
    }

    /// Returns whether `source` is `target` or derives from it, walking the
    /// declared base chain.
    pub fn class_extends_or_equals(&self, source: usize, target: usize) -> (r: bool)
        requires
            self.walk_stops(source, target),
        ensures
            r == self.extends_spec(source, target),
    {
        let ghost n: nat = choose|n: nat| #[trigger] self.chain(source, n) is None || self.chain(
            source,
            n,
        ) == Some(target);
        let mut current: Option<usize> = Some(source);
        let ghost mut k: nat = 0;
        while current.is_some()
            invariant
                current == self.chain(source, k),
                k <= n,
                self.chain(source, n) is None || self.chain(source, n) == Some(target),
                forall|j: nat| j < k ==> #[trigger] self.chain(source, j) != Some(target),
            decreases n - k,
        {
            let c = current.unwrap();
            if c == target {
                return true;
            }
            proof {
                if k == n {
                    assert(self.chain(source, k) == Some(c));
                }
            }
            current = match self.find_class_info(c) {
                Some(info) => info.base,
                None => None,
            };
            proof {
                k = k + 1;
            }
        }
        proof {
            assert forall|j: nat| #[trigger] self.chain(source, j) != Some(target) by {
                if j >= k {
                    self.lemma_chain_none_stays(source, k, j);
                }
            }
        }
        false
    }

    pub open spec fn abstract_method_spec(&self, class: usize, method: usize) -> Option<Seq<char>> {
        match self.class_named(class) {
            None => None,
            Some(info) => if info.abstract_methods@.contains(method) {
                Some(abstract_method_text())
            } else {
                None
            },
        }
    }

    /// Emits an erased callable placeholder for an abstract method of a
    /// class, or `None` when the method is not abstract there.
    pub fn abstract_class_method_reference_text(&self, class: usize, method: usize) -> (r: Result<
        Option<String>,
        EmitError,
    >)
        ensures
            r matches Ok(Some(t)) ==> self.abstract_method_spec(class, method) == Some(t@),
            r matches Ok(None) ==> self.abstract_method_spec(class, method) is None,
            r is Ok,
    {
        let info = match self.find_class_info(class) {
            Some(i) => i,
            None => {
                return Ok(None);
            },
        };
        let mut k: usize = 0;
        while k < info.abstract_methods.len()
            invariant
                self.class_named(class) == Some(*info),
                k <= info.abstract_methods.len(),
                forall|j: int| 0 <= j < k ==> info.abstract_methods@[j] != method,
            decreases info.abstract_methods.len() - k,
        {
            if info.abstract_methods[k] == method {
                assert(info.abstract_methods@[k as int] == method);
                assert(info.abstract_methods@.contains(method));
                return Ok(
                    Some(
                        String::from_str(
                            "SmeltUnknown::Function(::std::rc::Rc::new(move |_smelt_args: Vec<SmeltUnknown>| Ok::<SmeltUnknown, Box<dyn std::error::Error>>(SmeltUnknown::Null)))",
                        ),
                    ),
                );
            }
            k = k + 1;
        }
        Ok(None)
    }

    pub open spec fn self_clone_spec(&self, class: usize) -> Seq<char> {
        match self.class_named(class) {
            None => "(*self).clone()"@,
            Some(info) => {
                let name = if info.type_params.len() > 0 {
                    info.rust_name@ + "::<"@ + seq_join(unknown_args(info.type_params.len() as nat), ", "@)
                        + ">"@
                } else {
                    info.rust_name@
                };
                let fields = if info.type_params.len() > 0 {
                    clone_fields(views(info.field_names@)).push(
                        "_smelt_phantom: ::std::marker::PhantomData"@,
                    )
                } else {
                    clone_fields(views(info.field_names@))
                };
                name + " { "@ + seq_join(fields, ", "@) + " }"@
            },
        }
    }

    /// Emits a concrete clone of `self` without relying on generic `Clone`
    /// bounds.
    pub fn self_struct_clone_text(&self, class: usize) -> (r: Result<String, EmitError>)
        ensures
            r matches Ok(t) ==> t@ == self.self_clone_spec(class),
            r is Ok,
    {
        let info = match self.find_class_info(class) {
            Some(i) => i,
            None => {
                return Ok(String::from_str("(*self).clone()"));
            },
        };
        let mut name = info.rust_name.clone();
        if info.type_params.len() > 0 {
            let mut args: Vec<String> = Vec::new();
            let mut k: usize = 0;
            while k < info.type_params.len()
                invariant
                    k <= info.type_params.len(),
                    views(args@) =~= unknown_args(k as nat),
                decreases info.type_params.len() - k,
            {
                let ghost before = args@;
                args.push(String::from_str("SmeltUnknown"));
                assert(views(args@) =~= views(before).push("SmeltUnknown"@));
                k = k + 1;
            }
            let joined = join(&args, ", ");
            name.append("::<");
            name.append(joined.as_str());
            name.append(">");
        }
        let mut fields: Vec<String> = Vec::new();
        let mut k: usize = 0;
        while k < info.field_names.len()
            invariant
                self.class_named(class) == Some(*info),
                k <= info.field_names.len(),
                views(fields@) =~= clone_fields(views(info.field_names@)).take(k as int),
            decreases info.field_names.len() - k,
        {
            let f = info.field_names[k].as_str();
            let mut item = String::from_str(f);
            item.append(": self.");
            item.append(f);
            item.append(".clone()");
            let ghost before = fields@;
            fields.push(item);
            assert(views(fields@) =~= views(before).push(item@));
            k = k + 1;
        }
        assert(clone_fields(views(info.field_names@)).take(info.field_names.len() as int)
            =~= clone_fields(views(info.field_names@)));
        if info.type_params.len() > 0 {
            let ghost before = fields@;
            fields.push(String::from_str("_smelt_phantom: ::std::marker::PhantomData"));
            assert(views(fields@) =~= views(before).push(
                "_smelt_phantom: ::std::marker::PhantomData"@,
            ));
        }
        let joined = join(&fields, ", ");
        name.append(" { ");
        name.append(joined.as_str());
        name.append(" }");
        Ok(name)
    }

    /// A list, set, dict or class type that is not a shared reference class:
    /// a value with JavaScript object identity.
    pub open spec fn shared_mutation_spec(&self, ty: usize) -> bool {
        !self.reference_class(ty) && (self.ty(ty) matches Some(Type::List(_)) || self.ty(ty) matches Some(
            Type::SetOf(_),
        ) || self.ty(ty) matches Some(Type::Dict(_, _)) || self.ty(ty) matches Some(Type::Class { .. }))
    }

    /// Returns whether a parameter type carries JavaScript object identity:
    /// a list, set, dict or class that is not a shared reference class.
    pub fn parameter_type_has_shared_mutation_semantics(&self, ty: usize) -> (r: bool)
        ensures
            r == self.shared_mutation_spec(ty),
    {
        let reference = match self.fact_at(ty) {
            Some(f) => f.reference_class,
            None => false,
        };
        if reference {
            return false;
        }
        match self.type_at(ty) {
            Some(Type::List(_)) | Some(Type::SetOf(_)) | Some(Type::Dict(_, _)) | Some(
                Type::Class { .. },
            ) => true,
            _ => false,
        }
    }

    /// Whether an optional contextual type can be losslessly unwrapped into a
    /// flat local: its inner type is the local's type, has the same shape, or
    /// the local is erased.
    pub open spec fn flat_local_spec(&self, target_ty: usize, local_ty: usize) -> bool {
        match self.optional_inner_spec(target_ty) {
            None => false,
            Some(inner) => inner == local_ty || (self.ty(inner) is None && self.ty(local_ty) is None)
                || (self.ty(inner) is Some && self.ty(local_ty) is Some && same_type_spec(
                self.ty(inner)->0,
                self.ty(local_ty)->0,
            )) || self.ty(local_ty) == Some(Type::Unknown),
        }
    }

    /// Returns whether an `Option<inner>` contextual type matches a flat
    /// local of type `local_ty`.
    pub fn optional_target_matches_flat_local(&self, target_ty: usize, local_ty: usize) -> (r: bool)
        ensures
            r == self.flat_local_spec(target_ty, local_ty),
    {
        let inner = match self.optional_inner_ty(target_ty) {
            Some(i) => i,
            None => {
                return false;
            },
        };
        if inner == local_ty {
            return true;
        }
        let same = match (self.type_at(inner), self.type_at(local_ty)) {
            (None, None) => true,
            (Some(a), Some(b)) => same_type(a, b),
            _ => false,
        };
        same || self.is_unknown_type(local_ty)
    }

    pub open spec fn blob_new_spec(
        &self,
        parts: Operand,
        blob_type: Operand,
        name: Option<Operand>,
        last_modified: Option<Operand>,
    ) -> Seq<char> {
        let ctor = match self.ty(parts.ty) {
            Some(Type::List(item)) => if self.ty(item) == Some(Type::Str) {
                Some("from_string_parts"@)
            } else if (self.ty(item) matches Some(Type::Class { .. })) && self.class_kind_of(item) is Blob {
                Some("from_blob_parts"@)
            } else {
                None
            },
            _ => None,
        };
        let name_text = match name {
            Some(n) => "Some(("@ + n.text@ + ").clone())"@,
            None => "None"@,
        };
        let lm_text = match last_modified {
            Some(m) => "Some(("@ + m.text@ + ") as f64)"@,
            None => "None"@,
        };
        match ctor {
            Some(c) => "SmeltBlob::"@ + c + "(("@ + parts.text@ + ").clone().into(), ("@
                + blob_type.text@ + ").clone(), "@ + name_text + ", "@ + lm_text + ")"@,
            None => "SmeltBlob::from_parts_unknown(("@ + parts.text@ + ").clone(), ("@
                + blob_type.text@ + ").clone(), "@ + name_text + ", "@ + lm_text + ")"@,
        }
    }

    /// Emits `new Blob(parts?, options?)` / `new File(parts, name, options?)`.
    pub fn blob_new_text(
        &self,
        parts: &Operand,
        blob_type: &Operand,
        name: Option<&Operand>,
        last_modified: Option<&Operand>,
    ) -> (r: Result<String, EmitError>)
        ensures
            r matches Ok(t) ==> t@ == self.blob_new_spec(
                *parts,
                *blob_type,
                match name {
                    Some(n) => Some(*n),
                    None => None,
                },
                match last_modified {
                    Some(m) => Some(*m),
                    None => None,
                },
            ),
            r is Ok,
    {
        let ctor: Option<&str> = match self.type_at(parts.ty) {
            Some(Type::List(item)) => {
                let is_str = match self.type_at(*item) {
                    Some(Type::Str) => true,
                    _ => false,
                };
                let is_blob = self.is_blob_class_type(*item)?;
                if is_str {
                    Some("from_string_parts")
                } else if is_blob {
                    Some("from_blob_parts")
                } else {
                    None
                }
            },
            _ => None,
        };
        let name_text = match name {
            Some(n) => wrap("Some((", n.text.as_str(), ").clone())"),
            None => String::from_str("None"),
        };
        let lm_text = match last_modified {
            Some(m) => wrap("Some((", m.text.as_str(), ") as f64)"),
            None => String::from_str("None"),
        };
        let mut out = match ctor {
            Some(c) => {
                let mut o = wrap("SmeltBlob::", c, "((");
                o.append(parts.text.as_str());
                o.append(").clone().into(), (");
                o
            },
            None => wrap("SmeltBlob::from_parts_unknown((", parts.text.as_str(), ").clone(), ("),
        };
        out.append(blob_type.text.as_str());
        out.append(").clone(), ");
        out.append(name_text.as_str());
        out.append(", ");
        out.append(lm_text.as_str());
        out.append(")");
        Ok(out)
    }
}

} // verus!
