//! JavaScript binary-operator semantics: which operand shapes compare by
//! identity, which cannot be equal, and the text of those comparisons.

use vstd::prelude::*;
use crate::emitter::{EmitError, FunctionEmitter};
use crate::types::{children_below, Type};

verus! {

/// A number naming a scalar type, for comparing scalar kinds.
pub open spec fn scalar_code(t: Type) -> int {
    match t {
        Type::Bool => 1,
        Type::Int => 2,
        Type::Float => 3,
        Type::Str => 4,
        Type::Nullish => 5,
        _ => 0,
    }
}

pub open spec fn is_scalar(t: Type) -> bool {
    scalar_code(t) != 0
}

pub open spec fn is_number(t: Type) -> bool {
    t is Int || t is Float
}

/// Lists, dicts, sets, tuples and functions.
pub open spec fn is_container_or_function(t: Type) -> bool {
    t is List || t is Dict || t is SetOf || t is Tuple || t is Function
}

impl FunctionEmitter {
    pub open spec fn optional_inner_spec(&self, ty: usize) -> Option<usize> {
        match self.ty(ty) {
            Some(Type::Optional(inner)) => Some(inner),
            _ => None,
        }
    }

    /// Returns the inner type for `Option<T>`.
    pub fn optional_inner_ty(&self, ty: usize) -> (r: Option<usize>)
        ensures
            r == self.optional_inner_spec(ty),
    {
        match self.type_at(ty) {
            Some(Type::Optional(inner)) => Some(*inner),
            _ => None,
        }
    }

    pub open spec fn numeric_spec(&self, ty: usize) -> bool {
        self.ty(ty) matches Some(t) && is_number(t)
    }

    /// Returns whether a type is a Rust numeric scalar.
    pub fn is_numeric_type(&self, ty: usize) -> (r: bool)
        ensures
            r == self.numeric_spec(ty),
    {
        match self.type_at(ty) {
            Some(Type::Int) | Some(Type::Float) => true,
            _ => false,
        }
    }

    /// `unknown`, a type parameter or a union: a value carried erased.
    pub open spec fn erased_kind(&self, ty: usize) -> bool {
        self.ty(ty) matches Some(t) && (t is Unknown || t is TypeParam || t is Union)
    }

    pub open spec fn erased_relational_spec(&self, ty: usize) -> bool {
        self.erased_kind(ty) || self.erased_class(ty)
    }

    pub fn is_erased_kind(&self, ty: usize) -> (r: bool)
        ensures
            r == self.erased_kind(ty),
    {
        match self.type_at(ty) {
            Some(Type::Unknown) | Some(Type::TypeParam { .. }) | Some(Type::Union(_)) => true,
            _ => false,
        }
    }

    /// Returns whether a type is erased for a JavaScript relational comparison.
    pub fn is_erased_relational(&self, ty: usize) -> (r: bool)
        ensures
            r == self.erased_relational_spec(ty),
    {
        self.is_erased_kind(ty) || self.is_erased_class_type(ty)
    }

    /// The shared scalar type of a mixed numeric operation.
    pub open spec fn common_numeric_spec(&self, lhs: usize, rhs: usize, dest_ty: usize) -> Option<usize> {
        if self.numeric_spec(dest_ty) {
            Some(dest_ty)
        } else if self.ty(lhs) == Some(Type::Float) || self.ty(rhs) == Some(Type::Float) {
            self.find_interned(Type::Float)
        } else {
            self.find_interned(Type::Int)
        }
    }

    /// Chooses the Rust scalar type for mixed numeric arithmetic: the
    /// destination when it is numeric, else the first interned `Float` when
    /// either side is a float, else the first interned `Int`.
    pub fn common_numeric_type(&self, lhs: usize, rhs: usize, dest_ty: usize) -> (r: Result<
        usize,
        EmitError,
    >)
        ensures
            r matches Ok(id) ==> self.common_numeric_spec(lhs, rhs, dest_ty) == Some(id),
            r is Err <==> self.common_numeric_spec(lhs, rhs, dest_ty) is None,
            self.numeric_spec(dest_ty) ==> r == Ok::<usize, EmitError>(dest_ty),
            !self.numeric_spec(dest_ty) && (self.ty(lhs) == Some(Type::Float) || self.ty(rhs)
                == Some(Type::Float)) ==> match r {
                Ok(id) => self.interned(Type::Float, id),
                Err(_) => self.not_interned(Type::Float),
            },
            !self.numeric_spec(dest_ty) && self.ty(lhs) != Some(Type::Float) && self.ty(rhs)
                != Some(Type::Float) ==> match r {
                Ok(id) => self.interned(Type::Int, id),
                Err(_) => self.not_interned(Type::Int),
            },
    {
        if self.is_numeric_type(dest_ty) {
            return Ok(dest_ty);
        }
        let lhs_float = match self.type_at(lhs) {
            Some(Type::Float) => true,
            _ => false,
        };
        let rhs_float = match self.type_at(rhs) {
            Some(Type::Float) => true,
            _ => false,
        };
        if lhs_float || rhs_float {
            return self.type_id(&Type::Float);
        }
        self.type_id(&Type::Int)
    }

    pub open spec fn reference_spec(&self, ty: usize) -> bool {
        self.ty(ty) matches Some(t) && (t is List || t is Dict || t is JsMap || t is SetOf
            || t is Tuple || t is Class || t is Function)
    }

    /// Returns whether a type is a JavaScript reference type, compared by
    /// object identity under `===`.
    pub fn is_reference_type(&self, ty: usize) -> (r: bool)
        ensures
            r == self.reference_spec(ty),
    {
        match self.type_at(ty) {
            Some(Type::List(_)) | Some(Type::Dict(_, _)) | Some(Type::JsMap(_, _)) | Some(
                Type::SetOf(_),
            ) | Some(Type::Tuple(_)) | Some(Type::Class { .. }) | Some(Type::Function(_)) => true,
            _ => false,
        }
    }

    /// The expression reading a reference value's object identity, where its
    /// Rust representation carries one.
    pub open spec fn reference_identity_spec(&self, text: Seq<char>, ty: usize) -> Option<
        Seq<char>,
    > {
        match self.ty(ty) {
            Some(Type::List(_)) => Some(text + ".id()"@),
            Some(Type::Dict(key, _)) => if self.smelt_record_key(key) || self.js_key_map_key(key) {
                Some(text + ".id"@)
            } else {
                None
            },
            Some(Type::JsMap(_, _)) => Some(text + ".id"@),
            Some(Type::SetOf(item)) => if !self.hash_set_key_safe(item) {
                Some(text + ".id"@)
            } else {
                None
            },
            _ => None,
        }
    }

    pub(crate) fn fact_flag_record_or_js_map(&self, key: usize) -> (r: bool)
        ensures
            r == (self.smelt_record_key(key) || self.js_key_map_key(key)),
    {
        match self.fact_at(key) {
            Some(f) => f.smelt_record_key || f.js_key_map_key,
            None => false,
        }
    }

    fn fact_hash_set_key_safe(&self, item: usize) -> (r: bool)
        ensures
            r == self.hash_set_key_safe(item),
    {
        match self.fact_at(item) {
            Some(f) => f.hash_set_key_safe,
            None => false,
        }
    }

    /// Returns the Rust expression reading a typed reference value's
    /// JavaScript object identity, or `None` when its representation has none.
    pub fn reference_identity_text(&self, text: &str, ty: usize) -> (r: Option<String>)
        ensures
            r matches Some(s) ==> self.reference_identity_spec(text@, ty) == Some(s@),
            r is None <==> self.reference_identity_spec(text@, ty) is None,
    {
        let with_suffix = |suffix: &str| -> (s: String)
            ensures
                s@ == text@ + suffix@,
            {
                let mut s = String::from_str(text);
                s.append(suffix);
                s
            };
        match self.type_at(ty) {
            Some(Type::List(_)) => Some(with_suffix(".id()")),
            Some(Type::Dict(key, _)) => {
                if self.fact_flag_record_or_js_map(*key) {
                    Some(with_suffix(".id"))
                } else {
                    None
                }
            },
            Some(Type::JsMap(_, _)) => Some(with_suffix(".id")),
            Some(Type::SetOf(item)) => {
                if !self.fact_hash_set_key_safe(*item) {
                    Some(with_suffix(".id"))
                } else {
                    None
                }
            },
            _ => None,
        }
    }

    pub open spec fn function_ptr_eq_spec(&self, left: Seq<char>, right: Seq<char>, ty: usize) -> Option<
        Seq<char>,
    > {
        match self.rust_text(ty) {
            Some(fn_ty) => Some(
                "smelt_same_function_identity(&{ let smelt_lhs_fn: "@ + fn_ty + " = "@ + left
                    + ".clone(); smelt_lhs_fn }, &{ let smelt_rhs_fn: "@ + fn_ty + " = "@ + right
                    + ".clone(); smelt_rhs_fn })"@,
            ),
            None => None,
        }
    }

    /// Emits an identity comparison for two function values, each coerced to
    /// the common `Rc<dyn Fn(..)>` spelling first.
    pub fn function_ptr_eq_text(&self, left: &str, right: &str, ty: usize) -> (r: Result<
        String,
        EmitError,
    >)
        ensures
            r matches Ok(s) ==> self.function_ptr_eq_spec(left@, right@, ty) == Some(s@),
            r is Err <==> self.function_ptr_eq_spec(left@, right@, ty) is None,
    {
        let fn_ty = self.rust_type_text(ty)?;
        let mut s = String::from_str("smelt_same_function_identity(&{ let smelt_lhs_fn: ");
        s.append(fn_ty.as_str());
        s.append(" = ");
        s.append(left);
        s.append(".clone(); smelt_lhs_fn }, &{ let smelt_rhs_fn: ");
        s.append(fn_ty.as_str());
        s.append(" = ");
        s.append(right);
        s.append(".clone(); smelt_rhs_fn })");
        Ok(s)
    }

    /// Whether two static types cannot be equal under JavaScript-style deep
    /// equality.
    pub open spec fn incompatible_spec(&self, left: usize, right: usize) -> bool
        decreases left + right, 2nat, 0nat,
    {
        match (self.ty(left), self.ty(right)) {
            (Some(l), Some(r)) => {
                if is_number(l) && is_number(r) {
                    false
                } else if l is Optional && r is Optional {
                    let li = l->Optional_0;
                    let ri = r->Optional_0;
                    if li < left && ri < right {
                        self.incompatible_spec(li, ri)
                    } else {
                        false
                    }
                } else if l is Optional {
                    let li = l->Optional_0;
                    if li < left {
                        self.incompatible_spec(li, right)
                    } else {
                        false
                    }
                } else if r is Optional {
                    let ri = r->Optional_0;
                    if ri < right {
                        self.incompatible_spec(left, ri)
                    } else {
                        false
                    }
                } else {
                    self.incompatible_shapes(left, right, l, r)
                }
            },
            (Some(l), None) => {
                if l is Optional {
                    let li = l->Optional_0;
                    if li < left {
                        self.incompatible_spec(li, right)
                    } else {
                        false
                    }
                } else {
                    false
                }
            },
            (None, Some(r)) => {
                if r is Optional {
                    let ri = r->Optional_0;
                    if ri < right {
                        self.incompatible_spec(left, ri)
                    } else {
                        false
                    }
                } else {
                    false
                }
            },
            (None, None) => false,
        }
    }

    /// The arms of `incompatible_spec` for two interned, non-optional types.
    pub open spec fn incompatible_shapes(&self, left: usize, right: usize, l: Type, r: Type) -> bool
        decreases left + right, 1nat, 0nat,
    {
        if (l is List && r is List) || (l is Dict && r is Dict) || (l is SetOf && r is SetOf) {
            false
        } else if l is Tuple && r is Tuple {
            let li = l->Tuple_0@;
            let ri = r->Tuple_0@;
            li.len() != ri.len() || self.any_incompatible(li, ri, left, right, li.len())
        } else if (l is Tuple && r is List) || (l is List && r is Tuple) {
            false
        } else if is_container_or_function(l) && is_container_or_function(r) {
            true
        } else if is_scalar(l) && is_scalar(r) {
            !(l is Nullish && r is Nullish) && scalar_code(l) != scalar_code(r)
        } else if (l is Class && is_scalar(r)) || (is_scalar(l) && r is Class) {
            true
        } else {
            false
        }
    }

    /// Whether some pair among the first `n` tuple items cannot be equal.
    pub open spec fn any_incompatible(
        &self,
        li: Seq<usize>,
        ri: Seq<usize>,
        left: usize,
        right: usize,
        n: nat,
    ) -> bool
        decreases left + right, 0nat, n,
    {
        if n == 0 || n > li.len() || n > ri.len() {
            false
        } else if li[n - 1] < left && ri[n - 1] < right {
            self.any_incompatible(li, ri, left, right, (n - 1) as nat) || self.incompatible_spec(
                li[n - 1],
                ri[n - 1],
            )
        } else {
            false
        }
    }

    fn scalar_code_of(t: &Type) -> (r: u8)
        ensures
            r as int == scalar_code(*t),
    {
        match t {
            Type::Bool => 1,
            Type::Int => 2,
            Type::Float => 3,
            Type::Str => 4,
            Type::Nullish => 5,
            _ => 0,
        }
    }

    fn is_container_or_function_exec(t: &Type) -> (r: bool)
        ensures
            r == is_container_or_function(*t),
    {
        match t {
            Type::List(_) | Type::Dict(_, _) | Type::SetOf(_) | Type::Tuple(_) | Type::Function(
                _,
            ) => true,
            _ => false,
        }
    }

    /// Returns whether two static types cannot be equal under JavaScript-style
    /// deep equality.
    pub fn equality_shapes_are_definitely_incompatible(&self, left: usize, right: usize) -> (r:
        bool)
        requires
            self.wf(),
        ensures
            r == self.incompatible_spec(left, right),
        decreases left + right,
    {
        proof {
            reveal_with_fuel(FunctionEmitter::incompatible_spec, 2);
            if left < self.types.len() {
                assert(children_below(self.types@[left as int], left as int));
            }
            if right < self.types.len() {
                assert(children_below(self.types@[right as int], right as int));
            }
        }
        let lt = self.type_at(left);
        let rt = self.type_at(right);
        match (lt, rt) {
            (Some(l), Some(r)) => {
                let ln = match l {
                    Type::Int | Type::Float => true,
                    _ => false,
                };
                let rn = match r {
                    Type::Int | Type::Float => true,
                    _ => false,
                };
                if ln && rn {
                    return false;
                }
                match (l, r) {
                    (Type::Optional(li), Type::Optional(ri)) => {
                        return self.equality_shapes_are_definitely_incompatible(*li, *ri);
                    },
                    (Type::Optional(li), _) => {
                        return self.equality_shapes_are_definitely_incompatible(*li, right);
                    },
                    (_, Type::Optional(ri)) => {
                        return self.equality_shapes_are_definitely_incompatible(left, *ri);
                    },
                    _ => {},
                }
                match (l, r) {
                    (Type::List(_), Type::List(_)) | (Type::Dict(_, _), Type::Dict(_, _)) | (
                        Type::SetOf(_),
                        Type::SetOf(_),
                    ) => {
                        return false;
                    },
                    (Type::Tuple(li), Type::Tuple(ri)) => {
                        if li.len() != ri.len() {
                            return true;
                        }
                        let mut k: usize = 0;
                        let mut found = false;
                        while k < li.len()
                            invariant
                                self.wf(),
                                left < self.types.len(),
                                right < self.types.len(),
                                self.types@[left as int] == Type::Tuple(*li),
                                self.types@[right as int] == Type::Tuple(*ri),
                                li.len() == ri.len(),
                                k <= li.len(),
                                found == self.any_incompatible(li@, ri@, left, right, k as nat),
                            decreases li.len() - k,
                        {
                            assert(children_below(self.types@[left as int], left as int));
                            assert(children_below(self.types@[right as int], right as int));
                            let next = self.equality_shapes_are_definitely_incompatible(li[k], ri[k]);
                            found = found || next;
                            k = k + 1;
                        }
                        return found;
                    },
                    (Type::Tuple(_), Type::List(_)) | (Type::List(_), Type::Tuple(_)) => {
                        return false;
                    },
                    _ => {},
                }
                if Self::is_container_or_function_exec(l) && Self::is_container_or_function_exec(r) {
                    return true;
                }
                let lc = Self::scalar_code_of(l);
                let rc = Self::scalar_code_of(r);
                if lc != 0 && rc != 0 {
                    return !(lc == 5 && rc == 5) && lc != rc;
                }
                match (l, r) {
                    (Type::Class { .. }, _) if rc != 0 => true,
                    (_, Type::Class { .. }) if lc != 0 => true,
                    _ => false,
                }
            },
            (Some(Type::Optional(li)), None) => self.equality_shapes_are_definitely_incompatible(
                *li,
                right,
            ),
            (None, Some(Type::Optional(ri))) => self.equality_shapes_are_definitely_incompatible(
                left,
                *ri,
            ),
            _ => false,
        }
    }
}

} // verus!
