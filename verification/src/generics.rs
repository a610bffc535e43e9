//! Questions about generic type parameters at a call site.

use vstd::prelude::*;
use crate::emitter::{EmitError, FunctionEmitter};
use crate::types::{children_below, Type};

verus! {

impl FunctionEmitter {
    /// Whether `ty` mentions one of `params` within `depth` levels.
    pub open spec fn mentions_spec(&self, ty: usize, params: Seq<usize>, depth: nat) -> bool
        decreases depth, 1nat, 0nat,
    {
        if depth == 0 || params.len() == 0 {
            false
        } else {
            let next = (depth - 1) as nat;
            match self.ty(ty) {
                Some(Type::TypeParam { name }) => params.contains(name),
                Some(Type::List(item)) | Some(Type::SetOf(item)) | Some(Type::Optional(item))
                | Some(Type::Future(item)) => self.mentions_spec(item, params, next),
                Some(Type::Dict(key, value)) => self.mentions_spec(key, params, next)
                    || self.mentions_spec(value, params, next),
                Some(Type::Tuple(items)) | Some(Type::Union(items)) => self.mentions_any_spec(
                    items@,
                    params,
                    next,
                    items.len() as nat,
                ),
                Some(Type::Function(f)) => self.mentions_spec(f.return_ty, params, next)
                    || self.mentions_any_spec(f.params@, params, next, f.params.len() as nat),
                _ => false,
            }
        }
    }

    /// Whether one of the first `n` of `items` mentions one of `params`.
    pub open spec fn mentions_any_spec(
        &self,
        items: Seq<usize>,
        params: Seq<usize>,
        depth: nat,
        n: nat,
    ) -> bool
        decreases depth + 1, 0nat, n,
    {
        if n == 0 || n > items.len() {
            false
        } else {
            self.mentions_any_spec(items, params, depth, (n - 1) as nat) || self.mentions_spec(
                items[n - 1],
                params,
                depth,
            )
        }
    }

    fn mentions_any(&self, items: &Vec<usize>, params: &Vec<usize>, depth: usize) -> (r: bool)
        ensures
            r == self.mentions_any_spec(items@, params@, depth as nat, items.len() as nat),
        decreases depth + 1, 0nat,
    {
        let mut k: usize = 0;
        let mut found = false;
        while k < items.len()
            invariant
                k <= items.len(),
                found == self.mentions_any_spec(items@, params@, depth as nat, k as nat),
            decreases items.len() - k,
        {
            let m = self.type_mentions_type_params_at_depth(items[k], params, depth);
            found = found || m;
            k = k + 1;
        }
        found
    }

    /// Returns whether `ty` mentions any of `params` anywhere in its
    /// structure, looking at most sixteen levels deep.
    pub fn type_mentions_type_params(&self, ty: usize, params: &Vec<usize>) -> (r: bool)
        ensures
            r == self.mentions_spec(ty, params@, 16),
    {
        self.type_mentions_type_params_at_depth(ty, params, 16)
    }

    /// Depth-limited worker for `type_mentions_type_params`.
    pub fn type_mentions_type_params_at_depth(
        &self,
        ty: usize,
        params: &Vec<usize>,
        depth: usize,
    ) -> (r: bool)
        ensures
            r == self.mentions_spec(ty, params@, depth as nat),
        decreases depth, 1nat,
    {
        if depth == 0 || params.len() == 0 {
            return false;
        }
        let next = depth - 1;
        match self.type_at(ty) {
            Some(Type::TypeParam { name }) => contains_id(params, *name),
            Some(Type::List(item)) | Some(Type::SetOf(item)) | Some(Type::Optional(item)) | Some(
                Type::Future(item),
            ) => self.type_mentions_type_params_at_depth(*item, params, next),
            Some(Type::Dict(key, value)) => self.type_mentions_type_params_at_depth(
                *key,
                params,
                next,
            ) || self.type_mentions_type_params_at_depth(*value, params, next),
            Some(Type::Tuple(items)) | Some(Type::Union(items)) => self.mentions_any(
                items,
                params,
                next,
            ),
            Some(Type::Function(f)) => self.type_mentions_type_params_at_depth(
                f.return_ty,
                params,
                next,
            ) || self.mentions_any(&f.params, params, next),
            _ => false,
        }
    }

    /// Whether the concrete argument type `source` is exactly the callee
    /// parameter `target` with its own generic `params` instantiated.
    pub open spec fn instantiated_spec(&self, source: usize, target: usize, params: Seq<usize>) -> bool
        decreases source + target, 1nat, 0nat,
    {
        match (self.ty(target), self.ty(source)) {
            (Some(Type::TypeParam { name }), _) if params.contains(name) => true,
            (Some(Type::List(t)), Some(Type::List(s))) | (Some(Type::SetOf(t)), Some(Type::SetOf(s)))
            | (Some(Type::Optional(t)), Some(Type::Optional(s))) | (
                Some(Type::Future(t)),
                Some(Type::Future(s)),
            ) => if s < source && t < target {
                self.instantiated_spec(s, t, params)
            } else {
                false
            },
            (Some(Type::Dict(tk, tv)), Some(Type::Dict(sk, sv))) => if sk < source && sv < source
                && tk < target && tv < target {
                self.instantiated_spec(sk, tk, params) && self.instantiated_spec(sv, tv, params)
            } else {
                false
            },
            (Some(Type::Tuple(ti)), Some(Type::Tuple(si))) | (
                Some(Type::Union(ti)),
                Some(Type::Union(si)),
            ) => if ti.len() == si.len() {
                self.all_instantiated_spec(si@, ti@, params, source, target, ti.len() as nat)
            } else {
                source == target
            },
            _ => source == target,
        }
    }

    /// Whether the first `n` item pairs are each instantiated.
    pub open spec fn all_instantiated_spec(
        &self,
        si: Seq<usize>,
        ti: Seq<usize>,
        params: Seq<usize>,
        source: usize,
        target: usize,
        n: nat,
    ) -> bool
        decreases source + target, 0nat, n,
    {
        if n == 0 {
            true
        } else if n > si.len() || n > ti.len() {
            false
        } else if si[n - 1] < source && ti[n - 1] < target {
            self.all_instantiated_spec(si, ti, params, source, target, (n - 1) as nat)
                && self.instantiated_spec(si[n - 1], ti[n - 1], params)
        } else {
            false
        }
    }

    /// Returns whether a concrete `source` argument type is exactly the
    /// callee parameter `target` with its own generic `params` instantiated.
    pub fn generic_param_instantiated_by(&self, source: usize, target: usize, params: &Vec<usize>) -> (r:
        bool)
        requires
            self.wf(),
        ensures
            r == self.instantiated_spec(source, target, params@),
        decreases source + target,
    {
        proof {
            reveal_with_fuel(FunctionEmitter::instantiated_spec, 2);
            if source < self.types.len() {
                assert(children_below(self.types@[source as int], source as int));
            }
            if target < self.types.len() {
                assert(children_below(self.types@[target as int], target as int));
            }
        }
        let tt = self.type_at(target);
        let st = self.type_at(source);
        if let Some(Type::TypeParam { name }) = tt {
            if contains_id(params, *name) {
                return true;
            }
        }
        match (tt, st) {
            (Some(Type::List(t)), Some(Type::List(s))) | (
                Some(Type::SetOf(t)),
                Some(Type::SetOf(s)),
            ) | (Some(Type::Optional(t)), Some(Type::Optional(s))) | (
                Some(Type::Future(t)),
                Some(Type::Future(s)),
            ) => self.generic_param_instantiated_by(*s, *t, params),
            (Some(Type::Dict(tk, tv)), Some(Type::Dict(sk, sv))) => {
                self.generic_param_instantiated_by(*sk, *tk, params)
                    && self.generic_param_instantiated_by(*sv, *tv, params)
            },
            (Some(Type::Tuple(ti)), Some(Type::Tuple(si))) | (
                Some(Type::Union(ti)),
                Some(Type::Union(si)),
            ) => {
                if ti.len() != si.len() {
                    return source == target;
                }
                let mut k: usize = 0;
                let mut all = true;
                while k < ti.len()
                    invariant
                        self.wf(),
                        source < self.types.len(),
                        target < self.types.len(),
                        children_below(self.types@[source as int], source as int),
                        children_below(self.types@[target as int], target as int),
                        self.types@[target as int] == Type::Tuple(*ti) || self.types@[target as int]
                            == Type::Union(*ti),
                        self.types@[source as int] == Type::Tuple(*si) || self.types@[source as int]
                            == Type::Union(*si),
                        ti.len() == si.len(),
                        k <= ti.len(),
                        all == self.all_instantiated_spec(si@, ti@, params@, source, target, k as nat),
                    decreases ti.len() - k,
                {
                    let next = self.generic_param_instantiated_by(si[k], ti[k], params);
                    all = all && next;
                    k = k + 1;
                }
                all
            },
            _ => source == target,
        }
    }

    /// Returns the element type of a list type.
    pub fn list_element_ty(&self, list_ty: usize) -> (r: Result<usize, EmitError>)
        ensures
            match self.ty(list_ty) {
                Some(Type::List(item)) => r == Ok::<usize, EmitError>(item),
                _ => r is Err,
            },
    {
        match self.type_at(list_ty) {
            Some(Type::List(item)) => Ok(*item),
            _ => Err(EmitError::new("expected a list type")),
        }
    }
}

/// Returns whether `id` is among `ids`.
pub fn contains_id(ids: &Vec<usize>, id: usize) -> (r: bool)
    ensures
        r == ids@.contains(id),
{
    let mut i: usize = 0;
    while i < ids.len()
        invariant
            i <= ids.len(),
            forall|j: int| 0 <= j < i ==> ids@[j] != id,
        decreases ids.len() - i,
    {
        if ids[i] == id {
            assert(ids@[i as int] == id);
            return true;
        }
        i = i + 1;
    }
    false
}

} // verus!
