//! Coercing already-rendered Rust value text from a known source type to a
//! destination type.

use vstd::prelude::*;
use crate::emitter::{name_listed, pair_listed, AdapterKind, EmitError, FunctionEmitter};
use crate::erase::wrap;
use crate::numtext::{decimal, usize_text};
use crate::text::{join, seq_join, str_eq, views};
use crate::types::{children_below, ClassKind, Type};
use crate::coercion::trivial_place_spec;

verus! {

/// How many types `s < k` have no pending `(s, t)` expansion in `stack`.
pub open spec fn missing_count(stack: Seq<(usize, usize)>, t: usize, k: nat) -> nat
    decreases k,
{
    if k == 0 {
        0
    } else {
        missing_count(stack, t, (k - 1) as nat) + if stack.contains(((k - 1) as usize, t)) {
            0nat
        } else {
            1nat
        }
    }
}

pub proof fn lemma_missing_push(stack: Seq<(usize, usize)>, s: usize, t: usize, k: nat)
    requires
        !stack.contains((s, t)),
        k <= usize::MAX as nat + 1,
    ensures
        (s as nat) < k ==> missing_count(stack.push((s, t)), t, k) + 1 == missing_count(
            stack,
            t,
            k,
        ),
        (s as nat) >= k ==> missing_count(stack.push((s, t)), t, k) == missing_count(stack, t, k),
    decreases k,
{
    if k > 0 {
        lemma_missing_push(stack, s, t, (k - 1) as nat);
        let j = (k - 1) as usize;
        assert(stack.push((s, t)).contains((j, t)) == (stack.contains((j, t)) || j == s)) by {
            if stack.push((s, t)).contains((j, t)) {
                let w = choose|w: int|
                    0 <= w < stack.push((s, t)).len() && stack.push((s, t))[w] == (j, t);
                if w < stack.len() {
                    assert(stack[w] == (j, t));
                }
            }
            if stack.contains((j, t)) {
                let w = choose|w: int| 0 <= w < stack.len() && stack[w] == (j, t);
                assert(stack.push((s, t))[w] == (j, t));
            }
            if j == s {
                assert(stack.push((s, t))[stack.len() as int] == (j, t));
            }
        }
    }
}

/// `(items)`, with the trailing comma a one-element Rust tuple needs.
pub open spec fn tuple_text_spec(items: Seq<char>, len: nat) -> Seq<char> {
    if len == 1 {
        "("@ + items + ",)"@
    } else {
        "("@ + items + ")"@
    }
}

/// The `index`-th field of `base`.
pub open spec fn field_spec(base: Seq<char>, index: nat) -> Seq<char> {
    base + "."@ + decimal(index)
}

/// The `index`-th element of the `smelt_tuple_values` vector, or `d`.
pub open spec fn tuple_value_spec(index: nat, d: Seq<char>) -> Seq<char> {
    "smelt_tuple_values.get("@ + decimal(index) + ").cloned().unwrap_or("@ + d + ")"@
}

/// The text of a non-trivial source bound once before `body` uses it.
pub open spec fn bind_source_spec(v: Seq<char>, body: Seq<char>) -> Seq<char> {
    "{ let smelt_tuple_src = "@ + v + "; "@ + body + " }"@
}

/// `base.0`, `base.1`, ... for the first `n` fields.
pub open spec fn field_texts_spec(base: Seq<char>, n: nat) -> Seq<Seq<char>> {
    Seq::new(n, |k: int| field_spec(base, k as nat))
}

/// The first `n` reads of the `smelt_tuple_values` vector, each defaulting to `d`.
pub open spec fn tuple_value_texts_spec(d: Seq<char>, n: nat) -> Seq<Seq<char>> {
    Seq::new(n, |k: int| tuple_value_spec(k as nat, d))
}

/// `n` copies of `id`.
pub open spec fn repeat_spec(id: usize, n: nat) -> Seq<usize> {
    Seq::new(n, |k: int| id)
}

impl FunctionEmitter {
    pub open spec fn missing_for(&self, stack: Seq<(usize, usize)>, t: usize) -> nat {
        missing_count(stack, t, self.types.len() as nat)
    }

    /// `0` for the `unknown` type, `1` for every other id: a source read back
    /// at `unknown` ranks below the source it was read from.
    pub open spec fn rank(&self, t: usize) -> nat {
        if self.ty(t) == Some(Type::Unknown) {
            0
        } else {
            1
        }
    }

    pub open spec fn union_erase_spec(&self, text: Seq<char>, ty: usize) -> Option<Seq<char>> {
        match self.fact(ty) {
            Some(f) => match f.union_erase {
                Some(t) => Some(t.render_spec(text)),
                None => None,
            },
            None => None,
        }
    }

    pub open spec fn borrowed_handle_spec(&self, text: Seq<char>, ty: usize) -> Option<Seq<char>> {
        match self.fact(ty) {
            Some(f) => match f.borrowed_handle {
                Some(t) => Some(t.render_spec(text)),
                None => None,
            },
            None => None,
        }
    }

    pub open spec fn adapter_spec(
        &self,
        kind: AdapterKind,
        text: Seq<char>,
        source: usize,
        target: usize,
    ) -> Option<Seq<char>> {
        match self.adapter(kind, source, target) {
            Some(t) => Some(t.render_spec(text)),
            None => None,
        }
    }

    /// A destination stored as an erased `SmeltUnknown`.
    pub open spec fn erased_target(&self, t: usize) -> bool {
        (self.erased_kind(t) && !self.concrete_union(t)) || self.erased_class(t)
    }

    pub open spec fn call_field(&self, t: usize) -> Option<usize> {
        match self.fact(t) {
            Some(f) => f.call_field_ty,
            None => None,
        }
    }

    pub open spec fn match_fn_result(&self, t: usize) -> bool {
        self.fact(t) matches Some(f) && f.match_fn_result
    }

    pub open spec fn match_fn_result_class(&self, t: usize) -> bool {
        self.fact(t) matches Some(f) && f.match_fn_result_class
    }

    pub open spec fn match_value(&self, t: usize) -> Option<usize> {
        match self.fact(t) {
            Some(f) => f.match_value_ty,
            None => None,
        }
    }

    pub open spec fn regexp_class(&self, t: usize) -> bool {
        self.ty(t) matches Some(Type::Class { .. }) && self.class_kind_of(t) is RegExp
    }

    pub open spec fn is_function_ty(&self, t: usize) -> bool {
        self.ty(t) matches Some(Type::Function(_))
    }

    pub open spec fn future_item(&self, t: usize) -> Option<usize> {
        match self.ty(t) {
            Some(Type::Future(i)) => Some(i),
            _ => None,
        }
    }

    pub open spec fn list_item(&self, t: usize) -> Option<usize> {
        match self.ty(t) {
            Some(Type::List(i)) => Some(i),
            _ => None,
        }
    }

    pub open spec fn tuple_items(&self, t: usize) -> Option<Seq<usize>> {
        match self.ty(t) {
            Some(Type::Tuple(items)) => Some(items@),
            _ => None,
        }
    }

    /// The key and value types of a `Dict`.
    pub open spec fn dict_parts(&self, t: usize) -> Option<(usize, usize)> {
        match self.ty(t) {
            Some(Type::Dict(k, v)) => Some((k, v)),
            _ => None,
        }
    }

    /// The key and value types of a `Dict` or a `JsMap`.
    pub open spec fn map_parts(&self, t: usize) -> Option<(usize, usize)> {
        match self.ty(t) {
            Some(Type::Dict(k, v)) => Some((k, v)),
            Some(Type::JsMap(k, v)) => Some((k, v)),
            _ => None,
        }
    }

    /// The value text after the collection-default normalization.
    pub open spec fn normalized_spec(&self, v: Seq<char>, source: usize) -> Option<Seq<char>> {
        if v == "Default::default()"@ && (self.ty(source) matches Some(Type::List(_))
            || self.ty(source) matches Some(Type::SetOf(_)) || self.ty(source) matches Some(
            Type::Dict(_, _),
        )) {
            self.default_text(source)
        } else {
            Some(v)
        }
    }

    /// `value_at_type_text` of `v` from `source` to `target`, while the
    /// callable-object expansions in `stack` are in progress; `None` where
    /// emission fails.
    pub open spec fn vat_spec(
        &self,
        v0: Seq<char>,
        source: usize,
        target: usize,
        stack: Seq<(usize, usize)>,
    ) -> Option<Seq<char>>
        decreases target, self.missing_for(stack, target), self.rank(source), source, 4nat, 0nat,
    {
        if self.adapter(AdapterKind::InjectUnion, source, target) is Some {
            self.adapter_spec(AdapterKind::InjectUnion, v0, source, target)
        } else if self.adapter(AdapterKind::ProjectUnion, source, target) is Some {
            self.adapter_spec(AdapterKind::ProjectUnion, v0, source, target)
        } else {
            match self.normalized_spec(v0, source) {
                None => None,
                Some(v) => self.vat_rules_spec(v, source, target, stack),
            }
        }
    }

    /// Coerces each `texts[k]` from `sources[k]` to `targets[k]`, for `k < n`;
    /// every target must be interned before `owner`.
    pub open spec fn vat_items_spec(
        &self,
        texts: Seq<Seq<char>>,
        sources: Seq<usize>,
        targets: Seq<usize>,
        owner: usize,
        stack: Seq<(usize, usize)>,
        source: usize,
        n: nat,
    ) -> Option<Seq<Seq<char>>>
        decreases owner, self.missing_for(stack, owner), self.rank(source), source, 0nat, n,
    {
        if n == 0 {
            Some(Seq::empty())
        } else {
            match self.vat_items_spec(texts, sources, targets, owner, stack, source, (n - 1) as nat) {
                None => None,
                Some(done) => if targets[n - 1] < owner {
                    match self.vat_spec(texts[n - 1], sources[n - 1], targets[n - 1], stack) {
                        Some(item) => Some(done.push(item)),
                        None => None,
                    }
                } else {
                    None
                },
            }
        }
    }

    /// The tuple-to-tuple coercion: field `k` of the (bound) source coerced
    /// to target item `k`.
    pub open spec fn tuple_to_tuple_spec(
        &self,
        v: Seq<char>,
        sis: Seq<usize>,
        tis: Seq<usize>,
        source: usize,
        target: usize,
        stack: Seq<(usize, usize)>,
    ) -> Option<Seq<char>>
        decreases target, self.missing_for(stack, target), self.rank(source), source, 1nat, 0nat,
    {
        let trivial = trivial_place_spec(v);
        let base = if trivial {
            v
        } else {
            "smelt_tuple_src"@
        };
        match self.vat_items_spec(
            field_texts_spec(base, tis.len()),
            sis,
            tis,
            target,
            stack,
            source,
            tis.len(),
        ) {
            Some(items) => {
                let tuple = tuple_text_spec(seq_join(items, ", "@), tis.len());
                if trivial {
                    Some(tuple)
                } else {
                    Some(bind_source_spec(v, tuple))
                }
            },
            None => None,
        }
    }

    /// The coercion ladder after the union adapters and the default
    /// normalization.
    pub open spec fn vat_rules_spec(
        &self,
        v: Seq<char>,
        source: usize,
        target: usize,
        stack: Seq<(usize, usize)>,
    ) -> Option<Seq<char>>
        decreases target, self.missing_for(stack, target), self.rank(source), source, 3nat, 0nat,
    {
        if source == target && !self.is_function_ty(target) {
            Some(v)
        } else if source == target {
            if name_listed(self.borrowed_captures@, v) {
                self.borrowed_handle_spec(v, target)
            } else {
                Some(v + ".clone()"@)
            }
        } else if self.future_item(source) is Some && self.future_item(target) is Some {
            let si = self.future_item(source)->0;
            let ti = self.future_item(target)->0;
            if ti < target {
                match self.vat_spec("smelt_future_value"@, si, ti, stack) {
                    Some(a) => Some(
                        "{ let smelt_source_future = "@ + v
                            + "; SmeltFuture::from_future(Box::pin(async move { let smelt_future_value = smelt_source_future.await?; Ok::<_, Box<dyn std::error::Error>>("@
                            + a + ") })) }"@,
                    ),
                    None => None,
                }
            } else {
                None
            }
        } else if self.list_item(source) is Some && self.list_item(target) is Some
            && self.list_item(source) != self.list_item(target) {
            let si = self.list_item(source)->0;
            let ti = self.list_item(target)->0;
            let el = if self.list_item(si) is Some && (self.erased_kind(ti) || self.erased_class(
                ti,
            )) {
                Some("value.into_smelt_unknown()"@)
            } else if ti < target {
                self.vat_spec("value"@, si, ti, stack)
            } else {
                None
            };
            match el {
                Some(e) => Some(
                    "{ let smelt_l: SmeltList<_> = ("@ + v
                        + ").clone().into(); SmeltList::with_id(smelt_l.id(), smelt_l.into_iter().map(|value| "@
                        + e + ").collect::<Vec<_>>()) }"@,
                ),
                None => None,
            }
        } else if self.tuple_items(source) is Some && self.tuple_items(target) is Some
            && self.tuple_items(source)->0.len() == self.tuple_items(target)->0.len() {
            self.tuple_to_tuple_spec(
                v,
                self.tuple_items(source)->0,
                self.tuple_items(target)->0,
                source,
                target,
                stack,
            )
        } else if self.is_function_ty(target) && v == "Default::default()"@ {
            self.default_text(target)
        } else if self.is_function_ty(target) && self.call_field(source) is Some
            && !stack.contains((source, target)) {
            if source < self.types.len() {
                proof {
                    lemma_missing_push(stack, source, target, self.types.len() as nat);
                }
                self.vat_spec(
                    v + ".__smelt_call.clone()"@,
                    self.call_field(source)->0,
                    target,
                    stack.push((source, target)),
                )
            } else {
                None
            }
        } else if self.adapter(AdapterKind::FunctionShape, source, target) is Some {
            self.adapter_spec(AdapterKind::FunctionShape, v, source, target)
        } else if self.adapter(AdapterKind::StructuralRecord, source, target) is Some {
            self.adapter_spec(AdapterKind::StructuralRecord, v, source, target)
        } else if self.erased_target(target) {
            self.erase_spec(v, source, false)
        } else if (self.ty(source) matches Some(Type::Class { .. })) && self.dict_parts(target) is Some
            && self.adapter(AdapterKind::RecordToDict, source, target) is Some {
            self.adapter_spec(AdapterKind::RecordToDict, v, source, target)
        } else if self.erased_kind(source) || self.ty(source) == Some(Type::Never)
            || self.erased_class(source) {
            if self.concrete_union(source) {
                match self.union_erase_spec(v, source) {
                    Some(erased) => self.extract_spec(erased, target),
                    None => None,
                }
            } else {
                self.extract_spec(v, target)
            }
        } else if self.match_fn_result(source) && !self.match_fn_result_class(target) {
            let read = v + ".value.clone()"@;
            match self.match_value(source) {
                Some(value_ty) => if value_ty < source {
                    self.vat_spec(read, value_ty, target, stack)
                } else {
                    None
                },
                None => match self.find_interned(Type::Unknown) {
                    Some(u) => if self.ty(u) == Some(Type::Unknown) {
                        self.vat_spec(read, u, target, stack)
                    } else {
                        None
                    },
                    None => None,
                },
            }
        } else if self.ty(source) == Some(Type::Nullish) {
            self.default_text(target)
        } else if self.is_function_ty(source) && !self.is_function_ty(target) && !self.erased_kind(
            target,
        ) && !self.erased_class(target) {
            self.default_text(target)
        } else if self.ty(target) == Some(Type::Float) && self.ty(source) == Some(Type::Int) {
            Some("("@ + v + " as f64)"@)
        } else if self.ty(target) == Some(Type::Int) && self.ty(source) == Some(Type::Float) {
            Some("(("@ + v + " as f64).trunc() as i64)"@)
        } else if self.ty(target) == Some(Type::Float) && self.ty(source) == Some(Type::Str) {
            Some(v + ".parse::<f64>().unwrap_or(0.0)"@)
        } else if self.ty(target) == Some(Type::Str) && (self.ty(source) == Some(Type::Bool)
            || self.ty(source) == Some(Type::Int) || self.ty(source) == Some(Type::Float)) {
            Some(v + ".to_string()"@)
        } else if self.regexp_class(target) && self.ty(source) == Some(Type::Str) {
            Some("SmeltRegExp::new("@ + v + ", String::new())"@)
        } else {
            self.vat_optional_spec(v, source, target, stack)
        }
    }

    /// The optional rungs of the coercion ladder.
    pub open spec fn vat_optional_spec(
        &self,
        v: Seq<char>,
        source: usize,
        target: usize,
        stack: Seq<(usize, usize)>,
    ) -> Option<Seq<char>>
        decreases target, self.missing_for(stack, target), self.rank(source), source, 2nat, 0nat,
    {
        let so = self.optional_inner_spec(source);
        let to = self.optional_inner_spec(target);
        if so is Some && to is Some && self.ty(so->0) == Some(Type::Optional(to->0)) {
            Some(v + ".clone().flatten()"@)
        } else if so is Some && to is Some {
            let si = so->0;
            let ti = to->0;
            if si == ti {
                Some(v + ".clone()"@)
            } else if ti < target {
                match self.vat_spec("value"@, si, ti, stack) {
                    Some(m) => Some(v + ".clone().map(|value| "@ + m + ")"@),
                    None => None,
                }
            } else {
                None
            }
        } else if to is Some && self.erased_kind(source) {
            let inner = to->0;
            if inner < target {
                match self.vat_spec("value"@, source, inner, stack) {
                    Some(m) => if self.preserves_singletons_spec(inner) {
                        Some("Some("@ + m + ")"@)
                    } else {
                        Some(
                            "match "@ + v
                                + ".clone() { SmeltUnknown::Null | SmeltUnknown::Undefined => None, value => Some("@
                                + m + ") }"@,
                        )
                    },
                    None => None,
                }
            } else {
                None
            }
        } else if to == Some(source) {
            Some("Some("@ + v + ")"@)
        } else if to is Some && self.ty(source) == Some(Type::Nullish) {
            Some("None"@)
        } else if to is Some && pair_listed(self.optional_coercions@, source, to->0) {
            let inner = to->0;
            if inner < target {
                match self.vat_spec(v, source, inner, stack) {
                    Some(m) => Some("Some("@ + m + ")"@),
                    None => None,
                }
            } else {
                None
            }
        } else if so == Some(target) {
            match self.default_text(target) {
                Some(d) => Some(v + ".clone().unwrap_or("@ + d + ")"@),
                None => None,
            }
        } else if so is Some {
            let inner = so->0;
            if inner < source {
                match self.vat_spec("value"@, inner, target, stack) {
                    Some(m) => match self.default_text(target) {
                        Some(d) => Some(v + ".clone().map_or("@ + d + ", |value| "@ + m + ")"@),
                        None => None,
                    },
                    None => None,
                }
            } else {
                None
            }
        } else {
            self.vat_collection_spec(v, source, target, stack)
        }
    }

    /// The list, tuple and map rungs of the coercion ladder.
    pub open spec fn vat_collection_spec(
        &self,
        v: Seq<char>,
        source: usize,
        target: usize,
        stack: Seq<(usize, usize)>,
    ) -> Option<Seq<char>>
        decreases target, self.missing_for(stack, target), self.rank(source), source, 1nat, 1nat,
    {
        let st = self.ty(source);
        let ti = self.list_item(target);
        if self.tuple_items(source) is Some && ti is Some {
            let sis = self.tuple_items(source)->0;
            let trivial = trivial_place_spec(v);
            let base = if trivial {
                v
            } else {
                "smelt_tuple_src"@
            };
            match self.vat_items_spec(
                field_texts_spec(base, sis.len()),
                sis,
                repeat_spec(ti->0, sis.len()),
                target,
                stack,
                source,
                sis.len(),
            ) {
                Some(items) => {
                    let list = "SmeltList::with_id(smelt_next_object_id(), vec!["@ + seq_join(
                        items,
                        ", "@,
                    ) + "])"@;
                    if trivial {
                        Some(list)
                    } else {
                        Some(bind_source_spec(v, list))
                    }
                },
                None => None,
            }
        } else if ti is Some && self.erased_kind(ti->0) && !(st matches Some(Type::List(_))
            || st matches Some(Type::Dict(_, _)) || st matches Some(Type::SetOf(_))
            || st matches Some(Type::Tuple(_))) {
            if ti->0 < target {
                match self.vat_spec(v, source, ti->0, stack) {
                    Some(item) => Some("SmeltList::from(vec!["@ + item + "])"@),
                    None => None,
                }
            } else {
                None
            }
        } else if self.list_item(source) is Some && self.tuple_items(target) is Some {
            self.list_to_tuple_spec(v, source, target, stack)
        } else if self.dict_parts(source) is Some && ti is Some {
            let sv = (self.dict_parts(source)->0).1;
            if ti->0 < target {
                match self.vat_spec("value"@, sv, ti->0, stack) {
                    Some(item) => Some(
                        v + ".into_iter().map(|(_, value)| "@ + item
                            + ").collect::<SmeltList<_>>()"@,
                    ),
                    None => None,
                }
            } else {
                None
            }
        } else if self.list_item(source) is Some && self.dict_parts(target) is Some {
            self.list_to_dict_spec(v, source, target, stack)
        } else if self.map_parts(source) is Some && self.map_parts(target) is Some && (
        self.map_parts(source) != self.map_parts(target) || pair_listed(
            self.map_backing_pairs@,
            source,
            target,
        )) {
            self.map_to_map_spec(v, source, target, stack)
        } else if self.dict_parts(source) is Some && (self.ty(target) matches Some(Type::Class { .. }))
            && self.adapter(AdapterKind::DictToRecord, source, target) is Some {
            self.adapter_spec(AdapterKind::DictToRecord, v, source, target)
        } else {
            Some(v)
        }
    }


    /// A list read back as a tuple, element by element.
    pub open spec fn list_to_tuple_spec(
        &self,
        v: Seq<char>,
        source: usize,
        target: usize,
        stack: Seq<(usize, usize)>,
    ) -> Option<Seq<char>>
        decreases target, self.missing_for(stack, target), self.rank(source), source, 1nat, 0nat,
    {
        let si = self.list_item(source)->0;
        let tis = self.tuple_items(target)->0;
        let items = if tis.len() == 0 {
            Some(Seq::empty())
        } else {
            match self.default_text(si) {
                Some(d) => self.vat_items_spec(
                    tuple_value_texts_spec(d, tis.len()),
                    repeat_spec(si, tis.len()),
                    tis,
                    target,
                    stack,
                    source,
                    tis.len(),
                ),
                None => None,
            }
        };
        match items {
            Some(items) => Some(
                "{ let smelt_tuple_values = "@ + v + ".to_vec(); "@ + tuple_text_spec(
                    seq_join(items, ", "@),
                    tis.len(),
                ) + " }"@,
            ),
            None => None,
        }
    }

    /// A list re-keyed by index into a dict.
    pub open spec fn list_to_dict_spec(
        &self,
        v: Seq<char>,
        source: usize,
        target: usize,
        stack: Seq<(usize, usize)>,
    ) -> Option<Seq<char>>
        decreases target, self.missing_for(stack, target), self.rank(source), source, 0nat, 0nat,
    {
        let si = self.list_item(source)->0;
        let (tk, tv) = self.dict_parts(target)->0;
        match self.find_interned(Type::Int) {
            None => None,
            Some(int_ty) => {
                let key = if self.ty(tk) == Some(Type::Str) {
                    Some("index.to_string()"@)
                } else if tk < target {
                    self.vat_spec("index as i64"@, int_ty, tk, stack)
                } else {
                    None
                };
                let item = if tv < target {
                    self.vat_spec("value"@, si, tv, stack)
                } else {
                    None
                };
                match (key, item, self.rust_text(target)) {
                    (Some(k), Some(i), Some(tt)) => Some(
                        v + ".into_iter().enumerate().map(|(index, value)| ("@ + k + ", "@ + i
                            + ")).collect::<"@ + tt + ">()"@,
                    ),
                    _ => None,
                }
            },
        }
    }

    /// A dict or map re-keyed and re-valued into another dict or map.
    pub open spec fn map_to_map_spec(
        &self,
        v: Seq<char>,
        source: usize,
        target: usize,
        stack: Seq<(usize, usize)>,
    ) -> Option<Seq<char>>
        decreases target, self.missing_for(stack, target), self.rank(source), source, 0nat, 0nat,
    {
        let (sk, sv) = self.map_parts(source)->0;
        let (tk, tv) = self.map_parts(target)->0;
        let key = if self.ty(tk) == Some(Type::Str) {
            self.key_to_string_spec("key"@, sk)
        } else if tk < target {
            self.vat_spec("key"@, sk, tk, stack)
        } else {
            None
        };
        let value = if tv < target {
            self.vat_spec("value"@, sv, tv, stack)
        } else {
            None
        };
        match (key, value, self.rust_text(target)) {
            (Some(k), Some(m), Some(tt)) => Some(
                v + ".into_iter().map(|(key, value)| ("@ + k + ", "@ + m + ")).collect::<"@ + tt
                    + ">()"@,
            ),
            _ => None,
        }
    }
}


/// `v` followed by `suffix`.
pub(crate) fn suffixed(v: &str, suffix: &str) -> (r: String)
    ensures
        r@ == v@ + suffix@,
{
    let mut s = String::from_str(v);
    s.append(suffix);
    s
}

/// `(items)`, or `(items,)` for a one-element tuple.
pub(crate) fn tuple_text(items: &str, len: usize) -> (r: String)
    ensures
        r@ == tuple_text_spec(items@, len as nat),
{
    if len == 1 {
        wrap("(", items, ",)")
    } else {
        wrap("(", items, ")")
    }
}

/// `{ let smelt_tuple_src = v; body }`.
fn bind_source(v: &str, body: &str) -> (r: String)
    ensures
        r@ == bind_source_spec(v@, body@),
{
    let mut s = wrap("{ let smelt_tuple_src = ", v, "; ");
    s.append(body);
    s.append(" }");
    s
}

/// `base.0`, `base.1`, ... for the first `n` fields.
fn field_texts(base: &str, n: usize) -> (r: Vec<String>)
    ensures
        r.len() == n,
        views(r@) == field_texts_spec(base@, n as nat),
{
    let mut out: Vec<String> = Vec::new();
    let mut k: usize = 0;
    while k < n
        invariant
            k <= n,
            out.len() == k,
            views(out@) =~= Seq::new(k as nat, |j: int| field_spec(base@, j as nat)),
        decreases n - k,
    {
        let idx = usize_text(k);
        let f = wrap(base, ".", idx.as_str());
        let ghost before = out@;
        out.push(f);
        assert(views(out@) =~= views(before).push(field_spec(base@, k as nat)));
        k = k + 1;
    }
    assert(views(out@) =~= field_texts_spec(base@, n as nat));
    out
}

/// `smelt_tuple_values.get(k).cloned().unwrap_or(d)` for the first `n` indices.
fn tuple_value_texts(d: &str, n: usize) -> (r: Vec<String>)
    ensures
        r.len() == n,
        views(r@) == tuple_value_texts_spec(d@, n as nat),
{
    let mut out: Vec<String> = Vec::new();
    let mut k: usize = 0;
    while k < n
        invariant
            k <= n,
            out.len() == k,
            views(out@) =~= Seq::new(k as nat, |j: int| tuple_value_spec(j as nat, d@)),
        decreases n - k,
    {
        let idx = usize_text(k);
        let mut s = wrap("smelt_tuple_values.get(", idx.as_str(), ").cloned().unwrap_or(");
        s.append(d);
        s.append(")");
        let ghost before = out@;
        out.push(s);
        assert(views(out@) =~= views(before).push(tuple_value_spec(k as nat, d@)));
        k = k + 1;
    }
    assert(views(out@) =~= tuple_value_texts_spec(d@, n as nat));
    out
}

/// `n` copies of `id`.
fn repeat_id(id: usize, n: usize) -> (r: Vec<usize>)
    ensures
        r.len() == n,
        r@ == repeat_spec(id, n as nat),
{
    let mut out: Vec<usize> = Vec::new();
    let mut k: usize = 0;
    while k < n
        invariant
            k <= n,
            out@ =~= Seq::new(k as nat, |j: int| id),
        decreases n - k,
    {
        out.push(id);
        k = k + 1;
    }
    assert(out@ =~= repeat_spec(id, n as nat));
    out
}

/// A copy of `pairs`.
fn copy_pairs(pairs: &Vec<(usize, usize)>) -> (r: Vec<(usize, usize)>)
    ensures
        r@ == pairs@,
{
    let mut out: Vec<(usize, usize)> = Vec::new();
    let mut k: usize = 0;
    while k < pairs.len()
        invariant
            k <= pairs.len(),
            out@ =~= pairs@.take(k as int),
        decreases pairs.len() - k,
    {
        out.push(pairs[k]);
        k = k + 1;
    }
    assert(pairs@.take(pairs.len() as int) =~= pairs@);
    out
}

impl FunctionEmitter {
    pub(crate) fn future_item_of(&self, t: usize) -> (r: Option<usize>)
        ensures
            r == self.future_item(t),
    {
        match self.type_at(t) {
            Some(Type::Future(i)) => Some(*i),
            _ => None,
        }
    }

    pub(crate) fn list_item_of(&self, t: usize) -> (r: Option<usize>)
        ensures
            r == self.list_item(t),
    {
        match self.type_at(t) {
            Some(Type::List(i)) => Some(*i),
            _ => None,
        }
    }

    pub(crate) fn tuple_items_of(&self, t: usize) -> (r: Option<&Vec<usize>>)
        ensures
            r matches Some(v) ==> self.tuple_items(t) == Some(v@),
            r is None <==> self.tuple_items(t) is None,
    {
        match self.type_at(t) {
            Some(Type::Tuple(items)) => Some(items),
            _ => None,
        }
    }

    pub(crate) fn dict_parts_of(&self, t: usize) -> (r: Option<(usize, usize)>)
        ensures
            r == self.dict_parts(t),
    {
        match self.type_at(t) {
            Some(Type::Dict(k, v)) => Some((*k, *v)),
            _ => None,
        }
    }

    pub(crate) fn map_parts_of(&self, t: usize) -> (r: Option<(usize, usize)>)
        ensures
            r == self.map_parts(t),
    {
        match self.type_at(t) {
            Some(Type::Dict(k, v)) => Some((*k, *v)),
            Some(Type::JsMap(k, v)) => Some((*k, *v)),
            _ => None,
        }
    }

    pub(crate) fn is_class_type(&self, t: usize) -> (r: bool)
        ensures
            r == (self.ty(t) matches Some(Type::Class { .. })),
    {
        match self.type_at(t) {
            Some(Type::Class { .. }) => true,
            _ => false,
        }
    }

    pub(crate) fn is_function_type(&self, t: usize) -> (r: bool)
        ensures
            r == self.is_function_ty(t),
    {
        match self.type_at(t) {
            Some(Type::Function(_)) => true,
            _ => false,
        }
    }

    pub(crate) fn is_type(&self, t: usize, wanted: &Type) -> (r: bool)
        requires
            wanted is Never || wanted is Nullish || wanted is Bool || wanted is Int
                || wanted is Float || wanted is Str,
        ensures
            r == (self.ty(t) == Some(*wanted)),
    {
        match (self.type_at(t), wanted) {
            (Some(Type::Never), Type::Never) => true,
            (Some(Type::Nullish), Type::Nullish) => true,
            (Some(Type::Bool), Type::Bool) => true,
            (Some(Type::Int), Type::Int) => true,
            (Some(Type::Float), Type::Float) => true,
            (Some(Type::Str), Type::Str) => true,
            _ => false,
        }
    }

    /// The text of the adapter of `kind` for `(source, target)` around `text`.
    pub(crate) fn adapter_text(&self, kind: AdapterKind, text: &str, source: usize, target: usize) -> (r:
        Option<String>)
        ensures
            r matches Some(s) ==> self.adapter_spec(kind, text@, source, target) == Some(s@),
            r is None <==> self.adapter(kind, source, target) is None,
    {
        match self.find_adapter(kind, source, target) {
            Some(t) => Some(t.render(text)),
            None => None,
        }
    }

    /// Projects a concrete union value back to its erased `SmeltUnknown`.
    pub fn erase_concrete_union_text(&self, text: &str, ty: usize) -> (r: Result<String, EmitError>)
        ensures
            r matches Ok(s) ==> self.union_erase_spec(text@, ty) == Some(s@),
            r is Err <==> self.union_erase_spec(text@, ty) is None,
    {
        match self.fact_at(ty) {
            Some(f) => match &f.union_erase {
                Some(t) => Ok(t.render(text)),
                None => Err(EmitError::new("union has no erased projection")),
            },
            None => Err(EmitError::new("union has no erased projection")),
        }
    }

    /// The borrowed callback handle for a captured function value.
    pub fn borrowed_function_handle_text(&self, text: &str, ty: usize) -> (r: Result<
        String,
        EmitError,
    >)
        ensures
            r matches Ok(s) ==> self.borrowed_handle_spec(text@, ty) == Some(s@),
            r is Err <==> self.borrowed_handle_spec(text@, ty) is None,
    {
        match self.fact_at(ty) {
            Some(f) => match &f.borrowed_handle {
                Some(t) => Ok(t.render(text)),
                None => Err(EmitError::new("function type has no borrowed handle")),
            },
            None => Err(EmitError::new("function type has no borrowed handle")),
        }
    }

    /// Whether `name` is a callback captured by borrowed reference.
    pub fn is_borrowed_callback_capture_name(&self, name: &str) -> (r: bool)
        ensures
            r == name_listed(self.borrowed_captures@, name@),
    {
        let mut i: usize = 0;
        while i < self.borrowed_captures.len()
            invariant
                i <= self.borrowed_captures.len(),
                forall|k: int| 0 <= k < i ==> self.borrowed_captures@[k]@ != name@,
            decreases self.borrowed_captures.len() - i,
        {
            if str_eq(self.borrowed_captures[i].as_str(), name) {
                return true;
            }
            i = i + 1;
        }
        false
    }

    /// Marks a `source` -> `target` structural coercion as being expanded:
    /// the stack with the pair pushed, or `None` when the pair is already
    /// being expanded.
    pub fn enter_type_expansion(stack: &Vec<(usize, usize)>, source: usize, target: usize) -> (r:
        Option<Vec<(usize, usize)>>)
        ensures
            r is None <==> stack@.contains((source, target)),
            r matches Some(s) ==> s@ == stack@.push((source, target)),
    {
        if Self::pair_in(stack, source, target) {
            proof {
                let w = choose|k: int| 0 <= k < stack@.len() && stack@[k] == (source, target);
                assert(stack@[w] == (source, target));
            }
            None
        } else {
            let mut s = copy_pairs(stack);
            s.push((source, target));
            Some(s)
        }
    }

    proof fn lemma_items_none(
        &self,
        texts: Seq<Seq<char>>,
        sources: Seq<usize>,
        targets: Seq<usize>,
        owner: usize,
        stack: Seq<(usize, usize)>,
        source: usize,
        a: nat,
        b: nat,
    )
        requires
            a <= b,
            self.vat_items_spec(texts, sources, targets, owner, stack, source, a) is None,
        ensures
            self.vat_items_spec(texts, sources, targets, owner, stack, source, b) is None,
        decreases b - a,
    {
        if a < b {
            self.lemma_items_none(texts, sources, targets, owner, stack, source, a, (b - 1) as nat);
        }
    }

    pub(crate) fn match_fn_result_of(&self, t: usize) -> (r: bool)
        ensures
            r == self.match_fn_result(t),
    {
        match self.fact_at(t) {
            Some(f) => f.match_fn_result,
            None => false,
        }
    }

    pub(crate) fn match_fn_result_class_of(&self, t: usize) -> (r: bool)
        ensures
            r == self.match_fn_result_class(t),
    {
        match self.fact_at(t) {
            Some(f) => f.match_fn_result_class,
            None => false,
        }
    }

    fn match_value_of(&self, t: usize) -> (r: Option<usize>)
        ensures
            r == self.match_value(t),
    {
        match self.fact_at(t) {
            Some(f) => f.match_value_ty,
            None => None,
        }
    }

    pub(crate) fn call_field_of(&self, t: usize) -> (r: Option<usize>)
        ensures
            r == self.call_field(t),
    {
        match self.fact_at(t) {
            Some(f) => f.call_field_ty,
            None => None,
        }
    }

    pub(crate) fn is_regexp_class(&self, t: usize) -> (r: bool)
        ensures
            r == self.regexp_class(t),
    {
        if !self.is_class_type(t) {
            return false;
        }
        match self.fact_at(t) {
            Some(f) => match f.class_kind {
                ClassKind::RegExp => true,
                _ => false,
            },
            None => false,
        }
    }

    pub(crate) fn is_collection_type(&self, t: usize) -> (r: bool)
        ensures
            r == (self.ty(t) matches Some(Type::List(_)) || self.ty(t) matches Some(Type::Dict(_, _))
                || self.ty(t) matches Some(Type::SetOf(_)) || self.ty(t) matches Some(
                Type::Tuple(_),
            )),
    {
        match self.type_at(t) {
            Some(Type::List(_)) | Some(Type::Dict(_, _)) | Some(Type::SetOf(_)) | Some(
                Type::Tuple(_),
            ) => true,
            _ => false,
        }
    }

    fn is_default_collection(&self, v: &str, source: usize) -> (r: bool)
        ensures
            r == (v@ == "Default::default()"@ && (self.ty(source) matches Some(Type::List(_))
                || self.ty(source) matches Some(Type::SetOf(_)) || self.ty(source) matches Some(
                Type::Dict(_, _),
            ))),
    {
        let coll = match self.type_at(source) {
            Some(Type::List(_)) | Some(Type::SetOf(_)) | Some(Type::Dict(_, _)) => true,
            _ => false,
        };
        coll && str_eq(v, "Default::default()")
    }

    /// Coerces already-rendered Rust value text from a known source type to a
    /// destination type.
    pub fn value_at_type_text(&self, value_text: &str, source: usize, target: usize) -> (r: Result<
        String,
        EmitError,
    >)
        requires
            self.wf(),
        ensures
            r matches Ok(s) ==> self.vat_spec(value_text@, source, target, Seq::empty()) == Some(
                s@,
            ),
            r is Err <==> self.vat_spec(value_text@, source, target, Seq::empty()) is None,
    {
        let stack: Vec<(usize, usize)> = Vec::new();
        self.vat_text(value_text, source, target, &stack)
    }

    pub(crate) fn vat_text(&self, v0: &str, source: usize, target: usize, stack: &Vec<(usize, usize)>) -> (r:
        Result<String, EmitError>)
        requires
            self.wf(),
        ensures
            r matches Ok(s) ==> self.vat_spec(v0@, source, target, stack@) == Some(s@),
            r is Err <==> self.vat_spec(v0@, source, target, stack@) is None,
        decreases target, self.missing_for(stack@, target), self.rank(source), source, 4nat, 0nat,
    {
        if let Some(s) = self.adapter_text(AdapterKind::InjectUnion, v0, source, target) {
            return Ok(s);
        }
        if let Some(s) = self.adapter_text(AdapterKind::ProjectUnion, v0, source, target) {
            return Ok(s);
        }
        if self.is_default_collection(v0, source) {
            let d = self.default_value(source)?;
            self.vat_rules(d.as_str(), source, target, stack)
        } else {
            self.vat_rules(v0, source, target, stack)
        }
    }

    fn vat_items(
        &self,
        texts: &Vec<String>,
        sources: &Vec<usize>,
        targets: &Vec<usize>,
        owner: usize,
        stack: &Vec<(usize, usize)>,
        source: usize,
    ) -> (r: Result<Vec<String>, EmitError>)
        requires
            self.wf(),
            sources.len() == texts.len(),
            targets.len() == texts.len(),
        ensures
            r matches Ok(items) ==> self.vat_items_spec(
                views(texts@),
                sources@,
                targets@,
                owner,
                stack@,
                source,
                texts.len() as nat,
            ) == Some(views(items@)),
            r is Err <==> self.vat_items_spec(
                views(texts@),
                sources@,
                targets@,
                owner,
                stack@,
                source,
                texts.len() as nat,
            ) is None,
        decreases owner, self.missing_for(stack@, owner), self.rank(source), source, 0nat, texts.len(),
    {
        let ghost tv = views(texts@);
        let mut out: Vec<String> = Vec::new();
        let mut k: usize = 0;
        while k < texts.len()
            invariant
                self.wf(),
                sources.len() == texts.len(),
                targets.len() == texts.len(),
                tv == views(texts@),
                k <= texts.len(),
                out.len() == k,
                self.vat_items_spec(tv, sources@, targets@, owner, stack@, source, k as nat) == Some(
                    views(out@),
                ),
            decreases texts.len() - k,
        {
            if targets[k] >= owner {
                proof {
                    assert(self.vat_items_spec(
                        tv,
                        sources@,
                        targets@,
                        owner,
                        stack@,
                        source,
                        (k + 1) as nat,
                    ) is None);
                    self.lemma_items_none(
                        tv,
                        sources@,
                        targets@,
                        owner,
                        stack@,
                        source,
                        (k + 1) as nat,
                        texts.len() as nat,
                    );
                }
                return Err(EmitError::new("an item type is not interned before its owner"));
            }
            let e = self.vat_text(texts[k].as_str(), sources[k], targets[k], stack);
            match e {
                Ok(item) => {
                    let ghost before = out@;
                    out.push(item);
                    assert(views(out@) =~= views(before).push(out@[k as int]@));
                },
                Err(err) => {
                    proof {
                        assert(self.vat_items_spec(
                            tv,
                            sources@,
                            targets@,
                            owner,
                            stack@,
                            source,
                            (k + 1) as nat,
                        ) is None);
                        self.lemma_items_none(
                            tv,
                            sources@,
                            targets@,
                            owner,
                            stack@,
                            source,
                            (k + 1) as nat,
                            texts.len() as nat,
                        );
                    }
                    return Err(err);
                },
            }
            k = k + 1;
        }
        Ok(out)
    }

    fn tuple_to_tuple(
        &self,
        v: &str,
        sis: &Vec<usize>,
        tis: &Vec<usize>,
        source: usize,
        target: usize,
        stack: &Vec<(usize, usize)>,
    ) -> (r: Result<String, EmitError>)
        requires
            self.wf(),
            sis.len() == tis.len(),
        ensures
            r matches Ok(s) ==> self.tuple_to_tuple_spec(v@, sis@, tis@, source, target, stack@)
                == Some(s@),
            r is Err <==> self.tuple_to_tuple_spec(v@, sis@, tis@, source, target, stack@) is None,
        decreases target, self.missing_for(stack@, target), self.rank(source), source, 1nat, 0nat,
    {
        let trivial = Self::expression_text_is_trivial_place(v);
        let base = if trivial {
            String::from_str(v)
        } else {
            String::from_str("smelt_tuple_src")
        };
        let texts = field_texts(base.as_str(), tis.len());
        let items = self.vat_items(&texts, sis, tis, target, stack, source)?;
        let joined = join(&items, ", ");
        let tuple = tuple_text(joined.as_str(), tis.len());
        if trivial {
            Ok(tuple)
        } else {
            Ok(bind_source(v, tuple.as_str()))
        }
    }

    /// Coerces a callable-object value into a function-typed destination by
    /// reading its `__smelt_call` slot; `None` unless the destination is a
    /// function, the source has such a slot, and the pair is not already
    /// being expanded.
    pub fn callable_object_call_slot_text(
        &self,
        value_text: &str,
        source: usize,
        target: usize,
        stack: &Vec<(usize, usize)>,
    ) -> (r: Result<Option<String>, EmitError>)
        requires
            self.wf(),
        ensures
            r matches Ok(None) <==> !(self.is_function_ty(target) && self.call_field(source) is Some
                && !stack@.contains((source, target))),
            r matches Ok(Some(s)) ==> self.vat_spec(
                value_text@ + ".__smelt_call.clone()"@,
                self.call_field(source)->0,
                target,
                stack@.push((source, target)),
            ) == Some(s@),
            r is Err ==> self.vat_spec(
                value_text@ + ".__smelt_call.clone()"@,
                self.call_field(source)->0,
                target,
                stack@.push((source, target)),
            ) is None,
            r is Err <== self.is_function_ty(target) && self.call_field(source) is Some
                && !stack@.contains((source, target)) && self.vat_spec(
                value_text@ + ".__smelt_call.clone()"@,
                self.call_field(source)->0,
                target,
                stack@.push((source, target)),
            ) is None,
        decreases target, self.missing_for(stack@, target), self.rank(source), source, 2nat, 5nat,
    {
        if !self.is_function_type(target) {
            return Ok(None);
        }
        let call_ty = match self.call_field_of(source) {
            Some(c) => c,
            None => {
                return Ok(None);
            },
        };
        let pushed = match Self::enter_type_expansion(stack, source, target) {
            Some(s) => s,
            None => {
                return Ok(None);
            },
        };
        proof {
            assert(source < self.facts.len());
            lemma_missing_push(stack@, source, target, self.types.len() as nat);
        }
        let slot = suffixed(value_text, ".__smelt_call.clone()");
        let s = self.vat_text(slot.as_str(), call_ty, target, &pushed)?;
        Ok(Some(s))
    }

    fn vat_rules(&self, v: &str, source: usize, target: usize, stack: &Vec<(usize, usize)>) -> (r:
        Result<String, EmitError>)
        requires
            self.wf(),
        ensures
            r matches Ok(s) ==> self.vat_rules_spec(v@, source, target, stack@) == Some(s@),
            r is Err <==> self.vat_rules_spec(v@, source, target, stack@) is None,
        decreases target, self.missing_for(stack@, target), self.rank(source), source, 3nat, 0nat,
    {
        proof {
            if target < self.types.len() {
                assert(children_below(self.types@[target as int], target as int));
            }
            if source < self.types.len() {
                assert(children_below(self.types@[source as int], source as int));
                assert(self.facts@[source as int].match_value_ty matches Some(m) ==> (m as int)
                    < source);
            }
        }
        let target_fn = self.is_function_type(target);
        if source == target && !target_fn {
            return Ok(String::from_str(v));
        }
        if source == target {
            if self.is_borrowed_callback_capture_name(v) {
                return self.borrowed_function_handle_text(v, target);
            }
            return Ok(suffixed(v, ".clone()"));
        }
        if let (Some(si), Some(ti)) = (self.future_item_of(source), self.future_item_of(target)) {
            if ti >= target {
                return Err(EmitError::new("future item type is not interned before the future"));
            }
            let a = self.vat_text("smelt_future_value", si, ti, stack)?;
            let mut s = wrap(
                "{ let smelt_source_future = ",
                v,
                "; SmeltFuture::from_future(Box::pin(async move { let smelt_future_value = smelt_source_future.await?; Ok::<_, Box<dyn std::error::Error>>(",
            );
            s.append(a.as_str());
            s.append(") })) }");
            return Ok(s);
        }
        if let (Some(si), Some(ti)) = (self.list_item_of(source), self.list_item_of(target)) {
            if si != ti {
                let el = if self.list_item_of(si).is_some() && (self.is_erased_kind(ti)
                    || self.is_erased_class_type(ti)) {
                    String::from_str("value.into_smelt_unknown()")
                } else if ti < target {
                    self.vat_text("value", si, ti, stack)?
                } else {
                    return Err(EmitError::new("list item type is not interned before the list"));
                };
                let mut s = wrap(
                    "{ let smelt_l: SmeltList<_> = (",
                    v,
                    ").clone().into(); SmeltList::with_id(smelt_l.id(), smelt_l.into_iter().map(|value| ",
                );
                s.append(el.as_str());
                s.append(").collect::<Vec<_>>()) }");
                return Ok(s);
            }
        }
        if let (Some(sis), Some(tis)) = (self.tuple_items_of(source), self.tuple_items_of(target)) {
            if sis.len() == tis.len() {
                return self.tuple_to_tuple(v, sis, tis, source, target, stack);
            }
        }
        if target_fn && str_eq(v, "Default::default()") {
            return self.default_value(target);
        }
        let slot = self.callable_object_call_slot_text(v, source, target, stack)?;
        if let Some(s) = slot {
            return Ok(s);
        }
        if let Some(s) = self.adapter_text(AdapterKind::FunctionShape, v, source, target) {
            return Ok(s);
        }
        if let Some(s) = self.adapter_text(AdapterKind::StructuralRecord, v, source, target) {
            return Ok(s);
        }
        if (self.is_erased_kind(target) && !self.is_concrete_union(target))
            || self.is_erased_class_type(target) {
            return self.erase_value_text(v, source);
        }
        if self.is_class_type(source) && self.dict_parts_of(target).is_some() {
            if let Some(s) = self.adapter_text(AdapterKind::RecordToDict, v, source, target) {
                return Ok(s);
            }
        }
        if self.is_erased_kind(source) || self.is_type(source, &Type::Never)
            || self.is_erased_class_type(source) {
            if self.is_concrete_union(source) {
                let erased = self.erase_concrete_union_text(v, source)?;
                return self.extract_value_text(erased.as_str(), target);
            }
            return self.extract_value_text(v, target);
        }
        if self.match_fn_result_of(source) && !self.match_fn_result_class_of(target) {
            let read = suffixed(v, ".value.clone()");
            match self.match_value_of(source) {
                Some(value_ty) => {
                    if value_ty < source {
                        return self.vat_text(read.as_str(), value_ty, target, stack);
                    }
                    return Err(EmitError::new("match value type is not interned before its result"));
                },
                None => {
                    let u = self.type_id(&Type::Unknown)?;
                    if self.is_unknown_type(u) {
                        return self.vat_text(read.as_str(), u, target, stack);
                    }
                    return Err(EmitError::new("unknown type is not interned"));
                },
            }
        }
        if self.is_type(source, &Type::Nullish) {
            return self.default_value(target);
        }
        if self.is_function_type(source) && !target_fn && !self.is_erased_kind(target)
            && !self.is_erased_class_type(target) {
            return self.default_value(target);
        }
        if self.is_type(target, &Type::Float) && self.is_type(source, &Type::Int) {
            return Ok(wrap("(", v, " as f64)"));
        }
        if self.is_type(target, &Type::Int) && self.is_type(source, &Type::Float) {
            return Ok(wrap("((", v, " as f64).trunc() as i64)"));
        }
        if self.is_type(target, &Type::Float) && self.is_type(source, &Type::Str) {
            return Ok(suffixed(v, ".parse::<f64>().unwrap_or(0.0)"));
        }
        if self.is_type(target, &Type::Str) && (self.is_type(source, &Type::Bool) || self.is_type(
            source,
            &Type::Int,
        ) || self.is_type(source, &Type::Float)) {
            return Ok(suffixed(v, ".to_string()"));
        }
        if self.is_regexp_class(target) && self.is_type(source, &Type::Str) {
            return Ok(wrap("SmeltRegExp::new(", v, ", String::new())"));
        }
        self.vat_optional(v, source, target, stack)
    }

    fn vat_optional(&self, v: &str, source: usize, target: usize, stack: &Vec<(usize, usize)>) -> (r:
        Result<String, EmitError>)
        requires
            self.wf(),
        ensures
            r matches Ok(s) ==> self.vat_optional_spec(v@, source, target, stack@) == Some(s@),
            r is Err <==> self.vat_optional_spec(v@, source, target, stack@) is None,
        decreases target, self.missing_for(stack@, target), self.rank(source), source, 2nat, 0nat,
    {
        proof {
            if target < self.types.len() {
                assert(children_below(self.types@[target as int], target as int));
            }
            if source < self.types.len() {
                assert(children_below(self.types@[source as int], source as int));
            }
        }
        let so = self.optional_inner_ty(source);
        let to = self.optional_inner_ty(target);
        if let (Some(si), Some(ti)) = (so, to) {
            if self.optional_inner_ty(si) == Some(ti) {
                return Ok(suffixed(v, ".clone().flatten()"));
            }
            if si == ti {
                return Ok(suffixed(v, ".clone()"));
            }
            if ti >= target {
                return Err(EmitError::new("optional inner type is not interned before the option"));
            }
            let m = self.vat_text("value", si, ti, stack)?;
            let mut s = suffixed(v, ".clone().map(|value| ");
            s.append(m.as_str());
            s.append(")");
            return Ok(s);
        }
        if let Some(inner) = to {
            if self.is_erased_kind(source) {
                if inner >= target {
                    return Err(EmitError::new("optional inner type is not interned before the option"));
                }
                let m = self.vat_text("value", source, inner, stack)?;
                if self.optional_inner_preserves_erased_singletons(inner) {
                    return Ok(wrap("Some(", m.as_str(), ")"));
                }
                let mut s = wrap(
                    "match ",
                    v,
                    ".clone() { SmeltUnknown::Null | SmeltUnknown::Undefined => None, value => Some(",
                );
                s.append(m.as_str());
                s.append(") }");
                return Ok(s);
            }
            if inner == source {
                return Ok(wrap("Some(", v, ")"));
            }
            if self.is_type(source, &Type::Nullish) {
                return Ok(String::from_str("None"));
            }
            if Self::pair_in(&self.optional_coercions, source, inner) {
                if inner >= target {
                    return Err(EmitError::new("optional inner type is not interned before the option"));
                }
                let m = self.vat_text(v, source, inner, stack)?;
                return Ok(wrap("Some(", m.as_str(), ")"));
            }
        }
        if let Some(inner) = so {
            if inner == target {
                let d = self.default_value(target)?;
                let mut s = suffixed(v, ".clone().unwrap_or(");
                s.append(d.as_str());
                s.append(")");
                return Ok(s);
            }
            if inner >= source {
                return Err(EmitError::new("optional inner type is not interned before the option"));
            }
            let m = self.vat_text("value", inner, target, stack)?;
            let d = self.default_value(target)?;
            let mut s = suffixed(v, ".clone().map_or(");
            s.append(d.as_str());
            s.append(", |value| ");
            s.append(m.as_str());
            s.append(")");
            return Ok(s);
        }
        self.vat_collection(v, source, target, stack)
    }

    fn vat_collection(&self, v: &str, source: usize, target: usize, stack: &Vec<(usize, usize)>) -> (r:
        Result<String, EmitError>)
        requires
            self.wf(),
        ensures
            r matches Ok(s) ==> self.vat_collection_spec(v@, source, target, stack@) == Some(s@),
            r is Err <==> self.vat_collection_spec(v@, source, target, stack@) is None,
        decreases target, self.missing_for(stack@, target), self.rank(source), source, 1nat, 1nat,
    {
        proof {
            if target < self.types.len() {
                assert(children_below(self.types@[target as int], target as int));
            }
        }
        let tl = self.list_item_of(target);
        if let (Some(sis), Some(ti)) = (self.tuple_items_of(source), tl) {
            let trivial = Self::expression_text_is_trivial_place(v);
            let base = if trivial {
                String::from_str(v)
            } else {
                String::from_str("smelt_tuple_src")
            };
            let texts = field_texts(base.as_str(), sis.len());
            let targets = repeat_id(ti, sis.len());
            let items = self.vat_items(&texts, sis, &targets, target, stack, source)?;
            let joined = join(&items, ", ");
            let list = wrap(
                "SmeltList::with_id(smelt_next_object_id(), vec![",
                joined.as_str(),
                "])",
            );
            if trivial {
                return Ok(list);
            }
            return Ok(bind_source(v, list.as_str()));
        }
        if let Some(ti) = tl {
            if self.is_erased_kind(ti) && !self.is_collection_type(source) {
                if ti >= target {
                    return Err(EmitError::new("list item type is not interned before the list"));
                }
                let item = self.vat_text(v, source, ti, stack)?;
                return Ok(wrap("SmeltList::from(vec![", item.as_str(), "])"));
            }
        }
        let sl = self.list_item_of(source);
        if sl.is_some() && self.tuple_items_of(target).is_some() {
            return self.list_to_tuple(v, source, target, stack);
        }
        let sd = self.dict_parts_of(source);
        if let (Some(parts), Some(ti)) = (sd, tl) {
            if ti >= target {
                return Err(EmitError::new("list item type is not interned before the list"));
            }
            let item = self.vat_text("value", parts.1, ti, stack)?;
            let mut s = suffixed(v, ".into_iter().map(|(_, value)| ");
            s.append(item.as_str());
            s.append(").collect::<SmeltList<_>>()");
            return Ok(s);
        }
        if sl.is_some() && self.dict_parts_of(target).is_some() {
            return self.list_to_dict(v, source, target, stack);
        }
        if let (Some(a), Some(b)) = (self.map_parts_of(source), self.map_parts_of(target)) {
            if a.0 != b.0 || a.1 != b.1 || Self::pair_in(&self.map_backing_pairs, source, target) {
                return self.map_to_map(v, source, target, stack);
            }
        }
        if sd.is_some() && self.is_class_type(target) {
            if let Some(s) = self.adapter_text(AdapterKind::DictToRecord, v, source, target) {
                return Ok(s);
            }
        }
        Ok(String::from_str(v))
    }

    pub(crate) fn list_to_tuple(&self, v: &str, source: usize, target: usize, stack: &Vec<(usize, usize)>) -> (r:
        Result<String, EmitError>)
        requires
            self.wf(),
            self.list_item(source) is Some,
            self.tuple_items(target) is Some,
        ensures
            r matches Ok(s) ==> self.list_to_tuple_spec(v@, source, target, stack@) == Some(s@),
            r is Err <==> self.list_to_tuple_spec(v@, source, target, stack@) is None,
        decreases target, self.missing_for(stack@, target), self.rank(source), source, 1nat, 0nat,
    {
        let si = self.list_item_of(source).unwrap();
        let tis = self.tuple_items_of(target).unwrap();
        let items = if tis.len() == 0 {
            let empty: Vec<String> = Vec::new();
            assert(views(empty@) =~= Seq::<Seq<char>>::empty());
            empty
        } else {
            let d = self.default_value(si)?;
            let texts = tuple_value_texts(d.as_str(), tis.len());
            let sources = repeat_id(si, tis.len());
            self.vat_items(&texts, &sources, tis, target, stack, source)?
        };
        let joined = join(&items, ", ");
        let tuple = tuple_text(joined.as_str(), tis.len());
        let mut s = wrap("{ let smelt_tuple_values = ", v, ".to_vec(); ");
        s.append(tuple.as_str());
        s.append(" }");
        Ok(s)
    }

    pub(crate) fn list_to_dict(&self, v: &str, source: usize, target: usize, stack: &Vec<(usize, usize)>) -> (r:
        Result<String, EmitError>)
        requires
            self.wf(),
            self.list_item(source) is Some,
            self.dict_parts(target) is Some,
        ensures
            r matches Ok(s) ==> self.list_to_dict_spec(v@, source, target, stack@) == Some(s@),
            r is Err <==> self.list_to_dict_spec(v@, source, target, stack@) is None,
        decreases target, self.missing_for(stack@, target), self.rank(source), source, 0nat, 0nat,
    {
        let si = self.list_item_of(source).unwrap();
        let parts = self.dict_parts_of(target).unwrap();
        let int_ty = self.type_id(&Type::Int)?;
        let key = if self.is_str_type(parts.0) {
            String::from_str("index.to_string()")
        } else if parts.0 < target {
            self.vat_text("index as i64", int_ty, parts.0, stack)?
        } else {
            return Err(EmitError::new("dict key type is not interned before the dict"));
        };
        let item = if parts.1 < target {
            self.vat_text("value", si, parts.1, stack)?
        } else {
            return Err(EmitError::new("dict value type is not interned before the dict"));
        };
        let tt = self.rust_type_text(target)?;
        let mut s = suffixed(v, ".into_iter().enumerate().map(|(index, value)| (");
        s.append(key.as_str());
        s.append(", ");
        s.append(item.as_str());
        s.append(")).collect::<");
        s.append(tt.as_str());
        s.append(">()");
        Ok(s)
    }

    pub(crate) fn map_to_map(&self, v: &str, source: usize, target: usize, stack: &Vec<(usize, usize)>) -> (r:
        Result<String, EmitError>)
        requires
            self.wf(),
            self.map_parts(source) is Some,
            self.map_parts(target) is Some,
        ensures
            r matches Ok(s) ==> self.map_to_map_spec(v@, source, target, stack@) == Some(s@),
            r is Err <==> self.map_to_map_spec(v@, source, target, stack@) is None,
        decreases target, self.missing_for(stack@, target), self.rank(source), source, 0nat, 0nat,
    {
        let sp = self.map_parts_of(source).unwrap();
        let tp = self.map_parts_of(target).unwrap();
        let key = if self.is_str_type(tp.0) {
            self.key_to_string_text("key", sp.0)?
        } else if tp.0 < target {
            self.vat_text("key", sp.0, tp.0, stack)?
        } else {
            return Err(EmitError::new("map key type is not interned before the map"));
        };
        let value = if tp.1 < target {
            self.vat_text("value", sp.1, tp.1, stack)?
        } else {
            return Err(EmitError::new("map value type is not interned before the map"));
        };
        let tt = self.rust_type_text(target)?;
        let mut s = suffixed(v, ".into_iter().map(|(key, value)| (");
        s.append(key.as_str());
        s.append(", ");
        s.append(value.as_str());
        s.append(")).collect::<");
        s.append(tt.as_str());
        s.append(">()");
        Ok(s)
    }
}

} // verus!
