//! Properties that hold across the emission rules.

use vstd::prelude::*;
use crate::capture_analysis::copy_graph;
use crate::cfg_queries::cfg;
use crate::graph::{lemma_reaches_self, lemma_reaches_trans, reaches};
use crate::mir::{BasicBlock, MirFunction, Place, Statement};
use crate::tags::{tag_check_raw_spec, UnknownKind};
use crate::binary_text::BinOp;
use crate::coercion::{place_char, trivial_place_spec, trivial_reeval_spec};
use crate::emitter::{adapter_in, same_kind, Adapter, AdapterKind, FunctionEmitter};
use crate::mir::{Constant, Operand, OperandKind};
use crate::operand::{op_field, strip_clone};
use crate::text::{has_char, has_prefix, seq_join};
use crate::callable_objects::{call_entry, spread_entry};
use crate::mir::Rvalue;
use crate::types::{children_below, Type};

verus! {

/// An adapter found for a pair is one of the listed adapters.
proof fn lemma_adapter_listed(list: Seq<Adapter>, kind: AdapterKind, source: usize, target: usize)
    requires
        adapter_in(list, kind, source, target) is Some,
    ensures
        exists|i: int|
            0 <= i < list.len() && same_kind(#[trigger] list[i].kind, kind) && list[i].source == source
                && list[i].target == target,
    decreases list.len(),
{
    if !(same_kind(list[0].kind, kind) && list[0].source == source && list[0].target == target) {
        lemma_adapter_listed(list.drop_first(), kind, source, target);
        let i = choose|i: int|
            0 <= i < list.drop_first().len() && same_kind(#[trigger] list.drop_first()[i].kind, kind)
                && list.drop_first()[i].source == source && list.drop_first()[i].target == target;
        assert(list[i + 1] == list.drop_first()[i]);
    }
}

/// In a well-formed emitter a union adapter names a union.
proof fn lemma_union_adapters_name_unions(e: &FunctionEmitter, source: usize, target: usize)
    requires
        e.wf(),
    ensures
        e.adapter(AdapterKind::InjectUnion, source, target) is Some ==> e.ty(target) matches Some(
            Type::Union(_),
        ),
        e.adapter(AdapterKind::ProjectUnion, source, target) is Some ==> e.ty(source) matches Some(
            Type::Union(_),
        ),
        e.adapter(AdapterKind::StructuralRecord, source, target) is Some ==> e.ty(source) matches Some(
            Type::Class { .. },
        ),
{
    if e.adapter(AdapterKind::InjectUnion, source, target) is Some {
        lemma_adapter_listed(e.adapters@, AdapterKind::InjectUnion, source, target);
        let i = choose|i: int|
            0 <= i < e.adapters@.len() && same_kind(#[trigger] e.adapters@[i].kind, AdapterKind::InjectUnion)
                && e.adapters@[i].source == source && e.adapters@[i].target == target;
        assert(e.adapter_fits(e.adapters@[i]));
    }
    if e.adapter(AdapterKind::ProjectUnion, source, target) is Some {
        lemma_adapter_listed(e.adapters@, AdapterKind::ProjectUnion, source, target);
        let i = choose|i: int|
            0 <= i < e.adapters@.len() && same_kind(#[trigger] e.adapters@[i].kind, AdapterKind::ProjectUnion)
                && e.adapters@[i].source == source && e.adapters@[i].target == target;
        assert(e.adapter_fits(e.adapters@[i]));
    }
    if e.adapter(AdapterKind::StructuralRecord, source, target) is Some {
        lemma_adapter_listed(e.adapters@, AdapterKind::StructuralRecord, source, target);
        let i = choose|i: int|
            0 <= i < e.adapters@.len() && same_kind(
                #[trigger] e.adapters@[i].kind,
                AdapterKind::StructuralRecord,
            ) && e.adapters@[i].source == source && e.adapters@[i].target == target;
        assert(e.adapter_fits(e.adapters@[i]));
    }
}

/// Rendered text at its own type comes back unchanged: a value of a type
/// `t` that is neither a function nor a union, coerced to `t`, is its own
/// text, unless it is a bare `Default::default()`, which a list, set or dict
/// first replaces with its typed default.
pub proof fn law_value_at_same_type_is_identity(
    e: &FunctionEmitter,
    v: Seq<char>,
    t: usize,
    stack: Seq<(usize, usize)>,
)
    requires
        e.wf(),
        !e.is_function_ty(t),
        !(e.ty(t) matches Some(Type::Union(_))),
        v != "Default::default()"@,
    ensures
        e.vat_spec(v, t, t, stack) == Some(v),
{
    lemma_union_adapters_name_unions(e, t, t);
}

/// An operand at its own type is its own text: an operand of a type that
/// is neither a function nor a union, outside a string metadata field read
/// into an erased slot, coerced to its own type renders as itself.
pub proof fn law_operand_at_own_type_is_identity(e: &FunctionEmitter, op: Operand)
    requires
        e.wf(),
        !e.is_function_ty(op.ty),
        !(e.ty(op.ty) matches Some(Type::Union(_))),
        !(e.erased_target(op.ty) && op_field(op) is Some),
    ensures
        e.vat_op_spec(op, op.ty) == Some(op.text@),
{
    lemma_union_adapters_name_unions(e, op.ty, op.ty);
}

/// An integer operand stored into a float slot is the bare cast of its text.
pub proof fn law_int_operand_at_float_is_bare_cast(e: &FunctionEmitter, op: Operand, target: usize)
    requires
        e.wf(),
        e.const_fits(op),
        e.ty(op.ty) == Some(Type::Int),
        e.ty(target) == Some(Type::Float),
    ensures
        e.vat_op_spec(op, target) == Some(op.text@ + " as f64"@),
{
    lemma_union_adapters_name_unions(e, op.ty, target);
    assert(e.class_facts_fit(op.ty as int));
}

/// Erasing a value that is already `unknown` leaves its text unchanged.
pub proof fn law_erase_unknown_is_identity(e: &FunctionEmitter, v: Seq<char>, t: usize, parens: bool)
    requires
        e.ty(t) == Some(Type::Unknown),
    ensures
        e.erase_spec(v, t, parens) == Some(v),
{
}

/// The operand-shaped `erase` and the rendered-text `erase_value_text`
/// agree about an operand that reads no local: both give the same text, or
/// both fail. Function values are left out (the operand form boxes them
/// through its own adapter), and so are generators (the operand form always
/// parenthesizes the value); a type parameter agrees when it is a real
/// parameter of the current function, and a bare `Default::default()` text
/// is left out.
pub proof fn law_erase_twins_agree(e: &FunctionEmitter, op: Operand)
    requires
        e.wf(),
        op.local_spec() is None,
        !(op.kind matches OperandKind::Const(Constant::Undefined)),
        !e.is_function_ty(op.ty),
        e.ty(op.ty) != Some(Type::Generator),
        e.ty(op.ty) matches Some(Type::TypeParam { .. }) ==> e.type_param_in_scope(op.ty),
        op.text@ != "Default::default()"@,
        op.text@ != "(Default::default())"@,
    ensures
        e.erase_op_spec(op) == e.erase_spec(op.text@, op.ty, false),
{
    let s = op.ty;
    if s < e.types.len() {
        assert(children_below(e.types@[s as int], s as int));
    }
    assert(!e.all_undefined_spec(op));
    assert(e.list_identity_spec(op) == Some(None::<Seq<char>>));
    assert(e.future_identity_spec(op) == Some(None::<Seq<char>>));
    assert(crate::erase::paren(op.text@, false) == op.text@);
}

/// Equality incompatibility is symmetric: two types cannot be equal exactly
/// when the swapped pair cannot be equal.
pub proof fn law_incompatibility_is_symmetric(e: &FunctionEmitter, left: usize, right: usize)
    requires
        e.wf(),
    ensures
        e.incompatible_spec(left, right) == e.incompatible_spec(right, left),
    decreases left + right, 1nat, 0nat,
{
    if left < e.types.len() {
        assert(children_below(e.types@[left as int], left as int));
    }
    if right < e.types.len() {
        assert(children_below(e.types@[right as int], right as int));
    }
    match (e.ty(left), e.ty(right)) {
        (Some(l), Some(r)) => {
            if crate::binary_ops::is_number(l) && crate::binary_ops::is_number(r) {
            } else if l is Optional && r is Optional {
                let li = l->Optional_0;
                let ri = r->Optional_0;
                law_incompatibility_is_symmetric(e, li, ri);
                assert(e.incompatible_spec(left, right) == e.incompatible_spec(li, ri));
                assert(e.incompatible_spec(right, left) == e.incompatible_spec(ri, li));
            } else if l is Optional {
                let li = l->Optional_0;
                law_incompatibility_is_symmetric(e, li, right);
                assert(e.incompatible_spec(left, right) == e.incompatible_spec(li, right));
                assert(e.incompatible_spec(right, left) == e.incompatible_spec(right, li));
            } else if r is Optional {
                let ri = r->Optional_0;
                law_incompatibility_is_symmetric(e, left, ri);
                assert(e.incompatible_spec(left, right) == e.incompatible_spec(left, ri));
                assert(e.incompatible_spec(right, left) == e.incompatible_spec(ri, left));
            } else {
                if l is Tuple && r is Tuple {
                    let li = l->Tuple_0@;
                    let ri = r->Tuple_0@;
                    if li.len() == ri.len() {
                        lemma_any_incompatible_symmetric(e, li, ri, left, right, li.len());
                    }
                }
                assert(e.incompatible_spec(left, right) == e.incompatible_shapes(left, right, l, r));
                assert(e.incompatible_spec(right, left) == e.incompatible_shapes(right, left, r, l));
            }
        },
        (Some(l), None) => {
            if l is Optional {
                let li = l->Optional_0;
                law_incompatibility_is_symmetric(e, li, right);
                assert(e.incompatible_spec(left, right) == e.incompatible_spec(li, right));
                assert(e.incompatible_spec(right, left) == e.incompatible_spec(right, li));
            }
        },
        (None, Some(r)) => {
            if r is Optional {
                let ri = r->Optional_0;
                law_incompatibility_is_symmetric(e, left, ri);
                assert(e.incompatible_spec(left, right) == e.incompatible_spec(left, ri));
                assert(e.incompatible_spec(right, left) == e.incompatible_spec(ri, left));
            }
        },
        (None, None) => {},
    }
}

proof fn lemma_any_incompatible_symmetric(
    e: &FunctionEmitter,
    li: Seq<usize>,
    ri: Seq<usize>,
    left: usize,
    right: usize,
    n: nat,
)
    requires
        e.wf(),
        li.len() == ri.len(),
        n <= li.len(),
        crate::types::all_below(li, left as int),
        crate::types::all_below(ri, right as int),
    ensures
        e.any_incompatible(li, ri, left, right, n) == e.any_incompatible(ri, li, right, left, n),
    decreases left + right, 0nat, n,
{
    if n > 0 {
        lemma_any_incompatible_symmetric(e, li, ri, left, right, (n - 1) as nat);
        law_incompatibility_is_symmetric(e, li[n - 1], ri[n - 1]);
    }
}

/// A parameter type is instantiated by itself.
pub proof fn law_instantiation_is_reflexive(e: &FunctionEmitter, t: usize, params: Seq<usize>)
    requires
        e.wf(),
    ensures
        e.instantiated_spec(t, t, params),
    decreases t, 1nat, 0nat,
{
    if t < e.types.len() {
        assert(children_below(e.types@[t as int], t as int));
        match e.types@[t as int] {
            Type::List(i) | Type::SetOf(i) | Type::Optional(i) | Type::Future(i) => {
                law_instantiation_is_reflexive(e, i, params);
            },
            Type::Dict(k, v) => {
                law_instantiation_is_reflexive(e, k, params);
                law_instantiation_is_reflexive(e, v, params);
            },
            Type::Tuple(items) | Type::Union(items) => {
                lemma_all_instantiated_reflexive(e, items@, params, t, items.len() as nat);
            },
            _ => {},
        }
    }
}

proof fn lemma_all_instantiated_reflexive(
    e: &FunctionEmitter,
    items: Seq<usize>,
    params: Seq<usize>,
    t: usize,
    n: nat,
)
    requires
        e.wf(),
        n <= items.len(),
        crate::types::all_below(items, t as int),
    ensures
        e.all_instantiated_spec(items, items, params, t, t, n),
    decreases t, 0nat, n,
{
    if n > 0 {
        lemma_all_instantiated_reflexive(e, items, params, t, (n - 1) as nat);
        law_instantiation_is_reflexive(e, items[n - 1], params);
    }
}

/// Every class extends or equals itself.
pub proof fn law_class_extends_itself(e: &FunctionEmitter, c: usize)
    ensures
        e.extends_spec(c, c),
{
    assert(e.chain(c, 0) == Some(c));
}

/// Class inheritance is transitive along the base chain.
pub proof fn law_class_extends_is_transitive(e: &FunctionEmitter, a: usize, b: usize, c: usize)
    requires
        e.extends_spec(a, b),
        e.extends_spec(b, c),
    ensures
        e.extends_spec(a, c),
{
    let k1 = choose|k: nat| #[trigger] e.chain(a, k) == Some(b);
    let k2 = choose|k: nat| #[trigger] e.chain(b, k) == Some(c);
    lemma_chain_add(e, a, b, k1, k2);
}

proof fn lemma_chain_add(e: &FunctionEmitter, a: usize, b: usize, k1: nat, k2: nat)
    requires
        e.chain(a, k1) == Some(b),
    ensures
        e.chain(a, k1 + k2) == e.chain(b, k2),
    decreases k2,
{
    if k2 > 0 {
        lemma_chain_add(e, a, b, k1, (k2 - 1) as nat);
    }
}

/// A value of a generated class is an instance of its own class: where no
/// earlier test claims the check, `value instanceof C` for a value of class
/// type `C` is `true`.
pub proof fn law_class_value_is_instance_of_its_class(e: &FunctionEmitter, value: Operand, c: usize)
    requires
        e.ty(value.ty) matches Some(Type::Class { name, .. }) && name == c,
        e.symbol(c) matches Some(name) && e.instance_of_early(value, c, name) is None,
    ensures
        e.instance_of_spec(value, c) == Some("true"@),
{
    law_class_extends_itself(e, c);
}

/// A concrete `Map` value is always `instanceof Map`, and a concrete `Set`
/// value always `instanceof Set`, unless its type carries a union variant
/// test for the class.
pub proof fn law_concrete_collection_is_instance(e: &FunctionEmitter, value: Operand, class: usize)
    requires
        e.union_class_check(value.ty, class) is None,
        (e.symbol(class) == Some("Map"@) && e.ty(value.ty) matches Some(Type::JsMap(_, _))) || (
        e.symbol(class) == Some("Set"@) && e.ty(value.ty) matches Some(Type::SetOf(_))),
    ensures
        e.instance_of_spec(value, class) == Some("true"@),
{
    reveal_strlit("Map");
    reveal_strlit("Set");
    assert("Set"@ != "Map"@) by {
        assert("Set"@[0] != "Map"@[0]);
    }
}

/// A trivial place is also cheap to evaluate twice.
pub proof fn law_trivial_place_is_trivial_reeval(s: Seq<char>)
    requires
        trivial_place_spec(s),
    ensures
        trivial_reeval_spec(s),
{
    if has_char(s, '(') {
        let i = choose|i: int| 0 <= i < s.len() && s[i] == '(';
        assert(place_char(s[i]));
    }
}

/// The identity key of a local strips exactly the `.clone()` that a value
/// read appends.
pub proof fn law_identity_key_strips_clone(t: Seq<char>)
    ensures
        strip_clone(t + ".clone()"@) == t,
{
    let full = t + ".clone()"@;
    assert(full.subrange(full.len() - ".clone()"@.len(), full.len() as int) =~= ".clone()"@);
    assert(full.subrange(0, full.len() - ".clone()"@.len()) =~= t);
}

/// Every block reaches itself, and blocks that reach a block reach every
/// block that one reaches: `block_can_reach` answers the transitive closure
/// of the successor relation.
pub proof fn law_block_reach_is_transitive(e: &FunctionEmitter, a: usize, b: usize, c: usize)
    requires
        reaches(cfg(e.function.blocks@), a, b, Set::empty()),
        reaches(cfg(e.function.blocks@), b, c, Set::empty()),
    ensures
        reaches(cfg(e.function.blocks@), a, c, Set::empty()),
        reaches(cfg(e.function.blocks@), a, a, Set::empty()),
{
    lemma_reaches_trans(cfg(e.function.blocks@), a, b, c);
    lemma_reaches_self(cfg(e.function.blocks@), a, Set::empty());
}

/// A local originates from itself, and a copy of a copy of `origin`
/// originates from `origin`: copy chains compose.
pub proof fn law_copy_chains_compose(blocks: Seq<BasicBlock>, a: usize, b: usize, origin: usize)
    requires
        reaches(copy_graph(blocks), a, b, Set::empty()),
        reaches(copy_graph(blocks), b, origin, Set::empty()),
    ensures
        reaches(copy_graph(blocks), a, origin, Set::empty()),
        reaches(copy_graph(blocks), origin, origin, Set::empty()),
{
    lemma_reaches_trans(copy_graph(blocks), a, b, origin);
    lemma_reaches_self(copy_graph(blocks), origin, Set::empty());
}

/// A parameter without JavaScript object identity (anything but a list,
/// set, dict or non-reference class) never needs the mutable-reference
/// ABI, whatever the function does with it: rebinding it stays local.
pub proof fn law_scalar_parameters_stay_owned(e: &FunctionEmitter, f: MirFunction, local: usize, seen: Seq<(usize, usize)>)
    requires
        local < f.locals.len(),
        !e.shared_mutation_spec(f.locals@[local as int].ty),
    ensures
        !e.needs_ref_spec(f, local, seen),
{
}

/// Every rvalue stored into a list slot goes through the one list
/// conversion: its text is the identity-bearing list's default or a
/// conversion into it.
pub proof fn law_list_slot_values_are_converted(e: &FunctionEmitter, value: Rvalue, dest: usize)
    requires
        e.ty(dest) matches Some(Type::List(_)),
        e.rvalue_spec(value, dest) is Some,
    ensures
        e.rvalue_spec(value, dest) == Some("SmeltList::default()"@) || has_prefix(
            e.rvalue_spec(value, dest).unwrap(),
            "Into::<SmeltList<_>>::into("@,
        ),
{
    let t = e.rvalue_inner_spec(value, dest).unwrap();
    if t != "Default::default()"@ {
        let r = "Into::<SmeltList<_>>::into("@ + t + ")"@;
        assert(r.subrange(0, "Into::<SmeltList<_>>::into("@.len() as int) =~= "Into::<SmeltList<_>>::into("@);
    }
}

/// A concrete-union slot rebuilds only bare erased constructors: an rvalue
/// whose own text does not start with `SmeltUnknown::` is stored into a
/// concrete union unchanged, so a value that is already the union is never
/// wrapped twice.
pub proof fn law_union_slot_wraps_only_erased_text(e: &FunctionEmitter, value: Rvalue, dest: usize)
    requires
        e.ty(dest) matches Some(Type::Union(_)),
        e.rvalue_inner_spec(value, dest) matches Some(t) && !has_prefix(t, "SmeltUnknown::"@),
    ensures
        e.rvalue_spec(value, dest) == e.rvalue_inner_spec(value, dest),
{
}

/// The call slot of an erased callable object comes first: whatever the
/// properties and dynamic sources, the object's first entry stores the
/// function under `__smelt_call`, so nothing added after it can replace it.
pub proof fn law_callable_object_call_slot_first(
    e: &FunctionEmitter,
    callable: Operand,
    props: Seq<(usize, Operand)>,
    spreads: Seq<Operand>,
    dest: usize,
)
    requires
        e.ty(dest) matches Some(Type::Unknown),
        e.callable_assign_spec(callable, props, spreads, dest) is Some,
    ensures
        has_prefix(
            e.callable_assign_spec(callable, props, spreads, dest).unwrap(),
            "{ let mut smelt_object = Vec::new(); "@ + call_entry(e.erase_op_spec(callable).unwrap()),
        ),
{
    let c = e.erase_op_spec(callable).unwrap();
    let ps = e.prop_entries_spec(props, props.len()).unwrap();
    let ss = e.erase_all_spec(spreads, spreads.len()).unwrap();
    let entries = seq![call_entry(c)] + ps + ss.map_values(|s: Seq<char>| spread_entry(s));
    lemma_join_starts_with_first(entries, " "@);
    let head = "{ let mut smelt_object = Vec::new(); "@;
    let joined = seq_join(entries, " "@);
    let r = head + joined + " SmeltUnknown::Object(SmeltObject::new(smelt_object)) }"@;
    let p = head + call_entry(c);
    assert(r.subrange(0, p.len() as int) =~= p);
}

/// The first part of a joined sequence is a prefix of the join.
proof fn lemma_join_starts_with_first(parts: Seq<Seq<char>>, sep: Seq<char>)
    requires
        parts.len() > 0,
    ensures
        has_prefix(seq_join(parts, sep), parts[0]),
    decreases parts.len(),
{
    if parts.len() == 1 {
        assert(seq_join(parts, sep).subrange(0, parts[0].len() as int) =~= parts[0]);
    } else {
        lemma_join_starts_with_first(parts.drop_last(), sep);
        let inner = seq_join(parts.drop_last(), sep);
        let whole = inner + sep + parts.last();
        assert(parts.drop_last()[0] == parts[0]);
        assert(whole.subrange(0, parts[0].len() as int) =~= inner.subrange(0, parts[0].len() as int));
    }
}

/// A later property overwrites an earlier one of the same name: appending a
/// property named `name` makes it the one a callable interface's field of
/// that name is filled from.
pub proof fn law_later_property_wins(
    e: &FunctionEmitter,
    props: Seq<(usize, Operand)>,
    key: usize,
    value: Operand,
    name: Seq<char>,
)
    requires
        e.ident(key) == Some(name),
    ensures
        e.prop_named(props.push((key, value)), name) == Some(value),
{
}

/// A type-parameter mention found within some depth is still found with one
/// more level of depth.
pub proof fn law_mentions_persist_at_greater_depth(e: &FunctionEmitter, ty: usize, params: Seq<usize>, depth: nat)
    ensures
        e.mentions_spec(ty, params, depth) ==> e.mentions_spec(ty, params, depth + 1),
    decreases depth, 1nat, 0nat,
{
    if depth > 0 && params.len() > 0 {
        let next = (depth - 1) as nat;
        match e.ty(ty) {
            Some(Type::List(item)) | Some(Type::SetOf(item)) | Some(Type::Optional(item))
            | Some(Type::Future(item)) => {
                law_mentions_persist_at_greater_depth(e, item, params, next);
            },
            Some(Type::Dict(key, value)) => {
                law_mentions_persist_at_greater_depth(e, key, params, next);
                law_mentions_persist_at_greater_depth(e, value, params, next);
            },
            Some(Type::Tuple(items)) | Some(Type::Union(items)) => {
                lemma_mentions_any_persist(e, items@, params, next, items.len() as nat);
            },
            Some(Type::Function(f)) => {
                law_mentions_persist_at_greater_depth(e, f.return_ty, params, next);
                lemma_mentions_any_persist(e, f.params@, params, next, f.params.len() as nat);
            },
            _ => {},
        }
    }
}

proof fn lemma_mentions_any_persist(e: &FunctionEmitter, items: Seq<usize>, params: Seq<usize>, depth: nat, n: nat)
    ensures
        e.mentions_any_spec(items, params, depth, n) ==> e.mentions_any_spec(items, params, depth + 1, n),
    decreases depth + 1, 0nat, n,
{
    if n > 0 && n <= items.len() {
        lemma_mentions_any_persist(e, items, params, depth, (n - 1) as nat);
        law_mentions_persist_at_greater_depth(e, items[n - 1], params, depth);
    }
}

/// The base chain of class `c` ends: some step up it finds no class.
pub open spec fn base_chain_ends(e: &FunctionEmitter, c: usize) -> bool {
    exists|n: nat| #[trigger] e.chain(c, n) is None
}

/// Where the base chain of `source` ends, the walk up it stops for every
/// target, so the inheritance test can be asked of any pair.
pub proof fn law_ending_chains_walk_stops(e: &FunctionEmitter, source: usize, target: usize)
    requires
        base_chain_ends(e, source),
    ensures
        e.walk_stops(source, target),
{
    let n = choose|n: nat| #[trigger] e.chain(source, n) is None;
    assert(e.chain(source, n) is None);
}

/// A class extends its base class.
pub proof fn law_class_extends_its_base(e: &FunctionEmitter, b: usize, p: usize)
    requires
        e.class_named(b) matches Some(info) && info.base == Some(p),
    ensures
        e.extends_spec(b, p),
{
    assert(e.chain(b, 0) == Some(b));
    assert(e.chain(b, 1) == Some(p));
}

/// A float operand stored into an integer slot is truncated toward zero,
/// never rounded: the text casts it to `f64`, truncates it, and casts the
/// result to `i64`.
pub proof fn law_float_operand_at_int_truncates(e: &FunctionEmitter, op: Operand, target: usize)
    requires
        e.wf(),
        e.const_fits(op),
        e.ty(op.ty) == Some(Type::Float),
        e.ty(target) == Some(Type::Int),
    ensures
        e.vat_op_spec(op, target) == Some("("@ + op.text@ + " as f64).trunc() as i64"@),
{
    lemma_union_adapters_name_unions(e, op.ty, target);
    assert(e.class_facts_fit(op.ty as int));
    assert(e.class_facts_fit(target as int));
}

/// The `null` test of erased text accepts only the `Null` variant, and the
/// `undefined` test only the `Undefined` variant: `undefined` is not `null`.
pub proof fn law_null_and_undefined_tags_are_single_variants(t: Seq<char>)
    ensures
        tag_check_raw_spec(t, UnknownKind::Null) == "matches!("@ + t + ", "@ + "SmeltUnknown::Null"@ + ")"@,
        tag_check_raw_spec(t, UnknownKind::Undefined) == "matches!("@ + t + ", "@ + "SmeltUnknown::Undefined"@
            + ")"@,
{
}

/// The `null` test of an erased operand is the single-variant test of its
/// text.
pub proof fn law_unknown_operand_null_test(e: &FunctionEmitter, v: Operand)
    requires
        e.ty(v.ty) == Some(Type::Unknown),
        e.union_tag_check(v.ty, UnknownKind::Null) is None,
    ensures
        e.tag_check_spec(v, UnknownKind::Null) == "matches!("@ + v.text@ + ", "@ + "SmeltUnknown::Null"@ + ")"@,
{
}

/// Reading an erased value as a boolean follows JavaScript truthiness:
/// `null` and `undefined` are false, a boolean is itself, a number is true
/// unless zero or NaN, a string is true exactly when it is not empty, and
/// every object-like value is true.
pub proof fn law_bool_extract_is_truthiness(e: &FunctionEmitter, text: Seq<char>, target: usize)
    requires
        e.ty(target) == Some(Type::Bool),
        text != "Default::default()"@,
    ensures
        e.extract_spec(text, target) == Some(
            "match "@ + text
                + ".clone() { SmeltUnknown::Null | SmeltUnknown::Undefined => false, SmeltUnknown::Bool(value) => value, SmeltUnknown::Number(value) => value != 0.0 && !value.is_nan(), SmeltUnknown::String(value) => !value.is_empty(), SmeltUnknown::Symbol(_) | SmeltUnknown::Array(_) | SmeltUnknown::Object(_) | SmeltUnknown::Function(_) | SmeltUnknown::Promise(_) => true }"@,
        ),
{
}

/// `>>>` converts both operands with ToUint32: each truncated value is taken
/// modulo 2^32 before the `u32` cast (so a negative left side wraps rather
/// than saturating to zero), a non-finite one is zero, and the count is
/// masked to five bits.
pub proof fn law_unsigned_shift_wraps_modulo_2_32(e: &FunctionEmitter, op: BinOp, lhs: Operand, rhs: Operand, dest: usize)
    requires
        op.kind is UShr,
    ensures
        e.plain_binary_spec(op, lhs, rhs, dest) == Some(
            "{ let smelt_shift_value = "@ + e.trunc_f64.render_spec(lhs.text@)
                + "; let smelt_shift_value = if smelt_shift_value.is_finite() { smelt_shift_value.rem_euclid(4294967296.0) as u32 } else { 0_u32 }; let smelt_shift_count = "@
                + e.trunc_f64.render_spec(rhs.text@)
                + "; let smelt_shift_count = if smelt_shift_count.is_finite() { smelt_shift_count.rem_euclid(4294967296.0) as u32 } else { 0_u32 }; (smelt_shift_value >> (smelt_shift_count & 31)) as f64 }"@,
        ),
{
}

/// One of the first `n` blocks that writes through `local` makes the
/// question answer yes.
proof fn lemma_block_write_needs_ref(e: &FunctionEmitter, f: MirFunction, local: usize, seen: Seq<(usize, usize)>, b: int, n: nat)
    requires
        0 <= b < n <= f.blocks.len(),
        e.block_needs_ref(f, local, seen, b),
    ensures
        e.blocks_need_ref(f, local, seen, n),
    decreases n,
{
    if b < n - 1 {
        lemma_block_write_needs_ref(e, f, local, seen, b, (n - 1) as nat);
    }
}

/// A parameter with shared-mutation semantics (a list, set, dict or class)
/// that the function writes a field or an element of in place needs the
/// mutable reference ABI, so the write reaches the caller's value.
pub proof fn law_in_place_writes_need_mutable_reference(e: &FunctionEmitter, f: MirFunction, local: usize, b: int, k: int)
    requires
        f.params@.contains(local),
        local < f.locals.len(),
        e.shared_mutation_spec(f.locals@[local as int].ty),
        0 <= b < f.blocks.len(),
        0 <= k < f.blocks@[b].statements.len(),
        (f.blocks@[b].statements@[k] matches Statement::AssignPlace { place: Place::Field { base, .. }, .. } && base
            == local) || (f.blocks@[b].statements@[k] matches Statement::AssignPlace {
            place: Place::Index { base, .. },
            ..
        } && base == local),
    ensures
        e.needs_ref_spec(f, local, Seq::empty()),
{
    let seen = Seq::<(usize, usize)>::empty().push((f.id, local));
    assert(e.stmt_needs_ref(f, f.blocks@[b].statements@[k], local));
    assert(e.block_needs_ref(f, local, seen, b));
    lemma_block_write_needs_ref(e, f, local, seen, b, f.blocks.len() as nat);
}

} // verus!
