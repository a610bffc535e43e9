//! The interned MIR type table the emitter reads, and the per-type facts that
//! the rest of the code generator computes ahead of emission.

use vstd::prelude::*;
use crate::tags::UnknownKind;

verus! {

/// A function signature as the type table records it.
pub struct FunctionType {
    pub params: Vec<usize>,
    pub return_ty: usize,
    pub may_throw: bool,
    pub rest: Option<usize>,
    pub required_params: Option<usize>,
    pub mutable_params: Vec<usize>,
}

/// One interned MIR type. Child types are referred to by their index in the
/// type table.
pub enum Type {
    Unknown,
    Never,
    Nullish,
    Bool,
    Int,
    Float,
    Str,
    List(usize),
    SetOf(usize),
    Optional(usize),
    Future(usize),
    Dict(usize, usize),
    JsMap(usize, usize),
    Tuple(Vec<usize>),
    Union(Vec<usize>),
    Function(FunctionType),
    Class { name: usize, args: Vec<usize> },
    TypeParam { name: usize },
    Generator,
    /// What resuming a generator gives back: a yielded or a returned value.
    GeneratorResult { yield_ty: usize, return_ty: usize },
}

/// Every index in `ids` is below `bound`.
pub open spec fn all_below(ids: Seq<usize>, bound: int) -> bool {
    forall|k: int| 0 <= k < ids.len() ==> (ids[k] as int) < bound
}

/// Every child type a type refers to has a smaller index than `bound`: the
/// table is interned children first.
pub open spec fn children_below(t: Type, bound: int) -> bool {
    match t {
        Type::List(i) | Type::SetOf(i) | Type::Optional(i) | Type::Future(i) => (i as int) < bound,
        Type::Dict(k, v) | Type::JsMap(k, v) => (k as int) < bound && (v as int) < bound,
        Type::Tuple(items) | Type::Union(items) => all_below(items@, bound),
        Type::Function(f) => all_below(f.params@, bound) && (f.return_ty as int) < bound,
        Type::Class { args, .. } => all_below(args@, bound),
        _ => true,
    }
}

/// Spec equality of two types, comparing vector fields by their contents.
pub open spec fn same_type_spec(a: Type, b: Type) -> bool {
    match (a, b) {
        (Type::Unknown, Type::Unknown) => true,
        (Type::Never, Type::Never) => true,
        (Type::Nullish, Type::Nullish) => true,
        (Type::Bool, Type::Bool) => true,
        (Type::Int, Type::Int) => true,
        (Type::Float, Type::Float) => true,
        (Type::Str, Type::Str) => true,
        (Type::List(x), Type::List(y)) => x == y,
        (Type::SetOf(x), Type::SetOf(y)) => x == y,
        (Type::Optional(x), Type::Optional(y)) => x == y,
        (Type::Future(x), Type::Future(y)) => x == y,
        (Type::Dict(k, v), Type::Dict(k2, v2)) => k == k2 && v == v2,
        (Type::JsMap(k, v), Type::JsMap(k2, v2)) => k == k2 && v == v2,
        (Type::Tuple(x), Type::Tuple(y)) => x@ == y@,
        (Type::Union(x), Type::Union(y)) => x@ == y@,
        (Type::Function(f), Type::Function(g)) => f.params@ == g.params@ && f.return_ty
            == g.return_ty && f.may_throw == g.may_throw && f.rest == g.rest
            && f.required_params == g.required_params && f.mutable_params@ == g.mutable_params@,
        (Type::Class { name: n, args: a }, Type::Class { name: m, args: b }) => n == m && a@
            == b@,
        (Type::TypeParam { name: n }, Type::TypeParam { name: m }) => n == m,
        (Type::Generator, Type::Generator) => true,
        (Type::GeneratorResult { yield_ty: y, return_ty: r }, Type::GeneratorResult {
            yield_ty: y2,
            return_ty: r2,
        }) => y == y2 && r == r2,
        _ => false,
    }
}

fn same_ids(a: &Vec<usize>, b: &Vec<usize>) -> (r: bool)
    ensures
        r == (a@ == b@),
{
    if a.len() != b.len() {
        return false;
    }
    let mut i: usize = 0;
    while i < a.len()
        invariant
            a.len() == b.len(),
            i <= a.len(),
            forall|j: int| 0 <= j < i ==> a@[j] == b@[j],
        decreases a.len() - i,
    {
        if a[i] != b[i] {
            return false;
        }
        i = i + 1;
    }
    assert(a@ =~= b@);
    true
}

/// Returns whether two types are the same interned shape.
pub fn same_type(a: &Type, b: &Type) -> (r: bool)
    ensures
        r == same_type_spec(*a, *b),
{
    match (a, b) {
        (Type::Unknown, Type::Unknown) => true,
        (Type::Never, Type::Never) => true,
        (Type::Nullish, Type::Nullish) => true,
        (Type::Bool, Type::Bool) => true,
        (Type::Int, Type::Int) => true,
        (Type::Float, Type::Float) => true,
        (Type::Str, Type::Str) => true,
        (Type::List(x), Type::List(y)) => *x == *y,
        (Type::SetOf(x), Type::SetOf(y)) => *x == *y,
        (Type::Optional(x), Type::Optional(y)) => *x == *y,
        (Type::Future(x), Type::Future(y)) => *x == *y,
        (Type::Dict(k, v), Type::Dict(k2, v2)) => *k == *k2 && *v == *v2,
        (Type::JsMap(k, v), Type::JsMap(k2, v2)) => *k == *k2 && *v == *v2,
        (Type::Tuple(x), Type::Tuple(y)) => same_ids(x, y),
        (Type::Union(x), Type::Union(y)) => same_ids(x, y),
        (Type::Function(f), Type::Function(g)) => {
            let rest_same = match (f.rest, g.rest) {
                (Some(p), Some(q)) => p == q,
                (None, None) => true,
                _ => false,
            } && match (f.required_params, g.required_params) {
                (Some(p), Some(q)) => p == q,
                (None, None) => true,
                _ => false,
            };
            same_ids(&f.params, &g.params) && f.return_ty == g.return_ty && f.may_throw
                == g.may_throw && rest_same && same_ids(&f.mutable_params, &g.mutable_params)
        },
        (Type::Class { name: n, args: x }, Type::Class { name: m, args: y }) => *n == *m
            && same_ids(x, y),
        (Type::TypeParam { name: n }, Type::TypeParam { name: m }) => *n == *m,
        (Type::Generator, Type::Generator) => true,
        (Type::GeneratorResult { yield_ty: y, return_ty: r }, Type::GeneratorResult {
            yield_ty: y2,
            return_ty: r2,
        }) => *y == *y2 && *r == *r2,
        _ => false,
    }
}

/// One piece of a text template: literal text, or the place where the value
/// text is spliced in.
pub enum Piece {
    Lit(String),
    Hole,
}

/// Rust text that some other part of the code generator builds around a value
/// expression, held as literal pieces and holes for the value.
pub struct Template {
    pub pieces: Vec<Piece>,
}

/// The template's text with `value` in every hole.
pub open spec fn render_pieces(pieces: Seq<Piece>, value: Seq<char>) -> Seq<char>
    decreases pieces.len(),
{
    if pieces.len() == 0 {
        Seq::empty()
    } else {
        render_pieces(pieces.drop_last(), value) + match pieces.last() {
            Piece::Lit(s) => s@,
            Piece::Hole => value,
        }
    }
}

impl Template {
    pub open spec fn render_spec(&self, value: Seq<char>) -> Seq<char> {
        render_pieces(self.pieces@, value)
    }

    /// Splices `value` into the template.
    pub fn render(&self, value: &str) -> (r: String)
        ensures
            r@ == self.render_spec(value@),
    {
        let mut out = String::new();
        let mut i: usize = 0;
        while i < self.pieces.len()
            invariant
                i <= self.pieces.len(),
                out@ == render_pieces(self.pieces@.take(i as int), value@),
            decreases self.pieces.len() - i,
        {
            assert(self.pieces@.take(i + 1).drop_last() =~= self.pieces@.take(i as int));
            match &self.pieces[i] {
                Piece::Lit(s) => out.append(s.as_str()),
                Piece::Hole => out.append(value),
            }
            i = i + 1;
        }
        assert(self.pieces@.take(self.pieces.len() as int) =~= self.pieces@);
        out
    }
}

/// What the code generator knows about a class type beyond its name.
pub enum ClassKind {
    Plain,
    RegExp,
    Match,
    /// The named groups of a regular-expression match.
    MatchGroups,
    Blob,
    Request,
}

/// Facts about one type that the rest of the code generator decides: its
/// representation choices, its Rust spelling, and the adapters it owns.
pub struct TypeFacts {
    /// The class type is carried as an erased `SmeltUnknown`.
    pub erased_class: bool,
    /// The union type lowers to a generated tagged enum.
    pub concrete_union: bool,
    /// The Rust spelling of the type, where it has one.
    pub rust_text: Option<String>,
    /// The Rust default value of the type, where it has one.
    pub default_text: Option<String>,
    /// Values of this type can key a Rust `HashSet`.
    pub hash_set_key_safe: bool,
    /// A string-keyed dict with this key type is a `SmeltRecord`.
    pub smelt_record_key: bool,
    /// A dict with this key type is a `SmeltJsMap`.
    pub js_key_map_key: bool,
    /// The class type is a shared reference cell.
    pub reference_class: bool,
    /// The class type is an interface emitted as a structural record.
    pub interface_record: bool,
    /// Which runtime class a class type names.
    pub class_kind: ClassKind,
    /// The type parameter is a real Rust type parameter of the current function.
    pub type_param_in_scope: bool,
    /// The function type is the erased `(...args: unknown[]) => unknown` shape.
    pub erased_unknown_rest_function: bool,
    /// The type names a class with no known fields.
    pub no_known_fields: bool,
    /// The type holds a function value somewhere inside it.
    pub contains_function: bool,
    /// The type holds an erased `unknown` somewhere inside it.
    pub contains_unknown: bool,
    /// The argument list that calls a value of this function type from an
    /// erased argument vector.
    pub smelt_args_text: Option<String>,
    /// How a value of this class type is boxed into an erased object.
    pub class_object: Option<Template>,
    /// The type of the `__smelt_call` slot of a callable-object record.
    pub call_field_ty: Option<usize>,
    /// The type is a regular-expression match-function result.
    pub match_fn_result: bool,
    /// The type is the match-function result class itself.
    pub match_fn_result_class: bool,
    /// The value type a match-function result carries.
    pub match_value_ty: Option<usize>,
    /// How a key of this type is spelled as a property-name string.
    pub key_to_string: Option<Template>,
    /// The record adapter that rebuilds this class from the string-keyed
    /// record `smelt_record_map`, when an erased object can become one.
    pub object_record: Option<Template>,
    /// The parameter declarations of a callback of this function type.
    pub callback_params: Option<String>,
    /// The positions of the parameters a callback of this function type
    /// takes by shared reference.
    pub shared_ref_params: Vec<usize>,
    /// How a value of this concrete union is projected back to `SmeltUnknown`.
    pub union_erase: Option<Template>,
    /// How a borrowed callback handle of this function type is spelled.
    pub borrowed_handle: Option<Template>,
    /// How a value of this concrete union is tested against a class: the
    /// class symbol and the test around the value text.
    pub class_checks: Vec<(usize, Template)>,
    /// How a thrown value of this type becomes an error payload, around its
    /// text.
    pub thrown_payload: Option<Template>,
    /// A synthesized callback parameter of this type is taken by shared
    /// reference.
    pub callback_param_by_ref: bool,
    /// How each parameter of a callback of this function type receives an
    /// owned argument, by position.
    pub callback_arg_forms: Vec<Template>,
    /// How a value of this concrete union is tested for a run-time kind: the
    /// kind and the test around the value text.
    pub tag_checks: Vec<(UnknownKind, Template)>,
    /// The fields of a structural record type: each field's symbol and type.
    pub record_fields: Vec<(usize, usize)>,
}

} // verus!
