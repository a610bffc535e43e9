//! The function emitter: the state every emission rule reads.

use vstd::prelude::*;
use crate::async_ops::RuntimeNames;
use crate::instance_of::HostRegistry;
use crate::mir::{ClassInfo, MirClosure, MirFunction};
use crate::types::{children_below, same_type, same_type_spec, Template, Type, TypeFacts};

verus! {

/// An emission failure, with the reason in words.
#[derive(Debug)]
pub struct EmitError {
    pub message: String,
}

impl EmitError {
    pub fn new(message: &str) -> (r: EmitError)
        ensures
            r.message@ == message@,
    {
        EmitError { message: String::from_str(message) }
    }
}

/// Which adapter another part of the code generator owns for a pair of types.
pub enum AdapterKind {
    /// A value injected into a concrete union.
    InjectUnion,
    /// A value projected out of a concrete union.
    ProjectUnion,
    /// A rendered function value adapted to another function shape.
    FunctionShape,
    /// A record adapted to another record shape.
    StructuralRecord,
    /// A record adapted to a string-keyed dict.
    RecordToDict,
    /// A string-keyed dict adapted to a record.
    DictToRecord,
    /// A function value adapted to the erased `(...args: unknown[])` shape.
    ErasedRestFunction,
    /// A function value adapted across a rest-vector parameter.
    RestVector,
}

/// An adapter for one `(source, target)` pair, as text around the value.
pub struct Adapter {
    pub kind: AdapterKind,
    pub source: usize,
    pub target: usize,
    pub template: Template,
}

/// The equality test of two values whose types nest floats: for the
/// operand types `lhs` and `rhs`, and a negated or plain operator, the text
/// `before` + left + `between` + right + `after`.
pub struct FloatEquality {
    pub lhs: usize,
    pub rhs: usize,
    pub negated: bool,
    pub before: String,
    pub between: String,
    pub after: String,
}

/// Whether two adapter kinds are the same.
pub open spec fn same_kind(a: AdapterKind, b: AdapterKind) -> bool {
    match (a, b) {
        (AdapterKind::InjectUnion, AdapterKind::InjectUnion) => true,
        (AdapterKind::ProjectUnion, AdapterKind::ProjectUnion) => true,
        (AdapterKind::FunctionShape, AdapterKind::FunctionShape) => true,
        (AdapterKind::StructuralRecord, AdapterKind::StructuralRecord) => true,
        (AdapterKind::RecordToDict, AdapterKind::RecordToDict) => true,
        (AdapterKind::DictToRecord, AdapterKind::DictToRecord) => true,
        (AdapterKind::ErasedRestFunction, AdapterKind::ErasedRestFunction) => true,
        (AdapterKind::RestVector, AdapterKind::RestVector) => true,
        _ => false,
    }
}

fn kind_eq(a: &AdapterKind, b: &AdapterKind) -> (r: bool)
    ensures
        r == same_kind(*a, *b),
{
    match (a, b) {
        (AdapterKind::InjectUnion, AdapterKind::InjectUnion) => true,
        (AdapterKind::ProjectUnion, AdapterKind::ProjectUnion) => true,
        (AdapterKind::FunctionShape, AdapterKind::FunctionShape) => true,
        (AdapterKind::StructuralRecord, AdapterKind::StructuralRecord) => true,
        (AdapterKind::RecordToDict, AdapterKind::RecordToDict) => true,
        (AdapterKind::DictToRecord, AdapterKind::DictToRecord) => true,
        (AdapterKind::ErasedRestFunction, AdapterKind::ErasedRestFunction) => true,
        (AdapterKind::RestVector, AdapterKind::RestVector) => true,
        _ => false,
    }
}

/// The first adapter in `list` of `kind` for `(source, target)`.
pub open spec fn adapter_in(
    list: Seq<Adapter>,
    kind: AdapterKind,
    source: usize,
    target: usize,
) -> Option<Template>
    decreases list.len(),
{
    if list.len() == 0 {
        None
    } else if same_kind(list[0].kind, kind) && list[0].source == source && list[0].target
        == target {
        Some(list[0].template)
    } else {
        adapter_in(list.drop_first(), kind, source, target)
    }
}

/// Whether `(a, b)` is listed in `pairs`.
pub open spec fn pair_listed(pairs: Seq<(usize, usize)>, a: usize, b: usize) -> bool {
    exists|k: int| 0 <= k < pairs.len() && pairs[k] == (a, b)
}

/// Whether `name` is listed in `names`.
pub open spec fn name_listed(names: Seq<String>, name: Seq<char>) -> bool {
    exists|k: int| 0 <= k < names.len() && names[k]@ == name
}

/// The code generator's view of the function being emitted: the interned type
/// table, what the rest of the generator decided about each type, the symbol
/// table, and the adapters other modules own.
pub struct FunctionEmitter {
    /// The interned type table; a type id is an index into it.
    pub types: Vec<Type>,
    /// One entry per type id.
    pub facts: Vec<TypeFacts>,
    /// The interned symbol names; a symbol is an index into it.
    pub symbols: Vec<String>,
    /// Each symbol spelled as a Rust identifier.
    pub symbol_idents: Vec<String>,
    /// The id of the `null`/`undefined` type.
    pub none_ty: usize,
    /// How a list value is read through its shared buffer.
    pub list_read: Template,
    /// Adapters between pairs of types.
    pub adapters: Vec<Adapter>,
    /// Pairs `(source, inner)` whose values coerce into `Option<inner>`.
    pub optional_coercions: Vec<(usize, usize)>,
    /// Pairs of map types whose Rust backings differ.
    pub map_backing_pairs: Vec<(usize, usize)>,
    /// Names of callbacks captured by borrowed reference.
    pub borrowed_captures: Vec<String>,
    /// Locals of the function being emitted already bound at this point.
    pub declared_locals: Vec<usize>,
    /// Locals of the function being emitted that are bound `mut`.
    pub mutable_locals: Vec<usize>,
    /// The function being emitted.
    pub function: MirFunction,
    /// The program's functions, by id.
    pub functions: Vec<MirFunction>,
    /// The program's closures, by id.
    pub closures: Vec<MirClosure>,
    /// The program's generated classes.
    pub classes: Vec<ClassInfo>,
    /// How a regular-expression value is spelled as its source string.
    pub regexp_literal: Template,
    /// The runtime reader of a byte buffer's elements.
    pub byte_buffer_elements: String,
    /// The runtime reader of an `arguments` object's elements.
    pub arguments_elements: String,
    /// The body being emitted returns its errors, so a throwing call can
    /// propagate with `?`.
    pub propagates_errors: bool,
    /// How an `f64` value text is truncated toward zero.
    pub trunc_f64: Template,
    /// How two values of nested float types are compared for equality.
    pub float_equalities: Vec<FloatEquality>,
    /// What the standard library declares about host classes.
    pub host: HostRegistry,
    /// The runtime helpers async code calls.
    pub runtime: RuntimeNames,
}

impl FunctionEmitter {
    /// The type table is interned children first, every type has its facts,
    /// adapters and class facts fit the shapes of the types they name, and
    /// the null type is the nullish type.
    pub open spec fn wf(&self) -> bool {
        &&& self.types.len() == self.facts.len()
        &&& forall|i: int|
            0 <= i < self.types.len() ==> #[trigger] children_below(self.types@[i], i)
        &&& forall|i: int|
            0 <= i < self.facts.len() ==> (#[trigger] self.facts@[i].match_value_ty matches Some(
                v,
            ) ==> (v as int) < i)
        &&& forall|i: int|
            0 <= i < self.facts.len() ==> (#[trigger] self.facts@[i].call_field_ty matches Some(
                v,
            ) ==> (v as int) < self.types.len())
        &&& forall|i: int| 0 <= i < self.adapters.len() ==> #[trigger] self.adapter_fits(self.adapters@[i])
        &&& forall|i: int| 0 <= i < self.facts.len() ==> #[trigger] self.class_facts_fit(i)
        &&& self.ty(self.none_ty) == Some(Type::Nullish)
    }

    /// An adapter joins types of the shapes it is for: a union adapter joins
    /// a union with another type, a record adapter joins two classes.
    pub open spec fn adapter_fits(&self, a: Adapter) -> bool {
        match a.kind {
            AdapterKind::InjectUnion => self.ty(a.target) matches Some(Type::Union(_)),
            AdapterKind::ProjectUnion => self.ty(a.source) matches Some(Type::Union(_)),
            AdapterKind::StructuralRecord => (self.ty(a.source) matches Some(Type::Class { .. }))
                && (self.ty(a.target) matches Some(Type::Class { .. })),
            _ => true,
        }
    }

    /// The class facts of type `i` attach only to a class type: a runtime
    /// class kind other than a plain class, and the match-result marks.
    pub open spec fn class_facts_fit(&self, i: int) -> bool {
        (!(self.facts@[i].class_kind is Plain) || self.facts@[i].match_fn_result
            || self.facts@[i].match_fn_result_class) ==> self.types@[i] matches Type::Class { .. }
    }

    /// The type with id `id`, if it is interned.
    pub open spec fn ty(&self, id: usize) -> Option<Type> {
        if id < self.types.len() {
            Some(self.types@[id as int])
        } else {
            None
        }
    }

    /// The facts for type `id`, if it is interned.
    pub open spec fn fact(&self, id: usize) -> Option<TypeFacts> {
        if id < self.facts.len() {
            Some(self.facts@[id as int])
        } else {
            None
        }
    }

    /// A class type carried as an erased `SmeltUnknown`.
    pub open spec fn erased_class(&self, id: usize) -> bool {
        &&& self.ty(id) matches Some(Type::Class { .. })
        &&& self.fact(id) matches Some(f) && f.erased_class
    }

    pub open spec fn concrete_union(&self, id: usize) -> bool {
        self.fact(id) matches Some(f) && f.concrete_union
    }

    pub open spec fn hash_set_key_safe(&self, id: usize) -> bool {
        self.fact(id) matches Some(f) && f.hash_set_key_safe
    }

    pub open spec fn smelt_record_key(&self, id: usize) -> bool {
        self.fact(id) matches Some(f) && f.smelt_record_key
    }

    pub open spec fn js_key_map_key(&self, id: usize) -> bool {
        self.fact(id) matches Some(f) && f.js_key_map_key
    }

    pub open spec fn reference_class(&self, id: usize) -> bool {
        self.fact(id) matches Some(f) && f.reference_class
    }

    pub open spec fn rust_text(&self, id: usize) -> Option<Seq<char>> {
        match self.fact(id) {
            Some(f) => match f.rust_text {
                Some(t) => Some(t@),
                None => None,
            },
            None => None,
        }
    }

    pub open spec fn default_text(&self, id: usize) -> Option<Seq<char>> {
        match self.fact(id) {
            Some(f) => match f.default_text {
                Some(t) => Some(t@),
                None => None,
            },
            None => None,
        }
    }

    /// The name of symbol `s`, if it is interned.
    pub open spec fn symbol(&self, s: usize) -> Option<Seq<char>> {
        if s < self.symbols.len() {
            Some(self.symbols@[s as int]@)
        } else {
            None
        }
    }

    /// The first interned id whose type is `wanted`.
    pub open spec fn interned(&self, wanted: Type, id: usize) -> bool {
        &&& id < self.types.len()
        &&& same_type_spec(self.types@[id as int], wanted)
        &&& forall|j: int| 0 <= j < id ==> !same_type_spec(#[trigger] self.types@[j], wanted)
    }

    /// No interned id has type `wanted`.
    pub open spec fn not_interned(&self, wanted: Type) -> bool {
        forall|j: int| 0 <= j < self.types.len() ==> !same_type_spec(#[trigger] self.types@[j], wanted)
    }


    /// The first of the first `n` interned ids whose type is `wanted`.
    pub open spec fn find_interned_upto(&self, wanted: Type, n: nat) -> Option<usize>
        decreases n,
    {
        if n == 0 || n > self.types.len() {
            None
        } else {
            match self.find_interned_upto(wanted, (n - 1) as nat) {
                Some(i) => Some(i),
                None => if same_type_spec(self.types@[n - 1], wanted) {
                    Some((n - 1) as usize)
                } else {
                    None
                },
            }
        }
    }

    /// The first interned id whose type is `wanted`.
    pub open spec fn find_interned(&self, wanted: Type) -> Option<usize> {
        self.find_interned_upto(wanted, self.types.len() as nat)
    }

    pub proof fn lemma_find_interned(&self, wanted: Type, n: nat)
        requires
            n <= self.types.len(),
        ensures
            self.find_interned_upto(wanted, n) matches Some(i) ==> (i < n && same_type_spec(
                self.types@[i as int],
                wanted,
            ) && forall|j: int| 0 <= j < i ==> !same_type_spec(#[trigger] self.types@[j], wanted)),
            self.find_interned_upto(wanted, n) is None ==> forall|j: int|
                0 <= j < n ==> !same_type_spec(#[trigger] self.types@[j], wanted),
        decreases n,
    {
        if n > 0 {
            self.lemma_find_interned(wanted, (n - 1) as nat);
        }
    }

    pub fn type_at(&self, id: usize) -> (r: Option<&Type>)
        ensures
            r matches Some(t) ==> self.ty(id) == Some(*t),
            r is None <==> self.ty(id) is None,
    {
        if id < self.types.len() {
            Some(&self.types[id])
        } else {
            None
        }
    }

    pub fn fact_at(&self, id: usize) -> (r: Option<&TypeFacts>)
        ensures
            r matches Some(t) ==> self.fact(id) == Some(*t),
            r is None <==> self.fact(id) is None,
    {
        if id < self.facts.len() {
            Some(&self.facts[id])
        } else {
            None
        }
    }

    /// Looks up the id of an interned type.
    pub fn type_id(&self, wanted: &Type) -> (r: Result<usize, EmitError>)
        ensures
            r matches Ok(id) ==> self.interned(*wanted, id),
            r is Err ==> self.not_interned(*wanted),
            r matches Ok(id) ==> self.find_interned(*wanted) == Some(id),
            r is Err <==> self.find_interned(*wanted) is None,
    {
        proof {
            self.lemma_find_interned(*wanted, self.types.len() as nat);
        }
        let mut i: usize = 0;
        while i < self.types.len()
            invariant
                i <= self.types.len(),
                forall|j: int| 0 <= j < i ==> !same_type_spec(#[trigger] self.types@[j], *wanted),
            decreases self.types.len() - i,
        {
            if same_type(&self.types[i], wanted) {
                proof {
                    self.lemma_find_interned(*wanted, self.types.len() as nat);
                    match self.find_interned(*wanted) {
                        Some(k) => {
                            if k < i {
                                assert(!same_type_spec(self.types@[k as int], *wanted));
                            } else if k > i {
                                assert(!same_type_spec(self.types@[i as int], *wanted));
                            }
                        },
                        None => {
                            assert(!same_type_spec(self.types@[i as int], *wanted));
                        },
                    }
                }
                return Ok(i);
            }
            i = i + 1;
        }
        proof {
            self.lemma_find_interned(*wanted, self.types.len() as nat);
            if let Some(k) = self.find_interned(*wanted) {
                assert(same_type_spec(self.types@[k as int], *wanted));
            }
        }
        Err(EmitError::new("type is not interned"))
    }

    pub fn is_erased_class_type(&self, id: usize) -> (r: bool)
        ensures
            r == self.erased_class(id),
    {
        match self.type_at(id) {
            Some(Type::Class { .. }) => {},
            _ => {
                return false;
            },
        }
        match self.fact_at(id) {
            Some(f) => f.erased_class,
            None => false,
        }
    }

    pub fn is_concrete_union(&self, id: usize) -> (r: bool)
        ensures
            r == self.concrete_union(id),
    {
        match self.fact_at(id) {
            Some(f) => f.concrete_union,
            None => false,
        }
    }

    pub fn symbol_name(&self, s: usize) -> (r: Result<&String, EmitError>)
        ensures
            r matches Ok(name) ==> self.symbol(s) == Some(name@),
            r is Err ==> self.symbol(s) is None,
    {
        if s < self.symbols.len() {
            Ok(&self.symbols[s])
        } else {
            Err(EmitError::new("unknown symbol"))
        }
    }

    pub fn rust_type_text(&self, id: usize) -> (r: Result<String, EmitError>)
        ensures
            r matches Ok(t) ==> self.rust_text(id) == Some(t@),
            r is Err ==> self.rust_text(id) is None,
    {
        match self.fact_at(id) {
            Some(f) => match &f.rust_text {
                Some(t) => Ok(t.clone()),
                None => Err(EmitError::new("type has no Rust spelling")),
            },
            None => Err(EmitError::new("type has no Rust spelling")),
        }
    }

    pub fn default_value(&self, id: usize) -> (r: Result<String, EmitError>)
        ensures
            r matches Ok(t) ==> self.default_text(id) == Some(t@),
            r is Err ==> self.default_text(id) is None,
    {
        match self.fact_at(id) {
            Some(f) => match &f.default_text {
                Some(t) => Ok(t.clone()),
                None => Err(EmitError::new("type has no default value")),
            },
            None => Err(EmitError::new("type has no default value")),
        }
    }

    /// The adapter of `kind` for `(source, target)`.
    pub open spec fn adapter(&self, kind: AdapterKind, source: usize, target: usize) -> Option<
        Template,
    > {
        adapter_in(self.adapters@, kind, source, target)
    }

    pub fn find_adapter(&self, kind: AdapterKind, source: usize, target: usize) -> (r: Option<
        &Template,
    >)
        ensures
            r matches Some(t) ==> self.adapter(kind, source, target) == Some(*t),
            r is None <==> self.adapter(kind, source, target) is None,
    {
        let mut i: usize = 0;
        assert(self.adapters@.skip(0) =~= self.adapters@);
        while i < self.adapters.len()
            invariant
                i <= self.adapters.len(),
                adapter_in(self.adapters@, kind, source, target) == adapter_in(
                    self.adapters@.skip(i as int),
                    kind,
                    source,
                    target,
                ),
            decreases self.adapters.len() - i,
        {
            assert(self.adapters@.skip(i as int).drop_first() =~= self.adapters@.skip(i + 1));
            let a = &self.adapters[i];
            if kind_eq(&a.kind, &kind) && a.source == source && a.target == target {
                return Some(&a.template);
            }
            i = i + 1;
        }
        None
    }

    pub fn pair_in(pairs: &Vec<(usize, usize)>, a: usize, b: usize) -> (r: bool)
        ensures
            r == pair_listed(pairs@, a, b),
    {
        let mut i: usize = 0;
        while i < pairs.len()
            invariant
                i <= pairs.len(),
                forall|k: int| 0 <= k < i ==> pairs@[k] != (a, b),
            decreases pairs.len() - i,
        {
            if pairs[i].0 == a && pairs[i].1 == b {
                return true;
            }
            i = i + 1;
        }
        false
    }
}

} // verus!
