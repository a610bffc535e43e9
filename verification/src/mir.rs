//! The slice of the MIR that the emission rules read: places, operands with
//! the type and text the operand renderer gave them, statements, blocks,
//! closures and classes.

use vstd::prelude::*;
use crate::operand_uses::AbsentSpelling;
use crate::tags::UnknownKind;
use crate::binary_text::BinOp;

verus! {

/// A storage location.
pub enum Place {
    Local(usize),
    Field { base: usize, field: usize },
    Index { base: usize, index: usize },
}

/// A literal operand.
pub enum Constant {
    Null,
    Undefined,
    Bool(bool),
    Int(i64),
    Number,
    Str(String),
}

/// How an operand reads its value.
pub enum OperandKind {
    Copy(Place),
    Move(Place),
    Const(Constant),
}

impl Place {
    /// A copy of the place.
    pub fn copy(&self) -> (r: Place)
        ensures
            r == *self,
    {
        match self {
            Place::Local(l) => Place::Local(*l),
            Place::Field { base, field } => Place::Field { base: *base, field: *field },
            Place::Index { base, index } => Place::Index { base: *base, index: *index },
        }
    }
}

impl Constant {
    /// A copy of the constant.
    pub fn copy(&self) -> (r: Constant)
        ensures
            r == *self,
    {
        match self {
            Constant::Null => Constant::Null,
            Constant::Undefined => Constant::Undefined,
            Constant::Bool(b) => Constant::Bool(*b),
            Constant::Int(i) => Constant::Int(*i),
            Constant::Number => Constant::Number,
            Constant::Str(s) => Constant::Str(s.clone()),
        }
    }
}

impl OperandKind {
    /// A copy of the operand kind.
    pub fn copy(&self) -> (r: OperandKind)
        ensures
            r == *self,
    {
        match self {
            OperandKind::Copy(p) => OperandKind::Copy(p.copy()),
            OperandKind::Move(p) => OperandKind::Move(p.copy()),
            OperandKind::Const(c) => OperandKind::Const(c.copy()),
        }
    }
}

/// A MIR operand, with what the operand renderer computed for it: its type,
/// its Rust text, and the few reads the coercion rules ask of it.
pub struct Operand {
    pub kind: OperandKind,
    /// The operand's interned type.
    pub ty: usize,
    /// The operand's Rust value text (a place read ends in `.clone()`).
    pub text: String,
    /// The place's Rust text, without the clone of a value read.
    pub place_text: String,
    /// The Rust text that borrows the operand's value.
    pub borrow_text: String,
    /// The operand's value read as an `f64`.
    pub float_text: String,
    /// A JavaScript element read that erases with its own `undefined`.
    pub erased_element_read: Option<String>,
    /// A JavaScript element read that stays fallible in an optional slot.
    pub optional_element_read: Option<String>,
    /// The place is a parameter of function type.
    pub function_parameter: bool,
    /// The per-item accessor key of a named function value.
    pub function_item_key: Option<String>,
    /// The erased call that defined the operand's local, re-rendered.
    pub erased_call: Option<String>,
    /// The rest-vector adapter that erases the function value.
    pub rest_vector_adapter: Option<String>,
    /// The operand's value tested for JavaScript truthiness.
    pub truthy_text: String,
    /// The operand read as an owned string, where its value is string-like.
    pub string_text: Option<String>,
}

/// A copy of an optional text.
pub fn copy_text(t: &Option<String>) -> (r: Option<String>)
    ensures
        r == *t,
{
    match t {
        Some(s) => Some(s.clone()),
        None => None,
    }
}

impl Operand {
    /// An operand of kind `kind`, type `ty` and text `text`, read by borrow
    /// at its place, and as an `f64` and a truth value by its text, with no
    /// string read and no special reads.
    pub fn new(kind: OperandKind, ty: usize, text: &str, place_text: &str) -> (r: Operand)
        ensures
            r.kind == kind,
            r.ty == ty,
            r.text@ == text@,
            r.place_text@ == place_text@,
            r.borrow_text@ == place_text@,
            r.float_text@ == text@,
            r.erased_element_read is None,
            r.optional_element_read is None,
            !r.function_parameter,
            r.function_item_key is None,
            r.erased_call is None,
            r.rest_vector_adapter is None,
            r.truthy_text@ == text@,
            r.string_text is None,
    {
        Operand {
            kind,
            ty,
            text: String::from_str(text),
            place_text: String::from_str(place_text),
            borrow_text: String::from_str(place_text),
            float_text: String::from_str(text),
            erased_element_read: None,
            optional_element_read: None,
            function_parameter: false,
            function_item_key: None,
            erased_call: None,
            rest_vector_adapter: None,
            truthy_text: String::from_str(text),
            string_text: None,
        }
    }

    /// A copy of the operand.
    pub fn duplicate(&self) -> (r: Operand)
        ensures
            r == *self,
    {
        Operand {
            kind: self.kind.copy(),
            ty: self.ty,
            text: self.text.clone(),
            place_text: self.place_text.clone(),
            borrow_text: self.borrow_text.clone(),
            float_text: self.float_text.clone(),
            erased_element_read: copy_text(&self.erased_element_read),
            optional_element_read: copy_text(&self.optional_element_read),
            function_parameter: self.function_parameter,
            function_item_key: copy_text(&self.function_item_key),
            erased_call: copy_text(&self.erased_call),
            rest_vector_adapter: copy_text(&self.rest_vector_adapter),
            truthy_text: self.truthy_text.clone(),
            string_text: copy_text(&self.string_text),
        }
    }

    /// The local an operand reads directly, if any.
    pub open spec fn local_spec(&self) -> Option<usize> {
        match self.kind {
            OperandKind::Copy(Place::Local(l)) => Some(l),
            OperandKind::Move(Place::Local(l)) => Some(l),
            _ => None,
        }
    }

    /// Returns the local an operand reads directly.
    pub fn local(&self) -> (r: Option<usize>)
        ensures
            r == self.local_spec(),
    {
        match &self.kind {
            OperandKind::Copy(Place::Local(l)) => Some(*l),
            OperandKind::Move(Place::Local(l)) => Some(*l),
            _ => None,
        }
    }
}

/// The right-hand side of an assignment.
pub enum Rvalue {
    Use(Operand),
    List(Vec<Operand>),
    SetLiteral(Vec<Operand>),
    Tuple(Vec<Operand>),
    /// Resumes a generator with a command.
    GeneratorNext { generator: Operand, sent: Option<Operand>, resume: ResumeKind },
    /// Whether a resume result is the generator's completion.
    GeneratorDone { result: Operand },
    /// The value a resume result carries.
    GeneratorValue { result: Operand },
    Conditional { cond: Operand, then_operand: Operand, else_operand: Operand },
    /// Picks the function value registered under a string key.
    FunctionTableLookup { key: Operand, cases: Vec<(String, Operand)> },
    InstanceOf { value: Operand, class: usize },
    /// Tests the runtime tag of an erased value.
    UnknownIs { value: Operand, tag: UnknownKind },
    TypeofValue { value: Operand },
    PrototypeSentinel { value: Operand },
    BoxPrimitive { value: Operand },
    ObjectFromPrototype { prototype: Operand },
    ObjectToStringTag { operand: Operand },
    StructuredClone { operand: Operand },
    /// Suspends a generator with `value`; `cleanup_text` is the rendered
    /// cleanup region a forced return runs first, `handler` the catch the
    /// generator's `throw` enters.
    GeneratorYield { value: Operand, cleanup_text: Option<String>, handler: Option<YieldHandler> },
    Binary { op: BinOp, lhs: Operand, rhs: Operand },
    Unary { op: UnaryOp, operand: Operand },
    Await(Operand),
    /// A closure literal: the closure, its rendered literal, and that literal
    /// with the uses of shared captures rewritten to their shared cells.
    Closure { id: usize, text: String, rewritten_text: String },
    /// A call of a function value.
    ClosureCall { callee: Operand, args: Vec<Operand> },
    /// A runtime operation on places: the locals it mutates in place and the
    /// locals it borrows mutably.
    InPlace { mutates: Vec<usize>, borrows_mutably: Vec<usize> },
    Other,
}

/// The catch a suspended generator's `throw` enters: the local bound to the
/// thrown value, if any, and the rendered catch block.
pub struct YieldHandler {
    pub exception_local: Option<usize>,
    pub catch_text: String,
}

/// A unary operator.
pub enum UnaryOp {
    Not,
    Neg,
}

/// How a generator is resumed.
pub enum ResumeKind {
    Next,
    Return,
    Throw,
}

/// A statement of a basic block.
pub enum Statement {
    Assign { dest: usize, value: Rvalue },
    AssignPlace { place: Place, operand: Operand },
    Other,
}

/// What a call terminator calls.
pub enum Callee {
    /// A function of the program, by id, with its arguments as the argument
    /// ladder rendered them (a method's receiver left out, trailing defaults
    /// included).
    Static(usize, Vec<String>),
    /// A function value, with how a typed callee is called.
    Indirect(Operand, TypedCall),
    Builtin(BuiltinFn),
}

/// How a call of a typed function value is made: through the erased
/// function's `call` method, or directly; and its argument list as the
/// value-call renderer gave it (the positional arguments padded to the
/// callee's arity, or the one erased argument vector of an erased call).
pub struct TypedCall {
    pub erased_abi: bool,
    pub arg_texts: Vec<String>,
}

/// A runtime builtin a call may name.
pub enum BuiltinFn {
    /// `console.log`, spelling an absent optional as `absent`.
    ConsoleLog { absent: AbsentSpelling },
    /// `process.stdout.write`.
    ConsoleWrite,
    /// `process.stderr.write`.
    ConsoleErrorWrite,
    /// `JSON.parse`.
    JsonParse,
    /// `decodeURI`, or `decodeURIComponent` where `component`.
    UriDecode { component: bool },
}

/// How a basic block ends.
pub enum Terminator {
    Return(Operand),
    /// Awaits `future` into `dest`, then continues at `next`.
    Await { future: Operand, dest: usize, next: usize },
    Call { dest: usize, callee: Callee, args: Vec<Operand>, next: usize },
    Goto(usize),
    /// A two-way branch on the truthiness of `cond`.
    Switch { cond: Operand, then_block: usize, else_block: usize },
    /// A multi-way branch on `scrutinee_text` (the scrutinee as the match
    /// renderer reads it): each arm's pattern and block, the block taken when
    /// no arm matches, and the block every arm joins at afterwards, if any.
    Match { scrutinee_text: String, arms: Vec<MatchArm>, default: Option<usize>, join: Option<usize> },
    Throw(Operand),
    Unreachable,
    Other,
}

/// One arm of a multi-way branch: its rendered pattern and its block.
pub struct MatchArm {
    pub label_text: String,
    pub target: usize,
}

pub struct BasicBlock {
    pub statements: Vec<Statement>,
    pub terminator: Option<Terminator>,
}

/// A local variable.
pub struct LocalDecl {
    /// The Rust name it is bound to.
    pub name: String,
    /// Its interned type.
    pub ty: usize,
    /// A compiler temporary rather than a source binding.
    pub temp: bool,
    /// The Rust text that reads its value.
    pub text: String,
}

/// How a closure captures an outer binding.
pub enum CaptureMode {
    ByValue,
    ByRef,
    ByMut,
}

/// A closure's capture of an outer local.
pub struct Capture {
    pub source_local: usize,
    /// The closure's own local for the captured binding, if it has one.
    pub target_local: Option<usize>,
    pub mode: CaptureMode,
    /// The captured binding is a callback parameter held by borrowed
    /// reference, which an escaping closure cannot keep.
    pub borrowed_callback: bool,
}

pub struct MirClosure {
    /// The closure's own parameters, by local.
    pub params: Vec<usize>,
    pub captures: Vec<Capture>,
    /// The closure outlives the statement that builds it.
    pub escapes: bool,
    /// The closure body's own locals.
    pub locals: Vec<LocalDecl>,
    /// The closure body.
    pub blocks: Vec<BasicBlock>,
    /// Its declared return type.
    pub return_ty: usize,
    pub can_throw: bool,
    /// The index of its rest parameter, if it has one.
    pub rest: Option<usize>,
    /// How many of its parameters are required, where fewer than all.
    pub required_params: Option<usize>,
    /// Its parameters read from an erased argument vector `smelt_args`.
    pub smelt_args_text: String,
    /// The per-item accessor key of a function item used as a value.
    pub function_item_key: Option<String>,
}

/// The function (or closure body) being emitted.
pub struct MirFunction {
    /// The function's id in the program.
    pub id: usize,
    pub params: Vec<usize>,
    pub locals: Vec<LocalDecl>,
    pub blocks: Vec<BasicBlock>,
    pub is_async: bool,
    pub is_generator: bool,
    /// A call of the function may throw.
    pub can_throw: bool,
    pub return_ty: usize,
    /// The source construct the function was lowered from.
    pub origin: FunctionOrigin,
    /// The Rust name it is emitted under.
    pub rust_name: String,
    /// What a call of it is followed by: `?` where the call's error
    /// propagates out of the caller.
    pub call_suffix: String,
}

/// What source construct a function was lowered from.
pub enum FunctionOrigin {
    Body,
    ClassConstructor { class: usize },
    ClassMethod { class: usize, method: usize },
    ClassStaticMethod { class: usize, method: usize },
}

/// A generated class.
pub struct ClassInfo {
    pub name: usize,
    pub base: Option<usize>,
    pub abstract_methods: Vec<usize>,
    /// The Rust name of the struct.
    pub rust_name: String,
    /// The type parameters the class declares, by symbol, in order.
    pub type_params: Vec<usize>,
    /// The sanitized Rust names of its effective fields, base fields first.
    pub field_names: Vec<String>,
}

} // verus!
