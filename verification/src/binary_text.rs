//! JavaScript binary-operator text: equality, identity, relational
//! comparison and arithmetic across optional, erased and mixed operands.

use vstd::prelude::*;
use crate::emitter::{EmitError, FunctionEmitter};
use crate::erase::{paren, wrap};
use crate::mir::{Constant, Operand, OperandKind};
use crate::text::{contains_str, has_infix};
use crate::types::{children_below, Type};
use crate::value_at_type::suffixed;

verus! {

/// The operator of a binary expression.
pub enum BinOpKind {
    Add,
    Sub,
    Mul,
    Div,
    Rem,
    Eq,
    NotEq,
    StrictEq,
    StrictNotEq,
    JsStrictEq,
    JsStrictNotEq,
    Lt,
    Lte,
    Gt,
    Gte,
    And,
    Or,
    UShr,
    Shl,
    Shr,
    BitAnd,
    BitOr,
    BitXor,
    Other,
}

/// A binary operator with the Rust spelling the HIR gives it.
pub struct BinOp {
    pub kind: BinOpKind,
    pub text: String,
}

pub open spec fn is_equality(k: BinOpKind) -> bool {
    k is Eq || k is NotEq || k is StrictEq || k is StrictNotEq || k is JsStrictEq || k is JsStrictNotEq
}

pub open spec fn is_negated(k: BinOpKind) -> bool {
    k is NotEq || k is StrictNotEq || k is JsStrictNotEq
}

pub open spec fn is_strict(k: BinOpKind) -> bool {
    k is StrictEq || k is StrictNotEq
}

pub open spec fn is_js_strict(k: BinOpKind) -> bool {
    k is JsStrictEq || k is JsStrictNotEq
}

pub open spec fn is_relational(k: BinOpKind) -> bool {
    k is Lt || k is Lte || k is Gt || k is Gte
}

pub open spec fn is_arithmetic(k: BinOpKind) -> bool {
    k is Add || k is Sub || k is Mul || k is Div || k is Rem
}

/// `text`, negated when `negate` holds.
pub open spec fn negated(text: Seq<char>, negate: bool) -> Seq<char> {
    if negate {
        "!("@ + text + ")"@
    } else {
        text
    }
}

/// The erased nullish tag a `null`/`undefined` operand is matched against.
pub open spec fn nullish_pattern(op: Operand, strict_nullish: bool) -> Seq<char> {
    if strict_nullish {
        if op.kind matches OperandKind::Const(Constant::Undefined) {
            "SmeltUnknown::Undefined"@
        } else {
            "SmeltUnknown::Null"@
        }
    } else {
        "SmeltUnknown::Null | SmeltUnknown::Undefined"@
    }
}

/// `lhs op rhs`, each side parenthesized.
pub open spec fn grouped(lhs: Seq<char>, op: Seq<char>, rhs: Seq<char>) -> Seq<char> {
    "("@ + lhs + ") "@ + op + " ("@ + rhs + ")"@
}

/// `lhs op rhs`.
pub open spec fn spaced(lhs: Seq<char>, op: Seq<char>, rhs: Seq<char>) -> Seq<char> {
    lhs + " "@ + op + " "@ + rhs
}

/// The ordering pattern a relational operator accepts.
pub open spec fn relational_pattern(k: BinOpKind) -> Seq<char> {
    match k {
        BinOpKind::Lt => "::std::cmp::Ordering::Less"@,
        BinOpKind::Lte => "::std::cmp::Ordering::Less | ::std::cmp::Ordering::Equal"@,
        BinOpKind::Gt => "::std::cmp::Ordering::Greater"@,
        _ => "::std::cmp::Ordering::Greater | ::std::cmp::Ordering::Equal"@,
    }
}

fn relational_pattern_text(k: &BinOpKind) -> (r: &'static str)
    ensures
        r@ == relational_pattern(*k),
{
    match k {
        BinOpKind::Lt => "::std::cmp::Ordering::Less",
        BinOpKind::Lte => "::std::cmp::Ordering::Less | ::std::cmp::Ordering::Equal",
        BinOpKind::Gt => "::std::cmp::Ordering::Greater",
        _ => "::std::cmp::Ordering::Greater | ::std::cmp::Ordering::Equal",
    }
}

fn negated_text(text: String, negate: bool) -> (r: String)
    ensures
        r@ == negated(text@, negate),
{
    if negate {
        wrap("!(", text.as_str(), ")")
    } else {
        text
    }
}

fn grouped_text(lhs: &str, op: &str, rhs: &str) -> (r: String)
    ensures
        r@ == grouped(lhs@, op@, rhs@),
{
    let mut s = wrap("(", lhs, ") ");
    s.append(op);
    s.append(" (");
    s.append(rhs);
    s.append(")");
    s
}

fn spaced_text(lhs: &str, op: &str, rhs: &str) -> (r: String)
    ensures
        r@ == spaced(lhs@, op@, rhs@),
{
    let mut s = suffixed(lhs, " ");
    s.append(op);
    s.append(" ");
    s.append(rhs);
    s
}

fn nullish_pattern_text(op: &Operand, strict_nullish: bool) -> (r: &'static str)
    ensures
        r@ == nullish_pattern(*op, strict_nullish),
{
    if strict_nullish {
        match &op.kind {
            OperandKind::Const(Constant::Undefined) => "SmeltUnknown::Undefined",
            _ => "SmeltUnknown::Null",
        }
    } else {
        "SmeltUnknown::Null | SmeltUnknown::Undefined"
    }
}

impl BinOpKind {
    pub fn equality(&self) -> (r: bool)
        ensures
            r == is_equality(*self),
    {
        match self {
            BinOpKind::Eq | BinOpKind::NotEq | BinOpKind::StrictEq | BinOpKind::StrictNotEq
            | BinOpKind::JsStrictEq | BinOpKind::JsStrictNotEq => true,
            _ => false,
        }
    }

    pub fn negates(&self) -> (r: bool)
        ensures
            r == is_negated(*self),
    {
        match self {
            BinOpKind::NotEq | BinOpKind::StrictNotEq | BinOpKind::JsStrictNotEq => true,
            _ => false,
        }
    }

    pub fn strict(&self) -> (r: bool)
        ensures
            r == is_strict(*self),
    {
        match self {
            BinOpKind::StrictEq | BinOpKind::StrictNotEq => true,
            _ => false,
        }
    }

    pub fn js_strict(&self) -> (r: bool)
        ensures
            r == is_js_strict(*self),
    {
        match self {
            BinOpKind::JsStrictEq | BinOpKind::JsStrictNotEq => true,
            _ => false,
        }
    }

    pub fn relational(&self) -> (r: bool)
        ensures
            r == is_relational(*self),
    {
        match self {
            BinOpKind::Lt | BinOpKind::Lte | BinOpKind::Gt | BinOpKind::Gte => true,
            _ => false,
        }
    }

    pub fn arithmetic(&self) -> (r: bool)
        ensures
            r == is_arithmetic(*self),
    {
        match self {
            BinOpKind::Add | BinOpKind::Sub | BinOpKind::Mul | BinOpKind::Div | BinOpKind::Rem => true,
            _ => false,
        }
    }
}

impl FunctionEmitter {
    pub open spec fn singleton_eq_spec(
        &self,
        option_text: Seq<char>,
        singleton: Operand,
        strict_nullish: bool,
        inner: usize,
    ) -> Seq<char> {
        let pattern = nullish_pattern(singleton, strict_nullish);
        let scrutinee = if self.concrete_union(inner) {
            "value.clone().into_smelt_unknown()"@
        } else {
            "value"@
        };
        let missing_matches = !strict_nullish || singleton.kind matches OperandKind::Const(
            Constant::Undefined,
        );
        if missing_matches {
            option_text + ".as_ref().map_or(true, |value| matches!("@ + scrutinee + ", "@ + pattern
                + "))"@
        } else {
            option_text + ".as_ref().is_some_and(|value| matches!("@ + scrutinee + ", "@ + pattern
                + "))"@
        }
    }

    /// Emits equality between `Option<SmeltUnknown>`-like storage and a
    /// JavaScript nullish singleton.
    pub fn optional_erased_singleton_equality_text(
        &self,
        option_text: &str,
        singleton: &Operand,
        strict_nullish: bool,
        inner: usize,
    ) -> (r: Result<String, EmitError>)
        ensures
            r matches Ok(t) ==> t@ == self.singleton_eq_spec(option_text@, *singleton, strict_nullish, inner),
            r is Ok,
    {
        let pattern = nullish_pattern_text(singleton, strict_nullish);
        let scrutinee = if self.is_concrete_union(inner) {
            "value.clone().into_smelt_unknown()"
        } else {
            "value"
        };
        let undefined = match &singleton.kind {
            OperandKind::Const(Constant::Undefined) => true,
            _ => false,
        };
        let mut s = if !strict_nullish || undefined {
            suffixed(option_text, ".as_ref().map_or(true, |value| matches!(")
        } else {
            suffixed(option_text, ".as_ref().is_some_and(|value| matches!(")
        };
        s.append(scrutinee);
        s.append(", ");
        s.append(pattern);
        s.append("))");
        Ok(s)
    }

    /// Structural equality of `left` and `right` at type `ty`, comparing
    /// function leaves by identity.
    pub open spec fn fbe_spec(&self, left: Seq<char>, right: Seq<char>, ty: usize) -> Option<Seq<char>>
        decreases ty,
    {
        match self.ty(ty) {
            Some(Type::Function(_)) => self.function_ptr_eq_spec(left, right, ty),
            Some(Type::List(item)) => if item < ty {
                match self.fbe_spec("left_item"@, "right_item"@, item) {
                    Some(ie) => Some(
                        left + ".len() == "@ + right + ".len() && "@ + self.list_read.render_spec(left)
                            + ".iter().zip("@ + self.list_read.render_spec(right)
                            + ".iter()).all(|(left_item, right_item)| "@ + ie + ")"@,
                    ),
                    None => None,
                }
            } else {
                None
            },
            Some(Type::Dict(key, value)) => if self.ty(key) == Some(Type::Str) {
                if value < ty {
                    match self.fbe_spec("left_value"@, "right_value"@, value) {
                        Some(ve) => Some(
                            left + ".len() == "@ + right + ".len() && "@ + left
                                + ".iter().all(|(key, left_value)| "@ + right
                                + ".get(&key).is_some_and(|right_value| "@ + ve + "))"@,
                        ),
                        None => None,
                    }
                } else {
                    None
                }
            } else {
                Some(left + " == "@ + right)
            },
            Some(Type::Optional(inner)) => if inner < ty {
                match self.fbe_spec("left_value"@, "right_value"@, inner) {
                    Some(ie) => Some(
                        "match ("@ + left + ".as_ref(), "@ + right
                            + ".as_ref()) { (Some(left_value), Some(right_value)) => "@ + ie
                            + ", (None, None) => true, _ => false }"@,
                    ),
                    None => None,
                }
            } else {
                None
            },
            _ => Some(left + " == "@ + right),
        }
    }

    /// Emits structural equality recursively while comparing function
    /// leaves by identity.
    pub fn function_bearing_equality_text(&self, left: &str, right: &str, ty: usize) -> (r: Result<
        String,
        EmitError,
    >)
        requires
            self.wf(),
        ensures
            r matches Ok(t) ==> self.fbe_spec(left@, right@, ty) == Some(t@),
            r is Err <==> self.fbe_spec(left@, right@, ty) is None,
        decreases ty,
    {
        proof {
            if ty < self.types.len() {
                assert(children_below(self.types@[ty as int], ty as int));
            }
        }
        match self.type_at(ty) {
            Some(Type::Function(_)) => self.function_ptr_eq_text(left, right, ty),
            Some(Type::List(item)) => {
                let ie = self.function_bearing_equality_text("left_item", "right_item", *item)?;
                let mut s = suffixed(left, ".len() == ");
                s.append(right);
                s.append(".len() && ");
                s.append(self.list_read.render(left).as_str());
                s.append(".iter().zip(");
                s.append(self.list_read.render(right).as_str());
                s.append(".iter()).all(|(left_item, right_item)| ");
                s.append(ie.as_str());
                s.append(")");
                Ok(s)
            },
            Some(Type::Dict(key, value)) => {
                if self.is_str_type(*key) {
                    let ve = self.function_bearing_equality_text("left_value", "right_value", *value)?;
                    let mut s = suffixed(left, ".len() == ");
                    s.append(right);
                    s.append(".len() && ");
                    s.append(left);
                    s.append(".iter().all(|(key, left_value)| ");
                    s.append(right);
                    s.append(".get(&key).is_some_and(|right_value| ");
                    s.append(ve.as_str());
                    s.append("))");
                    Ok(s)
                } else {
                    Ok(wrap(left, " == ", right))
                }
            },
            Some(Type::Optional(inner)) => {
                let ie = self.function_bearing_equality_text("left_value", "right_value", *inner)?;
                let mut s = wrap("match (", left, ".as_ref(), ");
                s.append(right);
                s.append(".as_ref()) { (Some(left_value), Some(right_value)) => ");
                s.append(ie.as_str());
                s.append(", (None, None) => true, _ => false }");
                Ok(s)
            },
            _ => Ok(wrap(left, " == ", right)),
        }
    }

    pub open spec fn contains_function(&self, ty: usize) -> bool {
        self.fact(ty) matches Some(f) && f.contains_function
    }

    pub open spec fn contains_unknown(&self, ty: usize) -> bool {
        self.fact(ty) matches Some(f) && f.contains_unknown
    }

    fn contains_function_exec(&self, ty: usize) -> (r: bool)
        ensures
            r == self.contains_function(ty),
    {
        match self.fact_at(ty) {
            Some(f) => f.contains_function,
            None => false,
        }
    }

    pub(crate) fn contains_unknown_exec(&self, ty: usize) -> (r: bool)
        ensures
            r == self.contains_unknown(ty),
    {
        match self.fact_at(ty) {
            Some(f) => f.contains_unknown,
            None => false,
        }
    }

    pub open spec fn function_equality_spec(&self, op: BinOp, lhs: Operand, rhs: Operand) -> Option<
        Option<Seq<char>>,
    > {
        if !is_equality(op.kind) {
            Some(None)
        } else if !self.contains_function(lhs.ty) && !self.contains_function(rhs.ty) {
            Some(None)
        } else {
            let eq = if lhs.ty == rhs.ty && self.contains_function(lhs.ty) && self.contains_function(
                rhs.ty,
            ) {
                self.fbe_spec(lhs.text@, rhs.text@, lhs.ty)
            } else {
                Some("false"@)
            };
            match eq {
                Some(e) => Some(Some(negated(e, is_negated(op.kind)))),
                None => None,
            }
        }
    }

    /// Emits equality for first-class callback values: identity for
    /// matching callback shapes, `false` for mismatched ones.
    pub fn function_equality_text(&self, op: &BinOp, lhs: &Operand, rhs: &Operand) -> (r: Result<
        Option<String>,
        EmitError,
    >)
        requires
            self.wf(),
        ensures
            r matches Ok(Some(t)) ==> self.function_equality_spec(*op, *lhs, *rhs) == Some(Some(t@)),
            r matches Ok(None) ==> self.function_equality_spec(*op, *lhs, *rhs) == Some(
                None::<Seq<char>>,
            ),
            r is Err <==> self.function_equality_spec(*op, *lhs, *rhs) is None,
    {
        if !op.kind.equality() {
            return Ok(None);
        }
        let lc = self.contains_function_exec(lhs.ty);
        let rc = self.contains_function_exec(rhs.ty);
        if !lc && !rc {
            return Ok(None);
        }
        let eq = if lhs.ty == rhs.ty && lc && rc {
            self.function_bearing_equality_text(lhs.text.as_str(), rhs.text.as_str(), lhs.ty)?
        } else {
            String::from_str("false")
        };
        Ok(Some(negated_text(eq, op.kind.negates())))
    }

    pub open spec fn numeric_comparison_spec(&self, op: BinOp, lhs: Operand, rhs: Operand, dest: usize) -> Option<
        Option<Seq<char>>,
    > {
        if !(op.kind is Eq || op.kind is NotEq || op.kind is JsStrictEq || op.kind is JsStrictNotEq
            || is_relational(op.kind)) {
            Some(None)
        } else if !self.numeric_spec(lhs.ty) || !self.numeric_spec(rhs.ty) {
            Some(None)
        } else {
            let common = match self.common_numeric_spec(lhs.ty, rhs.ty, dest) {
                None => None,
                Some(c) => if self.ty(c) == Some(Type::Int) && (has_infix(lhs.text@, " as f64"@)
                    || has_infix(rhs.text@, " as f64"@)) {
                    self.find_interned(Type::Float)
                } else {
                    Some(c)
                },
            };
            match common {
                None => None,
                Some(c) => match (
                    self.vat_spec(lhs.text@, lhs.ty, c, Seq::empty()),
                    self.vat_spec(rhs.text@, rhs.ty, c, Seq::empty()),
                ) {
                    (Some(l), Some(r)) => Some(Some(spaced(l, op.text@, r))),
                    _ => None,
                },
            }
        }
    }

    /// Emits an equality or relational comparison between two numeric
    /// operands, coercing both to a shared scalar type first.
    pub fn numeric_comparison_text(&self, op: &BinOp, lhs: &Operand, rhs: &Operand, dest_ty: usize) -> (r:
        Result<Option<String>, EmitError>)
        requires
            self.wf(),
        ensures
            r matches Ok(Some(t)) ==> self.numeric_comparison_spec(*op, *lhs, *rhs, dest_ty) == Some(
                Some(t@),
            ),
            r matches Ok(None) ==> self.numeric_comparison_spec(*op, *lhs, *rhs, dest_ty) == Some(
                None::<Seq<char>>,
            ),
            r is Err <==> self.numeric_comparison_spec(*op, *lhs, *rhs, dest_ty) is None,
    {
        let allowed = match op.kind {
            BinOpKind::Eq | BinOpKind::NotEq | BinOpKind::JsStrictEq | BinOpKind::JsStrictNotEq
            | BinOpKind::Lt | BinOpKind::Lte | BinOpKind::Gt | BinOpKind::Gte => true,
            _ => false,
        };
        if !allowed {
            return Ok(None);
        }
        if !self.is_numeric_type(lhs.ty) || !self.is_numeric_type(rhs.ty) {
            return Ok(None);
        }
        let mut common = self.common_numeric_type(lhs.ty, rhs.ty, dest_ty)?;
        let common_int = match self.type_at(common) {
            Some(Type::Int) => true,
            _ => false,
        };
        if common_int && (contains_str(lhs.text.as_str(), " as f64") || contains_str(
            rhs.text.as_str(),
            " as f64",
        )) {
            common = self.type_id(&Type::Float)?;
        }
        let l = self.value_at_type_text(lhs.text.as_str(), lhs.ty, common)?;
        let r = self.value_at_type_text(rhs.text.as_str(), rhs.ty, common)?;
        Ok(Some(spaced_text(l.as_str(), op.text.as_str(), r.as_str())))
    }
}


/// `ToNumber` of a string-valued expression.
pub open spec fn string_to_number(text: Seq<char>) -> Seq<char> {
    "("@ + text + ").parse::<f64>().unwrap_or(f64::NAN)"@
}

impl FunctionEmitter {
    /// An operand coerced to `f64`: a string side by `ToNumber`, any other
    /// side through the coercion seam.
    pub open spec fn number_side(&self, op: Operand, is_string: bool, float: usize) -> Option<Seq<char>> {
        if is_string {
            Some(string_to_number(op.text@))
        } else {
            self.vat_op_spec(op, float)
        }
    }

    pub open spec fn mixed_relational_spec(&self, op: BinOp, lhs: Operand, rhs: Operand) -> Option<
        Option<Seq<char>>,
    > {
        let ls = self.ty(lhs.ty) == Some(Type::Str);
        let rs = self.ty(rhs.ty) == Some(Type::Str);
        if !is_relational(op.kind) || ls == rs {
            Some(None)
        } else if !self.numeric_spec(if ls { rhs.ty } else { lhs.ty }) {
            Some(None)
        } else {
            match self.find_interned(Type::Float) {
                None => None,
                Some(f) => match (self.number_side(lhs, ls, f), self.number_side(rhs, rs, f)) {
                    (Some(l), Some(r)) => Some(Some(grouped(l, op.text@, r))),
                    _ => None,
                },
            }
        }
    }

    /// Emits a JavaScript relational comparison where exactly one operand is
    /// a string and the other is numeric: both sides compare as `f64`.
    pub fn mixed_string_number_relational_text(&self, op: &BinOp, lhs: &Operand, rhs: &Operand) -> (r:
        Result<Option<String>, EmitError>)
        requires
            self.wf(),
        ensures
            r matches Ok(Some(t)) ==> self.mixed_relational_spec(*op, *lhs, *rhs) == Some(Some(t@)),
            r matches Ok(None) ==> self.mixed_relational_spec(*op, *lhs, *rhs) == Some(
                None::<Seq<char>>,
            ),
            r is Err <==> self.mixed_relational_spec(*op, *lhs, *rhs) is None,
    {
        if !op.kind.relational() {
            return Ok(None);
        }
        let ls = self.is_str_type(lhs.ty);
        let rs = self.is_str_type(rhs.ty);
        if ls == rs {
            return Ok(None);
        }
        let numeric_side = if ls {
            rhs.ty
        } else {
            lhs.ty
        };
        if !self.is_numeric_type(numeric_side) {
            return Ok(None);
        }
        let f = self.type_id(&Type::Float)?;
        let l = if ls {
            wrap("(", lhs.text.as_str(), ").parse::<f64>().unwrap_or(f64::NAN)")
        } else {
            self.value_at_type(lhs, f)?
        };
        let r = if rs {
            wrap("(", rhs.text.as_str(), ").parse::<f64>().unwrap_or(f64::NAN)")
        } else {
            self.value_at_type(rhs, f)?
        };
        Ok(Some(grouped_text(l.as_str(), op.text.as_str(), r.as_str())))
    }

    pub open spec fn bare_relational_spec(&self, op: BinOp, lhs: Operand, rhs: Operand) -> Option<
        Option<Seq<char>>,
    > {
        let le = self.erased_relational_spec(lhs.ty);
        let re = self.erased_relational_spec(rhs.ty);
        if !is_relational(op.kind) {
            Some(None)
        } else if self.optional_inner_spec(lhs.ty) is Some || self.optional_inner_spec(rhs.ty) is Some {
            Some(None)
        } else if self.ty(lhs.ty) == Some(Type::Str) || self.ty(rhs.ty) == Some(Type::Str) {
            Some(None)
        } else if !le && !re {
            Some(None)
        } else if !(le || self.numeric_spec(lhs.ty)) || !(re || self.numeric_spec(rhs.ty)) {
            Some(None)
        } else if le && re {
            match (self.erase_op_spec(lhs), self.erase_op_spec(rhs)) {
                (Some(l), Some(r)) => Some(
                    Some(
                        "matches!(smelt_unknown_js_relational_ordering(&("@ + l + "), &("@ + r
                            + ")), Some("@ + relational_pattern(op.kind) + "))"@,
                    ),
                ),
                _ => None,
            }
        } else {
            match self.find_interned(Type::Float) {
                None => None,
                Some(f) => match (self.vat_op_spec(lhs, f), self.vat_op_spec(rhs, f)) {
                    (Some(l), Some(r)) => Some(Some(grouped(l, op.text@, r))),
                    _ => None,
                },
            }
        }
    }

    /// Emits a JavaScript relational comparison where a bare operand is
    /// erased and no side is a string: two erased sides go through the
    /// runtime abstract-relational helper, one erased side against a number
    /// compares as `f64`.
    pub fn bare_erased_relational_text(&self, op: &BinOp, lhs: &Operand, rhs: &Operand) -> (r: Result<
        Option<String>,
        EmitError,
    >)
        requires
            self.wf(),
        ensures
            r matches Ok(Some(t)) ==> self.bare_relational_spec(*op, *lhs, *rhs) == Some(Some(t@)),
            r matches Ok(None) ==> self.bare_relational_spec(*op, *lhs, *rhs) == Some(
                None::<Seq<char>>,
            ),
            r is Err <==> self.bare_relational_spec(*op, *lhs, *rhs) is None,
    {
        if !op.kind.relational() {
            return Ok(None);
        }
        if self.optional_inner_ty(lhs.ty).is_some() || self.optional_inner_ty(rhs.ty).is_some() {
            return Ok(None);
        }
        if self.is_str_type(lhs.ty) || self.is_str_type(rhs.ty) {
            return Ok(None);
        }
        let le = self.is_erased_relational(lhs.ty);
        let re = self.is_erased_relational(rhs.ty);
        if !le && !re {
            return Ok(None);
        }
        if !(le || self.is_numeric_type(lhs.ty)) || !(re || self.is_numeric_type(rhs.ty)) {
            return Ok(None);
        }
        if le && re {
            let l = self.erase(lhs)?;
            let r = self.erase(rhs)?;
            let mut s = wrap("matches!(smelt_unknown_js_relational_ordering(&(", l.as_str(), "), &(");
            s.append(r.as_str());
            s.append(")), Some(");
            s.append(relational_pattern_text(&op.kind));
            s.append("))");
            return Ok(Some(s));
        }
        let f = self.type_id(&Type::Float)?;
        let l = self.value_at_type(lhs, f)?;
        let r = self.value_at_type(rhs, f)?;
        Ok(Some(grouped_text(l.as_str(), op.text.as_str(), r.as_str())))
    }

    /// The borrowed erased right-hand side of a JavaScript equality.
    pub open spec fn rhs_reference(&self, rhs: Operand) -> Option<Seq<char>> {
        if self.ty(rhs.ty) == Some(Type::Unknown) {
            Some("&"@ + rhs.borrow_text@)
        } else {
            match self.erase_op_spec(rhs) {
                Some(e) => Some("&"@ + e),
                None => None,
            }
        }
    }

    pub open spec fn unknown_binary_spec(&self, op: BinOp, lhs: Operand, rhs: Operand) -> Option<
        Option<Seq<char>>,
    > {
        let le = self.erased_relational_spec(lhs.ty);
        let re = self.erased_relational_spec(rhs.ty);
        let ln = self.ty(lhs.ty) == Some(Type::Nullish);
        let rn = self.ty(rhs.ty) == Some(Type::Nullish);
        let strict = is_strict(op.kind);
        let js = is_js_strict(op.kind);
        let sn = strict || js;
        let neg = is_negated(op.kind);
        if !is_equality(op.kind) {
            Some(None)
        } else if ln && rn {
            if sn {
                let distinct = (lhs.kind matches OperandKind::Const(Constant::Null) && rhs.kind matches OperandKind::Const(
                    Constant::Undefined,
                )) || (lhs.kind matches OperandKind::Const(Constant::Undefined) && rhs.kind matches OperandKind::Const(
                    Constant::Null,
                ));
                Some(Some(negated(if distinct { "false"@ } else { "true"@ }, neg)))
            } else {
                Some(Some(negated("true"@, neg)))
            }
        } else if le && rn {
            Some(Some(negated("matches!("@ + lhs.text@ + ", "@ + nullish_pattern(rhs, sn) + ")"@, neg)))
        } else if re && ln {
            Some(Some(negated("matches!("@ + rhs.text@ + ", "@ + nullish_pattern(lhs, sn) + ")"@, neg)))
        } else if ln || rn {
            Some(Some(negated("false"@, neg)))
        } else if le || re {
            match (self.erase_op_spec(lhs), self.rhs_reference(rhs), self.erase_op_spec(rhs)) {
                (Some(l), Some(rr), Some(r)) => Some(
                    Some(
                        negated(
                            if js {
                                l + ".js_strict_eq("@ + rr + ")"@
                            } else if strict {
                                l + ".same_js_key("@ + rr + ")"@
                            } else {
                                l + " == "@ + r
                            },
                            neg,
                        ),
                    ),
                ),
                _ => None,
            }
        } else {
            Some(None)
        }
    }

    /// Emits equality checks for erased `SmeltUnknown` operands and for the
    /// JavaScript nullish singletons.
    pub fn unknown_binary_text(&self, op: &BinOp, lhs: &Operand, rhs: &Operand) -> (r: Result<
        Option<String>,
        EmitError,
    >)
        requires
            self.wf(),
        ensures
            r matches Ok(Some(t)) ==> self.unknown_binary_spec(*op, *lhs, *rhs) == Some(Some(t@)),
            r matches Ok(None) ==> self.unknown_binary_spec(*op, *lhs, *rhs) == Some(
                None::<Seq<char>>,
            ),
            r is Err <==> self.unknown_binary_spec(*op, *lhs, *rhs) is None,
    {
        if !op.kind.equality() {
            return Ok(None);
        }
        let le = self.is_erased_relational(lhs.ty);
        let re = self.is_erased_relational(rhs.ty);
        let ln = self.is_nullish_type(lhs.ty);
        let rn = self.is_nullish_type(rhs.ty);
        let strict = op.kind.strict();
        let js = op.kind.js_strict();
        let sn = strict || js;
        let neg = op.kind.negates();
        let text = if ln && rn {
            if sn {
                let ln_null = match &lhs.kind {
                    OperandKind::Const(Constant::Null) => true,
                    _ => false,
                };
                let ln_undef = match &lhs.kind {
                    OperandKind::Const(Constant::Undefined) => true,
                    _ => false,
                };
                let rn_null = match &rhs.kind {
                    OperandKind::Const(Constant::Null) => true,
                    _ => false,
                };
                let rn_undef = match &rhs.kind {
                    OperandKind::Const(Constant::Undefined) => true,
                    _ => false,
                };
                let distinct = (ln_null && rn_undef) || (ln_undef && rn_null);
                if distinct {
                    String::from_str("false")
                } else {
                    String::from_str("true")
                }
            } else {
                String::from_str("true")
            }
        } else if le && rn {
            let mut s = wrap("matches!(", lhs.text.as_str(), ", ");
            s.append(nullish_pattern_text(rhs, sn));
            s.append(")");
            s
        } else if re && ln {
            let mut s = wrap("matches!(", rhs.text.as_str(), ", ");
            s.append(nullish_pattern_text(lhs, sn));
            s.append(")");
            s
        } else if ln || rn {
            String::from_str("false")
        } else if le || re {
            let l = self.erase(lhs)?;
            let rr = if self.is_unknown_type(rhs.ty) {
                suffixed("&", rhs.borrow_text.as_str())
            } else {
                let e = self.erase(rhs)?;
                suffixed("&", e.as_str())
            };
            let r = self.erase(rhs)?;
            if js {
                wrap(l.as_str(), ".js_strict_eq(", rr.as_str()).concat(")")
            } else if strict {
                wrap(l.as_str(), ".same_js_key(", rr.as_str()).concat(")")
            } else {
                wrap(l.as_str(), " == ", r.as_str())
            }
        } else {
            return Ok(None);
        };
        Ok(Some(negated_text(text, neg)))
    }
}


/// The JavaScript `SameValue` check of two `f64` expressions.
pub open spec fn same_value_spec(lhs: Seq<char>, rhs: Seq<char>) -> Seq<char> {
    "{ let lhs: f64 = "@ + lhs + "; let rhs: f64 = "@ + rhs
        + "; (lhs.is_nan() && rhs.is_nan()) || (lhs == rhs && (lhs != 0.0 || lhs.is_sign_negative() == rhs.is_sign_negative())) }"@
}

impl FunctionEmitter {
    pub open spec fn strict_identity_spec(&self, op: BinOp, lhs: Operand, rhs: Operand) -> Option<
        Option<Seq<char>>,
    > {
        let eq = if self.numeric_spec(lhs.ty) && self.numeric_spec(rhs.ty) {
            Some(Some(same_value_spec(lhs.float_text@, rhs.float_text@)))
        } else if self.is_function_ty(lhs.ty) && self.is_function_ty(rhs.ty) && lhs.ty == rhs.ty {
            match self.function_ptr_eq_spec(lhs.text@, rhs.text@, lhs.ty) {
                Some(t) => Some(Some(t)),
                None => None,
            }
        } else if self.reference_spec(lhs.ty) || self.reference_spec(rhs.ty) {
            match (
                self.reference_identity_spec(lhs.text@, lhs.ty),
                self.reference_identity_spec(rhs.text@, rhs.ty),
            ) {
                (Some(l), Some(r)) => Some(Some(l + " == "@ + r)),
                _ => Some(Some("false"@)),
            }
        } else {
            Some(None)
        };
        if !is_strict(op.kind) {
            Some(None)
        } else {
            match eq {
                Some(Some(e)) => Some(Some(negated(e, op.kind is StrictNotEq))),
                other => other,
            }
        }
    }

    /// Emits JavaScript `SameValue` checks for numeric values and identity
    /// checks for reference values.
    pub fn strict_identity_text(&self, op: &BinOp, lhs: &Operand, rhs: &Operand) -> (r: Result<
        Option<String>,
        EmitError,
    >)
        ensures
            r matches Ok(Some(t)) ==> self.strict_identity_spec(*op, *lhs, *rhs) == Some(Some(t@)),
            r matches Ok(None) ==> self.strict_identity_spec(*op, *lhs, *rhs) == Some(
                None::<Seq<char>>,
            ),
            r is Err <==> self.strict_identity_spec(*op, *lhs, *rhs) is None,
    {
        if !op.kind.strict() {
            return Ok(None);
        }
        let eq = if self.is_numeric_type(lhs.ty) && self.is_numeric_type(rhs.ty) {
            let mut s = wrap("{ let lhs: f64 = ", lhs.float_text.as_str(), "; let rhs: f64 = ");
            s.append(rhs.float_text.as_str());
            s.append(
                "; (lhs.is_nan() && rhs.is_nan()) || (lhs == rhs && (lhs != 0.0 || lhs.is_sign_negative() == rhs.is_sign_negative())) }",
            );
            s
        } else if self.is_function_type(lhs.ty) && self.is_function_type(rhs.ty) && lhs.ty == rhs.ty {
            self.function_ptr_eq_text(lhs.text.as_str(), rhs.text.as_str(), lhs.ty)?
        } else if self.is_reference_type(lhs.ty) || self.is_reference_type(rhs.ty) {
            match (
                self.reference_identity_text(lhs.text.as_str(), lhs.ty),
                self.reference_identity_text(rhs.text.as_str(), rhs.ty),
            ) {
                (Some(l), Some(r)) => wrap(l.as_str(), " == ", r.as_str()),
                _ => String::from_str("false"),
            }
        } else {
            return Ok(None);
        };
        let not = match op.kind {
            BinOpKind::StrictNotEq => true,
            _ => false,
        };
        Ok(Some(negated_text(eq, not)))
    }

    /// A side that needs the erased representation for a structural
    /// comparison.
    pub open spec fn needs_erased(&self, ty: usize) -> bool {
        self.contains_unknown(ty) || self.erased_kind(ty) || self.erased_class(ty)
    }

    pub open spec fn heterogeneous_spec(&self, op: BinOp, lhs: Operand, rhs: Operand) -> Option<
        Option<Seq<char>>,
    > {
        if !is_equality(op.kind) || lhs.ty == rhs.ty {
            Some(None)
        } else if self.incompatible_spec(lhs.ty, rhs.ty) {
            Some(Some(negated("false"@, is_negated(op.kind))))
        } else {
            let ln = self.needs_erased(lhs.ty);
            let rn = self.needs_erased(rhs.ty);
            let text = if ln && !rn {
                match self.vat_op_spec(rhs, lhs.ty) {
                    Some(r) => Some(Some(lhs.text@ + " == "@ + r)),
                    None => None,
                }
            } else if rn && !ln {
                if (self.ty(lhs.ty) matches Some(Type::Tuple(_))) && (self.ty(rhs.ty) matches Some(
                    Type::List(_),
                )) {
                    match (self.erase_op_spec(lhs), self.erase_op_spec(rhs)) {
                        (Some(l), Some(r)) => Some(Some(l + " == "@ + r)),
                        _ => None,
                    }
                } else {
                    match self.vat_op_spec(lhs, rhs.ty) {
                        Some(l) => Some(Some(l + " == "@ + rhs.text@)),
                        None => None,
                    }
                }
            } else {
                Some(None)
            };
            match text {
                Some(Some(t)) => Some(Some(negated(t, op.kind is NotEq))),
                other => other,
            }
        }
    }

    /// Emits equality for structurally compatible values with erased
    /// members, coercing the concrete side into the erased shape.
    pub fn heterogeneous_equality_text(&self, op: &BinOp, lhs: &Operand, rhs: &Operand) -> (r: Result<
        Option<String>,
        EmitError,
    >)
        requires
            self.wf(),
        ensures
            r matches Ok(Some(t)) ==> self.heterogeneous_spec(*op, *lhs, *rhs) == Some(Some(t@)),
            r matches Ok(None) ==> self.heterogeneous_spec(*op, *lhs, *rhs) == Some(None::<Seq<char>>),
            r is Err <==> self.heterogeneous_spec(*op, *lhs, *rhs) is None,
    {
        if !op.kind.equality() || lhs.ty == rhs.ty {
            return Ok(None);
        }
        if self.equality_shapes_are_definitely_incompatible(lhs.ty, rhs.ty) {
            return Ok(Some(negated_text(String::from_str("false"), op.kind.negates())));
        }
        let ln = self.contains_unknown_exec(lhs.ty) || self.is_erased_kind(lhs.ty)
            || self.is_erased_class_type(lhs.ty);
        let rn = self.contains_unknown_exec(rhs.ty) || self.is_erased_kind(rhs.ty)
            || self.is_erased_class_type(rhs.ty);
        let text = if ln && !rn {
            let r = self.value_at_type(rhs, lhs.ty)?;
            wrap(lhs.text.as_str(), " == ", r.as_str())
        } else if rn && !ln {
            let tuple_list = match (self.type_at(lhs.ty), self.type_at(rhs.ty)) {
                (Some(Type::Tuple(_)), Some(Type::List(_))) => true,
                _ => false,
            };
            if tuple_list {
                let l = self.erase(lhs)?;
                let r = self.erase(rhs)?;
                wrap(l.as_str(), " == ", r.as_str())
            } else {
                let l = self.value_at_type(lhs, rhs.ty)?;
                wrap(l.as_str(), " == ", rhs.text.as_str())
            }
        } else {
            return Ok(None);
        };
        let not = match op.kind {
            BinOpKind::NotEq => true,
            _ => false,
        };
        Ok(Some(negated_text(text, not)))
    }
}


impl FunctionEmitter {
    pub open spec fn optional_equality_spec(
        &self,
        op: BinOp,
        lhs: Operand,
        rhs: Operand,
        li: Option<usize>,
        ri: Option<usize>,
    ) -> Option<Option<Seq<char>>> {
        let neg = is_negated(op.kind);
        let strict = is_strict(op.kind);
        let sn = strict || is_js_strict(op.kind);
        if strict && li is Some && ri is Some && self.reference_identity_spec("left"@, li->0) is Some
            && self.reference_identity_spec("right"@, ri->0) is Some {
            Some(
                Some(
                    negated(
                        "match ("@ + lhs.text@ + ".as_ref(), "@ + rhs.text@
                            + ".as_ref()) { (Some(left), Some(right)) => "@
                            + self.reference_identity_spec("left"@, li->0)->0 + " == "@
                            + self.reference_identity_spec("right"@, ri->0)->0
                            + ", (None, None) => true, _ => false }"@,
                        neg,
                    ),
                ),
            )
        } else if strict && (li is Some != ri is Some) && self.one_sided_identity(lhs, rhs, li, ri) is Some {
            Some(Some(negated(self.one_sided_identity(lhs, rhs, li, ri)->0, neg)))
        } else if li is Some && rhs.ty == self.none_ty {
            if self.preserves_singletons_spec(li->0) {
                Some(Some(negated(self.singleton_eq_spec(lhs.text@, rhs, sn, li->0), neg)))
            } else {
                Some(Some(negated(lhs.text@ + ".is_none()"@, neg)))
            }
        } else if ri is Some && lhs.ty == self.none_ty {
            if self.preserves_singletons_spec(ri->0) {
                Some(Some(negated(self.singleton_eq_spec(rhs.text@, lhs, sn, ri->0), neg)))
            } else {
                Some(Some(negated(rhs.text@ + ".is_none()"@, neg)))
            }
        } else if li is Some && ri is None {
            match self.vat_op_spec(rhs, li->0) {
                Some(r) => Some(Some(negated(lhs.text@ + " == Some("@ + r + ")"@, neg))),
                None => None,
            }
        } else if ri is Some && li is None {
            match self.vat_op_spec(lhs, ri->0) {
                Some(l) => Some(Some(negated("Some("@ + l + ") == "@ + rhs.text@, neg))),
                None => None,
            }
        } else {
            Some(None)
        }
    }

    /// With exactly one optional side holding reference values: the identity
    /// comparison of its present value against the bare side.
    pub open spec fn one_sided_identity(&self, lhs: Operand, rhs: Operand, li: Option<usize>, ri: Option<usize>) -> Option<
        Seq<char>,
    > {
        let (opt, inner, bare) = if li is Some {
            (lhs, li->0, rhs)
        } else {
            (rhs, ri->0, lhs)
        };
        match (
            self.reference_identity_spec("value"@, inner),
            self.reference_identity_spec(bare.text@, bare.ty),
        ) {
            (Some(i), Some(b)) => Some(opt.text@ + ".as_ref().is_some_and(|value| "@ + i + " == "@ + b + ")"@),
            _ => None,
        }
    }

    /// Emits equality and inequality for optional operands.
    pub fn optional_equality_text(
        &self,
        op: &BinOp,
        lhs: &Operand,
        rhs: &Operand,
        lhs_inner: Option<usize>,
        rhs_inner: Option<usize>,
    ) -> (r: Result<Option<String>, EmitError>)
        requires
            self.wf(),
        ensures
            r matches Ok(Some(t)) ==> self.optional_equality_spec(*op, *lhs, *rhs, lhs_inner, rhs_inner)
                == Some(Some(t@)),
            r matches Ok(None) ==> self.optional_equality_spec(*op, *lhs, *rhs, lhs_inner, rhs_inner)
                == Some(None::<Seq<char>>),
            r is Err <==> self.optional_equality_spec(*op, *lhs, *rhs, lhs_inner, rhs_inner) is None,
    {
        let neg = op.kind.negates();
        let strict = op.kind.strict();
        let sn = strict || op.kind.js_strict();
        if strict {
            if let (Some(li), Some(ri)) = (lhs_inner, rhs_inner) {
                if let (Some(lid), Some(rid)) = (
                    self.reference_identity_text("left", li),
                    self.reference_identity_text("right", ri),
                ) {
                    let mut s = wrap("match (", lhs.text.as_str(), ".as_ref(), ");
                    s.append(rhs.text.as_str());
                    s.append(".as_ref()) { (Some(left), Some(right)) => ");
                    s.append(lid.as_str());
                    s.append(" == ");
                    s.append(rid.as_str());
                    s.append(", (None, None) => true, _ => false }");
                    return Ok(Some(negated_text(s, neg)));
                }
            }
            let pair = match (lhs_inner, rhs_inner) {
                (Some(inner), None) => Some((lhs, inner, rhs)),
                (None, Some(inner)) => Some((rhs, inner, lhs)),
                _ => None,
            };
            if let Some((opt, inner, bare)) = pair {
                if let (Some(i), Some(b)) = (
                    self.reference_identity_text("value", inner),
                    self.reference_identity_text(bare.text.as_str(), bare.ty),
                ) {
                    let mut s = suffixed(opt.text.as_str(), ".as_ref().is_some_and(|value| ");
                    s.append(i.as_str());
                    s.append(" == ");
                    s.append(b.as_str());
                    s.append(")");
                    return Ok(Some(negated_text(s, neg)));
                }
            }
        }
        let text = if lhs_inner.is_some() && rhs.ty == self.none_ty {
            let inner = lhs_inner.unwrap();
            if self.optional_inner_preserves_erased_singletons(inner) {
                self.optional_erased_singleton_equality_text(lhs.text.as_str(), rhs, sn, inner)?
            } else {
                suffixed(lhs.text.as_str(), ".is_none()")
            }
        } else if rhs_inner.is_some() && lhs.ty == self.none_ty {
            let inner = rhs_inner.unwrap();
            if self.optional_inner_preserves_erased_singletons(inner) {
                self.optional_erased_singleton_equality_text(rhs.text.as_str(), lhs, sn, inner)?
            } else {
                suffixed(rhs.text.as_str(), ".is_none()")
            }
        } else if lhs_inner.is_some() && rhs_inner.is_none() {
            let r = self.value_at_type(rhs, lhs_inner.unwrap())?;
            let mut s = suffixed(lhs.text.as_str(), " == Some(");
            s.append(r.as_str());
            s.append(")");
            s
        } else if rhs_inner.is_some() && lhs_inner.is_none() {
            let l = self.value_at_type(lhs, rhs_inner.unwrap())?;
            let mut s = wrap("Some(", l.as_str(), ") == ");
            s.append(rhs.text.as_str());
            s
        } else {
            return Ok(None);
        };
        Ok(Some(negated_text(text, neg)))
    }

    /// One side of an optional relational comparison, coerced to `f64`.
    pub open spec fn optional_side(&self, op: Operand, inner: Option<usize>, unknown: usize, float: usize) -> Option<
        Seq<char>,
    > {
        match inner {
            Some(i) => if self.erased_relational_spec(i) {
                match self.erase_op_spec(op) {
                    Some(e) => self.vat_spec(e, unknown, float, Seq::empty()),
                    None => None,
                }
            } else {
                self.vat_spec(self.option_value_spec(op, i), i, float, Seq::empty())
            },
            None => self.vat_op_spec(op, float),
        }
    }

    /// The side of a relational comparison holds a string.
    pub open spec fn side_is_string(&self, ty: usize, inner: Option<usize>) -> bool {
        self.ty(ty) == Some(Type::Str) || (inner is Some && self.ty(inner->0) == Some(Type::Str))
    }

    /// The side of a relational comparison holds an erased value.
    pub open spec fn side_erased(&self, ty: usize, inner: Option<usize>) -> bool {
        match inner {
            Some(i) => self.erased_relational_spec(i),
            None => self.erased_relational_spec(ty),
        }
    }

    pub open spec fn optional_binary_spec(&self, op: BinOp, lhs: Operand, rhs: Operand, dest: usize) -> Option<
        Option<Seq<char>>,
    > {
        let li = self.optional_inner_spec(lhs.ty);
        let ri = self.optional_inner_spec(rhs.ty);
        if li is None && ri is None {
            Some(None)
        } else if is_equality(op.kind) {
            self.optional_equality_spec(op, lhs, rhs, li, ri)
        } else if is_relational(op.kind) && (self.side_erased(lhs.ty, li) || self.side_erased(
            rhs.ty,
            ri,
        )) && !self.side_is_string(lhs.ty, li) && !self.side_is_string(rhs.ty, ri) {
            match (self.find_interned(Type::Float), self.find_interned(Type::Unknown)) {
                (Some(f), Some(u)) => match (
                    self.optional_side(lhs, li, u, f),
                    self.optional_side(rhs, ri, u, f),
                ) {
                    (Some(l), Some(r)) => Some(Some(grouped(l, op.text@, r))),
                    _ => None,
                },
                _ => None,
            }
        } else if li is Some && ri is None && self.numeric_spec(li->0) && self.numeric_spec(rhs.ty) {
            match self.common_numeric_spec(li->0, rhs.ty, dest) {
                None => None,
                Some(c) => match (
                    self.vat_spec(self.option_value_spec(lhs, li->0), li->0, c, Seq::empty()),
                    self.vat_op_spec(rhs, c),
                ) {
                    (Some(l), Some(r)) => Some(Some(spaced(l, op.text@, r))),
                    _ => None,
                },
            }
        } else if ri is Some && li is None && self.numeric_spec(lhs.ty) && self.numeric_spec(ri->0) {
            match self.common_numeric_spec(lhs.ty, ri->0, dest) {
                None => None,
                Some(c) => match (
                    self.vat_op_spec(lhs, c),
                    self.vat_spec(self.option_value_spec(rhs, ri->0), ri->0, c, Seq::empty()),
                ) {
                    (Some(l), Some(r)) => Some(Some(spaced(l, op.text@, r))),
                    _ => None,
                },
            }
        } else {
            Some(None)
        }
    }

    fn optional_side_text(&self, op: &Operand, inner: Option<usize>, unknown: usize, float: usize) -> (r:
        Result<String, EmitError>)
        requires
            self.wf(),
        ensures
            r matches Ok(t) ==> self.optional_side(*op, inner, unknown, float) == Some(t@),
            r is Err <==> self.optional_side(*op, inner, unknown, float) is None,
    {
        match inner {
            Some(i) => {
                if self.is_erased_relational(i) {
                    let e = self.erase(op)?;
                    self.value_at_type_text(e.as_str(), unknown, float)
                } else {
                    self.option_value_as_type_text(op, i, float)
                }
            },
            None => self.value_at_type(op, float),
        }
    }

    /// Emits binary operations involving `Option<T>` by coercing through the
    /// optional's inner type.
    pub fn optional_binary_text(&self, op: &BinOp, lhs: &Operand, rhs: &Operand, dest_ty: usize) -> (r:
        Result<Option<String>, EmitError>)
        requires
            self.wf(),
        ensures
            r matches Ok(Some(t)) ==> self.optional_binary_spec(*op, *lhs, *rhs, dest_ty) == Some(Some(t@)),
            r matches Ok(None) ==> self.optional_binary_spec(*op, *lhs, *rhs, dest_ty) == Some(
                None::<Seq<char>>,
            ),
            r is Err <==> self.optional_binary_spec(*op, *lhs, *rhs, dest_ty) is None,
    {
        let li = self.optional_inner_ty(lhs.ty);
        let ri = self.optional_inner_ty(rhs.ty);
        if li.is_none() && ri.is_none() {
            return Ok(None);
        }
        if op.kind.equality() {
            return self.optional_equality_text(op, lhs, rhs, li, ri);
        }
        if op.kind.relational() {
            let ls = self.is_str_type(lhs.ty) || match li {
                Some(i) => self.is_str_type(i),
                None => false,
            };
            let rs = self.is_str_type(rhs.ty) || match ri {
                Some(i) => self.is_str_type(i),
                None => false,
            };
            let le = match li {
                Some(i) => self.is_erased_relational(i),
                None => self.is_erased_relational(lhs.ty),
            };
            let re = match ri {
                Some(i) => self.is_erased_relational(i),
                None => self.is_erased_relational(rhs.ty),
            };
            if (le || re) && !ls && !rs {
                let f = self.type_id(&Type::Float)?;
                let u = self.type_id(&Type::Unknown)?;
                let l = self.optional_side_text(lhs, li, u, f)?;
                let r = self.optional_side_text(rhs, ri, u, f)?;
                return Ok(Some(grouped_text(l.as_str(), op.text.as_str(), r.as_str())));
            }
        }
        if li.is_some() && ri.is_none() {
            let inner = li.unwrap();
            if self.is_numeric_type(inner) && self.is_numeric_type(rhs.ty) {
                let c = self.common_numeric_type(inner, rhs.ty, dest_ty)?;
                let l = self.option_value_as_type_text(lhs, inner, c)?;
                let r = self.value_at_type(rhs, c)?;
                return Ok(Some(spaced_text(l.as_str(), op.text.as_str(), r.as_str())));
            }
        }
        if ri.is_some() && li.is_none() {
            let inner = ri.unwrap();
            if self.is_numeric_type(lhs.ty) && self.is_numeric_type(inner) {
                let c = self.common_numeric_type(lhs.ty, inner, dest_ty)?;
                let l = self.value_at_type(lhs, c)?;
                let r = self.option_value_as_type_text(rhs, inner, c)?;
                return Ok(Some(spaced_text(l.as_str(), op.text.as_str(), r.as_str())));
            }
        }
        Ok(None)
    }

    pub open spec fn erased_arithmetic_spec(&self, op: BinOp, lhs: Operand, rhs: Operand, dest: usize) -> Option<
        Option<Seq<char>>,
    > {
        let le = self.erased_kind(lhs.ty) || self.erased_class(lhs.ty);
        let re = self.erased_kind(rhs.ty) || self.erased_class(rhs.ty);
        let non_add_string = !(op.kind is Add) && (self.ty(lhs.ty) == Some(Type::Str) || self.ty(
            rhs.ty,
        ) == Some(Type::Str));
        if !is_arithmetic(op.kind) || (!le && !re && !non_add_string) {
            Some(None)
        } else {
            match self.find_interned(Type::Float) {
                None => None,
                Some(f) => match (self.vat_op_spec(lhs, f), self.vat_op_spec(rhs, f)) {
                    (Some(l), Some(r)) => {
                        let numeric = spaced(l, op.text@, r);
                        if self.ty(dest) == Some(Type::Int) {
                            Some(Some("("@ + paren(numeric, true) + " as f64).trunc() as i64"@))
                        } else if self.ty(dest) == Some(Type::Float) {
                            Some(Some(numeric))
                        } else if self.ty(dest) == Some(Type::Str) {
                            Some(Some(paren(numeric, true) + ".to_string()"@))
                        } else {
                            Some(Some("SmeltUnknown::Number("@ + numeric + ")"@))
                        }
                    },
                    _ => None,
                },
            }
        }
    }

    /// Emits arithmetic involving erased operands through JavaScript-like
    /// numbers, then reads the `f64` result at the destination type.
    pub fn erased_arithmetic_text(&self, op: &BinOp, lhs: &Operand, rhs: &Operand, dest_ty: usize) -> (r:
        Result<Option<String>, EmitError>)
        requires
            self.wf(),
        ensures
            r matches Ok(Some(t)) ==> self.erased_arithmetic_spec(*op, *lhs, *rhs, dest_ty) == Some(
                Some(t@),
            ),
            r matches Ok(None) ==> self.erased_arithmetic_spec(*op, *lhs, *rhs, dest_ty) == Some(
                None::<Seq<char>>,
            ),
            r is Err <==> self.erased_arithmetic_spec(*op, *lhs, *rhs, dest_ty) is None,
    {
        if !op.kind.arithmetic() {
            return Ok(None);
        }
        let le = self.is_erased_kind(lhs.ty) || self.is_erased_class_type(lhs.ty);
        let re = self.is_erased_kind(rhs.ty) || self.is_erased_class_type(rhs.ty);
        let is_add = match op.kind {
            BinOpKind::Add => true,
            _ => false,
        };
        let non_add_string = !is_add && (self.is_str_type(lhs.ty) || self.is_str_type(rhs.ty));
        if !le && !re && !non_add_string {
            return Ok(None);
        }
        let f = self.type_id(&Type::Float)?;
        let l = self.value_at_type(lhs, f)?;
        let r = self.value_at_type(rhs, f)?;
        let numeric = spaced_text(l.as_str(), op.text.as_str(), r.as_str());
        match self.type_at(dest_ty) {
            Some(Type::Int) => {
                let p = crate::erase::paren_text(numeric.as_str(), true);
                Ok(Some(wrap("(", p.as_str(), " as f64).trunc() as i64")))
            },
            Some(Type::Float) => Ok(Some(numeric)),
            Some(Type::Str) => {
                let p = crate::erase::paren_text(numeric.as_str(), true);
                Ok(Some(suffixed(p.as_str(), ".to_string()")))
            },
            _ => Ok(Some(self.erase_f64_text(numeric.as_str()))),
        }
    }
}

} // verus!
