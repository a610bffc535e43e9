//! Binary and unary rvalues: the binary rules tried in turn, from optional
//! and erased operands through identity, strings, floats nested in
//! containers and mixed comparisons, to plain arithmetic, logic, shifts and
//! bitwise operators on JavaScript numbers.

use vstd::prelude::*;
use crate::binary_text::{is_arithmetic, is_equality, is_negated, BinOp, BinOpKind};
use crate::emitter::{EmitError, FloatEquality, FunctionEmitter};
use crate::erase::wrap;
use crate::mir::{Operand, UnaryOp};
use crate::types::Type;

verus! {

/// The first entry of `table` for operand types `lhs` and `rhs` and a
/// negated or plain equality.
pub open spec fn float_equality_in(table: Seq<FloatEquality>, lhs: usize, rhs: usize, negated: bool) -> Option<
    FloatEquality,
>
    decreases table.len(),
{
    if table.len() == 0 {
        None
    } else if table[0].lhs == lhs && table[0].rhs == rhs && table[0].negated == negated {
        Some(table[0])
    } else {
        float_equality_in(table.drop_first(), lhs, rhs, negated)
    }
}

/// `>>>` on two truncated numbers: both taken modulo 2^32 as unsigned, the
/// count masked to five bits.
pub open spec fn ushr_text(lt: Seq<char>, rt: Seq<char>) -> Seq<char> {
    "{ let smelt_shift_value = "@ + lt
        + "; let smelt_shift_value = if smelt_shift_value.is_finite() { smelt_shift_value.rem_euclid(4294967296.0) as u32 } else { 0_u32 }; let smelt_shift_count = "@
        + rt
        + "; let smelt_shift_count = if smelt_shift_count.is_finite() { smelt_shift_count.rem_euclid(4294967296.0) as u32 } else { 0_u32 }; (smelt_shift_value >> (smelt_shift_count & 31)) as f64 }"@
}

/// `<<` or `>>` on two truncated numbers, widened to `i128` and cast back.
pub open spec fn shift_text(lt: Seq<char>, op: Seq<char>, rt: Seq<char>, cast: Seq<char>) -> Seq<char> {
    "(("@ + lt + " as i128) "@ + op + " (("@ + rt + " as u32).min(127))) as "@ + cast
}

/// A bitwise operator on two numbers converted to 32-bit integers.
pub open spec fn bitwise_text(lt: Seq<char>, op: Seq<char>, rt: Seq<char>, cast: Seq<char>) -> Seq<char> {
    "({ let smelt_bit_lhs = { let smelt_bit_v = "@ + lt
        + "; if smelt_bit_v.is_finite() { smelt_bit_v.trunc().rem_euclid(4294967296.0) as u32 as i32 } else { 0_i32 } }; let smelt_bit_rhs = { let smelt_bit_v = "@
        + rt
        + "; if smelt_bit_v.is_finite() { smelt_bit_v.trunc().rem_euclid(4294967296.0) as u32 as i32 } else { 0_i32 } }; (smelt_bit_lhs "@
        + op + " smelt_bit_rhs) as "@ + cast + " })"@
}

impl FunctionEmitter {
    /// The equality test of two operands whose types nest floats, where the
    /// table holds one for their types.
    pub open spec fn nested_float_equality_spec(&self, op: BinOp, lhs: Operand, rhs: Operand) -> Option<Seq<char>> {
        if is_equality(op.kind) {
            match float_equality_in(self.float_equalities@, lhs.ty, rhs.ty, is_negated(op.kind)) {
                Some(f) => Some(f.before@ + lhs.text@ + f.between@ + rhs.text@ + f.after@),
                None => None,
            }
        } else {
            None
        }
    }

    /// The right side of a string concatenation.
    pub open spec fn concat_rhs_spec(&self, rhs: Operand) -> Seq<char> {
        match self.ty(rhs.ty) {
            Some(Type::Str) => "&"@ + rhs.text@,
            Some(Type::Optional(inner)) => if self.ty(inner) == Some(Type::Bool) || self.ty(inner) == Some(
                Type::Int,
            ) || self.ty(inner) == Some(Type::Float) || self.ty(inner) == Some(Type::Str) {
                "&"@ + rhs.text@ + ".unwrap_or_default().to_string()"@
            } else {
                "&"@ + rhs.text@ + ".to_string()"@
            },
            _ => "&"@ + rhs.text@ + ".to_string()"@,
        }
    }

    /// The integer or float result type of a shift or bitwise operator.
    pub open spec fn bit_cast(&self, dest: usize) -> Seq<char> {
        if self.ty(dest) == Some(Type::Int) {
            "i64"@
        } else {
            "f64"@
        }
    }

    /// The binary operators on plain values, after the special rules.
    pub open spec fn plain_binary_spec(&self, op: BinOp, lhs: Operand, rhs: Operand, dest: usize) -> Option<
        Seq<char>,
    > {
        let lt = self.trunc_f64.render_spec(lhs.text@);
        let rt = self.trunc_f64.render_spec(rhs.text@);
        if is_arithmetic(op.kind) && (self.ty(dest) == Some(Type::Int) || self.ty(dest) == Some(
            Type::Float,
        )) {
            match (self.vat_op_spec(lhs, dest), self.vat_op_spec(rhs, dest)) {
                (Some(l), Some(r)) => Some(l + " "@ + op.text@ + " "@ + r),
                _ => None,
            }
        } else if (op.kind is And || op.kind is Or) && self.ty(dest) == Some(Type::Bool) {
            Some(lhs.truthy_text@ + " "@ + op.text@ + " "@ + rhs.truthy_text@)
        } else if op.kind is UShr {
            Some(ushr_text(lt, rt))
        } else if op.kind is Shl || op.kind is Shr {
            Some(shift_text(lt, op.text@, rt, self.bit_cast(dest)))
        } else if op.kind is BitAnd || op.kind is BitOr || op.kind is BitXor {
            Some(bitwise_text(lt, op.text@, rt, self.bit_cast(dest)))
        } else if op.kind is Add && self.ty(lhs.ty) == Some(Type::Str) {
            Some(lhs.text@ + " + "@ + self.concat_rhs_spec(rhs))
        } else if (op.kind is Eq || op.kind is NotEq) && (lhs.ty != rhs.ty || self.contains_unknown(lhs.ty)
            || self.contains_unknown(rhs.ty)) {
            match (self.erase_op_spec(lhs), self.erase_op_spec(rhs)) {
                (Some(l), Some(r)) => Some(
                    if op.kind is NotEq {
                        "!("@ + l + " == "@ + r + ")"@
                    } else {
                        l + " == "@ + r
                    },
                ),
                _ => None,
            }
        } else {
            Some(lhs.text@ + " "@ + op.text@ + " "@ + rhs.text@)
        }
    }

    /// The text of a binary rvalue at `dest`: the first rule that applies.
    pub open spec fn binary_spec(&self, op: BinOp, lhs: Operand, rhs: Operand, dest: usize) -> Option<Seq<char>> {
        match self.optional_binary_spec(op, lhs, rhs, dest) {
            None => None,
            Some(Some(t)) => Some(t),
            Some(None) => match self.unknown_binary_spec(op, lhs, rhs) {
                None => None,
                Some(Some(t)) => Some(t),
                Some(None) => match self.strict_identity_spec(op, lhs, rhs) {
                    None => None,
                    Some(Some(t)) => Some(t),
                    Some(None) => if op.kind is Add && self.ty(dest) == Some(Type::Str) {
                        match (lhs.string_text, rhs.string_text) {
                            (Some(l), Some(r)) => Some(l@ + " + &"@ + r@),
                            _ => None,
                        }
                    } else {
                        self.binary_after_strings_spec(op, lhs, rhs, dest)
                    },
                },
            },
        }
    }

    /// The binary rules after string concatenation.
    pub open spec fn binary_after_strings_spec(&self, op: BinOp, lhs: Operand, rhs: Operand, dest: usize) -> Option<
        Seq<char>,
    > {
        match self.erased_arithmetic_spec(op, lhs, rhs, dest) {
            None => None,
            Some(Some(t)) => Some(t),
            Some(None) => match self.function_equality_spec(op, lhs, rhs) {
                None => None,
                Some(Some(t)) => Some(t),
                Some(None) => match self.nested_float_equality_spec(op, lhs, rhs) {
                    Some(t) => Some(t),
                    None => self.binary_comparisons_spec(op, lhs, rhs, dest),
                },
            },
        }
    }

    /// The comparison rules, then the plain operators.
    pub open spec fn binary_comparisons_spec(&self, op: BinOp, lhs: Operand, rhs: Operand, dest: usize) -> Option<
        Seq<char>,
    > {
        match self.heterogeneous_spec(op, lhs, rhs) {
            None => None,
            Some(Some(t)) => Some(t),
            Some(None) => match self.mixed_relational_spec(op, lhs, rhs) {
                None => None,
                Some(Some(t)) => Some(t),
                Some(None) => match self.bare_relational_spec(op, lhs, rhs) {
                    None => None,
                    Some(Some(t)) => Some(t),
                    Some(None) => match self.numeric_comparison_spec(op, lhs, rhs, dest) {
                        None => None,
                        Some(Some(t)) => Some(t),
                        Some(None) => self.plain_binary_spec(op, lhs, rhs, dest),
                    },
                },
            },
        }
    }

    /// The text of a unary rvalue at `dest`.
    pub open spec fn unary_spec(&self, op: UnaryOp, operand: Operand, dest: usize) -> Option<Seq<char>> {
        match op {
            UnaryOp::Not => Some("!("@ + operand.truthy_text@ + ")"@),
            UnaryOp::Neg => {
                let numeric = if self.erased_kind(operand.ty) || self.ty(operand.ty) == Some(Type::Never) {
                    operand.float_text@
                } else {
                    operand.text@
                };
                if self.ty(dest) == Some(Type::Unknown) {
                    match self.find_interned(Type::Float) {
                        Some(f) => self.erase_spec("-("@ + numeric + ")"@, f, false),
                        None => None,
                    }
                } else {
                    Some("-"@ + numeric)
                }
            },
        }
    }

    fn find_float_equality(&self, lhs: usize, rhs: usize, negated: bool) -> (r: Option<&FloatEquality>)
        ensures
            r matches Some(f) ==> float_equality_in(self.float_equalities@, lhs, rhs, negated) == Some(*f),
            r is None <==> float_equality_in(self.float_equalities@, lhs, rhs, negated) is None,
    {
        let mut i: usize = 0;
        assert(self.float_equalities@.skip(0) =~= self.float_equalities@);
        while i < self.float_equalities.len()
            invariant
                i <= self.float_equalities.len(),
                float_equality_in(self.float_equalities@, lhs, rhs, negated) == float_equality_in(
                    self.float_equalities@.skip(i as int),
                    lhs,
                    rhs,
                    negated,
                ),
            decreases self.float_equalities.len() - i,
        {
            assert(self.float_equalities@.skip(i as int).drop_first() =~= self.float_equalities@.skip(i + 1));
            let f = &self.float_equalities[i];
            if f.lhs == lhs && f.rhs == rhs && f.negated == negated {
                return Some(f);
            }
            i = i + 1;
        }
        None
    }

    /// Renders the equality of two operands whose types nest floats, where
    /// the table holds one for their types.
    pub fn nested_float_equality_text(&self, op: &BinOp, lhs: &Operand, rhs: &Operand) -> (r: Option<String>)
        ensures
            r matches Some(t) ==> self.nested_float_equality_spec(*op, *lhs, *rhs) == Some(t@),
            r is None <==> self.nested_float_equality_spec(*op, *lhs, *rhs) is None,
    {
        if !op.kind.equality() {
            return None;
        }
        match self.find_float_equality(lhs.ty, rhs.ty, op.kind.negates()) {
            Some(f) => {
                let mut s = wrap(f.before.as_str(), lhs.text.as_str(), f.between.as_str());
                s.append(rhs.text.as_str());
                s.append(f.after.as_str());
                Some(s)
            },
            None => None,
        }
    }

    fn is_kind(&self, op: &BinOp, a: BinOpKind) -> (r: bool)
        ensures
            r == (op.kind == a),
    {
        match (&op.kind, a) {
            (BinOpKind::Add, BinOpKind::Add) => true,
            (BinOpKind::Sub, BinOpKind::Sub) => true,
            (BinOpKind::Mul, BinOpKind::Mul) => true,
            (BinOpKind::Div, BinOpKind::Div) => true,
            (BinOpKind::Rem, BinOpKind::Rem) => true,
            (BinOpKind::Eq, BinOpKind::Eq) => true,
            (BinOpKind::NotEq, BinOpKind::NotEq) => true,
            (BinOpKind::StrictEq, BinOpKind::StrictEq) => true,
            (BinOpKind::StrictNotEq, BinOpKind::StrictNotEq) => true,
            (BinOpKind::JsStrictEq, BinOpKind::JsStrictEq) => true,
            (BinOpKind::JsStrictNotEq, BinOpKind::JsStrictNotEq) => true,
            (BinOpKind::Lt, BinOpKind::Lt) => true,
            (BinOpKind::Lte, BinOpKind::Lte) => true,
            (BinOpKind::Gt, BinOpKind::Gt) => true,
            (BinOpKind::Gte, BinOpKind::Gte) => true,
            (BinOpKind::And, BinOpKind::And) => true,
            (BinOpKind::Or, BinOpKind::Or) => true,
            (BinOpKind::UShr, BinOpKind::UShr) => true,
            (BinOpKind::Shl, BinOpKind::Shl) => true,
            (BinOpKind::Shr, BinOpKind::Shr) => true,
            (BinOpKind::BitAnd, BinOpKind::BitAnd) => true,
            (BinOpKind::BitOr, BinOpKind::BitOr) => true,
            (BinOpKind::BitXor, BinOpKind::BitXor) => true,
            (BinOpKind::Other, BinOpKind::Other) => true,
            _ => false,
        }
    }

    fn is_scalar(&self, ty: usize) -> (r: bool)
        ensures
            r == (self.ty(ty) == Some(Type::Bool) || self.ty(ty) == Some(Type::Int) || self.ty(ty) == Some(
                Type::Float,
            ) || self.ty(ty) == Some(Type::Str)),
    {
        match self.type_at(ty) {
            Some(Type::Bool) | Some(Type::Int) | Some(Type::Float) | Some(Type::Str) => true,
            _ => false,
        }
    }

    fn is_int(&self, ty: usize) -> (r: bool)
        ensures
            r == (self.ty(ty) == Some(Type::Int)),
    {
        match self.type_at(ty) {
            Some(Type::Int) => true,
            _ => false,
        }
    }

    fn is_str(&self, ty: usize) -> (r: bool)
        ensures
            r == (self.ty(ty) == Some(Type::Str)),
    {
        match self.type_at(ty) {
            Some(Type::Str) => true,
            _ => false,
        }
    }

    fn bit_cast_text(&self, dest: usize) -> (r: &'static str)
        ensures
            r@ == self.bit_cast(dest),
    {
        if self.is_int(dest) {
            "i64"
        } else {
            "f64"
        }
    }

    fn concat_rhs_text(&self, rhs: &Operand) -> (r: String)
        ensures
            r@ == self.concat_rhs_spec(*rhs),
    {
        let mut s = String::from_str("&");
        s.append(rhs.text.as_str());
        match self.type_at(rhs.ty) {
            Some(Type::Str) => {},
            Some(Type::Optional(inner)) => if self.is_scalar(*inner) {
                s.append(".unwrap_or_default().to_string()");
            } else {
                s.append(".to_string()");
            },
            _ => {
                s.append(".to_string()");
            },
        }
        s
    }

    fn plain_binary_text(&self, op: &BinOp, lhs: &Operand, rhs: &Operand, dest_ty: usize) -> (r: Result<
        String,
        EmitError,
    >)
        requires
            self.wf(),
        ensures
            r matches Ok(t) ==> self.plain_binary_spec(*op, *lhs, *rhs, dest_ty) == Some(t@),
            r is Err <==> self.plain_binary_spec(*op, *lhs, *rhs, dest_ty) is None,
    {
        let numeric_dest = match self.type_at(dest_ty) {
            Some(Type::Int) | Some(Type::Float) => true,
            _ => false,
        };
        if op.kind.arithmetic() && numeric_dest {
            let l = self.value_at_type(lhs, dest_ty)?;
            let r = self.value_at_type(rhs, dest_ty)?;
            let mut s = wrap(l.as_str(), " ", op.text.as_str());
            s.append(" ");
            s.append(r.as_str());
            return Ok(s);
        }
        let bool_dest = match self.type_at(dest_ty) {
            Some(Type::Bool) => true,
            _ => false,
        };
        if (self.is_kind(op, BinOpKind::And) || self.is_kind(op, BinOpKind::Or)) && bool_dest {
            let mut s = wrap(lhs.truthy_text.as_str(), " ", op.text.as_str());
            s.append(" ");
            s.append(rhs.truthy_text.as_str());
            return Ok(s);
        }
        let lt = self.trunc_f64.render(lhs.text.as_str());
        let rt = self.trunc_f64.render(rhs.text.as_str());
        if self.is_kind(op, BinOpKind::UShr) {
            let mut s = wrap("{ let smelt_shift_value = ", lt.as_str(), "; let smelt_shift_value = if smelt_shift_value.is_finite() { smelt_shift_value.rem_euclid(4294967296.0) as u32 } else { 0_u32 }; let smelt_shift_count = ");
            s.append(rt.as_str());
            s.append("; let smelt_shift_count = if smelt_shift_count.is_finite() { smelt_shift_count.rem_euclid(4294967296.0) as u32 } else { 0_u32 }; (smelt_shift_value >> (smelt_shift_count & 31)) as f64 }");
            return Ok(s);
        }
        if self.is_kind(op, BinOpKind::Shl) || self.is_kind(op, BinOpKind::Shr) {
            let mut s = wrap("((", lt.as_str(), " as i128) ");
            s.append(op.text.as_str());
            s.append(" ((");
            s.append(rt.as_str());
            s.append(" as u32).min(127))) as ");
            s.append(self.bit_cast_text(dest_ty));
            return Ok(s);
        }
        if self.is_kind(op, BinOpKind::BitAnd) || self.is_kind(op, BinOpKind::BitOr) || self.is_kind(op, BinOpKind::BitXor) {
            let mut s = wrap("({ let smelt_bit_lhs = { let smelt_bit_v = ", lt.as_str(), "; if smelt_bit_v.is_finite() { smelt_bit_v.trunc().rem_euclid(4294967296.0) as u32 as i32 } else { 0_i32 } }; let smelt_bit_rhs = { let smelt_bit_v = ");
            s.append(rt.as_str());
            s.append("; if smelt_bit_v.is_finite() { smelt_bit_v.trunc().rem_euclid(4294967296.0) as u32 as i32 } else { 0_i32 } }; (smelt_bit_lhs ");
            s.append(op.text.as_str());
            s.append(" smelt_bit_rhs) as ");
            s.append(self.bit_cast_text(dest_ty));
            s.append(" })");
            return Ok(s);
        }
        if self.is_kind(op, BinOpKind::Add) && self.is_str(lhs.ty) {
            let r = self.concat_rhs_text(rhs);
            return Ok(wrap(lhs.text.as_str(), " + ", r.as_str()));
        }
        if (self.is_kind(op, BinOpKind::Eq) || self.is_kind(op, BinOpKind::NotEq)) && (lhs.ty != rhs.ty
            || self.contains_unknown_exec(lhs.ty) || self.contains_unknown_exec(rhs.ty)) {
            let l = self.erase(lhs)?;
            let r = self.erase(rhs)?;
            if self.is_kind(op, BinOpKind::NotEq) {
                let mut s = wrap("!(", l.as_str(), " == ");
                s.append(r.as_str());
                s.append(")");
                return Ok(s);
            }
            return Ok(wrap(l.as_str(), " == ", r.as_str()));
        }
        let mut s = wrap(lhs.text.as_str(), " ", op.text.as_str());
        s.append(" ");
        s.append(rhs.text.as_str());
        Ok(s)
    }

    fn binary_comparisons_text(&self, op: &BinOp, lhs: &Operand, rhs: &Operand, dest_ty: usize) -> (r: Result<
        String,
        EmitError,
    >)
        requires
            self.wf(),
        ensures
            r matches Ok(t) ==> self.binary_comparisons_spec(*op, *lhs, *rhs, dest_ty) == Some(t@),
            r is Err <==> self.binary_comparisons_spec(*op, *lhs, *rhs, dest_ty) is None,
    {
        if let Some(t) = self.heterogeneous_equality_text(op, lhs, rhs)? {
            return Ok(t);
        }
        if let Some(t) = self.mixed_string_number_relational_text(op, lhs, rhs)? {
            return Ok(t);
        }
        if let Some(t) = self.bare_erased_relational_text(op, lhs, rhs)? {
            return Ok(t);
        }
        if let Some(t) = self.numeric_comparison_text(op, lhs, rhs, dest_ty)? {
            return Ok(t);
        }
        self.plain_binary_text(op, lhs, rhs, dest_ty)
    }

    fn binary_after_strings_text(&self, op: &BinOp, lhs: &Operand, rhs: &Operand, dest_ty: usize) -> (r: Result<
        String,
        EmitError,
    >)
        requires
            self.wf(),
        ensures
            r matches Ok(t) ==> self.binary_after_strings_spec(*op, *lhs, *rhs, dest_ty) == Some(t@),
            r is Err <==> self.binary_after_strings_spec(*op, *lhs, *rhs, dest_ty) is None,
    {
        if let Some(t) = self.erased_arithmetic_text(op, lhs, rhs, dest_ty)? {
            return Ok(t);
        }
        if let Some(t) = self.function_equality_text(op, lhs, rhs)? {
            return Ok(t);
        }
        if let Some(t) = self.nested_float_equality_text(op, lhs, rhs) {
            return Ok(t);
        }
        self.binary_comparisons_text(op, lhs, rhs, dest_ty)
    }

    /// Renders a binary rvalue at `dest_ty` by the first rule that applies:
    /// optional operands, erased operands, identity, string concatenation
    /// into a string slot, erased arithmetic, function equality, equality of
    /// nested floats, heterogeneous equality, mixed and erased relations,
    /// numeric comparison, then the plain operators on JavaScript numbers,
    /// truth values and strings.
    pub fn binary_rvalue_text(&self, op: &BinOp, lhs: &Operand, rhs: &Operand, dest_ty: usize) -> (r: Result<
        String,
        EmitError,
    >)
        requires
            self.wf(),
        ensures
            r matches Ok(t) ==> self.binary_spec(*op, *lhs, *rhs, dest_ty) == Some(t@),
            r is Err <==> self.binary_spec(*op, *lhs, *rhs, dest_ty) is None,
    {
        if let Some(t) = self.optional_binary_text(op, lhs, rhs, dest_ty)? {
            return Ok(t);
        }
        if let Some(t) = self.unknown_binary_text(op, lhs, rhs)? {
            return Ok(t);
        }
        if let Some(t) = self.strict_identity_text(op, lhs, rhs)? {
            return Ok(t);
        }
        if self.is_kind(op, BinOpKind::Add) && self.is_str(dest_ty) {
            return match (&lhs.string_text, &rhs.string_text) {
                (Some(l), Some(r)) => Ok(wrap(l.as_str(), " + &", r.as_str())),
                _ => Err(EmitError::new("string addition needs string-like operands")),
            };
        }
        self.binary_after_strings_text(op, lhs, rhs, dest_ty)
    }

    /// Renders a unary rvalue at `dest_ty`: logical not of the operand's
    /// truthiness, or numeric negation of the operand read as a number,
    /// erased again when stored into an erased slot.
    pub fn unary_rvalue_text(&self, op: &UnaryOp, operand: &Operand, dest_ty: usize) -> (r: Result<
        String,
        EmitError,
    >)
        requires
            self.wf(),
        ensures
            r matches Ok(t) ==> self.unary_spec(*op, *operand, dest_ty) == Some(t@),
            r is Err <==> self.unary_spec(*op, *operand, dest_ty) is None,
    {
        match op {
            UnaryOp::Not => Ok(wrap("!(", operand.truthy_text.as_str(), ")")),
            UnaryOp::Neg => {
                let erased = match self.type_at(operand.ty) {
                    Some(Type::Unknown) | Some(Type::Union(_)) | Some(Type::TypeParam { .. }) | Some(
                        Type::Never,
                    ) => true,
                    _ => false,
                };
                let numeric = if erased {
                    operand.float_text.as_str()
                } else {
                    operand.text.as_str()
                };
                let unknown_dest = match self.type_at(dest_ty) {
                    Some(Type::Unknown) => true,
                    _ => false,
                };
                if unknown_dest {
                    let float_ty = self.type_id(&Type::Float)?;
                    let negated = wrap("-(", numeric, ")");
                    self.erase_value_text(negated.as_str(), float_ty)
                } else {
                    let mut s = String::from_str("-");
                    s.append(numeric);
                    Ok(s)
                }
            },
        }
    }

}

} // verus!
