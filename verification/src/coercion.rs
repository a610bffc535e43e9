//! The coercion seam's small verbs: the erased "no value", boxed literals,
//! and the type-level questions the coercions ask.

use vstd::prelude::*;
use crate::emitter::FunctionEmitter;
use crate::text::contains_char;
use crate::types::Type;

verus! {

/// A character that may stand in a bare local name or a dotted field path.
pub open spec fn place_char(c: char) -> bool {
    ('a' <= c && c <= 'z') || ('A' <= c && c <= 'Z') || ('0' <= c && c <= '9') || c == '_'
        || c == '.' || c == ':'
}

pub open spec fn is_digit(c: char) -> bool {
    '0' <= c && c <= '9'
}

/// A bare local name or dotted field/tuple path, such as `foo` or `foo.bar.0`.
pub open spec fn trivial_place_spec(s: Seq<char>) -> bool {
    &&& s.len() > 0
    &&& forall|i: int| 0 <= i < s.len() ==> place_char(#[trigger] s[i])
    &&& !is_digit(s[0])
}

/// An expression with no call in it: cheap and side-effect-free to evaluate
/// more than once.
pub open spec fn trivial_reeval_spec(s: Seq<char>) -> bool {
    !crate::text::has_char(s, '(')
}

/// Whether an expression is cheap and side-effect-free to evaluate more than
/// once: bare locals and dotted field reads qualify, anything holding a call
/// does not.
pub fn is_trivial_reeval_expr(text: &str) -> (r: bool)
    ensures
        r == trivial_reeval_spec(text@),
{
    !contains_char(text, '(')
}

impl FunctionEmitter {
    /// The erased `null` tag of `SmeltUnknown`.
    pub fn null_value_text(&self) -> (r: String)
        ensures
            r@ == "SmeltUnknown::Null"@,
    {
        String::from_str("SmeltUnknown::Null")
    }

    /// Boxes an iterator of rendered `String` values into an erased string
    /// array.
    pub fn erase_string_array_text(&self, value_iter_text: &str) -> (r: String)
        ensures
            r@ == "SmeltUnknown::Array("@ + value_iter_text@
                + ".into_iter().map(SmeltUnknown::String).collect())"@,
    {
        let mut s = String::from_str("SmeltUnknown::Array(");
        s.append(value_iter_text);
        s.append(".into_iter().map(SmeltUnknown::String).collect())");
        s
    }

    /// Boxes an already-`f64` expression into an erased number, with no cast.
    pub fn erase_f64_text(&self, value_text: &str) -> (r: String)
        ensures
            r@ == "SmeltUnknown::Number("@ + value_text@ + ")"@,
    {
        let mut s = String::from_str("SmeltUnknown::Number(");
        s.append(value_text);
        s.append(")");
        s
    }

    /// Boxes comma-joined, already-erased elements into an erased array.
    pub fn erase_array_text(&self, elements_text: &str) -> (r: String)
        ensures
            r@ == "SmeltUnknown::Array(vec!["@ + elements_text@ + "].into())"@,
    {
        let mut s = String::from_str("SmeltUnknown::Array(vec![");
        s.append(elements_text);
        s.append("].into())");
        s
    }

    /// Boxes comma-joined, already-erased `(key, value)` entries into an
    /// erased object.
    pub fn erase_object_text(&self, entries_text: &str) -> (r: String)
        ensures
            r@ == "SmeltUnknown::Object(SmeltObject::new(Vec::from(["@ + entries_text@
                + "])))"@,
    {
        let mut s = String::from_str("SmeltUnknown::Object(SmeltObject::new(Vec::from([");
        s.append(entries_text);
        s.append("])))");
        s
    }

    /// Returns whether rendered value text is a trivial place that can be
    /// duplicated for free.
    pub fn expression_text_is_trivial_place(value_text: &str) -> (r: bool)
        ensures
            r == trivial_place_spec(value_text@),
    {
        let n = value_text.unicode_len();
        if n == 0 {
            return false;
        }
        let mut i: usize = 0;
        while i < n
            invariant
                n == value_text@.len(),
                i <= n,
                forall|j: int| 0 <= j < i ==> place_char(#[trigger] value_text@[j]),
            decreases n - i,
        {
            let c = value_text.get_char(i);
            let ok = ('a' <= c && c <= 'z') || ('A' <= c && c <= 'Z') || ('0' <= c && c <= '9')
                || c == '_' || c == '.' || c == ':';
            if !ok {
                return false;
            }
            i = i + 1;
        }
        let first = value_text.get_char(0);
        !('0' <= first && first <= '9')
    }

    /// An optional whose payload is still stored erased, so it can hold an
    /// explicit `null`/`undefined` singleton of its own.
    pub open spec fn preserves_singletons_spec(&self, inner: usize) -> bool {
        !self.concrete_union(inner) && (self.erased_kind(inner) || self.erased_class(inner))
    }

    /// Returns whether `Option<T>` stores erased values that can carry
    /// explicit JavaScript singleton tags.
    pub fn optional_inner_preserves_erased_singletons(&self, inner: usize) -> (r: bool)
        ensures
            r == self.preserves_singletons_spec(inner),
    {
        if self.is_concrete_union(inner) {
            return false;
        }
        self.is_erased_kind(inner) || self.is_erased_class_type(inner)
    }

    pub open spec fn typeof_static_spec(&self, ty: usize) -> Seq<char> {
        match self.ty(ty) {
            Some(Type::Nullish) | Some(Type::Optional(_)) => "undefined"@,
            Some(Type::Bool) => "boolean"@,
            Some(Type::Int) | Some(Type::Float) => "number"@,
            Some(Type::Str) => "string"@,
            Some(Type::Function(_)) => "function"@,
            Some(Type::List(_)) | Some(Type::SetOf(_)) | Some(Type::Dict(_, _)) | Some(
                Type::Tuple(_),
            ) | Some(Type::Class { .. }) | Some(Type::Future(_)) => "object"@,
            _ => "undefined"@,
        }
    }

    /// Returns the JavaScript `typeof` spelling for one concrete union member.
    pub fn typeof_static_type_text(&self, ty: usize) -> (r: &'static str)
        ensures
            r@ == self.typeof_static_spec(ty),
    {
        match self.type_at(ty) {
            Some(Type::Nullish) | Some(Type::Optional(_)) => "undefined",
            Some(Type::Bool) => "boolean",
            Some(Type::Int) | Some(Type::Float) => "number",
            Some(Type::Str) => "string",
            Some(Type::Function(_)) => "function",
            Some(Type::List(_)) | Some(Type::SetOf(_)) | Some(Type::Dict(_, _)) | Some(
                Type::Tuple(_),
            ) | Some(Type::Class { .. }) | Some(Type::Future(_)) => "object",
            _ => "undefined",
        }
    }

    /// Returns whether a callee's type carries no static signature, so its
    /// call goes through the run-time callable dispatch.
    pub fn callee_is_dynamically_dispatched(&self, callee_ty: usize) -> (r: bool)
        ensures
            r == self.erased_relational_spec(callee_ty),
    {
        self.is_erased_kind(callee_ty) || self.is_erased_class_type(callee_ty)
    }
}

} // verus!
