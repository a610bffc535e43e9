//! Run-time kind tests on erased values: `typeof`, nullish and tag checks,
//! and the host identity markers a class inherits from a host base.

use vstd::prelude::*;
use crate::emitter::{EmitError, FunctionEmitter};
use crate::erase::wrap;
use crate::instance_of::{HostObject, HostRegistry};
use crate::mir::Operand;
use crate::numtext::{decimal, usize_text};
use crate::text::{join, seq_join, str_eq, views};
use crate::types::{Template, Type};
use crate::value_at_type::suffixed;

verus! {

/// The run-time kind a tag check asks about.
#[derive(PartialEq, Eq, Structural, Clone, Copy)]
pub enum UnknownKind {
    Null,
    Undefined,
    Boolean,
    Number,
    Str,
    Symbol,
    Function,
    Array,
    Object,
    Promise,
}

/// The `SmeltUnknown` pattern of a kind that one variant answers.
pub open spec fn tag_pattern(kind: UnknownKind) -> Seq<char> {
    match kind {
        UnknownKind::Null => "SmeltUnknown::Null"@,
        UnknownKind::Undefined => "SmeltUnknown::Undefined"@,
        UnknownKind::Boolean => "SmeltUnknown::Bool(_)"@,
        UnknownKind::Number => "SmeltUnknown::Number(_)"@,
        UnknownKind::Str => "SmeltUnknown::String(_)"@,
        UnknownKind::Symbol => "SmeltUnknown::Symbol(_)"@,
        _ => "SmeltUnknown::Array(_)"@,
    }
}

/// The tag check of erased value text `text` for `kind`.
pub open spec fn tag_check_raw_spec(text: Seq<char>, kind: UnknownKind) -> Seq<char> {
    match kind {
        UnknownKind::Function => "matches!("@ + text + ", SmeltUnknown::Function(_))"@,
        UnknownKind::Object => "matches!("@ + text
            + ", SmeltUnknown::Object(_) | SmeltUnknown::Array(_) | SmeltUnknown::Null | SmeltUnknown::Promise(_))"@,
        UnknownKind::Promise => "matches!("@ + text + ", SmeltUnknown::Promise(_))"@,
        _ => "matches!("@ + text + ", "@ + tag_pattern(kind) + ")"@,
    }
}

/// The `typeof` of an erased value, by its variant.
pub open spec fn typeof_erased(text: Seq<char>) -> Seq<char> {
    "match "@ + text
        + ".clone() { SmeltUnknown::Undefined => \"undefined\".to_owned(), SmeltUnknown::Bool(_) => \"boolean\".to_owned(), SmeltUnknown::Number(_) => \"number\".to_owned(), SmeltUnknown::String(_) => \"string\".to_owned(), SmeltUnknown::Symbol(_) => \"symbol\".to_owned(), SmeltUnknown::Function(_) => \"function\".to_owned(), SmeltUnknown::Null | SmeltUnknown::Array(_) | SmeltUnknown::Object(_) | SmeltUnknown::Promise(_) => \"object\".to_owned() }"@
}

/// The test of the first entry for `kind`.
pub open spec fn tag_check_in(checks: Seq<(UnknownKind, Template)>, kind: UnknownKind) -> Option<
    Template,
>
    decreases checks.len(),
{
    if checks.len() == 0 {
        None
    } else if checks[0].0 == kind {
        Some(checks[0].1)
    } else {
        tag_check_in(checks.drop_first(), kind)
    }
}

/// The first registry entry whose class is `name`.
pub open spec fn host_object_by_class(objects: Seq<HostObject>, name: Seq<char>) -> Option<
    HostObject,
>
    decreases objects.len(),
{
    if objects.len() == 0 {
        None
    } else if objects[0].class_name@ == name {
        Some(objects[0])
    } else {
        host_object_by_class(objects.drop_first(), name)
    }
}

fn tag_pattern_text(kind: UnknownKind) -> (r: &'static str)
    ensures
        r@ == tag_pattern(kind),
{
    match kind {
        UnknownKind::Null => "SmeltUnknown::Null",
        UnknownKind::Undefined => "SmeltUnknown::Undefined",
        UnknownKind::Boolean => "SmeltUnknown::Bool(_)",
        UnknownKind::Number => "SmeltUnknown::Number(_)",
        UnknownKind::Str => "SmeltUnknown::String(_)",
        UnknownKind::Symbol => "SmeltUnknown::Symbol(_)",
        _ => "SmeltUnknown::Array(_)",
    }
}

/// Renders the tag check of already-rendered erased value text for `kind`.
pub fn tag_check_raw(text: &str, kind: UnknownKind) -> (r: Result<String, EmitError>)
    ensures
        r matches Ok(t) ==> t@ == tag_check_raw_spec(text@, kind),
        r is Ok,
{
    match kind {
        UnknownKind::Function => Ok(wrap("matches!(", text, ", SmeltUnknown::Function(_))")),
        UnknownKind::Object => Ok(
            wrap(
                "matches!(",
                text,
                ", SmeltUnknown::Object(_) | SmeltUnknown::Array(_) | SmeltUnknown::Null | SmeltUnknown::Promise(_))",
            ),
        ),
        UnknownKind::Promise => Ok(wrap("matches!(", text, ", SmeltUnknown::Promise(_))")),
        _ => {
            let mut s = wrap("matches!(", text, ", ");
            s.append(tag_pattern_text(kind));
            s.append(")");
            Ok(s)
        },
    }
}

/// The registry entry whose class is `name`.
pub fn host_object_by_class_name<'a>(registry: &'a HostRegistry, name: &str) -> (r: Option<
    &'a HostObject,
>)
    ensures
        r matches Some(o) ==> host_object_by_class(registry.objects@, name@) == Some(*o),
        r is None <==> host_object_by_class(registry.objects@, name@) is None,
{
    let mut i: usize = 0;
    assert(registry.objects@.skip(0) =~= registry.objects@);
    while i < registry.objects.len()
        invariant
            i <= registry.objects.len(),
            host_object_by_class(registry.objects@, name@) == host_object_by_class(
                registry.objects@.skip(i as int),
                name@,
            ),
        decreases registry.objects.len() - i,
    {
        assert(registry.objects@.skip(i as int).drop_first() =~= registry.objects@.skip(i + 1));
        if str_eq(registry.objects[i].class_name.as_str(), name) {
            return Some(&registry.objects[i]);
        }
        i = i + 1;
    }
    None
}

fn tag_check_find(checks: &Vec<(UnknownKind, Template)>, kind: UnknownKind) -> (r: Option<
    &Template,
>)
    ensures
        r matches Some(t) ==> tag_check_in(checks@, kind) == Some(*t),
        r is None <==> tag_check_in(checks@, kind) is None,
{
    let mut i: usize = 0;
    assert(checks@.skip(0) =~= checks@);
    while i < checks.len()
        invariant
            i <= checks.len(),
            tag_check_in(checks@, kind) == tag_check_in(checks@.skip(i as int), kind),
        decreases checks.len() - i,
    {
        assert(checks@.skip(i as int).drop_first() =~= checks@.skip(i + 1));
        if checks[i].0 == kind {
            return Some(&checks[i].1);
        }
        i = i + 1;
    }
    None
}

impl FunctionEmitter {
    /// The kind test of a concrete union type `ty`.
    pub open spec fn union_tag_check(&self, ty: usize, kind: UnknownKind) -> Option<Template> {
        match self.fact(ty) {
            Some(f) => tag_check_in(f.tag_checks@, kind),
            None => None,
        }
    }

    /// The test of `value` for run-time kind `kind`.
    pub open spec fn tag_check_spec(&self, value: Operand, kind: UnknownKind) -> Seq<char> {
        let text = value.text@;
        match self.ty(value.ty) {
            Some(Type::Nullish) => if kind == UnknownKind::Null || kind == UnknownKind::Undefined {
                "true"@
            } else {
                "false"@
            },
            t => match self.union_tag_check(value.ty, kind) {
                Some(check) => check.render_spec(text),
                None => match t {
                    Some(Type::Optional(inner)) => if kind == UnknownKind::Null {
                        text + ".is_none()"@
                    } else {
                        text + ".as_ref().is_some_and(|smelt_value| "@ + match self.union_tag_check(
                            inner,
                            kind,
                        ) {
                            Some(check) => check.render_spec("smelt_value"@),
                            None => tag_check_raw_spec("smelt_value"@, kind),
                        } + ")"@
                    },
                    _ => tag_check_raw_spec(text, kind),
                },
            },
        }
    }

    /// The `typeof` arms of a concrete union named `name` over `members`.
    pub open spec fn typeof_arms(&self, name: Seq<char>, members: Seq<usize>) -> Seq<Seq<char>> {
        Seq::new(
            members.len(),
            |k: int|
                name + "::M"@ + decimal(k as nat) + "(_) => \""@ + self.typeof_static_spec(members[k])
                    + "\".to_owned()"@,
        )
    }

    /// The JavaScript `typeof` of `value`.
    pub open spec fn typeof_spec(&self, value: Operand) -> Option<Seq<char>> {
        match self.ty(value.ty) {
            Some(Type::Union(members)) => if self.concrete_union(value.ty) {
                match self.rust_text(value.ty) {
                    Some(name) => Some(
                        "match "@ + value.text@ + " { "@ + seq_join(
                            self.typeof_arms(name, members@),
                            ", "@,
                        ) + " }"@,
                    ),
                    None => None,
                }
            } else {
                Some(typeof_erased(value.text@))
            },
            _ => Some(typeof_erased(value.text@)),
        }
    }

    /// The identity markers a class inherits from the first host object on
    /// its base chain, looking at most `fuel` classes up.
    pub open spec fn base_markers(&self, name: usize, fuel: nat) -> Seq<Seq<char>>
        decreases fuel,
    {
        if fuel == 0 {
            Seq::empty()
        } else {
            match self.class_named(name) {
                None => Seq::empty(),
                Some(class) => match class.base {
                    None => Seq::empty(),
                    Some(base) => match self.symbol(base) {
                        None => Seq::empty(),
                        Some(base_name) => match host_object_by_class(
                            self.host.objects@,
                            base_name,
                        ) {
                            Some(entry) => if base_name == "File"@ && host_object_by_class(
                                self.host.objects@,
                                "Blob"@,
                            ) is Some {
                                seq![
                                    entry.marker@,
                                    host_object_by_class(self.host.objects@, "Blob"@)->0.marker@,
                                ]
                            } else {
                                seq![entry.marker@]
                            },
                            None => self.base_markers(base, (fuel - 1) as nat),
                        },
                    },
                },
            }
        }
    }

    /// Renders the test of `value` for run-time kind `kind`: constant for a
    /// statically absent value, the variant test of a concrete union, the
    /// present payload's test of an optional, else the erased tag check.
    pub fn tag_check(&self, value: &Operand, kind: UnknownKind) -> (r: Result<String, EmitError>)
        ensures
            r matches Ok(t) ==> t@ == self.tag_check_spec(*value, kind),
            r is Ok,
    {
        let text = value.text.as_str();
        let value_ty = value.ty;
        if self.is_nullish_type(value_ty) {
            return Ok(
                if kind == UnknownKind::Null || kind == UnknownKind::Undefined {
                    String::from_str("true")
                } else {
                    String::from_str("false")
                },
            );
        }
        if let Some(check) = self.concrete_union_tag_check(text, value_ty, kind) {
            return Ok(check);
        }
        if let Some(Type::Optional(inner)) = self.type_at(value_ty) {
            if kind == UnknownKind::Null {
                return Ok(suffixed(text, ".is_none()"));
            }
            let check = match self.concrete_union_tag_check("smelt_value", *inner, kind) {
                Some(check) => check,
                None => tag_check_raw("smelt_value", kind)?,
            };
            return Ok(wrap_check(text, check.as_str()));
        }
        tag_check_raw(text, kind)
    }

    /// The variant test of `text`, a value of concrete union type `ty`, for
    /// `kind`.
    pub fn concrete_union_tag_check(&self, text: &str, ty: usize, kind: UnknownKind) -> (r: Option<
        String,
    >)
        ensures
            r matches Some(t) ==> self.union_tag_check(ty, kind) matches Some(c) && t@
                == c.render_spec(text@),
            r is None <==> self.union_tag_check(ty, kind) is None,
    {
        match self.fact_at(ty) {
            Some(f) => match tag_check_find(&f.tag_checks, kind) {
                Some(check) => Some(check.render(text)),
                None => None,
            },
            None => None,
        }
    }

    /// Renders the JavaScript `typeof` string of `value`: by member for a
    /// concrete union, by variant for an erased value.
    pub fn typeof_value_text(&self, value: &Operand) -> (r: Result<String, EmitError>)
        ensures
            r matches Ok(t) ==> self.typeof_spec(*value) == Some(t@),
            r is Err <==> self.typeof_spec(*value) is None,
    {
        let text = value.text.as_str();
        if let Some(Type::Union(members)) = self.type_at(value.ty) {
            if self.is_concrete_union(value.ty) {
                let name = self.rust_type_text(value.ty)?;
                let mut arms: Vec<String> = Vec::new();
                let mut i: usize = 0;
                while i < members.len()
                    invariant
                        i <= members.len(),
                        arms.len() == i,
                        forall|k: int|
                            0 <= k < i ==> #[trigger] arms@[k]@ == name@ + "::M"@ + decimal(
                                k as nat,
                            ) + "(_) => \""@ + self.typeof_static_spec(members@[k])
                                + "\".to_owned()"@,
                    decreases members.len() - i,
                {
                    let idx = usize_text(i);
                    let mut arm = suffixed(name.as_str(), "::M");
                    arm.append(idx.as_str());
                    arm.append("(_) => \"");
                    arm.append(self.typeof_static_type_text(members[i]));
                    arm.append("\".to_owned()");
                    arms.push(arm);
                    i = i + 1;
                }
                assert(views(arms@) =~= self.typeof_arms(name@, members@));
                let joined = join(&arms, ", ");
                let mut s = wrap("match ", text, " { ");
                s.append(joined.as_str());
                s.append(" }");
                return Ok(s);
            }
        }
        Ok(
            wrap(
                "match ",
                text,
                ".clone() { SmeltUnknown::Undefined => \"undefined\".to_owned(), SmeltUnknown::Bool(_) => \"boolean\".to_owned(), SmeltUnknown::Number(_) => \"number\".to_owned(), SmeltUnknown::String(_) => \"string\".to_owned(), SmeltUnknown::Symbol(_) => \"symbol\".to_owned(), SmeltUnknown::Function(_) => \"function\".to_owned(), SmeltUnknown::Null | SmeltUnknown::Array(_) | SmeltUnknown::Object(_) | SmeltUnknown::Promise(_) => \"object\".to_owned() }",
            ),
        )
    }

    /// The identity markers a class carries because its base chain reaches a
    /// modeled host object: the first such base's marker, and `Blob`'s too
    /// for a `File` base; empty for a class with no host base within 64
    /// steps.
    pub fn host_base_markers(&self, class_name: usize) -> (r: Vec<String>)
        ensures
            views(r@) == self.base_markers(class_name, 64),
    {
        let mut current = class_name;
        let mut step: usize = 0;
        while step < 64
            invariant
                step <= 64,
                self.base_markers(class_name, 64) == self.base_markers(current, (64 - step) as nat),
            decreases 64 - step,
        {
            let class = match self.find_class_info(current) {
                Some(c) => c,
                None => {
                    return Vec::new();
                },
            };
            let base = match class.base {
                Some(b) => b,
                None => {
                    return Vec::new();
                },
            };
            let base_name = match self.symbol_name(base) {
                Ok(n) => n,
                Err(_) => {
                    return Vec::new();
                },
            };
            if let Some(entry) = host_object_by_class_name(&self.host, base_name.as_str()) {
                let mut markers: Vec<String> = Vec::new();
                markers.push(entry.marker.clone());
                if str_eq(base_name.as_str(), "File") {
                    if let Some(blob) = host_object_by_class_name(&self.host, "Blob") {
                        markers.push(blob.marker.clone());
                        assert(views(markers@) =~= seq![entry.marker@, blob.marker@]);
                        return markers;
                    }
                }
                assert(views(markers@) =~= seq![entry.marker@]);
                return markers;
            }
            current = base;
            step = step + 1;
        }
        Vec::new()
    }
}

fn wrap_check(text: &str, check: &str) -> (r: String)
    ensures
        r@ == text@ + ".as_ref().is_some_and(|smelt_value| "@ + check@ + ")"@,
{
    let mut s = suffixed(text, ".as_ref().is_some_and(|smelt_value| ");
    s.append(check);
    s.append(")");
    s
}

} // verus!
