//! `instanceof` tests: concrete-union variant checks, the identity markers
//! that erased host objects carry, reassigned host constructors, and the
//! declared class chain.

use vstd::prelude::*;
use crate::emitter::{name_listed, EmitError, FunctionEmitter};
use crate::erase::wrap;
use crate::mir::Operand;
use crate::text::{
    debug_quote, debug_quoted, join, name_in, seq_join, str_eq, views, wrap_each, wrapped_each,
};
use crate::types::{Template, Type};
use crate::value_at_type::suffixed;

verus! {

/// One host object of the standard library's registry.
pub struct HostObject {
    /// The class name a program constructs it by.
    pub class_name: String,
    /// The tag `Object.prototype.toString` reports for it.
    pub to_string_tag: String,
    /// The identity key its erased record carries.
    pub marker: String,
}

/// A host constructor the program reassigns, with the Rust text of the
/// thread-local slot that holds the replacement.
pub struct HostOverride {
    pub class_name: String,
    pub slot: String,
}

/// What the standard library declares about host classes.
pub struct HostRegistry {
    pub objects: Vec<HostObject>,
    pub overrides: Vec<HostOverride>,
    /// The builtin error class names.
    pub error_classes: Vec<String>,
}

/// The markers of the registry entries that `name` names by class or by
/// tag, in registry order.
pub open spec fn host_markers(objects: Seq<HostObject>, name: Seq<char>) -> Seq<Seq<char>>
    decreases objects.len(),
{
    if objects.len() == 0 {
        Seq::empty()
    } else {
        let rest = host_markers(objects.drop_last(), name);
        let o = objects.last();
        if o.class_name@ == name || o.to_string_tag@ == name {
            rest.push(o.marker@)
        } else {
            rest
        }
    }
}

/// The slot of the first override of `name`.
pub open spec fn override_slot(overrides: Seq<HostOverride>, name: Seq<char>) -> Option<Seq<char>>
    decreases overrides.len(),
{
    if overrides.len() == 0 {
        None
    } else if overrides[0].class_name@ == name {
        Some(overrides[0].slot@)
    } else {
        override_slot(overrides.drop_first(), name)
    }
}

/// The test of the first entry for `class`.
pub open spec fn class_check_in(checks: Seq<(usize, Template)>, class: usize) -> Option<Template>
    decreases checks.len(),
{
    if checks.len() == 0 {
        None
    } else if checks[0].0 == class {
        Some(checks[0].1)
    } else {
        class_check_in(checks.drop_first(), class)
    }
}

/// A value of this type carries its class identity only at run time.
pub open spec fn dynamic_value(t: Option<Type>) -> bool {
    match t {
        Some(Type::Unknown) => true,
        Some(Type::TypeParam { .. }) => true,
        Some(Type::Union(_)) => true,
        Some(Type::Optional(_)) => true,
        _ => false,
    }
}

pub open spec fn optional_value(t: Option<Type>) -> bool {
    t matches Some(Type::Optional(_))
}

/// The test that an erased record carries `marker`.
pub open spec fn key_probe(marker: Seq<char>) -> Seq<char> {
    "value.contains_key(\""@ + marker + "\")"@
}

/// `probe` applied to the erased object behind `text`.
pub open spec fn object_probe(text: Seq<char>, optional: bool, probe: Seq<char>) -> Seq<char> {
    if optional {
        "matches!("@ + text + ".clone(), Some(SmeltUnknown::Object(value)) if "@ + probe + ")"@
    } else {
        "matches!("@ + text + ".clone(), SmeltUnknown::Object(value) if "@ + probe + ")"@
    }
}

/// The error marker test for a builtin error class: any error for `Error`,
/// the recorded class name for a subclass.
pub open spec fn error_probe(name: Seq<char>) -> Seq<char> {
    if name == "Error"@ {
        key_probe("__smelt_error"@)
    } else {
        "matches!(value.get(\"__smelt_error\"), Some(SmeltUnknown::String(smelt_error_class)) if &*smelt_error_class == "@
            + debug_quoted(name) + ")"@
    }
}

/// The marker erasure stamps on a builtin class with a dedicated test.
pub open spec fn builtin_marker(name: Seq<char>) -> Option<Seq<char>> {
    if name == "Date"@ {
        Some("__smelt_date"@)
    } else if name == "RegExp"@ {
        Some("__smelt_regexp"@)
    } else if name == "ArrayBuffer"@ {
        Some("__smelt_arraybuffer"@)
    } else if name == "Blob"@ {
        Some("__smelt_blob"@)
    } else if name == "Number"@ {
        Some("__smelt_number"@)
    } else {
        None
    }
}

/// `Map` or `Set`: the marker of its erased records.
pub open spec fn collection_marker(name: Seq<char>) -> Seq<char> {
    if name == "Map"@ {
        "__smelt_map"@
    } else {
        "__smelt_set"@
    }
}

/// A value of type `t` is a concrete `Map` or `Set`, as `name` asks.
pub open spec fn concrete_collection(name: Seq<char>, t: Option<Type>) -> bool {
    if name == "Map"@ {
        t matches Some(Type::JsMap(_, _))
    } else {
        t matches Some(Type::SetOf(_))
    }
}

pub open spec fn promise_probe(text: Seq<char>, optional: bool) -> Seq<char> {
    if optional {
        "matches!("@ + text + ".clone(), Some(SmeltUnknown::Promise(_)))"@
    } else {
        "matches!("@ + text + ".clone(), SmeltUnknown::Promise(_))"@
    }
}

/// The erased value an override slot is asked about.
pub open spec fn probed_value(text: Seq<char>, optional: bool) -> Seq<char> {
    if optional {
        text + ".clone().unwrap_or(SmeltUnknown::Undefined)"@
    } else {
        text + ".clone()"@
    }
}

/// Returns the markers of the registry entries `class_name` names, or `None`
/// when it names no modeled host object.
pub fn host_instance_markers(registry: &HostRegistry, class_name: &str) -> (r: Option<Vec<String>>)
    ensures
        r matches Some(ms) ==> views(ms@) == host_markers(registry.objects@, class_name@) && ms.len()
            > 0,
        r is None <==> host_markers(registry.objects@, class_name@).len() == 0,
{
    let mut out: Vec<String> = Vec::new();
    let mut i: usize = 0;
    while i < registry.objects.len()
        invariant
            i <= registry.objects.len(),
            views(out@) == host_markers(registry.objects@.take(i as int), class_name@),
        decreases registry.objects.len() - i,
    {
        assert(registry.objects@.take(i + 1).drop_last() =~= registry.objects@.take(i as int));
        let o = &registry.objects[i];
        if str_eq(o.class_name.as_str(), class_name) || str_eq(o.to_string_tag.as_str(), class_name) {
            let ghost before = out@;
            out.push(o.marker.clone());
            assert(views(out@) =~= views(before).push(o.marker@));
        }
        i = i + 1;
    }
    assert(registry.objects@.take(registry.objects.len() as int) =~= registry.objects@);
    if out.len() == 0 {
        None
    } else {
        Some(out)
    }
}

fn override_slot_text<'a>(overrides: &'a Vec<HostOverride>, name: &str) -> (r: Option<&'a String>)
    ensures
        r matches Some(s) ==> override_slot(overrides@, name@) == Some(s@),
        r is None <==> override_slot(overrides@, name@) is None,
{
    let mut i: usize = 0;
    assert(overrides@.skip(0) =~= overrides@);
    while i < overrides.len()
        invariant
            i <= overrides.len(),
            override_slot(overrides@, name@) == override_slot(overrides@.skip(i as int), name@),
        decreases overrides.len() - i,
    {
        assert(overrides@.skip(i as int).drop_first() =~= overrides@.skip(i + 1));
        if str_eq(overrides[i].class_name.as_str(), name) {
            return Some(&overrides[i].slot);
        }
        i = i + 1;
    }
    None
}

fn class_check_find(checks: &Vec<(usize, Template)>, class: usize) -> (r: Option<&Template>)
    ensures
        r matches Some(t) ==> class_check_in(checks@, class) == Some(*t),
        r is None <==> class_check_in(checks@, class) is None,
{
    let mut i: usize = 0;
    assert(checks@.skip(0) =~= checks@);
    while i < checks.len()
        invariant
            i <= checks.len(),
            class_check_in(checks@, class) == class_check_in(checks@.skip(i as int), class),
        decreases checks.len() - i,
    {
        assert(checks@.skip(i as int).drop_first() =~= checks@.skip(i + 1));
        if checks[i].0 == class {
            return Some(&checks[i].1);
        }
        i = i + 1;
    }
    None
}

fn object_probe_text(text: &str, optional: bool, probe: &str) -> (r: String)
    ensures
        r@ == object_probe(text@, optional, probe@),
{
    let mut s = if optional {
        wrap("matches!(", text, ".clone(), Some(SmeltUnknown::Object(value)) if ")
    } else {
        wrap("matches!(", text, ".clone(), SmeltUnknown::Object(value) if ")
    };
    s.append(probe);
    s.append(")");
    s
}

fn key_probe_text(marker: &str) -> (r: String)
    ensures
        r@ == key_probe(marker@),
{
    wrap("value.contains_key(\"", marker, "\")")
}

fn builtin_marker_text(name: &str) -> (r: Option<&'static str>)
    ensures
        r matches Some(m) ==> builtin_marker(name@) == Some(m@),
        r is None <==> builtin_marker(name@) is None,
{
    if str_eq(name, "Date") {
        Some("__smelt_date")
    } else if str_eq(name, "RegExp") {
        Some("__smelt_regexp")
    } else if str_eq(name, "ArrayBuffer") {
        Some("__smelt_arraybuffer")
    } else if str_eq(name, "Blob") {
        Some("__smelt_blob")
    } else if str_eq(name, "Number") {
        Some("__smelt_number")
    } else {
        None
    }
}

impl FunctionEmitter {
    /// The test of a concrete union type `ty` against `class`.
    pub open spec fn union_class_check(&self, ty: usize, class: usize) -> Option<Template> {
        match self.fact(ty) {
            Some(f) => class_check_in(f.class_checks@, class),
            None => None,
        }
    }

    pub open spec fn instance_markers(&self, name: Seq<char>) -> Seq<Seq<char>> {
        host_markers(self.host.objects@, name)
    }

    /// The identity markers an `instanceof name` probe accepts, if `name` has
    /// any.
    pub open spec fn probe_markers(&self, name: Seq<char>) -> Option<Seq<Seq<char>>> {
        if name == "AbortController"@ {
            Some(seq!["__smelt_abortcontroller"@])
        } else if name == "AbortSignal"@ {
            Some(seq!["__smelt_abortsignal"@])
        } else if self.instance_markers(name).len() == 0 {
            None
        } else {
            Some(self.instance_markers(name))
        }
    }

    /// The slot-aware test of `text` of type `ty` against a reassigned host
    /// constructor `name`, where it applies.
    pub open spec fn override_spec(&self, text: Seq<char>, ty: usize, name: Seq<char>) -> Option<
        Seq<char>,
    > {
        let t = self.ty(ty);
        let ms = self.instance_markers(name);
        match override_slot(self.host.overrides@, name) {
            Some(slot) => if ms.len() > 0 && (dynamic_value(t) || self.erased_class(ty)) {
                Some(
                    slot + ".with(|smelt_slot| smelt_host_override_instance_of(smelt_slot, &"@
                        + probed_value(text, optional_value(t)) + ", &["@ + seq_join(
                        wrapped_each(ms, "\""@, "\""@),
                        ", "@,
                    ) + "]))"@,
                )
            } else {
                None
            },
            None => None,
        }
    }

    /// Every test of `value instanceof name` ahead of the declared class
    /// chain; `None` when the chain decides.
    pub open spec fn instance_of_early(&self, value: Operand, class: usize, name: Seq<char>) -> Option<
        Seq<char>,
    > {
        let t = self.ty(value.ty);
        let text = value.text@;
        let optional = optional_value(t);
        let dynamic = dynamic_value(t);
        match self.union_class_check(value.ty, class) {
            Some(check) => Some(check.render_spec(text)),
            None => match self.override_spec(text, value.ty, name) {
                Some(check) => Some(check),
                None => if dynamic && name_listed(self.host.error_classes@, name) {
                    Some(object_probe(text, optional, error_probe(name)))
                } else if dynamic && builtin_marker(name) is Some {
                    Some(object_probe(text, optional, key_probe(builtin_marker(name)->0)))
                } else if name == "Map"@ || name == "Set"@ {
                    if concrete_collection(name, t) {
                        Some("true"@)
                    } else if dynamic {
                        Some(object_probe(text, optional, key_probe(collection_marker(name))))
                    } else {
                        Some("false"@)
                    }
                } else if dynamic && name == "Promise"@ {
                    Some(promise_probe(text, optional))
                } else {
                    match self.probe_markers(name) {
                        Some(ms) => if dynamic || self.erased_class(value.ty) {
                            Some(
                                object_probe(
                                    text,
                                    optional,
                                    seq_join(
                                        wrapped_each(ms, "value.contains_key(\""@, "\")"@),
                                        " || "@,
                                    ),
                                ),
                            )
                        } else {
                            None
                        },
                        None => None,
                    }
                },
            },
        }
    }

    /// The Rust boolean expression for `value instanceof class`.
    pub open spec fn instance_of_spec(&self, value: Operand, class: usize) -> Option<Seq<char>> {
        match self.symbol(class) {
            None => None,
            Some(name) => match self.instance_of_early(value, class, name) {
                Some(t) => Some(t),
                None => Some(
                    match self.ty(value.ty) {
                        Some(Type::Class { name: n, .. }) => if self.extends_spec(n, class) {
                            "true"@
                        } else {
                            "false"@
                        },
                        _ => "false"@,
                    },
                ),
            },
        }
    }

    /// Where the test walks the declared base chain of the value's class, the
    /// walk ends.
    pub open spec fn instance_of_walk_stops(&self, value: Operand, class: usize) -> bool {
        match self.symbol(class) {
            Some(name) => self.instance_of_early(value, class, name) is None ==> match self.ty(
                value.ty,
            ) {
                Some(Type::Class { name: n, .. }) => self.walk_stops(n, class),
                _ => true,
            },
            None => true,
        }
    }

    fn is_dynamic_value(&self, ty: usize) -> (r: bool)
        ensures
            r == dynamic_value(self.ty(ty)),
    {
        match self.type_at(ty) {
            Some(Type::Unknown) => true,
            Some(Type::TypeParam { .. }) => true,
            Some(Type::Union(_)) => true,
            Some(Type::Optional(_)) => true,
            _ => false,
        }
    }

    fn is_optional_value(&self, ty: usize) -> (r: bool)
        ensures
            r == optional_value(self.ty(ty)),
    {
        match self.type_at(ty) {
            Some(Type::Optional(_)) => true,
            _ => false,
        }
    }

    fn is_concrete_collection(&self, ty: usize, map: bool) -> (r: bool)
        ensures
            r == (if map {
                self.ty(ty) matches Some(Type::JsMap(_, _))
            } else {
                self.ty(ty) matches Some(Type::SetOf(_))
            }),
    {
        match self.type_at(ty) {
            Some(Type::JsMap(_, _)) => map,
            Some(Type::SetOf(_)) => !map,
            _ => false,
        }
    }

    /// The test of `text`, a value of concrete union type `ty`, against `class`.
    pub fn concrete_union_class_check(&self, text: &str, ty: usize, class: usize) -> (r: Option<
        String,
    >)
        ensures
            r matches Some(t) ==> self.union_class_check(ty, class) matches Some(c) && t@
                == c.render_spec(text@),
            r is None <==> self.union_class_check(ty, class) is None,
    {
        match self.fact_at(ty) {
            Some(f) => match class_check_find(&f.class_checks, class) {
                Some(check) => Some(check.render(text)),
                None => None,
            },
            None => None,
        }
    }

    /// The slot-aware `instanceof` test for a host constructor the program
    /// reassigns: `None` when `class_name` has no override slot, names no
    /// modeled host object, or the value's type answers statically.
    pub fn host_override_instance_of_text(&self, value: &Operand, value_ty: usize, class_name: &str) -> (r:
        Result<Option<String>, EmitError>)
        ensures
            r matches Ok(Some(t)) ==> self.override_spec(value.text@, value_ty, class_name@) == Some(
                t@,
            ),
            r matches Ok(None) ==> self.override_spec(value.text@, value_ty, class_name@) is None,
            r is Ok,
    {
        let slot = match override_slot_text(&self.host.overrides, class_name) {
            Some(s) => s,
            None => {
                return Ok(None);
            },
        };
        let markers = match host_instance_markers(&self.host, class_name) {
            Some(ms) => ms,
            None => {
                return Ok(None);
            },
        };
        if !(self.is_dynamic_value(value_ty) || self.is_erased_class_type(value_ty)) {
            return Ok(None);
        }
        let probed = if self.is_optional_value(value_ty) {
            suffixed(value.text.as_str(), ".clone().unwrap_or(SmeltUnknown::Undefined)")
        } else {
            suffixed(value.text.as_str(), ".clone()")
        };
        let quoted = wrap_each(&markers, "\"", "\"");
        let marker_list = join(&quoted, ", ");
        let mut s = wrap(
            slot.as_str(),
            ".with(|smelt_slot| smelt_host_override_instance_of(smelt_slot, &",
            probed.as_str(),
        );
        s.append(", &[");
        s.append(marker_list.as_str());
        s.append("]))");
        Ok(Some(s))
    }

    /// Renders `value instanceof class` as a Rust boolean expression.
    pub fn instance_of_text(&self, value: &Operand, class: usize) -> (r: Result<String, EmitError>)
        requires
            self.instance_of_walk_stops(*value, class),
        ensures
            r matches Ok(t) ==> self.instance_of_spec(*value, class) == Some(t@),
            r is Err <==> self.instance_of_spec(*value, class) is None,
    {
        let value_ty = value.ty;
        let class_name = self.symbol_name(class)?;
        let text = value.text.as_str();
        if let Some(check) = self.concrete_union_class_check(text, value_ty, class) {
            return Ok(check);
        }
        if let Some(check) = self.host_override_instance_of_text(value, value_ty, class_name.as_str())? {
            return Ok(check);
        }
        let dynamic = self.is_dynamic_value(value_ty);
        let optional = self.is_optional_value(value_ty);
        if dynamic && name_in(&self.host.error_classes, class_name.as_str()) {
            let probe = if str_eq(class_name.as_str(), "Error") {
                key_probe_text("__smelt_error")
            } else {
                let quoted = debug_quote(class_name.as_str());
                wrap(
                    "matches!(value.get(\"__smelt_error\"), Some(SmeltUnknown::String(smelt_error_class)) if &*smelt_error_class == ",
                    quoted.as_str(),
                    ")",
                )
            };
            return Ok(object_probe_text(text, optional, probe.as_str()));
        }
        if dynamic {
            if let Some(marker) = builtin_marker_text(class_name.as_str()) {
                let probe = key_probe_text(marker);
                return Ok(object_probe_text(text, optional, probe.as_str()));
            }
        }
        let is_map = str_eq(class_name.as_str(), "Map");
        if is_map || str_eq(class_name.as_str(), "Set") {
            if self.is_concrete_collection(value_ty, is_map) {
                return Ok(String::from_str("true"));
            }
            if dynamic {
                let probe = if is_map {
                    key_probe_text("__smelt_map")
                } else {
                    key_probe_text("__smelt_set")
                };
                return Ok(object_probe_text(text, optional, probe.as_str()));
            }
            return Ok(String::from_str("false"));
        }
        if dynamic && str_eq(class_name.as_str(), "Promise") {
            return Ok(
                if optional {
                    wrap("matches!(", text, ".clone(), Some(SmeltUnknown::Promise(_)))")
                } else {
                    wrap("matches!(", text, ".clone(), SmeltUnknown::Promise(_))")
                },
            );
        }
        let markers: Option<Vec<String>> = if str_eq(class_name.as_str(), "AbortController") {
            let v = vec![String::from_str("__smelt_abortcontroller")];
            assert(views(v@) =~= seq!["__smelt_abortcontroller"@]);
            Some(v)
        } else if str_eq(class_name.as_str(), "AbortSignal") {
            let v = vec![String::from_str("__smelt_abortsignal")];
            assert(views(v@) =~= seq!["__smelt_abortsignal"@]);
            Some(v)
        } else {
            host_instance_markers(&self.host, class_name.as_str())
        };
        if let Some(ms) = markers {
            if dynamic || self.is_erased_class_type(value_ty) {
                let probes = wrap_each(&ms, "value.contains_key(\"", "\")");
                let probe = join(&probes, " || ");
                return Ok(object_probe_text(text, optional, probe.as_str()));
            }
        }
        let result = match self.type_at(value_ty) {
            Some(Type::Class { name, .. }) => self.class_extends_or_equals(*name, class),
            _ => false,
        };
        Ok(
            if result {
                String::from_str("true")
            } else {
                String::from_str("false")
            },
        )
    }
}

} // verus!
