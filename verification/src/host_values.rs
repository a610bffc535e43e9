//! Host values with members of their own: the members of a `Blob`/`File`,
//! which land on methods of the concrete blob type, and the `AbortSignal`
//! constructors.

use vstd::prelude::*;
use crate::emitter::{EmitError, FunctionEmitter};
use crate::erase::wrap;
use crate::mir::Operand;
use crate::types::{ClassKind, Type};

verus! {

/// A member of a `Blob`/`File` value.
pub enum BlobOp {
    Size,
    LastModified,
    Type,
    Name,
    Text,
    ArrayBuffer,
    Bytes,
    Slice,
}

/// A static constructor of `AbortSignal`.
pub enum AbortSignalOp {
    Abort,
    Timeout,
}

/// The future that reads a blob's body through `reader`.
pub open spec fn blob_body_future(receiver: Seq<char>, reader: Seq<char>) -> Seq<char> {
    "{ let smelt_blob = "@ + receiver
        + ".clone(); SmeltFuture::from_future(Box::pin(async move { Ok::<_, Box<dyn std::error::Error>>("@
        + reader + ") })) }"@
}

/// The signal record that aborts itself after `delay` milliseconds.
pub open spec fn timeout_signal(spawn: Seq<char>, sleep: Seq<char>, delay: Seq<char>) -> Seq<char> {
    "{ let smelt_signal = smelt_abort_signal_record(None); let smelt_handle = smelt_signal.clone(); "@
        + spawn + "(Box::pin(async move { "@ + sleep + "("@ + delay
        + " as f64).await; smelt_abort_signal_fire(&smelt_handle, smelt_abort_timeout_reason()); })); SmeltUnknown::Object(smelt_signal) }"@
}

impl FunctionEmitter {
    /// A class type that names the generated blob type.
    pub open spec fn blob_class(&self, ty: usize) -> bool {
        (self.ty(ty) matches Some(Type::Class { .. })) && self.class_kind_of(ty) is Blob
    }

    /// An optional slice bound: the argument at `k` coerced to `f64`, or
    /// `None` when absent.
    pub open spec fn slice_bound_spec(&self, args: Seq<Operand>, k: int, float_ty: usize) -> Option<
        Seq<char>,
    > {
        if k < args.len() {
            match self.vat_op_spec(args[k], float_ty) {
                Some(t) => Some("Some("@ + t + ")"@),
                None => None,
            }
        } else {
            Some("None"@)
        }
    }

    /// A blob accessor `receiver.method()` of static type `ty`, stored at
    /// `dest`.
    pub open spec fn blob_accessor_spec(&self, receiver: Seq<char>, method: Seq<char>, ty: Type, dest: usize) -> Option<
        Seq<char>,
    > {
        match self.find_interned(ty) {
            Some(t) => self.vat_spec(receiver + "."@ + method + "()"@, t, dest, Seq::empty()),
            None => None,
        }
    }

    /// The text of one blob member.
    pub open spec fn blob_op_spec(&self, op: BlobOp, blob: Operand, args: Seq<Operand>, dest: usize) -> Option<
        Seq<char>,
    > {
        let receiver = blob.text@;
        match op {
            BlobOp::Size => self.blob_accessor_spec(receiver, "size"@, Type::Float, dest),
            BlobOp::LastModified => self.blob_accessor_spec(receiver, "last_modified"@, Type::Float, dest),
            BlobOp::Type => self.blob_accessor_spec(receiver, "blob_type"@, Type::Str, dest),
            BlobOp::Name => self.blob_accessor_spec(receiver, "file_name"@, Type::Str, dest),
            BlobOp::Text => Some(blob_body_future(receiver, "smelt_blob.to_text()"@)),
            BlobOp::ArrayBuffer | BlobOp::Bytes => Some(
                blob_body_future(receiver, "SmeltUint8Array::from_bytes(smelt_blob.to_bytes())"@),
            ),
            BlobOp::Slice => match (self.find_interned(Type::Float), self.find_interned(Type::Str)) {
                (Some(f), Some(s)) => {
                    let content_type = if 2 < args.len() {
                        match self.vat_op_spec(args[2], s) {
                            Some(t) => Some("Some("@ + t + ")"@),
                            None => None,
                        }
                    } else {
                        Some("None"@)
                    };
                    match (content_type, self.slice_bound_spec(args, 0, f), self.slice_bound_spec(args, 1, f)) {
                        (Some(c), Some(a), Some(b)) => Some(
                            receiver + ".slice("@ + a + ", "@ + b + ", "@ + c + ")"@,
                        ),
                        _ => None,
                    }
                },
                _ => None,
            },
        }
    }

    /// The text of an `AbortSignal` constructor, stored at `dest`.
    pub open spec fn abort_signal_op_spec(&self, op: AbortSignalOp, args: Seq<Operand>, dest: usize) -> Option<
        Seq<char>,
    > {
        match self.find_interned(Type::Unknown) {
            None => None,
            Some(u) => {
                let call = match op {
                    AbortSignalOp::Abort => {
                        let reason = if args.len() > 0 {
                            match self.erase_op_spec(args[0]) {
                                Some(t) => Some("smelt_abort_reason_argument(&["@ + t + "])"@),
                                None => None,
                            }
                        } else {
                            Some("smelt_abort_default_reason()"@)
                        };
                        match reason {
                            Some(r) => Some("SmeltUnknown::Object(smelt_abort_signal_record(Some("@ + r + ")))"@),
                            None => None,
                        }
                    },
                    AbortSignalOp::Timeout => if args.len() == 0 {
                        None
                    } else {
                        match self.find_interned(Type::Float) {
                            Some(f) => match self.vat_op_spec(args[0], f) {
                                Some(d) => Some(
                                    timeout_signal(
                                        self.runtime.spawn_promise_task@,
                                        self.runtime.sleep_ms@,
                                        d,
                                    ),
                                ),
                                None => None,
                            },
                            None => None,
                        }
                    },
                };
                match call {
                    Some(c) => self.vat_spec(c, u, dest, Seq::empty()),
                    None => None,
                }
            },
        }
    }

    /// Returns whether a type names the generated blob type.
    pub fn is_blob_class_type(&self, ty: usize) -> (r: Result<bool, EmitError>)
        ensures
            r == Ok::<bool, EmitError>(self.blob_class(ty)),
    {
        match self.type_at(ty) {
            Some(Type::Class { .. }) => {},
            _ => {
                return Ok(false);
            },
        }
        match self.fact_at(ty) {
            Some(f) => match f.class_kind {
                ClassKind::Blob => Ok(true),
                _ => Ok(false),
            },
            None => Ok(false),
        }
    }

    fn slice_bound_text(&self, args: &Vec<Operand>, k: usize, float_ty: usize) -> (r: Result<
        String,
        EmitError,
    >)
        requires
            self.wf(),
        ensures
            r matches Ok(t) ==> self.slice_bound_spec(args@, k as int, float_ty) == Some(t@),
            r is Err <==> self.slice_bound_spec(args@, k as int, float_ty) is None,
    {
        if k < args.len() {
            let t = self.value_at_type(&args[k], float_ty)?;
            Ok(wrap("Some(", t.as_str(), ")"))
        } else {
            Ok(String::from_str("None"))
        }
    }

    fn blob_accessor_text(&self, receiver: &str, method: &str, ty: Type, dest_ty: usize) -> (r: Result<
        String,
        EmitError,
    >)
        requires
            self.wf(),
        ensures
            r matches Ok(t) ==> self.blob_accessor_spec(receiver@, method@, ty, dest_ty) == Some(t@),
            r is Err <==> self.blob_accessor_spec(receiver@, method@, ty, dest_ty) is None,
    {
        let t = self.type_id(&ty)?;
        let call = wrap(receiver, ".", method);
        let mut call = call;
        call.append("()");
        self.value_at_type_text(call.as_str(), t, dest_ty)
    }

    /// Emits one `Blob`/`File` member as a method call on the concrete blob.
    pub fn blob_op_text(&self, op: BlobOp, blob: &Operand, args: &Vec<Operand>, dest_ty: usize) -> (r:
        Result<String, EmitError>)
        requires
            self.wf(),
        ensures
            r matches Ok(t) ==> self.blob_op_spec(op, *blob, args@, dest_ty) == Some(t@),
            r is Err <==> self.blob_op_spec(op, *blob, args@, dest_ty) is None,
    {
        let receiver = blob.text.as_str();
        match op {
            BlobOp::Size => self.blob_accessor_text(receiver, "size", Type::Float, dest_ty),
            BlobOp::LastModified => self.blob_accessor_text(receiver, "last_modified", Type::Float, dest_ty),
            BlobOp::Type => self.blob_accessor_text(receiver, "blob_type", Type::Str, dest_ty),
            BlobOp::Name => self.blob_accessor_text(receiver, "file_name", Type::Str, dest_ty),
            BlobOp::Text => {
                let mut s = wrap("{ let smelt_blob = ", receiver, ".clone(); SmeltFuture::from_future(Box::pin(async move { Ok::<_, Box<dyn std::error::Error>>(");
                s.append("smelt_blob.to_text()");
                s.append(") })) }");
                Ok(s)
            },
            BlobOp::ArrayBuffer | BlobOp::Bytes => {
                let mut s = wrap("{ let smelt_blob = ", receiver, ".clone(); SmeltFuture::from_future(Box::pin(async move { Ok::<_, Box<dyn std::error::Error>>(");
                s.append("SmeltUint8Array::from_bytes(smelt_blob.to_bytes())");
                s.append(") })) }");
                Ok(s)
            },
            BlobOp::Slice => {
                let float_ty = self.type_id(&Type::Float)?;
                let string_ty = self.type_id(&Type::Str)?;
                let content_type = if 2 < args.len() {
                    let t = self.value_at_type(&args[2], string_ty)?;
                    wrap("Some(", t.as_str(), ")")
                } else {
                    String::from_str("None")
                };
                let start = self.slice_bound_text(args, 0, float_ty)?;
                let end = self.slice_bound_text(args, 1, float_ty)?;
                let mut s = wrap(receiver, ".slice(", start.as_str());
                s.append(", ");
                s.append(end.as_str());
                s.append(", ");
                s.append(content_type.as_str());
                s.append(")");
                Ok(s)
            },
        }
    }

    /// Emits `AbortSignal.abort(reason?)`, a signal born aborted, or
    /// `AbortSignal.timeout(ms)`, a signal a spawned task aborts after the
    /// delay; the erased signal record is then stored at the destination.
    pub fn abort_signal_op_text(&self, op: AbortSignalOp, args: &Vec<Operand>, dest_ty: usize) -> (r:
        Result<String, EmitError>)
        requires
            self.wf(),
        ensures
            r matches Ok(t) ==> self.abort_signal_op_spec(op, args@, dest_ty) == Some(t@),
            r is Err <==> self.abort_signal_op_spec(op, args@, dest_ty) is None,
    {
        let unknown_ty = self.type_id(&Type::Unknown)?;
        let call = match op {
            AbortSignalOp::Abort => {
                let reason = if args.len() > 0 {
                    let t = self.erase(&args[0])?;
                    wrap("smelt_abort_reason_argument(&[", t.as_str(), "])")
                } else {
                    String::from_str("smelt_abort_default_reason()")
                };
                wrap("SmeltUnknown::Object(smelt_abort_signal_record(Some(", reason.as_str(), ")))")
            },
            AbortSignalOp::Timeout => {
                if args.len() == 0 {
                    return Err(EmitError::new("AbortSignal.timeout requires a delay in milliseconds"));
                }
                let float_ty = self.type_id(&Type::Float)?;
                let delay = self.value_at_type(&args[0], float_ty)?;
                let mut s = wrap(
                    "{ let smelt_signal = smelt_abort_signal_record(None); let smelt_handle = smelt_signal.clone(); ",
                    self.runtime.spawn_promise_task.as_str(),
                    "(Box::pin(async move { ",
                );
                s.append(self.runtime.sleep_ms.as_str());
                s.append("(");
                s.append(delay.as_str());
                s.append(" as f64).await; smelt_abort_signal_fire(&smelt_handle, smelt_abort_timeout_reason()); })); SmeltUnknown::Object(smelt_signal) }");
                s
            },
        };
        self.value_at_type_text(call.as_str(), unknown_ty, dest_ty)
    }
}

} // verus!
