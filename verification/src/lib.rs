//! Verified emission rules of a JavaScript-to-Rust code generator: the
//! coercion seam between static Rust types and the erased `SmeltUnknown`
//! carrier, the equality and comparison rules for binary operators, and the
//! small MIR queries those rules lean on.

pub mod text;
pub mod numtext;
pub mod types;
pub mod mir;
pub mod mir_queries;
pub mod emitter;
pub mod binary_ops;
pub mod binary_text;
pub mod erase;
pub mod coercion;
pub mod generics;
pub mod value_at_type;
pub mod extract;
pub mod operand;
pub mod operand_uses;
pub mod class_queries;
pub mod instance_of;
pub mod async_ops;
pub mod tags;
pub mod graph;
pub mod capture_analysis;
pub mod cfg_queries;
pub mod call_args;
pub mod binary_rvalue;
pub mod rvalue_text;
pub mod host_values;
pub mod call_shapes;
pub mod callable_objects;
pub mod field_access;
pub mod closure_body;
pub mod closure_value;
pub mod closure_literal;
pub mod generator_yield;
pub mod laws;

use vstd::prelude::*;

verus! {

} // verus!
