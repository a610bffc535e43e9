# lib

The verified core of a code generator's emission rules: how MIR operands,
rvalues and calls of a TypeScript-derived program are rendered as Rust text.

Each rendering function returns the text of a spec function over a model of
the emitter's inputs (`types.rs`, `mir.rs`, `emitter.rs`): the interned type
table with the facts the rest of the code generator decides about each type,
and the MIR function and closures being emitted, with the text the operand
renderer gave each operand. Contracts state, for every input, the exact text
produced or that an error is returned.

Layout:

- `text.rs`, `numtext.rs` — character-level helpers over rendered text.
- `types.rs`, `mir.rs`, `emitter.rs` — the model of the emitter's inputs.
- `erase.rs`, `extract.rs`, `value_at_type.rs`, `operand.rs`, `coercion.rs` —
  coercions between static types and the erased runtime value.
- `binary_ops.rs`, `binary_text.rs`, `binary_rvalue.rs` — binary and unary
  operators, and the order in which their rules are tried.
- `rvalue_text.rs` — rvalues at their destination type.
- `operand_uses.rs`, `field_access.rs`, `tags.rs`, `instance_of.rs`,
  `class_queries.rs`, `host_values.rs`, `callable_objects.rs` — reads, runtime
  tests, classes, host values.
- `async_ops.rs`, `call_args.rs`, `call_shapes.rs`, `closure_body.rs` — async
  operations, call sites, and the structuring of closure bodies.
- `closure_literal.rs`, `closure_value.rs` — closure literals and the values
  they become at a contextual type.
- `generator_yield.rs` — a generator's suspension points.
- `graph.rs`, `cfg_queries.rs`, `capture_analysis.rs`, `mir_queries.rs`,
  `generics.rs` — analyses over the MIR.
- `laws.rs` — properties that relate several rules.
