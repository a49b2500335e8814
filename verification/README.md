# wasm_operators

A verified validator of WebAssembly function bodies. It is fed the operators of
a body one by one and keeps the types of the operands, the open blocks and
whether the code can be reached; each operator is accepted or refused with a
message.

- `operators_validator`: `OperatorValidator`, with `new`, `define_locals` and
  `process_operator`.
- `rules`: what each operator does to the state, and when it is refused. The
  contract of `process_operator` is that the state and the result are those of
  `rules::step`.
- `model`, `checks`: the state as mathematical values, and what is asked of it.
- `shapes`: the operators that differ in their types alone.
- `laws`: what holds of all operators, all states and whole bodies.
- `resources`: what a module tells the validator, and a plain module.
- `features`, `limits`, `primitives`, `error`, `text`, `type_list`: the rest.

A validator is well formed from `new` on, and `process_operator` keeps it so and
does not panic on it. `define_locals` does not panic as long as the function has
no more than `MAX_WASM_FUNCTION_LOCALS` parameters and locals; a validator made
for a longer list of parameters must not be told of locals.
