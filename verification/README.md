# pyo3_derive_backend

Verified processing of `#[pyo3(add_class)]` and `#[pyo3(add_function)]` on the
`use` items of a `#[pymodule]` function, together with the expansion decisions
of the PyO3 attribute macros and the identity of Python base objects.

- `src/syntax.rs`: the model of a function body that the processing reads, its
  mathematical views, and path identifiers.
- `src/add_item.rs`: the processing, specified as folds over attributes and
  statements, and its implementation.
- `src/laws.rs`: properties of the processing as a whole (idempotence,
  statements kept in order, consumed attributes, registrations).
- `src/expand.rs`: how `#[pymodule]` names its module and which failure it
  reports and how its output is laid out, and which parse failure the other attribute macros report and how
  they put their output together.
- `src/types.rs`: Python objects by address, and base-object identity.
- `app/lib.rs`: the `syn` side: conversion of `syn::ItemFn` to the model and
  back, registration statements, and error spans.
