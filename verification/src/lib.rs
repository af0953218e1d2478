//! Processing of `#[pyo3(add_class)]` and `#[pyo3(add_function)]` attributes
//! on the `use` items of a `#[pymodule]` function, with the decisions of the
//! PyO3 attribute macros and the identity of Python base objects.
pub mod syntax;
pub mod add_item;
pub mod laws;
pub mod types;
pub mod expand;
