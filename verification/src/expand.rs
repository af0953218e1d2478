//! The decisions of the PyO3 attribute macros: which name a `#[pymodule]` gets
//! and which failure it reports, which parse failure `#[pyproto]`,
//! `#[pyclass]`, `#[pymethods]` and `#[pyfunction]` report, and how their
//! output is put together.
use vstd::prelude::*;

verus! {

/// The argument of `#[pymodule(...)]`.
#[derive(Debug, PartialEq, Eq)]
pub enum ModuleAttr {
    /// No argument: `#[pymodule]`.
    Empty,
    /// A single identifier, by its text: `#[pymodule(name)]`.
    Ident(String),
    /// Anything that does not parse as a single identifier.
    Invalid,
}

/// The item that `#[pymodule]` is put on.
#[derive(Debug, PartialEq, Eq)]
pub enum ModuleInput {
    /// A function, by the text of its name.
    Function(String),
    /// A module, by the text of its name.
    Module(String),
    /// Anything that parses neither as a function nor as a module.
    Invalid,
}

/// How `#[pymodule]` expands.
#[derive(Debug, PartialEq, Eq)]
pub enum ModuleExpansion {
    /// The function `item`, after the processing of its body, followed by
    /// the initialization code of the Python module `module` (the entry point
    /// `PyInit_<module>`, which calls `item`); see `emit_module`.
    Function { item: String, module: String },
    /// The module `item`, unchanged, followed by the initialization code of
    /// the Python module `module`, which calls `item`; see `emit_module`.
    Module { item: String, module: String },
    /// The output is the error of parsing the argument as an identifier.
    AttrError,
    /// The output is the error of parsing the item as a module.
    InputError,
    /// The output is the error of reading the item's doc comment.
    DocError,
}

pub enum ModuleExpansionV {
    Function { item: Seq<char>, module: Seq<char> },
    Module { item: Seq<char>, module: Seq<char> },
    AttrError,
    InputError,
    DocError,
}

impl View for ModuleExpansion {
    type V = ModuleExpansionV;

    open spec fn view(&self) -> ModuleExpansionV {
        match self {
            ModuleExpansion::Function { item, module } => ModuleExpansionV::Function {
                item: item@,
                module: module@,
            },
            ModuleExpansion::Module { item, module } => ModuleExpansionV::Module {
                item: item@,
                module: module@,
            },
            ModuleExpansion::AttrError => ModuleExpansionV::AttrError,
            ModuleExpansion::InputError => ModuleExpansionV::InputError,
            ModuleExpansion::DocError => ModuleExpansionV::DocError,
        }
    }
}

/// The name of the Python module: the argument where one is given, else the
/// name of the item itself; `None` where the argument is not an identifier.
pub open spec fn module_name(attr: ModuleAttr, item: Seq<char>) -> Option<Seq<char>> {
    match attr {
        ModuleAttr::Empty => Some(item),
        ModuleAttr::Ident(n) => Some(n@),
        ModuleAttr::Invalid => None,
    }
}

/// How `#[pymodule]` expands: the item is read as a function first, then as a
/// module; then the argument is read, and then the item's doc comment
/// (`doc_ok` tells whether it could be read).  The first of these that fails
/// gives the output; otherwise the Python module takes the name given in the
/// argument, or else the item's own name.
pub fn pymodule(attr: ModuleAttr, input: ModuleInput, doc_ok: bool) -> (r: ModuleExpansion)
    ensures
        match input {
            ModuleInput::Function(f) => match module_name(attr, f@) {
                Some(m) => if doc_ok {
                    r@ == (ModuleExpansionV::Function { item: f@, module: m })
                } else {
                    r@ == ModuleExpansionV::DocError
                },
                None => r@ == ModuleExpansionV::AttrError,
            },
            ModuleInput::Module(md) => match module_name(attr, md@) {
                Some(m) => if doc_ok {
                    r@ == (ModuleExpansionV::Module { item: md@, module: m })
                } else {
                    r@ == ModuleExpansionV::DocError
                },
                None => r@ == ModuleExpansionV::AttrError,
            },
            ModuleInput::Invalid => r@ == ModuleExpansionV::InputError,
        },
        match (attr, input) {
            (ModuleAttr::Ident(n), ModuleInput::Function(f)) => doc_ok ==> r@ == (
            ModuleExpansionV::Function { item: f@, module: n@ }),
            (ModuleAttr::Ident(n), ModuleInput::Module(md)) => doc_ok ==> r@ == (
            ModuleExpansionV::Module { item: md@, module: n@ }),
            (ModuleAttr::Empty, ModuleInput::Function(f)) => doc_ok ==> r@ == (
            ModuleExpansionV::Function { item: f@, module: f@ }),
            (ModuleAttr::Empty, ModuleInput::Module(md)) => doc_ok ==> r@ == (
            ModuleExpansionV::Module { item: md@, module: md@ }),
            _ => true,
        },
{
    match input {
        ModuleInput::Function(item) => match attr {
            ModuleAttr::Invalid => ModuleExpansion::AttrError,
            _ if !doc_ok => ModuleExpansion::DocError,
            ModuleAttr::Empty => {
                let module = item.clone();
                ModuleExpansion::Function { item, module }
            },
            ModuleAttr::Ident(module) => ModuleExpansion::Function { item, module },
        },
        ModuleInput::Module(item) => match attr {
            ModuleAttr::Invalid => ModuleExpansion::AttrError,
            _ if !doc_ok => ModuleExpansion::DocError,
            ModuleAttr::Empty => {
                let module = item.clone();
                ModuleExpansion::Module { item, module }
            },
            ModuleAttr::Ident(module) => ModuleExpansion::Module { item, module },
        },
        ModuleInput::Invalid => ModuleExpansion::InputError,
    }
}

/// The output of `#[pymodule]`, given its expansion.  For a function, the
/// function after the processing of its body (`processed`) comes first, then
/// the module initialization code (`init`); a module comes first unchanged
/// (`item`), then the initialization code; on any failure the output is only
/// the error (`error`).
pub fn emit_module<T>(
    expansion: &ModuleExpansion,
    item: Vec<T>,
    processed: Vec<T>,
    init: Vec<T>,
    error: Vec<T>,
) -> (out: Vec<T>)
    ensures
        match expansion@ {
            ModuleExpansionV::Function { .. } => out@ == processed@ + init@,
            ModuleExpansionV::Module { .. } => out@ == item@ + init@,
            _ => out@ == error@,
        },
{
    let mut init = init;
    match expansion {
        ModuleExpansion::Function { .. } => {
            let mut out = processed;
            out.append(&mut init);
            out
        },
        ModuleExpansion::Module { .. } => {
            let mut out = item;
            out.append(&mut init);
            out
        },
        _ => error,
    }
}

/// The attribute macros that keep their item and add generated code to it.
#[derive(Debug, PartialEq, Eq)]
pub enum AttrMacro {
    /// `#[pyproto]` on an `impl` block; its argument is ignored.
    Proto,
    /// `#[pyclass(...)]` on a struct; its argument holds the class options.
    Class,
    /// `#[pymethods]` on an `impl` block; its argument is ignored.
    Methods,
    /// `#[pyfunction(...)]` on a function; its argument holds the function
    /// options.
    Function,
}

/// What an attribute macro outputs before any code is generated.
#[derive(Debug, PartialEq, Eq)]
pub enum AttrMacroOutput {
    /// Only the error of parsing the item.
    InputError,
    /// Only the error of parsing the argument.
    AttrError,
    /// The item followed by its generated code, or by the error of generating
    /// it (see `emit_with_item`).
    Emit,
}

/// Whether the macro reads its argument.
pub open spec fn reads_argument(kind: AttrMacro) -> bool {
    kind == AttrMacro::Class || kind == AttrMacro::Function
}

/// What an attribute macro outputs, given whether its item parses
/// (`input_ok`) and whether its argument parses (`attr_ok`): the item is
/// parsed first, then the argument, where the macro reads one.
pub fn attribute_macro(kind: AttrMacro, input_ok: bool, attr_ok: bool) -> (r: AttrMacroOutput)
    ensures
        !input_ok ==> r == AttrMacroOutput::InputError,
        input_ok && reads_argument(kind) && !attr_ok ==> r == AttrMacroOutput::AttrError,
        input_ok && (!reads_argument(kind) || attr_ok) ==> r == AttrMacroOutput::Emit,
{
    if !input_ok {
        return AttrMacroOutput::InputError;
    }
    let reads = match kind {
        AttrMacro::Class | AttrMacro::Function => true,
        AttrMacro::Proto | AttrMacro::Methods => false,
    };
    if reads && !attr_ok {
        AttrMacroOutput::AttrError
    } else {
        AttrMacroOutput::Emit
    }
}

/// The output of an attribute macro that keeps its item: the (possibly
/// rewritten) item, followed by the generated code, or by the error that
/// generating it gave.
pub fn emit_with_item<T>(item: Vec<T>, expansion: Result<Vec<T>, Vec<T>>) -> (out: Vec<T>)
    ensures
        out@ == item@ + match expansion {
            Ok(e) => e@,
            Err(e) => e@,
        },
{
    let mut out = item;
    let mut tail = match expansion {
        Ok(e) => e,
        Err(e) => e,
    };
    out.append(&mut tail);
    out
}

/// The Python module is named by the argument of `#[pymodule(...)]` whenever
/// it is an identifier, whatever the item is called; without an argument it is
/// named after the item; with any other argument it has no name.
pub proof fn law_module_name(attr: ModuleAttr, item: Seq<char>)
    ensures
        attr matches ModuleAttr::Ident(n) ==> module_name(attr, item) == Some(n@),
        attr is Empty ==> module_name(attr, item) == Some(item),
        attr is Invalid ==> module_name(attr, item) is None,
{
}

} // verus!
