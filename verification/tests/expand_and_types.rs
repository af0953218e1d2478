use pyo3_derive_backend::expand::{
    attribute_macro, emit_module, emit_with_item, pymodule, AttrMacro, AttrMacroOutput, ModuleAttr, ModuleExpansion,
    ModuleInput,
};
use pyo3_derive_backend::types::{PyBaseObject, PyObject};

#[test]
fn pymodule_names_the_module_after_the_function() {
    assert_eq!(
        pymodule(ModuleAttr::Empty, ModuleInput::Function("init".to_string()), true),
        ModuleExpansion::Function { item: "init".to_string(), module: "init".to_string() }
    );
    assert_eq!(
        pymodule(ModuleAttr::Ident("word_count".to_string()), ModuleInput::Function("init".to_string()), true),
        ModuleExpansion::Function { item: "init".to_string(), module: "word_count".to_string() }
    );
}

#[test]
fn pymodule_on_modules_and_errors() {
    assert_eq!(
        pymodule(ModuleAttr::Empty, ModuleInput::Module("inner".to_string()), true),
        ModuleExpansion::Module { item: "inner".to_string(), module: "inner".to_string() }
    );
    assert_eq!(pymodule(ModuleAttr::Invalid, ModuleInput::Module("inner".to_string()), true), ModuleExpansion::AttrError);
    assert_eq!(pymodule(ModuleAttr::Invalid, ModuleInput::Invalid, true), ModuleExpansion::InputError);
}

#[test]
fn attribute_output_keeps_item_first() {
    assert_eq!(emit_with_item(vec![1, 2], Ok(vec![3])), vec![1, 2, 3]);
    assert_eq!(emit_with_item(vec![1], Err(vec![9, 9])), vec![1, 9, 9]);
    assert_eq!(emit_with_item::<u8>(vec![], Ok(vec![])), Vec::<u8>::new());
}

#[test]
fn base_objects_compare_by_identity() {
    assert!(PyObject::from_ptr(0).is_none());
    let a = PyBaseObject::from_object(PyObject::from_ptr(0x1000).unwrap());
    let b = PyBaseObject::from_object(PyObject::from_ptr(0x1000).unwrap());
    let c = PyBaseObject::from_object(PyObject::from_ptr(0x2000).unwrap());
    assert_eq!(a.as_ptr(), 0x1000);
    assert!(a == b);
    assert!(a != c);
}

#[test]
fn pymodule_reports_unreadable_doc_comment() {
    assert_eq!(
        pymodule(ModuleAttr::Empty, ModuleInput::Function("init".to_string()), false),
        ModuleExpansion::DocError
    );
    assert_eq!(
        pymodule(ModuleAttr::Ident("m".to_string()), ModuleInput::Module("inner".to_string()), false),
        ModuleExpansion::DocError
    );
    assert_eq!(
        pymodule(ModuleAttr::Invalid, ModuleInput::Function("init".to_string()), false),
        ModuleExpansion::AttrError
    );
    assert_eq!(pymodule(ModuleAttr::Empty, ModuleInput::Invalid, false), ModuleExpansion::InputError);
}

#[test]
fn attribute_macros_parse_item_then_argument() {
    assert_eq!(attribute_macro(AttrMacro::Class, false, false), AttrMacroOutput::InputError);
    assert_eq!(attribute_macro(AttrMacro::Class, true, false), AttrMacroOutput::AttrError);
    assert_eq!(attribute_macro(AttrMacro::Function, true, false), AttrMacroOutput::AttrError);
    assert_eq!(attribute_macro(AttrMacro::Proto, true, false), AttrMacroOutput::Emit);
    assert_eq!(attribute_macro(AttrMacro::Methods, true, false), AttrMacroOutput::Emit);
    assert_eq!(attribute_macro(AttrMacro::Methods, false, true), AttrMacroOutput::InputError);
    assert_eq!(attribute_macro(AttrMacro::Function, true, true), AttrMacroOutput::Emit);
}

#[test]
fn module_output_puts_item_before_init_code() {
    let function = pymodule(ModuleAttr::Empty, ModuleInput::Function("init".to_string()), true);
    assert_eq!(emit_module(&function, vec![1], vec![2, 2], vec![3], vec![9]), vec![2, 2, 3]);
    let module = pymodule(ModuleAttr::Empty, ModuleInput::Module("inner".to_string()), true);
    assert_eq!(emit_module(&module, vec![1], vec![2, 2], vec![3], vec![9]), vec![1, 3]);
    let failed = pymodule(ModuleAttr::Empty, ModuleInput::Module("inner".to_string()), false);
    assert_eq!(emit_module(&failed, vec![1], vec![2, 2], vec![3], vec![9]), vec![9]);
    assert_eq!(emit_module(&ModuleExpansion::AttrError, vec![1], vec![2], vec![3], vec![8]), vec![8]);
}
