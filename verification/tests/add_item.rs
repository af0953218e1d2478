use pyo3_derive_backend::add_item::{
    add_function, extract_item, function_wrapper_ident, get_use_item, process_pyo3_add,
    reaches_unimplemented, AddItemError, StmtError,
};
use pyo3_derive_backend::syntax::{
    AddWrapped, Attribute, ItemFn, ItemUse, Meta, MetaPath, NestedMeta, PathSegment, Stmt, UseTree,
};

type S = &'static str;
type A = &'static str;

fn path(names: &[&str]) -> MetaPath {
    MetaPath {
        leading_colon: false,
        segments: names
            .iter()
            .map(|n| PathSegment { ident: n.to_string(), has_arguments: false })
            .collect(),
    }
}

fn nested(names: &[&str]) -> Vec<NestedMeta> {
    names.iter().map(|n| NestedMeta::Meta(path(&[n]))).collect()
}

fn pyo3(raw: A, items: &[&str]) -> Attribute<A> {
    Attribute { raw, meta: Some(Meta::List(path(&["pyo3"]), nested(items))) }
}

fn plain(raw: A) -> Attribute<A> {
    Attribute { raw, meta: Some(Meta::Path(path(&["allow"]))) }
}

fn use_item(raw: S, attrs: Vec<Attribute<A>>, tree: UseTree) -> Stmt<S, A> {
    Stmt::Use(ItemUse { raw, attrs, tree })
}

fn name(n: &str) -> UseTree {
    UseTree::Name(n.to_string())
}

fn registration(module: &str, function: &str) -> Stmt<S, A> {
    Stmt::AddWrapped(AddWrapped {
        module: module.to_string(),
        wrapper: format!("__pyo3_get_function_{}", function),
    })
}

fn module(m: &str) -> Option<String> {
    Some(m.to_string())
}

#[test]
fn add_function_registers_before_use_item() {
    let mut func: ItemFn<S, A> = ItemFn {
        stmts: vec![
            Stmt::Other("let x = 1;"),
            use_item("use f;", vec![plain("#[allow]"), pyo3("#[pyo3]", &["add_function"]), plain("#[doc]")], name("double")),
            Stmt::Other("Ok(())"),
        ],
    };
    assert_eq!(process_pyo3_add(&module("m"), &mut func), Ok(()));
    assert_eq!(
        func.stmts,
        vec![
            Stmt::Other("let x = 1;"),
            registration("m", "double"),
            use_item("use f;", vec![plain("#[allow]"), plain("#[doc]")], name("double")),
            Stmt::Other("Ok(())"),
        ]
    );
}

#[test]
fn several_add_functions_in_one_list() {
    let mut func: ItemFn<S, A> = ItemFn {
        stmts: vec![use_item("use f;", vec![pyo3("#[pyo3]", &["add_function", "add_function"])], name("f"))],
    };
    assert_eq!(process_pyo3_add(&module("m"), &mut func), Ok(()));
    assert_eq!(
        func.stmts,
        vec![registration("m", "f"), registration("m", "f"), use_item("use f;", vec![], name("f"))]
    );
}

#[test]
fn second_pyo3_attribute_is_rejected() {
    let mut func: ItemFn<S, A> = ItemFn {
        stmts: vec![
            Stmt::Other("a"),
            use_item("use f;", vec![pyo3("#1", &["add_function"]), pyo3("#2", &["add_function"])], name("f")),
        ],
    };
    assert_eq!(
        process_pyo3_add(&module("m"), &mut func),
        Err(StmtError { stmt: 1, error: AddItemError::DuplicateAdd { attr: 1 } })
    );
    assert!(func.stmts.is_empty());
}

#[test]
fn empty_pyo3_list_does_not_count_as_used() {
    let mut func: ItemFn<S, A> = ItemFn {
        stmts: vec![use_item("use f;", vec![pyo3("#1", &[]), pyo3("#2", &["add_function"])], name("f"))],
    };
    assert_eq!(process_pyo3_add(&module("m"), &mut func), Ok(()));
    assert_eq!(func.stmts, vec![registration("m", "f"), use_item("use f;", vec![], name("f"))]);
}

#[test]
fn unsupported_add_is_rejected() {
    let mut func: ItemFn<S, A> = ItemFn {
        stmts: vec![use_item("use f;", vec![plain("#0"), pyo3("#1", &["add_function", "add_thing"])], name("f"))],
    };
    assert_eq!(
        process_pyo3_add(&module("m"), &mut func),
        Err(StmtError { stmt: 0, error: AddItemError::UnsupportedAdd { attr: 1, nested: 1 } })
    );
    assert!(func.stmts.is_empty());
}

#[test]
fn missing_module_is_rejected() {
    let mut func: ItemFn<S, A> = ItemFn {
        stmts: vec![use_item("use f;", vec![pyo3("#1", &["add_function"])], name("f"))],
    };
    assert_eq!(
        process_pyo3_add(&None, &mut func),
        Err(StmtError { stmt: 0, error: AddItemError::MissingModule })
    );
    assert!(!reaches_unimplemented(&None, &ItemFn::<S, A> {
        stmts: vec![use_item("use f;", vec![pyo3("#1", &["add_class"])], name("f"))],
    }));
}

#[test]
fn renamed_import_is_rejected() {
    let mut func: ItemFn<S, A> = ItemFn {
        stmts: vec![use_item("use f as g;", vec![pyo3("#1", &["add_function"])], UseTree::Rename)],
    };
    assert_eq!(
        process_pyo3_add(&module("m"), &mut func),
        Err(StmtError { stmt: 0, error: AddItemError::InvalidUseItem })
    );
}

#[test]
fn unimplemented_forms_are_detected() {
    let class: ItemFn<S, A> = ItemFn {
        stmts: vec![use_item("use C;", vec![pyo3("#1", &["add_class"])], name("C"))],
    };
    assert!(reaches_unimplemented(&module("m"), &class));
    let path_import: ItemFn<S, A> = ItemFn {
        stmts: vec![use_item("use a::f;", vec![pyo3("#1", &["add_function"])], UseTree::Path)],
    };
    assert!(reaches_unimplemented(&module("m"), &path_import));
    let error_first: ItemFn<S, A> = ItemFn {
        stmts: vec![
            use_item("use f;", vec![pyo3("#1", &["bogus"])], name("f")),
            use_item("use C;", vec![pyo3("#1", &["add_class"])], name("C")),
        ],
    };
    assert!(!reaches_unimplemented(&module("m"), &error_first));
}

#[test]
fn plain_body_is_unchanged() {
    let mut func: ItemFn<S, A> = ItemFn {
        stmts: vec![
            Stmt::Other("a"),
            use_item("use f;", vec![plain("#0"), Attribute { raw: "#[pyo3]", meta: Some(Meta::Path(path(&["pyo3"]))) }], name("f")),
            use_item("use g;", vec![Attribute { raw: "#[x(", meta: None }], UseTree::Glob),
        ],
    };
    assert!(!reaches_unimplemented(&None, &func));
    assert_eq!(process_pyo3_add(&None, &mut func), Ok(()));
    assert_eq!(
        func.stmts,
        vec![
            Stmt::Other("a"),
            use_item("use f;", vec![plain("#0"), Attribute { raw: "#[pyo3]", meta: Some(Meta::Path(path(&["pyo3"]))) }], name("f")),
            use_item("use g;", vec![Attribute { raw: "#[x(", meta: None }], UseTree::Glob),
        ]
    );
}

#[test]
fn processing_twice_changes_nothing_more() {
    let mut func: ItemFn<S, A> = ItemFn {
        stmts: vec![use_item("use f;", vec![pyo3("#1", &["add_function"])], name("f")), Stmt::Other("b")],
    };
    assert_eq!(process_pyo3_add(&module("m"), &mut func), Ok(()));
    let once = func.stmts.clone_stmts();
    assert_eq!(process_pyo3_add(&module("m"), &mut func), Ok(()));
    assert_eq!(func.stmts, once);
}

trait CloneStmts {
    fn clone_stmts(&self) -> Vec<Stmt<S, A>>;
}

impl CloneStmts for Vec<Stmt<S, A>> {
    fn clone_stmts(&self) -> Vec<Stmt<S, A>> {
        self.iter()
            .map(|s| match s {
                Stmt::Use(u) => use_item(
                    u.raw,
                    u.attrs.iter().map(|a| Attribute { raw: a.raw, meta: a.meta.as_ref().map(clone_meta) }).collect(),
                    clone_tree(&u.tree),
                ),
                Stmt::AddWrapped(w) => Stmt::AddWrapped(AddWrapped { module: w.module.clone(), wrapper: w.wrapper.clone() }),
                Stmt::Other(o) => Stmt::Other(*o),
            })
            .collect()
    }
}

fn clone_path(p: &MetaPath) -> MetaPath {
    MetaPath {
        leading_colon: p.leading_colon,
        segments: p.segments.iter().map(|s| PathSegment { ident: s.ident.clone(), has_arguments: s.has_arguments }).collect(),
    }
}

fn clone_meta(m: &Meta) -> Meta {
    match m {
        Meta::Path(p) => Meta::Path(clone_path(p)),
        Meta::NameValue(p) => Meta::NameValue(clone_path(p)),
        Meta::List(p, n) => Meta::List(
            clone_path(p),
            n.iter()
                .map(|x| match x {
                    NestedMeta::Meta(q) => NestedMeta::Meta(clone_path(q)),
                    NestedMeta::Lit => NestedMeta::Lit,
                })
                .collect(),
        ),
    }
}

fn clone_tree(t: &UseTree) -> UseTree {
    match t {
        UseTree::Path => UseTree::Path,
        UseTree::Name(n) => UseTree::Name(n.clone()),
        UseTree::Rename => UseTree::Rename,
        UseTree::Glob => UseTree::Glob,
        UseTree::Group => UseTree::Group,
    }
}

#[test]
fn literals_and_other_lists_are_ignored() {
    let mut func: ItemFn<S, A> = ItemFn {
        stmts: vec![use_item(
            "use f;",
            vec![
                Attribute { raw: "#[pyo3(\"x\")]", meta: Some(Meta::List(path(&["pyo3"]), vec![NestedMeta::Lit])) },
                Attribute { raw: "#[other(add_function)]", meta: Some(Meta::List(path(&["other"]), nested(&["add_function"]))) },
                Attribute { raw: "#[a::pyo3(add_function)]", meta: Some(Meta::List(path(&["a", "pyo3"]), nested(&["add_function"]))) },
            ],
            name("f"),
        )],
    };
    assert_eq!(process_pyo3_add(&module("m"), &mut func), Ok(()));
    assert_eq!(
        func.stmts,
        vec![use_item(
            "use f;",
            vec![
                Attribute { raw: "#[other(add_function)]", meta: Some(Meta::List(path(&["other"]), nested(&["add_function"]))) },
                Attribute { raw: "#[a::pyo3(add_function)]", meta: Some(Meta::List(path(&["a", "pyo3"]), nested(&["add_function"]))) },
            ],
            name("f"),
        )]
    );
}

#[test]
fn raw_function_names_drop_their_marker() {
    assert_eq!(function_wrapper_ident(&"r#match".to_string()), "__pyo3_get_function_match");
    assert_eq!(function_wrapper_ident(&"double".to_string()), "__pyo3_get_function_double");
    assert_eq!(function_wrapper_ident(&"r".to_string()), "__pyo3_get_function_r");
}

#[test]
fn use_item_names() {
    assert_eq!(get_use_item(&name("f")), Ok("f".to_string()));
    assert_eq!(get_use_item(&UseTree::Glob), Err(AddItemError::InvalidUseItem));
    assert_eq!(
        add_function(&"m".to_string(), &name("r#f")),
        Ok(AddWrapped { module: "m".to_string(), wrapper: "__pyo3_get_function_f".to_string() })
    );
    assert_eq!(add_function(&"m".to_string(), &UseTree::Rename), Err(AddItemError::InvalidUseItem));
}

#[test]
fn extract_item_keeps_other_attributes() {
    let mut item: ItemUse<S, A> = ItemUse {
        raw: "use f;",
        attrs: vec![plain("#a"), pyo3("#p", &["add_function"]), plain("#b")],
        tree: name("f"),
    };
    let items = extract_item(&module("m"), &mut item).unwrap();
    assert_eq!(items, vec![registration("m", "f")]);
    assert_eq!(item.attrs, vec![plain("#a"), plain("#b")]);

    let mut bad: ItemUse<S, A> = ItemUse {
        raw: "use f;",
        attrs: vec![plain("#a"), pyo3("#p", &["nope"])],
        tree: name("f"),
    };
    assert_eq!(
        extract_item(&module("m"), &mut bad),
        Err(AddItemError::UnsupportedAdd { attr: 1, nested: 0 })
    );
    assert!(bad.attrs.is_empty());
}

#[test]
fn error_messages() {
    assert_eq!(AddItemError::MissingModule.message(), "");
    assert_eq!(AddItemError::DuplicateAdd { attr: 0 }.message(), "use item can only 1 #[pyo3(add_*)]");
    assert_eq!(
        AddItemError::UnsupportedAdd { attr: 0, nested: 0 }.message(),
        "Only add_class and add_function are supported"
    );
    assert_eq!(AddItemError::InvalidUseItem.message(), "Invalid use item for #[pyo3(add_*)]");
}

#[test]
fn path_identifiers() {
    assert!(path(&["pyo3"]).is_ident("pyo3"));
    assert!(!path(&["pyo3", "x"]).is_ident("pyo3"));
    assert!(!path(&["pyo"]).is_ident("pyo3"));
    let mut leading = path(&["pyo3"]);
    leading.leading_colon = true;
    assert!(!leading.is_ident("pyo3"));
    let args = MetaPath {
        leading_colon: false,
        segments: vec![PathSegment { ident: "pyo3".to_string(), has_arguments: true }],
    };
    assert!(!args.is_ident("pyo3"));
}

#[test]
fn without_module_lists_are_only_stripped() {
    let mut func: ItemFn<S, A> = ItemFn {
        stmts: vec![use_item(
            "use f;",
            vec![
                plain("#a"),
                Attribute { raw: "#[pyo3(\"x\")]", meta: Some(Meta::List(path(&["pyo3"]), vec![NestedMeta::Lit])) },
            ],
            name("f"),
        )],
    };
    assert_eq!(process_pyo3_add(&None, &mut func), Ok(()));
    assert_eq!(func.stmts, vec![use_item("use f;", vec![plain("#a")], name("f"))]);
}
