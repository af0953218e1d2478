//! Processing of `#[pyo3(add_class)]` and `#[pyo3(add_function)]` on the `use`
//! items of a `#[pymodule]` function body.
//!
//! A `use` item of the body that carries `#[pyo3(add_function)]` registers the
//! function it imports with the module: the statement
//! `module.add_wrapped(&__pyo3_get_function_<name>)?;` is placed before the
//! `use` item, and the `#[pyo3(...)]` attribute is removed from it.
use vstd::prelude::*;
use crate::syntax::{
    AddWrapped, AddWrappedV, Attribute, AttributeV, ItemFn, ItemUse, ItemUseV, Meta, MetaV,
    NestedMeta, NestedMetaV, Stmt, StmtV, UseTree, UseTreeV, attrs_view, path_is_ident, stmts_view,
};

verus! {

/// Why processing a function body fails.
#[derive(Clone, Copy, Debug, PartialEq, Eq)]
pub enum AddItemError {
    /// An `add_*` was found, but no module identifier was given to register
    /// with.
    MissingModule,
    /// The attribute at this index is a second `#[pyo3(...)]` on a `use` item
    /// that an earlier one has already registered.
    DuplicateAdd { attr: usize },
    /// The nested item at index `nested` of the attribute at index `attr` is
    /// neither `add_class` nor `add_function`.
    UnsupportedAdd { attr: usize, nested: usize },
    /// The `use` item imports something other than a single name.
    InvalidUseItem,
}

/// A failure, together with the index of the body statement that caused it.
#[derive(Clone, Copy, Debug, PartialEq, Eq)]
pub struct StmtError {
    pub stmt: usize,
    pub error: AddItemError,
}

/// How processing ends: with a result, with an error, or at a form that is not
/// implemented (`add_class`, or `add_function` on a path or a group import),
/// where processing stops with a panic.
#[derive(Debug, PartialEq, Eq)]
pub enum Outcome<T, E> {
    Done(T),
    Failed(E),
    Unimplemented,
}

/// The message that an error is reported with.
pub open spec fn error_message(e: AddItemError) -> Seq<char> {
    match e {
        AddItemError::MissingModule => seq![],
        AddItemError::DuplicateAdd { .. } => "use item can only 1 #[pyo3(add_*)]"@,
        AddItemError::UnsupportedAdd { .. } => "Only add_class and add_function are supported"@,
        AddItemError::InvalidUseItem => "Invalid use item for #[pyo3(add_*)]"@,
    }
}

impl AddItemError {
    /// The message that this error is reported with.
    pub fn message(&self) -> (r: String)
        ensures
            r@ == error_message(*self),
    {
        match self {
            AddItemError::MissingModule => String::new(),
            AddItemError::DuplicateAdd { .. } => String::from_str(
                "use item can only 1 #[pyo3(add_*)]",
            ),
            AddItemError::UnsupportedAdd { .. } => String::from_str(
                "Only add_class and add_function are supported",
            ),
            AddItemError::InvalidUseItem => String::from_str("Invalid use item for #[pyo3(add_*)]"),
        }
    }
}

// ----------------------------------------------------------------------------
// Names
// ----------------------------------------------------------------------------

/// A raw identifier `r#name` stands for `name`.
pub open spec fn strip_raw(name: Seq<char>) -> Seq<char> {
    if name.len() >= 2 && name[0] == 'r' && name[1] == '#' {
        name.skip(2)
    } else {
        name
    }
}

/// The name of the wrapper that registers the function `name`.
pub open spec fn wrapper_name(name: Seq<char>) -> Seq<char> {
    "__pyo3_get_function_"@ + strip_raw(name)
}

/// The identifier of the wrapper function that `#[pyfunction]` generates for
/// the function `name`: `__pyo3_get_function_` followed by `name` without a
/// leading `r#`.
pub fn function_wrapper_ident(name: &String) -> (r: String)
    ensures
        r@ == wrapper_name(name@),
        !(name@.len() >= 2 && name@[0] == 'r' && name@[1] == '#') ==> r@ == "__pyo3_get_function_"@
            + name@,
        name@.len() >= 2 && name@[0] == 'r' && name@[1] == '#' ==> r@ == "__pyo3_get_function_"@
            + name@.subrange(2, name@.len() as int),
        r@.len() >= 20,
        r@.subrange(0, 20) == "__pyo3_get_function_"@,
{
    let mut out = String::from_str("__pyo3_get_function_");
    let text = name.as_str();
    let len = text.unicode_len();
    proof {
        reveal_strlit("__pyo3_get_function_");
    }
    if len >= 2 && text.get_char(0) == 'r' && text.get_char(1) == '#' {
        let rest = text.substring_char(2, len);
        out.append(rest);
        assert(rest@ =~= name@.skip(2));
    } else {
        out.append(text);
    }
    assert(out@.subrange(0, 20) =~= "__pyo3_get_function_"@);
    out
}

// ----------------------------------------------------------------------------
// The processing, as a specification
// ----------------------------------------------------------------------------

/// The view of an optional module identifier.
pub open spec fn module_view(m: Option<String>) -> Option<Seq<char>> {
    match m {
        Some(s) => Some(s@),
        None => None,
    }
}

/// The state while the attributes of one `use` item are processed: whether an
/// `add_*` has been registered, and the registrations so far.
pub type PlanState = Outcome<(bool, Seq<AddWrappedV>), AddItemError>;

/// The nested items of an attribute `#[pyo3(...)]`, or `None` for any other
/// attribute.
pub open spec fn pyo3_list(meta: Option<MetaV>) -> Option<Seq<NestedMetaV>> {
    match meta {
        Some(MetaV::List(p, nested)) => if path_is_ident(p, "pyo3"@) {
            Some(nested)
        } else {
            None
        },
        _ => None,
    }
}

/// Processing the nested item `item`, at index `j` of attribute `attr`.
pub open spec fn nested_step(
    module: Option<Seq<char>>,
    tree: UseTreeV,
    attr: int,
    j: int,
    item: NestedMetaV,
    st: PlanState,
) -> PlanState {
    match st {
        Outcome::Done((used, items)) => match item {
            NestedMetaV::Lit => st,
            NestedMetaV::Meta(p) => if path_is_ident(p, "add_class"@) {
                match module {
                    None => Outcome::Failed(AddItemError::MissingModule),
                    Some(_) => Outcome::Unimplemented,
                }
            } else if path_is_ident(p, "add_function"@) {
                match module {
                    None => Outcome::Failed(AddItemError::MissingModule),
                    Some(m) => match tree {
                        UseTreeV::Name(n) => Outcome::Done(
                            (true, items.push(AddWrappedV { module: m, wrapper: wrapper_name(n) })),
                        ),
                        UseTreeV::Rename => Outcome::Failed(AddItemError::InvalidUseItem),
                        UseTreeV::Glob => Outcome::Failed(AddItemError::InvalidUseItem),
                        UseTreeV::Path => Outcome::Unimplemented,
                        UseTreeV::Group => Outcome::Unimplemented,
                    },
                }
            } else {
                Outcome::Failed(AddItemError::UnsupportedAdd { attr: attr as usize, nested: j as usize })
            },
        },
        _ => st,
    }
}

/// Processing the nested items of attribute `attr` in order, from state `st`.
pub open spec fn nested_fold(
    module: Option<Seq<char>>,
    tree: UseTreeV,
    attr: int,
    nested: Seq<NestedMetaV>,
    st: PlanState,
) -> PlanState
    decreases nested.len(),
{
    if nested.len() == 0 {
        st
    } else {
        nested_step(
            module,
            tree,
            attr,
            nested.len() - 1,
            nested.last(),
            nested_fold(module, tree, attr, nested.drop_last(), st),
        )
    }
}

/// Processing the attribute `a`, at index `i` of its `use` item.
pub open spec fn attr_step<A>(
    module: Option<Seq<char>>,
    tree: UseTreeV,
    i: int,
    a: AttributeV<A>,
    st: PlanState,
) -> PlanState {
    match st {
        Outcome::Done((used, items)) => match pyo3_list(a.meta) {
            Some(nested) => if used {
                Outcome::Failed(AddItemError::DuplicateAdd { attr: i as usize })
            } else {
                nested_fold(module, tree, i, nested, st)
            },
            None => st,
        },
        _ => st,
    }
}

/// Processing the attributes of a `use` item in order.
pub open spec fn attrs_fold<A>(
    module: Option<Seq<char>>,
    tree: UseTreeV,
    attrs: Seq<AttributeV<A>>,
) -> PlanState
    decreases attrs.len(),
{
    if attrs.len() == 0 {
        Outcome::Done((false, seq![]))
    } else {
        attr_step(
            module,
            tree,
            attrs.len() - 1,
            attrs.last(),
            attrs_fold(module, tree, attrs.drop_last()),
        )
    }
}

/// The registrations that a `use` item asks for, or why it cannot be processed.
pub open spec fn use_plan<S, A>(module: Option<Seq<char>>, u: ItemUseV<S, A>) -> Outcome<
    Seq<AddWrappedV>,
    AddItemError,
> {
    match attrs_fold(module, u.tree, u.attrs) {
        Outcome::Done((_, items)) => Outcome::Done(items),
        Outcome::Failed(e) => Outcome::Failed(e),
        Outcome::Unimplemented => Outcome::Unimplemented,
    }
}

/// The attributes that a processed `use` item keeps: all but its
/// `#[pyo3(...)]` lists, in order.
pub open spec fn kept_attrs<A>(attrs: Seq<AttributeV<A>>) -> Seq<AttributeV<A>>
    decreases attrs.len(),
{
    if attrs.len() == 0 {
        seq![]
    } else if pyo3_list(attrs.last().meta) is Some {
        kept_attrs(attrs.drop_last())
    } else {
        kept_attrs(attrs.drop_last()).push(attrs.last())
    }
}

/// The attributes that are not `#[pyo3(...)]` lists.
pub open spec fn not_pyo3_list<A>() -> spec_fn(AttributeV<A>) -> bool {
    |a: AttributeV<A>| pyo3_list(a.meta) is None
}

/// The attributes a `use` item keeps are exactly its attributes that are not
/// `#[pyo3(...)]` lists, in order.
pub proof fn law_kept_attrs_are_the_others<A>(attrs: Seq<AttributeV<A>>)
    ensures
        kept_attrs(attrs) == attrs.filter(not_pyo3_list()),
        forall|i: int|
            0 <= i < attrs.len() && pyo3_list(attrs[i].meta) is None ==> kept_attrs(attrs).contains(
                #[trigger] attrs[i],
            ),
        forall|i: int|
            0 <= i < kept_attrs(attrs).len() ==> pyo3_list((#[trigger] kept_attrs(attrs)[i]).meta)
                is None && attrs.contains(kept_attrs(attrs)[i]),
    decreases attrs.len(),
{
    broadcast use vstd::seq_lib::group_filter_ensures;

    reveal_with_fuel(Seq::<_>::filter, 1);
    if attrs.len() > 0 {
        law_kept_attrs_are_the_others(attrs.drop_last());
    }
    let k = kept_attrs(attrs);
    assert(k == attrs.filter(not_pyo3_list()));
    assert forall|i: int| 0 <= i < attrs.len() && pyo3_list(attrs[i].meta) is None implies k.contains(
        #[trigger] attrs[i],
    ) by {
        assert(not_pyo3_list::<A>()(attrs[i]));
    }
    assert forall|i: int| 0 <= i < k.len() implies pyo3_list((#[trigger] k[i]).meta) is None
        && attrs.contains(k[i]) by {
        assert(not_pyo3_list::<A>()(k[i]));
    }
}

/// A `use` item with its `#[pyo3(...)]` lists removed.
pub open spec fn strip_use<S, A>(u: ItemUseV<S, A>) -> ItemUseV<S, A> {
    ItemUseV { raw: u.raw, attrs: kept_attrs(u.attrs), tree: u.tree }
}

/// The registration statements of a sequence of registrations.
pub open spec fn registration_stmts<S, A>(items: Seq<AddWrappedV>) -> Seq<StmtV<S, A>> {
    items.map_values(|w: AddWrappedV| StmtV::<S, A>::AddWrapped(w))
}

/// Processing the statements of a body in order: each `use` item is preceded by
/// its registrations and loses its `#[pyo3(...)]` lists; other statements stay
/// as they are.
pub open spec fn body_fold<S, A>(module: Option<Seq<char>>, stmts: Seq<StmtV<S, A>>) -> Outcome<
    Seq<StmtV<S, A>>,
    StmtError,
>
    decreases stmts.len(),
{
    if stmts.len() == 0 {
        Outcome::Done(seq![])
    } else {
        match body_fold(module, stmts.drop_last()) {
            Outcome::Done(out) => match stmts.last() {
                StmtV::Use(u) => match use_plan(module, u) {
                    Outcome::Done(items) => Outcome::Done(
                        out + registration_stmts(items) + seq![StmtV::Use(strip_use(u))],
                    ),
                    Outcome::Failed(e) => Outcome::Failed(
                        StmtError { stmt: (stmts.len() - 1) as usize, error: e },
                    ),
                    Outcome::Unimplemented => Outcome::Unimplemented,
                },
                s => Outcome::Done(out.push(s)),
            },
            Outcome::Failed(e) => Outcome::Failed(e),
            Outcome::Unimplemented => Outcome::Unimplemented,
        }
    }
}

// ----------------------------------------------------------------------------
// The processing
// ----------------------------------------------------------------------------

/// The view of a sequence of registrations.
pub open spec fn wraps_view(ws: Seq<AddWrapped>) -> Seq<AddWrappedV> {
    ws.map_values(|w: AddWrapped| w@)
}

/// The name that a `use` item imports.
pub fn get_use_item(tree: &UseTree) -> (r: Result<String, AddItemError>)
    requires
        !(tree@ is Path),
        !(tree@ is Group),
    ensures
        match tree@ {
            UseTreeV::Name(n) => r is Ok && r->Ok_0@ == n,
            _ => r == Err::<String, AddItemError>(AddItemError::InvalidUseItem),
        },
{
    match tree {
        UseTree::Name(name) => Ok(name.clone()),
        _ => Err(AddItemError::InvalidUseItem),
    }
}

/// The statement that registers with `mod_ident` the function that `tree`
/// imports.
pub fn add_function(mod_ident: &String, tree: &UseTree) -> (r: Result<AddWrapped, AddItemError>)
    requires
        !(tree@ is Path),
        !(tree@ is Group),
    ensures
        match tree@ {
            UseTreeV::Name(n) => r is Ok && r->Ok_0@ == (AddWrappedV {
                module: mod_ident@,
                wrapper: wrapper_name(n),
            }),
            _ => r == Err::<AddWrapped, AddItemError>(AddItemError::InvalidUseItem),
        },
{
    let function_name = get_use_item(tree)?;
    let wrapper = function_wrapper_ident(&function_name);
    Ok(AddWrapped { module: mod_ident.clone(), wrapper })
}


// ----------------------------------------------------------------------------
// Once processing fails, it stays failed
// ----------------------------------------------------------------------------

proof fn lemma_nested_sticky(
    module: Option<Seq<char>>,
    tree: UseTreeV,
    attr: int,
    nested: Seq<NestedMetaV>,
    m: int,
    st: PlanState,
)
    requires
        0 <= m <= nested.len(),
        !(nested_fold(module, tree, attr, nested.take(m), st) is Done),
    ensures
        nested_fold(module, tree, attr, nested, st) == nested_fold(
            module,
            tree,
            attr,
            nested.take(m),
            st,
        ),
    decreases nested.len(),
{
    if m == nested.len() {
        assert(nested.take(m) =~= nested);
    } else {
        assert(nested.drop_last().take(m) =~= nested.take(m));
        lemma_nested_sticky(module, tree, attr, nested.drop_last(), m, st);
    }
}

proof fn lemma_attrs_sticky<A>(
    module: Option<Seq<char>>,
    tree: UseTreeV,
    attrs: Seq<AttributeV<A>>,
    m: int,
)
    requires
        0 <= m <= attrs.len(),
        !(attrs_fold(module, tree, attrs.take(m)) is Done),
    ensures
        attrs_fold(module, tree, attrs) == attrs_fold(module, tree, attrs.take(m)),
    decreases attrs.len(),
{
    if m == attrs.len() {
        assert(attrs.take(m) =~= attrs);
    } else {
        assert(attrs.drop_last().take(m) =~= attrs.take(m));
        lemma_attrs_sticky(module, tree, attrs.drop_last(), m);
    }
}

proof fn lemma_body_sticky<S, A>(module: Option<Seq<char>>, stmts: Seq<StmtV<S, A>>, m: int)
    requires
        0 <= m <= stmts.len(),
        !(body_fold(module, stmts.take(m)) is Done),
    ensures
        body_fold(module, stmts) == body_fold(module, stmts.take(m)),
    decreases stmts.len(),
{
    if m == stmts.len() {
        assert(stmts.take(m) =~= stmts);
    } else {
        assert(stmts.drop_last().take(m) =~= stmts.take(m));
        lemma_body_sticky(module, stmts.drop_last(), m);
    }
}

proof fn lemma_attr_stop<A>(
    module: Option<Seq<char>>,
    tree: UseTreeV,
    av: Seq<AttributeV<A>>,
    i: int,
    nv: Seq<NestedMetaV>,
    j: int,
    st0: PlanState,
)
    requires
        0 <= i < av.len(),
        attrs_fold(module, tree, av.take(i)) == st0,
        st0 is Done,
        !st0->Done_0.0,
        pyo3_list(av[i].meta) == Some(nv),
        0 <= j < nv.len(),
        !(nested_fold(module, tree, i, nv.take(j + 1), st0) is Done),
    ensures
        attrs_fold(module, tree, av) == nested_fold(module, tree, i, nv.take(j + 1), st0),
{
    lemma_nested_sticky(module, tree, i, nv, j + 1, st0);
    assert(av.take(i + 1).drop_last() =~= av.take(i));
    assert(av.take(i + 1).last() == av[i]);
    lemma_attrs_sticky(module, tree, av, i + 1);
}

/// The view of an optional meta form.
pub open spec fn meta_view(m: Option<Meta>) -> Option<MetaV> {
    match m {
        Some(x) => Some(x@),
        None => None,
    }
}

/// Whether an attribute is a `#[pyo3(...)]` list.
pub fn is_pyo3_list(meta: &Option<Meta>) -> (r: bool)
    ensures
        r == (pyo3_list(meta_view(*meta)) is Some),
{
    match meta {
        Some(Meta::List(path, _)) => path.is_ident("pyo3"),
        _ => false,
    }
}

/// The registrations that the attributes `attrs` of a `use` item with tree
/// `tree` ask for, or why they cannot be processed.  The attributes are read in
/// order; processing stops at the first error or unimplemented form.
pub fn plan_use_item<A>(mod_ident: &Option<String>, attrs: &Vec<Attribute<A>>, tree: &UseTree) -> (r:
    Outcome<Vec<AddWrapped>, AddItemError>)
    ensures
        match attrs_fold(module_view(*mod_ident), tree@, attrs_view(attrs@)) {
            Outcome::Done((_, items)) => r is Done && wraps_view(r->Done_0@) == items,
            Outcome::Failed(e) => r == Outcome::<Vec<AddWrapped>, AddItemError>::Failed(e),
            Outcome::Unimplemented => r is Unimplemented,
        },
{
    let ghost module = module_view(*mod_ident);
    let ghost av = attrs_view(attrs@);
    let mut used = false;
    let mut items: Vec<AddWrapped> = Vec::new();
    let n = attrs.len();
    let mut i: usize = 0;
    assert(av.take(0) =~= Seq::<AttributeV<A>>::empty());
    assert(wraps_view(items@) =~= Seq::<AddWrappedV>::empty());
    while i < n
        invariant
            n == attrs@.len(),
            av == attrs_view(attrs@),
            module == module_view(*mod_ident),
            i <= n,
            attrs_fold(module, tree@, av.take(i as int)) == PlanState::Done(
                (used, wraps_view(items@)),
            ),
        decreases n - i,
    {
        proof {
            assert(av.take(i + 1).drop_last() =~= av.take(i as int));
        }
        let attr = &attrs[i];
        match &attr.meta {
            Some(Meta::List(path, nested)) => {
                if path.is_ident("pyo3") {
                    if used {
                        proof {
                            lemma_attrs_sticky(module, tree@, av, i + 1);
                        }
                        return Outcome::Failed(AddItemError::DuplicateAdd { attr: i });
                    }
                    let k = nested.len();
                    let ghost nv = nested@.map_values(|x: NestedMeta| x@);
                    let ghost st0 = PlanState::Done((false, wraps_view(items@)));
                    assert(nv.take(0) =~= Seq::<NestedMetaV>::empty());
                    let mut j: usize = 0;
                    while j < k
                        invariant
                            n == attrs@.len(),
                            av == attrs_view(attrs@),
                            module == module_view(*mod_ident),
                            i < n,
                            av[i as int] == attrs@[i as int]@,
                            attrs@[i as int] == *attr,
                            attr.meta == Some(Meta::List(*path, *nested)),
                            path_is_ident(path@, "pyo3"@),
                            k == nested@.len(),
                            nv == nested@.map_values(|x: NestedMeta| x@),
                            attrs_fold(module, tree@, av.take(i as int)) == st0,
                            st0 is Done,
                            !st0->Done_0.0,
                            j <= k,
                            nested_fold(module, tree@, i as int, nv.take(j as int), st0)
                                == PlanState::Done((used, wraps_view(items@))),
                        decreases k - j,
                    {
                        proof {
                            assert(nv.take(j + 1).drop_last() =~= nv.take(j as int));
                        }
                        let ghost before = nested_fold(module, tree@, i as int, nv.take(j as int), st0);
                        let ghost after = nested_fold(module, tree@, i as int, nv.take(j + 1), st0);
                        assert(nv.take(j + 1).last() == nv[j as int]);
                        assert(after == nested_step(module, tree@, i as int, j as int, nv[j as int], before));
                        match &nested[j] {
                            NestedMeta::Lit => {},
                            NestedMeta::Meta(p) => {
                                if p.is_ident("add_class") {
                                    proof {
                                        lemma_attr_stop(module, tree@, av, i as int, nv, j as int, st0);
                                    }
                                    match mod_ident {
                                        None => {
                                            return Outcome::Failed(AddItemError::MissingModule);
                                        },
                                        Some(_) => {
                                            return Outcome::Unimplemented;
                                        },
                                    }
                                } else if p.is_ident("add_function") {
                                    match mod_ident {
                                        None => {
                                            proof {
                                                lemma_attr_stop(module, tree@, av, i as int, nv, j as int, st0);
                                            }
                                            return Outcome::Failed(AddItemError::MissingModule);
                                        },
                                        Some(m) => {
                                            match tree {
                                                UseTree::Path | UseTree::Group => {
                                                    proof {
                                                        lemma_attr_stop(module, tree@, av, i as int, nv, j as int, st0);
                                                    }
                                                    return Outcome::Unimplemented;
                                                },
                                                _ => {
                                                    match add_function(m, tree) {
                                                        Ok(w) => {
                                                            let ghost old_items = items@;
                                                            let ghost wv = w@;
                                                            items.push(w);
                                                            used = true;
                                                            proof {
                                                                assert(wraps_view(items@) =~= wraps_view(
                                                                    old_items,
                                                                ).push(wv));
                                                            }
                                                        },
                                                        Err(e) => {
                                                            proof {
                                                                lemma_attr_stop(module, tree@, av, i as int, nv, j as int, st0);
                                                            }
                                                            return Outcome::Failed(e);
                                                        },
                                                    }
                                                },
                                            }
                                        },
                                    }
                                } else {
                                    proof {
                                        lemma_attr_stop(module, tree@, av, i as int, nv, j as int, st0);
                                    }
                                    return Outcome::Failed(
                                        AddItemError::UnsupportedAdd { attr: i, nested: j },
                                    );
                                }
                            },
                        }
                        j += 1;
                    }
                    proof {
                        assert(nv.take(k as int) =~= nv);
                        assert(pyo3_list(av[i as int].meta) == Some(nv));
                    }
                }
            },
            _ => {},
        }
        i += 1;
    }
    proof {
        assert(av.take(n as int) =~= av);
    }
    Outcome::Done(items)
}

/// Takes the `#[pyo3(...)]` lists off a `use` item and returns the
/// registration statements that they ask for, in order.  The item keeps its
/// other attributes, in order.  On an error the item is left with no
/// attributes.
pub fn extract_item<S, A>(mod_ident: &Option<String>, use_: &mut ItemUse<S, A>) -> (r: Result<
    Vec<Stmt<S, A>>,
    AddItemError,
>)
    requires
        !(use_plan(module_view(*mod_ident), old(use_)@) is Unimplemented),
    ensures
        final(use_).raw == old(use_).raw,
        final(use_).tree == old(use_).tree,
        match use_plan(module_view(*mod_ident), old(use_)@) {
            Outcome::Done(items) => {
                &&& r is Ok
                &&& stmts_view(r->Ok_0@) == registration_stmts::<S, A>(items)
                &&& final(use_)@ == strip_use(old(use_)@)
                &&& final(use_)@.attrs == old(use_)@.attrs.filter(not_pyo3_list())
            },
            Outcome::Failed(e) => {
                &&& r == Err::<Vec<Stmt<S, A>>, AddItemError>(e)
                &&& final(use_).attrs@.len() == 0
            },
            Outcome::Unimplemented => false,
        },
{
    let plan = plan_use_item(mod_ident, &use_.attrs, &use_.tree);
    let mut attrs: Vec<Attribute<A>> = Vec::new();
    std::mem::swap(&mut attrs, &mut use_.attrs);
    match plan {
        Outcome::Done(items) => {
            let ghost av = attrs_view(attrs@);
            let mut kept: Vec<Attribute<A>> = Vec::new();
            for attr in it: attrs.into_iter()
                invariant
                    av == attrs_view(it.seq()),
                    attrs_view(kept@) == kept_attrs(av.take(it.index())),
                    use_.attrs@.len() == 0,
            {
                let ghost before = kept@;
                let ghost k = it.index();
                assert(av.take(k + 1).drop_last() =~= av.take(k));
                let keep = !is_pyo3_list(&attr.meta);
                if keep {
                    kept.push(attr);
                    assert(attrs_view(kept@) =~= attrs_view(before).push(av[k]));
                }
            }
            assert(av.take(av.len() as int) =~= av);
            proof {
                law_kept_attrs_are_the_others(av);
            }
            use_.attrs = kept;
            let mut out: Vec<Stmt<S, A>> = Vec::new();
            let ghost wv = wraps_view(items@);
            for w in it: items.into_iter()
                invariant
                    wv == wraps_view(it.seq()),
                    stmts_view(out@) == registration_stmts::<S, A>(wv.take(it.index())),
            {
                let ghost before = out@;
                let ghost k = it.index();
                let ghost w_view = w@;
                assert(wv[k] == w_view);
                out.push(Stmt::AddWrapped(w));
                assert(stmts_view(out@) =~= stmts_view(before).push(StmtV::<S, A>::AddWrapped(w_view)));
                assert(registration_stmts::<S, A>(wv.take(k + 1)) =~= registration_stmts::<S, A>(
                    wv.take(k),
                ).push(StmtV::<S, A>::AddWrapped(w_view)));
            }
            assert(wv.take(wv.len() as int) =~= wv);
            Ok(out)
        },
        Outcome::Failed(e) => Err(e),
        Outcome::Unimplemented => {
            // The precondition leaves this case out.
            proof {
                assert(false);
            }
            Err(AddItemError::MissingModule)
        },
    }
}

/// Finds and takes care of the `#[pyo3(add_*)]` attributes on the `use` items
/// of a `#[pymodule]` function: each such `use` item is preceded by the
/// registration statements that its attributes ask for, and loses those
/// attributes.  On an error the function is left with an empty body.
pub fn process_pyo3_add<S, A>(mod_ident: &Option<String>, func: &mut ItemFn<S, A>) -> (r: Result<
    (),
    StmtError,
>)
    requires
        !(body_fold(module_view(*mod_ident), old(func)@) is Unimplemented),
    ensures
        match body_fold(module_view(*mod_ident), old(func)@) {
            Outcome::Done(out) => r is Ok && final(func)@ == out,
            Outcome::Failed(e) => r == Err::<(), StmtError>(e) && final(func).stmts@.len() == 0,
            Outcome::Unimplemented => false,
        },
        r is Ok && crate::laws::no_registrations(old(func)@) ==> final(func)@.filter_map(
            crate::laws::registration_of(),
        ) == crate::laws::planned_registrations(module_view(*mod_ident), old(func)@),
{
    let ghost module = module_view(*mod_ident);
    let ghost orig = func@;
    let mut input: Vec<Stmt<S, A>> = Vec::new();
    std::mem::swap(&mut input, &mut func.stmts);
    let ghost sv = stmts_view(input@);
    let mut stmts: Vec<Stmt<S, A>> = Vec::new();
    let mut idx: usize = 0;
    let len = input.len();
    assert(sv.take(0) =~= Seq::<StmtV<S, A>>::empty());
    assert(stmts_view(stmts@) =~= Seq::<StmtV<S, A>>::empty());
    for stmt in it: input.into_iter()
        invariant
            sv == stmts_view(it.seq()),
            sv == orig,
            orig == old(func)@,
            sv.len() == len,
            idx == it.index(),
            func.stmts@.len() == 0,
            module == module_view(*mod_ident),
            !(body_fold(module, sv) is Unimplemented),
            body_fold(module, sv.take(it.index())) == Outcome::<Seq<StmtV<S, A>>, StmtError>::Done(
                stmts_view(stmts@),
            ),
    {
        let ghost k = it.index();
        assert(sv.take(k + 1).drop_last() =~= sv.take(k));
        assert(sv.take(k + 1).last() == sv[k]);
        match stmt {
            Stmt::Use(mut use_) => {
                let ghost uv = use_@;
                proof {
                    if use_plan(module, uv) is Unimplemented {
                        lemma_body_sticky(module, sv, k + 1);
                    }
                }
                match extract_item(mod_ident, &mut use_) {
                    Ok(mut items) => {
                        let ghost before = stmts@;
                        let ghost items_view = stmts_view(items@);
                        let ghost stripped = use_@;
                        stmts.append(&mut items);
                        stmts.push(Stmt::Use(use_));
                        assert(stmts_view(stmts@) =~= stmts_view(before) + items_view + seq![
                            StmtV::Use(stripped),
                        ]);
                    },
                    Err(e) => {
                        assert(use_plan(module, uv) == Outcome::<Seq<AddWrappedV>, AddItemError>::Failed(e));
                        assert(body_fold(module, sv.take(k + 1)) == Outcome::<Seq<StmtV<S, A>>, StmtError>::Failed(StmtError { stmt: idx, error: e }));
                        proof {
                            lemma_body_sticky(module, sv, k + 1);
                        }
                        return Err(StmtError { stmt: idx, error: e });
                    },
                }
            },
            other => {
                let ghost before = stmts@;
                let ghost ov = other@;
                stmts.push(other);
                assert(stmts_view(stmts@) =~= stmts_view(before).push(ov));
            },
        }
        idx += 1;
    }
    assert(sv.take(sv.len() as int) =~= sv);
    proof {
        if crate::laws::no_registrations(sv) {
            crate::laws::law_every_registration_made(module, sv);
        }
    }
    func.stmts = stmts;
    Ok(())
}

/// Whether processing the function `func` with `mod_ident` reaches a form that
/// is not implemented (`add_class`, or `add_function` on a path or a group
/// import) before any error.
pub fn reaches_unimplemented<S, A>(mod_ident: &Option<String>, func: &ItemFn<S, A>) -> (r: bool)
    ensures
        r == (body_fold(module_view(*mod_ident), func@) is Unimplemented),
{
    let ghost module = module_view(*mod_ident);
    let ghost sv = func@;
    let n = func.stmts.len();
    let mut i: usize = 0;
    assert(sv.take(0) =~= Seq::<StmtV<S, A>>::empty());
    while i < n
        invariant
            n == func.stmts@.len(),
            sv == func@,
            module == module_view(*mod_ident),
            i <= n,
            body_fold(module, sv.take(i as int)) is Done,
        decreases n - i,
    {
        assert(sv.take(i + 1).drop_last() =~= sv.take(i as int));
        assert(sv.take(i + 1).last() == sv[i as int]);
        match &func.stmts[i] {
            Stmt::Use(use_) => {
                match plan_use_item(mod_ident, &use_.attrs, &use_.tree) {
                    Outcome::Done(_) => {},
                    Outcome::Failed(_) => {
                        proof {
                            lemma_body_sticky(module, sv, i + 1);
                        }
                        return false;
                    },
                    Outcome::Unimplemented => {
                        proof {
                            lemma_body_sticky(module, sv, i + 1);
                        }
                        return true;
                    },
                }
            },
            _ => {},
        }
        i += 1;
    }
    assert(sv.take(n as int) =~= sv);
    false
}

} // verus!
