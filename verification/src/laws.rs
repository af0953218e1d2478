//! Properties of `#[pyo3(add_*)]` processing as a whole.
use vstd::prelude::*;
use crate::syntax::{AddWrappedV, AttributeV, NestedMetaV, StmtV, UseTreeV};
use crate::add_item::{
    Outcome, PlanState, attrs_fold, body_fold, kept_attrs, nested_fold, nested_step, pyo3_list,
    registration_stmts, strip_use, use_plan, wrapper_name,
};

verus! {

/// None of the attributes is a `#[pyo3(...)]` list.
pub open spec fn no_pyo3_list_attrs<A>(attrs: Seq<AttributeV<A>>) -> bool {
    forall|j: int| 0 <= j < attrs.len() ==> pyo3_list(#[trigger] attrs[j].meta) is None
}

/// No `use` item of the statements carries a `#[pyo3(...)]` list.
pub open spec fn no_pyo3_lists<S, A>(stmts: Seq<StmtV<S, A>>) -> bool {
    forall|i: int|
        0 <= i < stmts.len() ==> match #[trigger] stmts[i] {
            StmtV::Use(u) => no_pyo3_list_attrs(u.attrs),
            _ => true,
        }
}

/// None of the statements is a registration statement.
pub open spec fn no_registrations<S, A>(stmts: Seq<StmtV<S, A>>) -> bool {
    forall|i: int| 0 <= i < stmts.len() ==> !(#[trigger] stmts[i] is AddWrapped)
}

/// The statements with the `#[pyo3(...)]` lists removed from their `use` items.
pub open spec fn strip_body<S, A>(stmts: Seq<StmtV<S, A>>) -> Seq<StmtV<S, A>> {
    stmts.map_values(
        |s: StmtV<S, A>|
            match s {
                StmtV::Use(u) => StmtV::Use(strip_use(u)),
                other => other,
            },
    )
}

/// The statements without the registration statements, in order.
pub open spec fn without_registrations<S, A>(stmts: Seq<StmtV<S, A>>) -> Seq<StmtV<S, A>>
    decreases stmts.len(),
{
    if stmts.len() == 0 {
        seq![]
    } else if stmts.last() is AddWrapped {
        without_registrations(stmts.drop_last())
    } else {
        without_registrations(stmts.drop_last()).push(stmts.last())
    }
}

// ----------------------------------------------------------------------------
// Lemmas
// ----------------------------------------------------------------------------

proof fn lemma_attrs_fold_plain<A>(module: Option<Seq<char>>, tree: UseTreeV, attrs: Seq<AttributeV<A>>)
    requires
        no_pyo3_list_attrs(attrs),
    ensures
        attrs_fold(module, tree, attrs) == PlanState::Done((false, Seq::<AddWrappedV>::empty())),
    decreases attrs.len(),
{
    if attrs.len() > 0 {
        assert(pyo3_list(attrs[attrs.len() - 1].meta) is None);
        lemma_attrs_fold_plain(module, tree, attrs.drop_last());
    }
}

proof fn lemma_kept_plain<A>(attrs: Seq<AttributeV<A>>)
    requires
        no_pyo3_list_attrs(attrs),
    ensures
        kept_attrs(attrs) == attrs,
    decreases attrs.len(),
{
    if attrs.len() > 0 {
        assert(pyo3_list(attrs[attrs.len() - 1].meta) is None);
        lemma_kept_plain(attrs.drop_last());
        assert(attrs.drop_last().push(attrs.last()) =~= attrs);
    }
}

proof fn lemma_kept_clean<A>(attrs: Seq<AttributeV<A>>)
    ensures
        no_pyo3_list_attrs(kept_attrs(attrs)),
    decreases attrs.len(),
{
    if attrs.len() > 0 {
        lemma_kept_clean(attrs.drop_last());
        let k = kept_attrs(attrs.drop_last());
        if pyo3_list(attrs.last().meta) is None {
            assert forall|j: int| 0 <= j < k.push(attrs.last()).len() implies pyo3_list(
                #[trigger] k.push(attrs.last())[j].meta,
            ) is None by {
                if j < k.len() {
                    assert(k.push(attrs.last())[j] == k[j]);
                }
            }
        }
    }
}

proof fn lemma_nested_no_module(
    tree: UseTreeV,
    attr: int,
    nested: Seq<NestedMetaV>,
    st: PlanState,
)
    requires
        st is Done,
    ensures
        nested_fold(None, tree, attr, nested, st) is Done ==> nested_fold(
            None,
            tree,
            attr,
            nested,
            st,
        )->Done_0.1 == st->Done_0.1,
    decreases nested.len(),
{
    if nested.len() > 0 {
        lemma_nested_no_module(tree, attr, nested.drop_last(), st);
    }
}

proof fn lemma_attrs_no_module<A>(tree: UseTreeV, attrs: Seq<AttributeV<A>>)
    ensures
        attrs_fold(None, tree, attrs) is Done ==> attrs_fold(None, tree, attrs)->Done_0.1 == Seq::<
            AddWrappedV,
        >::empty(),
    decreases attrs.len(),
{
    if attrs.len() > 0 {
        lemma_attrs_no_module(tree, attrs.drop_last());
        let st = attrs_fold(None, tree, attrs.drop_last());
        if st is Done {
            if let Some(nested) = pyo3_list(attrs.last().meta) {
                lemma_nested_no_module(tree, attrs.len() - 1, nested, st);
            }
        }
    }
}

proof fn lemma_without_concat<S, A>(a: Seq<StmtV<S, A>>, b: Seq<StmtV<S, A>>)
    ensures
        without_registrations(a + b) == without_registrations(a) + without_registrations(b),
    decreases b.len(),
{
    if b.len() == 0 {
        assert(a + b =~= a);
        assert(without_registrations(a) + without_registrations(b) =~= without_registrations(a));
    } else {
        assert((a + b).drop_last() =~= a + b.drop_last());
        assert((a + b).last() == b.last());
        lemma_without_concat(a, b.drop_last());
        if !(b.last() is AddWrapped) {
            assert(without_registrations(a) + without_registrations(b.drop_last()).push(b.last())
                =~= (without_registrations(a) + without_registrations(b.drop_last())).push(
                b.last(),
            ));
        }
    }
}

proof fn lemma_without_registrations<S, A>(items: Seq<AddWrappedV>)
    ensures
        without_registrations(registration_stmts::<S, A>(items)) == Seq::<StmtV<S, A>>::empty(),
    decreases items.len(),
{
    if items.len() > 0 {
        assert(registration_stmts::<S, A>(items).drop_last() =~= registration_stmts::<S, A>(
            items.drop_last(),
        ));
        lemma_without_registrations::<S, A>(items.drop_last());
    }
}

/// Every registration is made with the module `m`.
pub open spec fn all_with_module(items: Seq<AddWrappedV>, m: Seq<char>) -> bool {
    forall|i: int| 0 <= i < items.len() ==> (#[trigger] items[i]).module == m
}

proof fn lemma_nested_module(
    m: Seq<char>,
    tree: UseTreeV,
    attr: int,
    nested: Seq<NestedMetaV>,
    st: PlanState,
)
    requires
        st is Done,
        all_with_module(st->Done_0.1, m),
    ensures
        nested_fold(Some(m), tree, attr, nested, st) is Done ==> all_with_module(
            nested_fold(Some(m), tree, attr, nested, st)->Done_0.1,
            m,
        ),
    decreases nested.len(),
{
    if nested.len() > 0 {
        lemma_nested_module(m, tree, attr, nested.drop_last(), st);
        let prev = nested_fold(Some(m), tree, attr, nested.drop_last(), st);
        if prev is Done {
            let items = prev->Done_0.1;
            let next = nested_step(Some(m), tree, attr, nested.len() - 1, nested.last(), prev);
            if next is Done && next->Done_0.1 != items {
                let n = tree->Name_0;
                let pushed = items.push(AddWrappedV { module: m, wrapper: crate::add_item::wrapper_name(n) });
                assert(next->Done_0.1 == pushed);
                assert forall|i: int| 0 <= i < pushed.len() implies (#[trigger] pushed[i]).module == m by {
                    if i < items.len() {
                        assert(pushed[i] == items[i]);
                    }
                }
            }
        }
    }
}

proof fn lemma_attrs_module<A>(m: Seq<char>, tree: UseTreeV, attrs: Seq<AttributeV<A>>)
    ensures
        attrs_fold(Some(m), tree, attrs) is Done ==> all_with_module(
            attrs_fold(Some(m), tree, attrs)->Done_0.1,
            m,
        ),
    decreases attrs.len(),
{
    if attrs.len() > 0 {
        lemma_attrs_module(m, tree, attrs.drop_last());
        let st = attrs_fold(Some(m), tree, attrs.drop_last());
        if st is Done {
            if let Some(nested) = pyo3_list(attrs.last().meta) {
                lemma_nested_module(m, tree, attrs.len() - 1, nested, st);
            }
        }
    }
}

// ----------------------------------------------------------------------------
// Laws
// ----------------------------------------------------------------------------

/// A body none of whose `use` items carries a `#[pyo3(...)]` attribute list is
/// processed without error and comes back unchanged.
pub proof fn law_plain_body_unchanged<S, A>(module: Option<Seq<char>>, stmts: Seq<StmtV<S, A>>)
    requires
        no_pyo3_lists(stmts),
    ensures
        body_fold(module, stmts) == Outcome::<Seq<StmtV<S, A>>, crate::add_item::StmtError>::Done(
            stmts,
        ),
    decreases stmts.len(),
{
    if stmts.len() == 0 {
        assert(stmts =~= Seq::<StmtV<S, A>>::empty());
    } else {
        let prefix = stmts.drop_last();
        assert forall|i: int| 0 <= i < prefix.len() implies match #[trigger] prefix[i] {
            StmtV::Use(u) => no_pyo3_list_attrs(u.attrs),
            _ => true,
        } by {
            assert(prefix[i] == stmts[i]);
        }
        law_plain_body_unchanged(module, prefix);
        let last = stmts[stmts.len() - 1];
        assert(stmts.last() == last);
        if let StmtV::Use(u) = last {
            lemma_attrs_fold_plain(module, u.tree, u.attrs);
            lemma_kept_plain(u.attrs);
            assert(strip_use(u) == u);
            assert(registration_stmts::<S, A>(Seq::<AddWrappedV>::empty()) =~= Seq::<
                StmtV<S, A>,
            >::empty());
            assert(prefix + registration_stmts::<S, A>(Seq::<AddWrappedV>::empty()) + seq![
                StmtV::Use(u),
            ] =~= stmts);
        } else {
            assert(prefix.push(last) =~= stmts);
        }
    }
}

/// After processing succeeds, no `use` item of the body carries a
/// `#[pyo3(...)]` attribute list any more.
pub proof fn law_lists_consumed<S, A>(module: Option<Seq<char>>, stmts: Seq<StmtV<S, A>>)
    requires
        body_fold(module, stmts) is Done,
    ensures
        no_pyo3_lists(body_fold(module, stmts)->Done_0),
    decreases stmts.len(),
{
    if stmts.len() > 0 {
        law_lists_consumed(module, stmts.drop_last());
        let out = body_fold(module, stmts.drop_last())->Done_0;
        let res = body_fold(module, stmts)->Done_0;
        match stmts.last() {
            StmtV::Use(u) => {
                let items = use_plan(module, u)->Done_0;
                let regs = registration_stmts::<S, A>(items);
                lemma_kept_clean(u.attrs);
                assert(res == out + regs + seq![StmtV::Use(strip_use(u))]);
                assert forall|i: int| 0 <= i < res.len() implies match #[trigger] res[i] {
                    StmtV::Use(v) => no_pyo3_list_attrs(v.attrs),
                    _ => true,
                } by {
                    if i < out.len() {
                        assert(res[i] == out[i]);
                    } else if i < out.len() + regs.len() {
                        assert(res[i] == regs[i - out.len()]);
                    } else {
                        assert(res[i] == StmtV::<S, A>::Use(strip_use(u)));
                    }
                }
            },
            s => {
                assert(res == out.push(s));
                assert forall|i: int| 0 <= i < res.len() implies match #[trigger] res[i] {
                    StmtV::Use(v) => no_pyo3_list_attrs(v.attrs),
                    _ => true,
                } by {
                    if i < out.len() {
                        assert(res[i] == out[i]);
                    }
                }
            },
        }
    }
}

/// Processing is idempotent: processing a processed body again succeeds and
/// changes nothing.
pub proof fn law_idempotent<S, A>(module: Option<Seq<char>>, stmts: Seq<StmtV<S, A>>)
    requires
        body_fold(module, stmts) is Done,
    ensures
        body_fold(module, body_fold(module, stmts)->Done_0) == body_fold(module, stmts),
{
    law_lists_consumed(module, stmts);
    law_plain_body_unchanged(module, body_fold(module, stmts)->Done_0);
}

/// Processing keeps every statement of the body, in order: with the
/// registration statements taken out, the result is the body with the
/// `#[pyo3(...)]` lists removed from its `use` items.
pub proof fn law_statements_kept<S, A>(module: Option<Seq<char>>, stmts: Seq<StmtV<S, A>>)
    requires
        no_registrations(stmts),
        body_fold(module, stmts) is Done,
    ensures
        without_registrations(body_fold(module, stmts)->Done_0) == strip_body(stmts),
    decreases stmts.len(),
{
    if stmts.len() > 0 {
        let prefix = stmts.drop_last();
        assert forall|i: int| 0 <= i < prefix.len() implies !(#[trigger] prefix[i] is AddWrapped) by {
            assert(prefix[i] == stmts[i]);
        }
        law_statements_kept(module, prefix);
        let out = body_fold(module, prefix)->Done_0;
        let res = body_fold(module, stmts)->Done_0;
        assert(strip_body(stmts) =~= strip_body(prefix).push(strip_body(stmts)[stmts.len() - 1]));
        assert(!(stmts[stmts.len() - 1] is AddWrapped));
        match stmts.last() {
            StmtV::Use(u) => {
                let items = use_plan(module, u)->Done_0;
                let regs = registration_stmts::<S, A>(items);
                let tail = seq![StmtV::<S, A>::Use(strip_use(u))];
                lemma_without_concat(out, regs);
                lemma_without_concat(out + regs, tail);
                lemma_without_registrations::<S, A>(items);
                assert(tail.drop_last() =~= Seq::<StmtV<S, A>>::empty());
                assert(without_registrations(Seq::<StmtV<S, A>>::empty()) == Seq::<StmtV<S, A>>::empty());
                assert(without_registrations(tail) =~= tail);
                assert(without_registrations(out) + Seq::<StmtV<S, A>>::empty() =~= without_registrations(out));
            },
            s => {
                assert(res == out.push(s));
                assert(res.drop_last() =~= out);
            },
        }
    }
}

/// Without a module identifier, a body is processed successfully only when it
/// asks for no registration: the result is then the body with the
/// `#[pyo3(...)]` lists removed from its `use` items.
pub proof fn law_no_module_no_registrations<S, A>(stmts: Seq<StmtV<S, A>>)
    requires
        body_fold(None, stmts) is Done,
    ensures
        body_fold(None, stmts)->Done_0 == strip_body(stmts),
    decreases stmts.len(),
{
    if stmts.len() > 0 {
        let prefix = stmts.drop_last();
        law_no_module_no_registrations(prefix);
        let out = body_fold(None, prefix)->Done_0;
        assert(strip_body(stmts) =~= strip_body(prefix).push(strip_body(stmts)[stmts.len() - 1]));
        match stmts.last() {
            StmtV::Use(u) => {
                lemma_attrs_no_module(u.tree, u.attrs);
                let items = use_plan(None, u)->Done_0;
                assert(items =~= Seq::<AddWrappedV>::empty());
                assert(registration_stmts::<S, A>(items) =~= Seq::<StmtV<S, A>>::empty());
                assert(out + registration_stmts::<S, A>(items) + seq![StmtV::Use(strip_use(u))]
                    =~= out.push(StmtV::Use(strip_use(u))));
            },
            s => {},
        }
    }
}

/// A raw identifier and the plain identifier it stands for are registered
/// through the same wrapper.
pub proof fn law_raw_wrapper(name: Seq<char>)
    requires
        !(name.len() >= 2 && name[0] == 'r' && name[1] == '#'),
    ensures
        wrapper_name(seq!['r', '#'] + name) == wrapper_name(name),
{
    assert((seq!['r', '#'] + name).skip(2) =~= name);
}

/// Every registration statement that processing adds registers with the
/// module identifier given.
pub proof fn law_registrations_use_module<S, A>(m: Seq<char>, stmts: Seq<StmtV<S, A>>)
    requires
        no_registrations(stmts),
        body_fold(Some(m), stmts) is Done,
    ensures
        forall|i: int|
            0 <= i < body_fold(Some(m), stmts)->Done_0.len() ==> (
            #[trigger] body_fold(Some(m), stmts)->Done_0[i] matches StmtV::AddWrapped(w)
                ==> w.module == m),
    decreases stmts.len(),
{
    if stmts.len() > 0 {
        let prefix = stmts.drop_last();
        assert forall|i: int| 0 <= i < prefix.len() implies !(#[trigger] prefix[i] is AddWrapped) by {
            assert(prefix[i] == stmts[i]);
        }
        law_registrations_use_module(m, prefix);
        let out = body_fold(Some(m), prefix)->Done_0;
        let res = body_fold(Some(m), stmts)->Done_0;
        assert(!(stmts[stmts.len() - 1] is AddWrapped));
        match stmts.last() {
            StmtV::Use(u) => {
                let items = use_plan(Some(m), u)->Done_0;
                lemma_attrs_module(m, u.tree, u.attrs);
                let regs = registration_stmts::<S, A>(items);
                assert(res == out + regs + seq![StmtV::Use(strip_use(u))]);
                assert forall|i: int| 0 <= i < res.len() implies (#[trigger] res[i] matches StmtV::AddWrapped(w)
                    ==> w.module == m) by {
                    if i < out.len() {
                        assert(res[i] == out[i]);
                    } else if i < out.len() + regs.len() {
                        assert(res[i] == regs[i - out.len()]);
                        assert(regs[i - out.len()] == StmtV::<S, A>::AddWrapped(items[i - out.len()]));
                    }
                }
            },
            s => {
                assert(res == out.push(s));
                assert forall|i: int| 0 <= i < res.len() implies (#[trigger] res[i] matches StmtV::AddWrapped(w)
                    ==> w.module == m) by {
                    if i < out.len() {
                        assert(res[i] == out[i]);
                    }
                }
            },
        }
    }
}

/// The wrapper of a function is named `__pyo3_get_function_` followed by the
/// whole name of the function; a raw identifier `r#name` loses only its `r#`.
pub proof fn law_wrapper_name_whole(name: Seq<char>)
    ensures
        !(name.len() >= 2 && name[0] == 'r' && name[1] == '#') ==> wrapper_name(name)
            == "__pyo3_get_function_"@ + name,
        name.len() >= 2 && name[0] == 'r' && name[1] == '#' ==> wrapper_name(name)
            == "__pyo3_get_function_"@ + name.subrange(2, name.len() as int),
        wrapper_name(name).len() == 20 + name.len() - (if name.len() >= 2 && name[0] == 'r'
            && name[1] == '#' {
            2int
        } else {
            0int
        }),
{
    reveal_strlit("__pyo3_get_function_");
    assert(name.skip(2) =~= name.subrange(2, name.len() as int));
}

/// The registration a statement makes, if it is a registration statement.
pub open spec fn registration_of<S, A>() -> spec_fn(StmtV<S, A>) -> Option<AddWrappedV> {
    |s: StmtV<S, A>|
        match s {
            StmtV::AddWrapped(w) => Some(w),
            _ => None,
        }
}

/// The registrations that the `use` items of a body ask for, one item after
/// the other.
pub open spec fn planned_registrations<S, A>(module: Option<Seq<char>>, stmts: Seq<StmtV<S, A>>) -> Seq<
    AddWrappedV,
>
    decreases stmts.len(),
{
    if stmts.len() == 0 {
        seq![]
    } else {
        planned_registrations(module, stmts.drop_last()) + match stmts.last() {
            StmtV::Use(u) => match use_plan(module, u) {
                Outcome::Done(items) => items,
                _ => seq![],
            },
            _ => seq![],
        }
    }
}

proof fn lemma_registrations_concat<S, A>(a: Seq<StmtV<S, A>>, b: Seq<StmtV<S, A>>)
    ensures
        (a + b).filter_map(registration_of()) == a.filter_map(registration_of()) + b.filter_map(
            registration_of(),
        ),
    decreases b.len(),
{
    if b.len() == 0 {
        assert(a + b =~= a);
        assert(a.filter_map(registration_of()) + b.filter_map(registration_of()) =~= a.filter_map(
            registration_of(),
        ));
    } else {
        assert((a + b).drop_last() =~= a + b.drop_last());
        assert((a + b).last() == b.last());
        lemma_registrations_concat(a, b.drop_last());
        let f = registration_of::<S, A>();
        match f(b.last()) {
            Some(w) => {
                assert(a.filter_map(f) + (b.drop_last().filter_map(f) + seq![w]) =~= (a.filter_map(f)
                    + b.drop_last().filter_map(f)) + seq![w]);
            },
            None => {},
        }
    }
}

proof fn lemma_registrations_of_items<S, A>(items: Seq<AddWrappedV>)
    ensures
        registration_stmts::<S, A>(items).filter_map(registration_of()) == items,
    decreases items.len(),
{
    if items.len() == 0 {
        assert(registration_stmts::<S, A>(items) =~= Seq::<StmtV<S, A>>::empty());
    } else {
        let r = registration_stmts::<S, A>(items);
        assert(r.drop_last() =~= registration_stmts::<S, A>(items.drop_last()));
        assert(r.last() == StmtV::<S, A>::AddWrapped(items.last()));
        lemma_registrations_of_items::<S, A>(items.drop_last());
        assert(items.drop_last() + seq![items.last()] =~= items);
    }
}

/// Every `use` item gets every registration it asks for: the registration
/// statements of the result are, in order, the registrations that the body's
/// `use` items ask for, one item after the other.
pub proof fn law_every_registration_made<S, A>(module: Option<Seq<char>>, stmts: Seq<StmtV<S, A>>)
    requires
        no_registrations(stmts),
        body_fold(module, stmts) is Done,
    ensures
        body_fold(module, stmts)->Done_0.filter_map(registration_of())
            == planned_registrations(module, stmts),
    decreases stmts.len(),
{
    if stmts.len() == 0 {
        assert(body_fold(module, stmts)->Done_0 =~= Seq::<StmtV<S, A>>::empty());
    } else {
        let prefix = stmts.drop_last();
        assert forall|i: int| 0 <= i < prefix.len() implies !(#[trigger] prefix[i] is AddWrapped) by {
            assert(prefix[i] == stmts[i]);
        }
        law_every_registration_made(module, prefix);
        let out = body_fold(module, prefix)->Done_0;
        let res = body_fold(module, stmts)->Done_0;
        assert(!(stmts[stmts.len() - 1] is AddWrapped));
        match stmts.last() {
            StmtV::Use(u) => {
                let items = use_plan(module, u)->Done_0;
                let regs = registration_stmts::<S, A>(items);
                let tail = seq![StmtV::<S, A>::Use(strip_use(u))];
                lemma_registrations_concat(out, regs);
                lemma_registrations_concat(out + regs, tail);
                lemma_registrations_of_items::<S, A>(items);
                assert(tail.drop_last() =~= Seq::<StmtV<S, A>>::empty());
                assert(Seq::<StmtV<S, A>>::empty().filter_map(registration_of()) =~= Seq::<
                    AddWrappedV,
                >::empty());
                assert(registration_of::<S, A>()(tail.last()) is None);
                assert(tail.filter_map(registration_of()) =~= Seq::<AddWrappedV>::empty());
                assert(planned_registrations(module, stmts) == planned_registrations(module, prefix)
                    + items);
                assert(out.filter_map(registration_of()) + items + Seq::<AddWrappedV>::empty()
                    =~= out.filter_map(registration_of()) + items);
            },
            s => {
                assert(res == out.push(s));
                assert(res.drop_last() =~= out);
                assert(planned_registrations(module, stmts) =~= planned_registrations(module, prefix));
            },
        }
    }
}

/// Each `use` item of the body stands in the result, stripped of its
/// `#[pyo3(...)]` lists, right after the registrations it asks for.
pub proof fn law_registrations_before_use<S, A>(
    module: Option<Seq<char>>,
    stmts: Seq<StmtV<S, A>>,
    k: int,
)
    requires
        body_fold(module, stmts) is Done,
        0 <= k < stmts.len(),
        stmts[k] is Use,
    ensures
        exists|p: int|
            0 <= p && p + use_plan(module, stmts[k]->Use_0)->Done_0.len() + 1 <= body_fold(
                module,
                stmts,
            )->Done_0.len() && #[trigger] body_fold(module, stmts)->Done_0.subrange(
                p,
                p + use_plan(module, stmts[k]->Use_0)->Done_0.len() + 1,
            ) == registration_stmts::<S, A>(use_plan(module, stmts[k]->Use_0)->Done_0) + seq![
                StmtV::Use(strip_use(stmts[k]->Use_0)),
            ],
    decreases stmts.len(),
{
    let prefix = stmts.drop_last();
    let res = body_fold(module, stmts)->Done_0;
    if k == stmts.len() - 1 {
        let out = body_fold(module, prefix)->Done_0;
        let u = stmts[k]->Use_0;
        let items = use_plan(module, u)->Done_0;
        let piece = registration_stmts::<S, A>(items) + seq![StmtV::Use(strip_use(u))];
        assert(stmts.last() == stmts[k]);
        assert(res == out + piece);
        let p = out.len() as int;
        assert(res.subrange(p, p + items.len() + 1) =~= piece);
    } else {
        assert(prefix[k] == stmts[k]);
        law_registrations_before_use(module, prefix, k);
        let out = body_fold(module, prefix)->Done_0;
        let u = stmts[k]->Use_0;
        let n = use_plan(module, u)->Done_0.len();
        let p = choose|p: int|
            0 <= p && p + n + 1 <= out.len() && #[trigger] out.subrange(p, p + n + 1)
                == registration_stmts::<S, A>(use_plan(module, u)->Done_0) + seq![
                StmtV::Use(strip_use(u)),
            ];
        assert(res.subrange(0, out.len() as int) =~= out) by {
            match stmts.last() {
                StmtV::Use(v) => {
                    assert(res == out + registration_stmts::<S, A>(use_plan(module, v)->Done_0) + seq![
                        StmtV::Use(strip_use(v)),
                    ]);
                },
                s => {
                    assert(res == out.push(s));
                },
            }
        }
        assert(res.subrange(p, p + n + 1) =~= out.subrange(p, p + n + 1));
    }
}

} // verus!
