use vstd::prelude::*;

use crate::ast::{
    AssignExpr, Callee, Expr, ExprOrSpread, Ident, MemberExpr, MemberProp, ModuleItem, ObjectPatProp, Pat, PatOrExpr,
    Program, Prop, PropName, Span, VarDeclarator, AssignOp,
};
use crate::dependency::{ModuleDependency, spec_is_async};
use crate::harmony::{
    entries_deps, entry_deps, esm_records, esm_templates, export_dep, fresh_state, kind_of, scan_items,
    ScanState,
};
use crate::harmony_ref::{
    names_ids,
    add_destructured, destructures_namespace, member_prop_name, pattern_keys, ref_args, ref_assign, ref_callee,
    ref_expr, ref_exprs, ref_ident, ref_items, ref_member, ref_member_prop, ref_pat, ref_pat_prop, ref_pat_props,
    ref_prop, ref_prop_name, ref_props, ref_declarator, ref_declarators, declares_from_namespace, ImportMapV, RefState,
};
use crate::import_map::{BindingKey, RefInfoV};
use crate::imports::{entries_add, entry_keys, find_key, lemma_find_key, ImportsEntryV};
use crate::records::{DepV, SpecifierV};
use crate::taxonomy::DependencyType;

verus! {

/// The span of a declaration that the first pass deletes from the output.
pub open spec fn decl_span(item: ModuleItem) -> Option<Span> {
    match item {
        ModuleItem::Import(d) => Some(d.span),
        ModuleItem::NamedExport(n) => if n.src is Some {
            Some(n.span)
        } else {
            None
        },
        ModuleItem::ExportAll(e) => Some(e.span),
        ModuleItem::Stmt(_) => None,
    }
}

/// The `(request, is_export)` key a declaration files its source module under.
pub open spec fn decl_key(item: ModuleItem) -> Option<(Seq<char>, bool)> {
    match item {
        ModuleItem::Import(d) => Some((d.src.value@, false)),
        ModuleItem::NamedExport(n) => match n.src {
            Some(s) => Some((s.value@, true)),
            None => None,
        },
        ModuleItem::ExportAll(e) => Some((e.src.value@, true)),
        ModuleItem::Stmt(_) => None,
    }
}

/// Whether a template is the deletion of a declaration.
pub open spec fn template_from(item: ModuleItem, t: (u32, u32, Seq<char>)) -> bool {
    match decl_span(item) {
        Some(s) => t == (s.lo, s.hi, Seq::<char>::empty()),
        None => false,
    }
}

/// Whether a template is the deletion of one of the declarations.
pub open spec fn deletes_some(items: Seq<ModuleItem>, t: (u32, u32, Seq<char>)) -> bool {
    exists|i: int| 0 <= i < items.len() && #[trigger] template_from(items[i], t)
}

/// The deletion templates of the declarations, in order.
pub open spec fn templates_of(items: Seq<ModuleItem>) -> Seq<(u32, u32, Seq<char>)>
    decreases items.len(),
{
    if items.len() == 0 {
        Seq::empty()
    } else {
        let r = templates_of(items.drop_last());
        match decl_span(items.last()) {
            Some(s) => r.push((s.lo, s.hi, Seq::empty())),
            None => r,
        }
    }
}

/// The keys of the declarations, each at its first occurrence, after those of `acc`.
pub open spec fn first_keys(acc: Seq<(Seq<char>, bool)>, items: Seq<ModuleItem>) -> Seq<(Seq<char>, bool)>
    decreases items.len(),
{
    if items.len() == 0 {
        acc
    } else {
        let r = first_keys(acc, items.drop_last());
        match decl_key(items.last()) {
            Some(k) => if r.contains(k) {
                r
            } else {
                r.push(k)
            },
            None => r,
        }
    }
}

/// The requests of the keys that are imports (not re-exports), in order.
pub open spec fn import_key_requests(keys: Seq<(Seq<char>, bool)>) -> Seq<Seq<char>>
    decreases keys.len(),
{
    if keys.len() == 0 {
        Seq::empty()
    } else {
        let r = import_key_requests(keys.drop_last());
        if keys.last().1 {
            r
        } else {
            r.push(keys.last().0)
        }
    }
}

/// The requests of the ESM import records, in order.
pub open spec fn import_requests(ds: Seq<DepV>) -> Seq<Seq<char>>
    decreases ds.len(),
{
    if ds.len() == 0 {
        Seq::empty()
    } else {
        let r = import_requests(ds.drop_last());
        match ds.last() {
            DepV::Import { request, dependency_type, .. } => if dependency_type == DependencyType::EsmImport {
                r.push(request)
            } else {
                r
            },
            _ => r,
        }
    }
}

proof fn lemma_scan_templates(st: ScanState, items: Seq<ModuleItem>)
    ensures
        scan_items(st, items).2 == st.2 + templates_of(items),
    decreases items.len(),
{
    if items.len() > 0 {
        lemma_scan_templates(st, items.drop_last());
        let r = scan_items(st, items.drop_last());
        assert(scan_items(st, items).2 =~= st.2 + templates_of(items));
    } else {
        assert(st.2 + Seq::empty() =~= st.2);
    }
}

proof fn lemma_templates_members(items: Seq<ModuleItem>)
    ensures
        forall|k: int| 0 <= k < templates_of(items).len() ==> #[trigger] deletes_some(items, templates_of(items)[k]),
    decreases items.len(),
{
    if items.len() > 0 {
        let d = items.drop_last();
        lemma_templates_members(d);
        assert forall|k: int| 0 <= k < templates_of(items).len() implies #[trigger] deletes_some(items, templates_of(items)[k]) by {
            if k < templates_of(d).len() {
                assert(deletes_some(d, templates_of(d)[k]));
                let i = choose|i: int| 0 <= i < d.len() && template_from(d[i], templates_of(d)[k]);
                assert(items[i] == d[i]);
                assert(templates_of(items)[k] == templates_of(d)[k]);
                assert(template_from(items[i], templates_of(items)[k]));
            } else {
                let i = items.len() - 1;
                assert(template_from(items[i], templates_of(items)[k]));
            }
        }
    } else {
        assert(templates_of(items).len() == 0);
    }
}

/// The deleted declarations' spans are within a source of length `len`.
pub open spec fn decl_spans_within(p: Program, len: u32) -> bool {
    forall|i: int| 0 <= i < p.body@.len() ==> (#[trigger] decl_span(p.body@[i]) matches Some(s) ==> s.lo <= s.hi <= len)
}

/// Every rewrite template of the ESM analysis lies within the source: `lo <= hi <= len`,
/// given that the declarations it deletes do.
pub proof fn law_templates_within_source(p: Program, len: u32)
    requires
        decl_spans_within(p, len),
    ensures
        forall|k: int| 0 <= k < esm_templates(p).len() ==> (#[trigger] esm_templates(p)[k]).0 <= esm_templates(p)[k].1 <= len,
{
    lemma_scan_templates(fresh_state(), p.body@);
    assert(esm_templates(p) =~= templates_of(p.body@));
    lemma_templates_members(p.body@);
    assert forall|k: int| 0 <= k < esm_templates(p).len() implies (#[trigger] esm_templates(p)[k]).0 <= esm_templates(p)[k].1 <= len by {
        assert(deletes_some(p.body@, templates_of(p.body@)[k]));
        let i = choose|i: int| 0 <= i < p.body@.len() && template_from(p.body@[i], templates_of(p.body@)[k]);
        assert(decl_span(p.body@[i]) is Some);
    }
}

/// The deleted declarations come in source order without overlapping.
pub open spec fn decl_spans_ordered(items: Seq<ModuleItem>) -> bool {
    forall|i: int, j: int| 0 <= i < j < items.len() ==> (#[trigger] decl_span(items[i]) matches Some(a) ==> (#[trigger] decl_span(items[j]) matches Some(b) ==> a.hi <= b.lo))
}

proof fn lemma_templates_ordered(items: Seq<ModuleItem>)
    requires
        decl_spans_ordered(items),
    ensures
        forall|a: int, b: int| 0 <= a < b < templates_of(items).len() ==> (#[trigger] templates_of(items)[a]).1 <= (#[trigger] templates_of(items)[b]).0,
    decreases items.len(),
{
    if items.len() > 0 {
        let d = items.drop_last();
        assert(decl_spans_ordered(d)) by {
            assert forall|i: int, j: int| 0 <= i < j < d.len() implies (#[trigger] decl_span(d[i]) matches Some(a) ==> (#[trigger] decl_span(d[j]) matches Some(b) ==> a.hi <= b.lo)) by {
                assert(d[i] == items[i] && d[j] == items[j]);
            }
        }
        lemma_templates_ordered(d);
        lemma_templates_members(d);
        let t = templates_of(items);
        assert forall|a: int, b: int| 0 <= a < b < t.len() implies (#[trigger] t[a]).1 <= (#[trigger] t[b]).0 by {
            if b >= templates_of(d).len() {
                assert(deletes_some(d, templates_of(d)[a]));
                let i = choose|i: int| 0 <= i < d.len() && template_from(d[i], templates_of(d)[a]);
                assert(items[i] == d[i]);
                assert(decl_span(items[i]) is Some);
                assert(decl_span(items[items.len() - 1]) is Some);
            }
        }
    }
}

/// No two rewrite templates of the ESM analysis overlap: each ends before the next one
/// starts, given that the deleted declarations come in source order without overlapping.
pub proof fn law_templates_do_not_overlap(p: Program)
    requires
        decl_spans_ordered(p.body@),
    ensures
        forall|a: int, b: int| 0 <= a < b < esm_templates(p).len() ==> (#[trigger] esm_templates(p)[a]).1 <= (#[trigger] esm_templates(p)[b]).0,
{
    lemma_scan_templates(fresh_state(), p.body@);
    assert(esm_templates(p) =~= templates_of(p.body@));
    lemma_templates_ordered(p.body@);
}

proof fn lemma_entries_add_keys(e: Seq<ImportsEntryV>, key: (Seq<char>, bool), span: Span, specs: Seq<SpecifierV>, star: bool)
    ensures
        entry_keys(entries_add(e, key, span, specs, star)) == if entry_keys(e).contains(key) {
            entry_keys(e)
        } else {
            entry_keys(e).push(key)
        },
{
    lemma_find_key(entry_keys(e), key);
    let i = find_key(entry_keys(e), key);
    if i >= 0 {
        assert(entry_keys(e)[i] == e[i].0);
        assert(entry_keys(entries_add(e, key, span, specs, star)) =~= entry_keys(e));
    } else {
        assert(entry_keys(entries_add(e, key, span, specs, star)) =~= entry_keys(e).push(key));
    }
}

proof fn lemma_scan_keys(st: ScanState, items: Seq<ModuleItem>)
    ensures
        entry_keys(scan_items(st, items).1) == first_keys(entry_keys(st.1), items),
    decreases items.len(),
{
    if items.len() > 0 {
        lemma_scan_keys(st, items.drop_last());
        let r = scan_items(st, items.drop_last());
        match items.last() {
            ModuleItem::Import(d) => lemma_entries_add_keys(r.1, (d.src.value@, false), d.span, crate::harmony::import_specifiers_view(d.specifiers@), false),
            ModuleItem::NamedExport(n) => match n.src {
                Some(src) => lemma_entries_add_keys(r.1, (src.value@, true), n.span, crate::harmony::export_specifiers_view(n.specifiers@), false),
                None => {},
            },
            ModuleItem::ExportAll(x) => lemma_entries_add_keys(r.1, (x.src.value@, true), x.span, Seq::empty(), true),
            ModuleItem::Stmt(_) => {},
        }
    }
}

proof fn lemma_import_requests_append(a: Seq<DepV>, b: Seq<DepV>)
    ensures
        import_requests(a + b) == import_requests(a) + import_requests(b),
    decreases b.len(),
{
    if b.len() == 0 {
        assert(a + b =~= a);
        assert(import_requests(a) + Seq::empty() =~= import_requests(a));
    } else {
        lemma_import_requests_append(a, b.drop_last());
        assert((a + b).drop_last() =~= a + b.drop_last());
        assert((a + b).last() == b.last());
        assert(import_requests(a + b) =~= import_requests(a) + import_requests(b));
    }
}

proof fn lemma_import_requests_none(ds: Seq<DepV>)
    requires
        forall|i: int| 0 <= i < ds.len() ==> !(#[trigger] ds[i] is Import),
    ensures
        import_requests(ds) == Seq::<Seq<char>>::empty(),
    decreases ds.len(),
{
    if ds.len() > 0 {
        lemma_import_requests_none(ds.drop_last());
        assert(!(ds[ds.len() - 1] is Import));
    }
}

proof fn lemma_entry_import_requests(e: ImportsEntryV)
    ensures
        import_requests(entry_deps(e)) == if e.0.1 {
            Seq::<Seq<char>>::empty()
        } else {
            seq![e.0.0]
        },
{
    let specs = if e.0.1 && e.2.len() > 0 {
        e.2.map_values(|s: SpecifierV| export_dep(e.0.0, s))
    } else {
        Seq::empty()
    };
    lemma_import_requests_none(specs);
    assert(entry_deps(e).drop_last() =~= specs);
    if e.0.1 {
        assert(kind_of(true) != DependencyType::EsmImport);
    } else {
        assert(seq![e.0.0] =~= Seq::<Seq<char>>::empty().push(e.0.0));
    }
}

proof fn lemma_entries_import_requests(es: Seq<ImportsEntryV>)
    ensures
        import_requests(entries_deps(es)) == import_key_requests(entry_keys(es)),
    decreases es.len(),
{
    if es.len() > 0 {
        lemma_entries_import_requests(es.drop_last());
        lemma_import_requests_append(entries_deps(es.drop_last()), entry_deps(es.last()));
        lemma_entry_import_requests(es.last());
        assert(entry_keys(es).drop_last() =~= entry_keys(es.drop_last()));
        assert(entry_keys(es).last() == es.last().0);
        assert(import_key_requests(entry_keys(es)) =~= import_requests(entries_deps(es)));
    }
}

/// The ESM import records that `visit_program` emits, from any state whose imports table
/// is empty, come in the order in which their requests first occur: their requests are the
/// imported sources, each once, in order of first import.
pub proof fn law_program_imports_in_first_occurrence_order(st: ScanState, p: Program)
    requires
        st.1.len() == 0,
    ensures
        import_requests(
            entries_deps(scan_items(st, p.body@).1) + ref_items(
                scan_items(st, p.body@).0,
                (Seq::empty(), false, Map::empty()),
                p.body@,
            ).0,
        ) == import_key_requests(first_keys(Seq::empty(), p.body@)),
{
    lemma_scan_keys(st, p.body@);
    assert(entry_keys(st.1) =~= Seq::<(Seq<char>, bool)>::empty());
    let es = scan_items(st, p.body@).1;
    let uses = ref_items(scan_items(st, p.body@).0, (Seq::empty(), false, Map::empty()), p.body@).0;
    lemma_entries_import_requests(es);
    lemma_uses_items(scan_items(st, p.body@).0, (Seq::empty(), false, Map::empty()), p.body@);
    lemma_import_requests_none(uses);
    lemma_import_requests_append(entries_deps(es), uses);
    assert(import_key_requests(first_keys(Seq::empty(), p.body@)) + Seq::<Seq<char>>::empty() =~= import_key_requests(
        first_keys(Seq::empty(), p.body@),
    ));
}

/// The ESM import records of a fresh analysis come in the order in which their requests
/// first occur.
pub proof fn law_imports_in_first_occurrence_order(p: Program)
    ensures
        import_requests(esm_records(p)) == import_key_requests(first_keys(Seq::empty(), p.body@)),
{
    law_program_imports_in_first_occurrence_order(fresh_state(), p);
}

/// Determinism: the records of the ESM analysis, ids aside, and its rewrite templates
/// depend on the program alone, so analysing the same program twice gives the same
/// sequences.
pub proof fn law_analysis_deterministic(p: Program, q: Program)
    requires
        p == q,
    ensures
        esm_records(p) == esm_records(q),
        esm_templates(p) == esm_templates(q),
{
}

/// Destructured names are attached once: the first use of a namespace after properties
/// were destructured from it carries exactly those names, and a second use carries none.
pub proof fn law_destructured_names_attached_once(m: ImportMapV, st: RefState, first: Ident, second: Ident)
    requires
        m.contains_key((first.sym@, first.ctxt)),
        m.contains_key((second.sym@, second.ctxt)),
        first.sym@ == second.sym@,
        st.2.contains_key(first.sym@),
    ensures
        ref_ident(m, st, first).0.last() matches DepV::ImportSpecifier { destructured, .. } && destructured == Some(
            st.2[first.sym@],
        ),
        ref_ident(m, ref_ident(m, st, first), second).0.last() matches DepV::ImportSpecifier { destructured, .. }
            && destructured is None,
{
}

/// A shorthand pattern `{ a1, .., ak }` none of whose names is an imported binding.
pub open spec fn plain_shorthand_pattern(m: ImportMapV, props: Seq<ObjectPatProp>) -> bool {
    forall|i: int| 0 <= i < props.len() ==> match #[trigger] props[i] {
        ObjectPatProp::Assign { key, value: None } => !m.contains_key((key.sym@, key.ctxt)),
        _ => false,
    }
}

proof fn lemma_plain_pattern_inert(m: ImportMapV, st: RefState, props: Seq<ObjectPatProp>)
    requires
        plain_shorthand_pattern(m, props),
    ensures
        ref_pat_props(m, st, props) == st,
    decreases props.len(),
{
    if props.len() > 0 {
        let d = props.drop_last();
        assert forall|i: int| 0 <= i < d.len() implies match #[trigger] d[i] {
            ObjectPatProp::Assign { key, value: None } => !m.contains_key((key.sym@, key.ctxt)),
            _ => false,
        } by {
            assert(d[i] == props[i]);
        }
        lemma_plain_pattern_inert(m, st, d);
        let last = props[props.len() - 1];
        assert(match last {
            ObjectPatProp::Assign { key, value: None } => !m.contains_key((key.sym@, key.ctxt)),
            _ => false,
        });
        match last {
            ObjectPatProp::Assign { key, value } => {
                assert(ref_ident(m, st, key) == st);
                assert(ref_pat_prop(m, st, last) == st);
            },
            _ => {},
        }
        assert(ref_pat_props(m, st, d) == st);
        assert(ref_pat_props(m, st, props) == ref_pat_prop(m, ref_pat_props(m, st, d), last));
    }
}

/// An identifier bound to a namespace import, with no destructured names waiting for it.
pub open spec fn unclaimed_namespace(m: ImportMapV, st: RefState, e: Expr) -> bool {
    match e {
        Expr::Ident(o) => m.contains_key((o.sym@, o.ctxt)) && (m[(o.sym@, o.ctxt)].1 is Namespace)
            && !st.2.contains_key(o.sym@),
        _ => false,
    }
}

/// The use of the namespace that a destructuring reads.
pub open spec fn namespace_use(m: ImportMapV, st: RefState, o: Ident, names: Set<Seq<char>>) -> DepV {
    let r = m[(o.sym@, o.ctxt)];
    DepV::ImportSpecifier {
        request: r.0,
        shorthand: false,
        start: o.span.lo,
        end: o.span.hi,
        ids: names_ids(r.2),
        is_call: st.1,
        call_like: true,
        specifier: r.1,
        destructured: Some(names),
    }
}

/// `({ a1, .., ak } = ns)` of a namespace import `ns`: the one record it adds is the use of
/// `ns`, carrying exactly the destructured names, and no names are left waiting.
pub proof fn law_destructuring_assignment_attaches_names(m: ImportMapV, st: RefState, a: AssignExpr)
    requires
        a.op == AssignOp::Assign,
        a.left matches PatOrExpr::Pat(Pat::Object { props, .. }) && plain_shorthand_pattern(m, props@),
        unclaimed_namespace(m, st, *a.right),
    ensures
        match (a.left, *a.right) {
            (PatOrExpr::Pat(Pat::Object { props, .. }), Expr::Ident(o)) => ref_assign(m, st, a) == (
                st.0.push(namespace_use(m, st, o, pattern_keys(props@))),
                st.1,
                st.2,
            ),
            _ => false,
        },
{
    match (a.left, *a.right) {
        (PatOrExpr::Pat(Pat::Object { props, .. }), Expr::Ident(o)) => {
            let st1 = (st.0, st.1, add_destructured(st.2, o.sym@, pattern_keys(props@)));
            lemma_plain_pattern_inert(m, st1, props@);
            assert(st1.2.remove(o.sym@) =~= st.2);
        },
        _ => {},
    }
}

/// `const { a1, .., ak } = ns` of a namespace import `ns`: the one record it adds is the use
/// of `ns`, carrying exactly the destructured names, and no names are left waiting.
pub proof fn law_destructuring_declaration_attaches_names(m: ImportMapV, st: RefState, d: VarDeclarator)
    requires
        d.name matches Pat::Object { props, .. } && plain_shorthand_pattern(m, props@),
        d.init matches Some(e) && unclaimed_namespace(m, st, *e),
    ensures
        match (d.name, d.init) {
            (Pat::Object { props, .. }, Some(e)) => match *e {
                Expr::Ident(o) => ref_declarator(m, st, d) == (
                    st.0.push(namespace_use(m, st, o, pattern_keys(props@))),
                    st.1,
                    st.2,
                ),
                _ => false,
            },
            _ => false,
        },
{
    match (d.name, d.init) {
        (Pat::Object { props, .. }, Some(e)) => match *e {
            Expr::Ident(o) => {
                let st1 = (st.0, st.1, add_destructured(st.2, o.sym@, pattern_keys(props@)));
                lemma_plain_pattern_inert(m, st1, props@);
                assert(st1.2.remove(o.sym@) =~= st.2);
            },
            _ => {},
        },
        _ => {},
    }
}

proof fn lemma_no_decls_scan(st: ScanState, items: Seq<ModuleItem>)
    requires
        forall|i: int| 0 <= i < items.len() ==> #[trigger] decl_span(items[i]) is None,
    ensures
        scan_items(st, items) == st,
    decreases items.len(),
{
    if items.len() > 0 {
        assert forall|i: int| 0 <= i < items.drop_last().len() implies #[trigger] decl_span(items.drop_last()[i]) is None by {
            assert(items.drop_last()[i] == items[i]);
        }
        lemma_no_decls_scan(st, items.drop_last());
        assert(decl_span(items[items.len() - 1]) is None);
    }
}

/// A module whose import and export declarations were all rewritten away yields no ESM
/// record at all and no rewrite template when analysed again.
pub proof fn law_rewritten_module_has_no_imports(p: Program)
    requires
        forall|i: int| 0 <= i < p.body@.len() ==> #[trigger] decl_span(p.body@[i]) is None,
    ensures
        esm_records(p).len() == 0,
        esm_templates(p).len() == 0,
{
    lemma_no_decls_scan(fresh_state(), p.body@);
    lemma_uses_items(Map::empty(), (Seq::empty(), false, Map::empty()), p.body@);
}

/// Whether the request is asynchronous is the same for a record and its copy.
pub proof fn law_async_stable_across_copies(d: ModuleDependency, c: ModuleDependency)
    requires
        c.same_record(d),
    ensures
        spec_is_async(c) == spec_is_async(d),
{
}

/// `after` is `before` followed by use-site records only.
pub open spec fn appends_uses(before: Seq<DepV>, after: Seq<DepV>) -> bool {
    &&& before.len() <= after.len()
    &&& after.take(before.len() as int) == before
    &&& forall|k: int| before.len() <= k < after.len() ==> (#[trigger] after[k]) is ImportSpecifier
}

proof fn lemma_appends_uses_trans(a: Seq<DepV>, b: Seq<DepV>, c: Seq<DepV>)
    requires
        appends_uses(a, b),
        appends_uses(b, c),
    ensures
        appends_uses(a, c),
{
    assert(c.take(a.len() as int) =~= c.take(b.len() as int).take(a.len() as int));
    assert forall|k: int| a.len() <= k < c.len() implies (#[trigger] c[k]) is ImportSpecifier by {
        if k < b.len() {
            assert(c[k] == c.take(b.len() as int)[k]);
            assert(b[k] is ImportSpecifier);
        }
    }
}

proof fn lemma_uses_ident(m: ImportMapV, st: RefState, i: Ident)
    ensures
        appends_uses(st.0, ref_ident(m, st, i).0),
        m == Map::<BindingKey, RefInfoV>::empty() ==> ref_ident(m, st, i).0 == st.0,
{
    assert(st.0.take(st.0.len() as int) =~= st.0);
    if m.contains_key((i.sym@, i.ctxt)) {
        let r = ref_ident(m, st, i).0;
        assert(r.take(st.0.len() as int) =~= st.0);
    }
}

proof fn lemma_uses_expr(m: ImportMapV, st: RefState, e: Expr)
    ensures
        appends_uses(st.0, ref_expr(m, st, e).0),
        m == Map::<BindingKey, RefInfoV>::empty() ==> ref_expr(m, st, e).0 == st.0,
    decreases e,
{
    assert(st.0.take(st.0.len() as int) =~= st.0);
    match e {
        Expr::Ident(i) => lemma_uses_ident(m, st, i),
        Expr::Lit(_) => {},
        Expr::Member(me) => lemma_uses_member(m, st, me),
        Expr::Call(c) => {
            lemma_uses_callee(m, st, c.callee);
            lemma_uses_args(m, ref_callee(m, st, c.callee), c.args@);
            lemma_appends_uses_trans(st.0, ref_callee(m, st, c.callee).0, ref_expr(m, st, e).0);
        },
        Expr::New(n) => {
            lemma_uses_expr(m, st, *n.callee);
            match n.args {
                Some(a) => {
                    lemma_uses_args(m, ref_expr(m, st, *n.callee), a@);
                    lemma_appends_uses_trans(st.0, ref_expr(m, st, *n.callee).0, ref_expr(m, st, e).0);
                },
                None => {},
            }
        },
        Expr::Assign(a) => lemma_uses_assign(m, st, a),
        Expr::Object { props, .. } => lemma_uses_props(m, st, props@),
        Expr::MetaProp { .. } => {},
        Expr::VarDecl { decls, .. } => lemma_uses_declarators(m, st, decls@),
        Expr::Other { children, .. } => lemma_uses_exprs(m, st, children@),
    }
}

proof fn lemma_uses_exprs(m: ImportMapV, st: RefState, es: Seq<Expr>)
    ensures
        appends_uses(st.0, ref_exprs(m, st, es).0),
        m == Map::<BindingKey, RefInfoV>::empty() ==> ref_exprs(m, st, es).0 == st.0,
    decreases es,
{
    assert(st.0.take(st.0.len() as int) =~= st.0);
    if es.len() > 0 {
        lemma_uses_exprs(m, st, es.drop_last());
        lemma_uses_expr(m, ref_exprs(m, st, es.drop_last()), es[es.len() - 1]);
        lemma_appends_uses_trans(st.0, ref_exprs(m, st, es.drop_last()).0, ref_exprs(m, st, es).0);
    }
}

proof fn lemma_uses_args(m: ImportMapV, st: RefState, a: Seq<ExprOrSpread>)
    ensures
        appends_uses(st.0, ref_args(m, st, a).0),
        m == Map::<BindingKey, RefInfoV>::empty() ==> ref_args(m, st, a).0 == st.0,
    decreases a,
{
    assert(st.0.take(st.0.len() as int) =~= st.0);
    if a.len() > 0 {
        lemma_uses_args(m, st, a.drop_last());
        lemma_uses_expr(m, ref_args(m, st, a.drop_last()), *a[a.len() - 1].expr);
        lemma_appends_uses_trans(st.0, ref_args(m, st, a.drop_last()).0, ref_args(m, st, a).0);
    }
}

proof fn lemma_uses_callee(m: ImportMapV, st: RefState, c: Callee)
    ensures
        appends_uses(st.0, ref_callee(m, st, c).0),
        m == Map::<BindingKey, RefInfoV>::empty() ==> ref_callee(m, st, c).0 == st.0,
    decreases c,
{
    assert(st.0.take(st.0.len() as int) =~= st.0);
    match c {
        Callee::Expr(e) => lemma_uses_expr(m, (st.0, true, st.2), *e),
        _ => {},
    }
}

proof fn lemma_uses_member(m: ImportMapV, st: RefState, me: MemberExpr)
    ensures
        appends_uses(st.0, ref_member(m, st, me).0),
        m == Map::<BindingKey, RefInfoV>::empty() ==> ref_member(m, st, me).0 == st.0,
    decreases me,
{
    assert(st.0.take(st.0.len() as int) =~= st.0);
    match *me.obj {
        Expr::Ident(o) => if m.contains_key((o.sym@, o.ctxt)) && member_prop_name(me.prop) is Some {
            assert(ref_member(m, st, me).0.take(st.0.len() as int) =~= st.0);
        } else {
            lemma_uses_ident(m, st, o);
            lemma_uses_member_prop(m, ref_ident(m, st, o), me.prop);
            lemma_appends_uses_trans(st.0, ref_ident(m, st, o).0, ref_member(m, st, me).0);
        },
        _ => {
            lemma_uses_expr(m, st, *me.obj);
            lemma_uses_member_prop(m, ref_expr(m, st, *me.obj), me.prop);
            lemma_appends_uses_trans(st.0, ref_expr(m, st, *me.obj).0, ref_member(m, st, me).0);
        },
    }
}

proof fn lemma_uses_member_prop(m: ImportMapV, st: RefState, p: MemberProp)
    ensures
        appends_uses(st.0, ref_member_prop(m, st, p).0),
        m == Map::<BindingKey, RefInfoV>::empty() ==> ref_member_prop(m, st, p).0 == st.0,
    decreases p,
{
    assert(st.0.take(st.0.len() as int) =~= st.0);
    match p {
        MemberProp::Ident(i) => lemma_uses_ident(m, st, i),
        MemberProp::Computed(e) => lemma_uses_expr(m, st, *e),
    }
}

proof fn lemma_uses_assign(m: ImportMapV, st: RefState, a: AssignExpr)
    ensures
        appends_uses(st.0, ref_assign(m, st, a).0),
        m == Map::<BindingKey, RefInfoV>::empty() ==> ref_assign(m, st, a).0 == st.0,
    decreases a,
{
    assert(st.0.take(st.0.len() as int) =~= st.0);
    let st1 = if destructures_namespace(m, a) {
        match (a.left, *a.right) {
            (PatOrExpr::Pat(Pat::Object { props, .. }), Expr::Ident(o)) => (
                st.0,
                st.1,
                add_destructured(st.2, o.sym@, pattern_keys(props@)),
            ),
            _ => st,
        }
    } else {
        st
    };
    let st2 = match a.left {
        PatOrExpr::Pat(p) => {
            lemma_uses_pat(m, st1, p);
            ref_pat(m, st1, p)
        },
        PatOrExpr::Expr(e) => {
            lemma_uses_expr(m, st1, *e);
            ref_expr(m, st1, *e)
        },
    };
    lemma_uses_expr(m, st2, *a.right);
    assert(st1.0 == st.0);
    lemma_appends_uses_trans(st.0, st2.0, ref_assign(m, st, a).0);
}

proof fn lemma_uses_pat(m: ImportMapV, st: RefState, p: Pat)
    ensures
        appends_uses(st.0, ref_pat(m, st, p).0),
        m == Map::<BindingKey, RefInfoV>::empty() ==> ref_pat(m, st, p).0 == st.0,
    decreases p,
{
    assert(st.0.take(st.0.len() as int) =~= st.0);
    match p {
        Pat::Ident(i) => lemma_uses_ident(m, st, i),
        Pat::Object { props, .. } => lemma_uses_pat_props(m, st, props@),
        Pat::Expr(e) => lemma_uses_expr(m, st, *e),
    }
}

proof fn lemma_uses_pat_props(m: ImportMapV, st: RefState, ps: Seq<ObjectPatProp>)
    ensures
        appends_uses(st.0, ref_pat_props(m, st, ps).0),
        m == Map::<BindingKey, RefInfoV>::empty() ==> ref_pat_props(m, st, ps).0 == st.0,
    decreases ps,
{
    assert(st.0.take(st.0.len() as int) =~= st.0);
    if ps.len() > 0 {
        lemma_uses_pat_props(m, st, ps.drop_last());
        lemma_uses_pat_prop(m, ref_pat_props(m, st, ps.drop_last()), ps[ps.len() - 1]);
        lemma_appends_uses_trans(st.0, ref_pat_props(m, st, ps.drop_last()).0, ref_pat_props(m, st, ps).0);
    }
}

proof fn lemma_uses_pat_prop(m: ImportMapV, st: RefState, p: ObjectPatProp)
    ensures
        appends_uses(st.0, ref_pat_prop(m, st, p).0),
        m == Map::<BindingKey, RefInfoV>::empty() ==> ref_pat_prop(m, st, p).0 == st.0,
    decreases p,
{
    assert(st.0.take(st.0.len() as int) =~= st.0);
    match p {
        ObjectPatProp::KeyValue { key, value } => {
            lemma_uses_prop_name(m, st, key);
            lemma_uses_pat(m, ref_prop_name(m, st, key), *value);
            lemma_appends_uses_trans(st.0, ref_prop_name(m, st, key).0, ref_pat_prop(m, st, p).0);
        },
        ObjectPatProp::Assign { key, value } => {
            lemma_uses_ident(m, st, key);
            match value {
                Some(e) => {
                    lemma_uses_expr(m, ref_ident(m, st, key), *e);
                    lemma_appends_uses_trans(st.0, ref_ident(m, st, key).0, ref_pat_prop(m, st, p).0);
                },
                None => {},
            }
        },
        ObjectPatProp::Rest { arg } => lemma_uses_pat(m, st, *arg),
    }
}

proof fn lemma_uses_prop_name(m: ImportMapV, st: RefState, pn: PropName)
    ensures
        appends_uses(st.0, ref_prop_name(m, st, pn).0),
        m == Map::<BindingKey, RefInfoV>::empty() ==> ref_prop_name(m, st, pn).0 == st.0,
    decreases pn,
{
    assert(st.0.take(st.0.len() as int) =~= st.0);
    match pn {
        PropName::Ident(i) => lemma_uses_ident(m, st, i),
        PropName::Str(_) => {},
        PropName::Computed(e) => lemma_uses_expr(m, st, *e),
    }
}

proof fn lemma_uses_props(m: ImportMapV, st: RefState, ps: Seq<Prop>)
    ensures
        appends_uses(st.0, ref_props(m, st, ps).0),
        m == Map::<BindingKey, RefInfoV>::empty() ==> ref_props(m, st, ps).0 == st.0,
    decreases ps,
{
    assert(st.0.take(st.0.len() as int) =~= st.0);
    if ps.len() > 0 {
        lemma_uses_props(m, st, ps.drop_last());
        lemma_uses_prop(m, ref_props(m, st, ps.drop_last()), ps[ps.len() - 1]);
        lemma_appends_uses_trans(st.0, ref_props(m, st, ps.drop_last()).0, ref_props(m, st, ps).0);
    }
}

proof fn lemma_uses_prop(m: ImportMapV, st: RefState, p: Prop)
    ensures
        appends_uses(st.0, ref_prop(m, st, p).0),
        m == Map::<BindingKey, RefInfoV>::empty() ==> ref_prop(m, st, p).0 == st.0,
    decreases p,
{
    assert(st.0.take(st.0.len() as int) =~= st.0);
    match p {
        Prop::Shorthand(i) => {
            if m.contains_key((i.sym@, i.ctxt)) {
                assert(ref_prop(m, st, p).0.take(st.0.len() as int) =~= st.0);
            }
        },
        Prop::KeyValue { key, value } => {
            lemma_uses_prop_name(m, st, key);
            lemma_uses_expr(m, ref_prop_name(m, st, key), *value);
            lemma_appends_uses_trans(st.0, ref_prop_name(m, st, key).0, ref_prop(m, st, p).0);
        },
        Prop::Other { children, .. } => lemma_uses_exprs(m, st, children@),
    }
}

proof fn lemma_uses_declarators(m: ImportMapV, st: RefState, ds: Seq<VarDeclarator>)
    ensures
        appends_uses(st.0, ref_declarators(m, st, ds).0),
        m == Map::<BindingKey, RefInfoV>::empty() ==> ref_declarators(m, st, ds).0 == st.0,
    decreases ds,
{
    assert(st.0.take(st.0.len() as int) =~= st.0);
    if ds.len() > 0 {
        lemma_uses_declarators(m, st, ds.drop_last());
        lemma_uses_declarator(m, ref_declarators(m, st, ds.drop_last()), ds[ds.len() - 1]);
        lemma_appends_uses_trans(st.0, ref_declarators(m, st, ds.drop_last()).0, ref_declarators(m, st, ds).0);
    }
}

proof fn lemma_uses_declarator(m: ImportMapV, st: RefState, d: VarDeclarator)
    ensures
        appends_uses(st.0, ref_declarator(m, st, d).0),
        m == Map::<BindingKey, RefInfoV>::empty() ==> ref_declarator(m, st, d).0 == st.0,
    decreases d,
{
    assert(st.0.take(st.0.len() as int) =~= st.0);
    let st1 = if declares_from_namespace(m, d) {
        match (d.name, d.init) {
            (Pat::Object { props, .. }, Some(e)) => match *e {
                Expr::Ident(o) => (st.0, st.1, add_destructured(st.2, o.sym@, pattern_keys(props@))),
                _ => st,
            },
            _ => st,
        }
    } else {
        st
    };
    assert(st1.0 == st.0);
    lemma_uses_pat(m, st1, d.name);
    let st2 = ref_pat(m, st1, d.name);
    match d.init {
        Some(e) => {
            lemma_uses_expr(m, st2, *e);
            lemma_appends_uses_trans(st.0, st2.0, ref_declarator(m, st, d).0);
        },
        None => {},
    }
}

proof fn lemma_uses_items(m: ImportMapV, st: RefState, items: Seq<ModuleItem>)
    ensures
        appends_uses(st.0, ref_items(m, st, items).0),
        m == Map::<BindingKey, RefInfoV>::empty() ==> ref_items(m, st, items).0 == st.0,
    decreases items.len(),
{
    assert(st.0.take(st.0.len() as int) =~= st.0);
    if items.len() > 0 {
        lemma_uses_items(m, st, items.drop_last());
        let s1 = ref_items(m, st, items.drop_last());
        match items.last() {
            ModuleItem::Stmt(e) => {
                lemma_uses_expr(m, s1, e);
                lemma_appends_uses_trans(st.0, s1.0, ref_items(m, st, items).0);
            },
            _ => {},
        }
    }
}

/// The use-site records of a program, found after its imports and re-exports.
pub open spec fn use_records(p: Program) -> Seq<DepV> {
    ref_items(scan_items(fresh_state(), p.body@).0, (Seq::empty(), false, Map::empty()), p.body@).0
}

proof fn lemma_use_records_are_uses(p: Program)
    ensures
        forall|k: int| 0 <= k < use_records(p).len() ==> (#[trigger] use_records(p)[k]) is ImportSpecifier,
{
    lemma_uses_items(scan_items(fresh_state(), p.body@).0, (Seq::empty(), false, Map::empty()), p.body@);
}

} // verus!
