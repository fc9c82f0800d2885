use vstd::prelude::*;

use crate::ast::{
    ModuleItem, Program, VarDeclarator, AssignExpr, AssignOp, Callee, Expr, ExprOrSpread, Ident, Lit, MemberExpr, MemberProp, ObjectPatProp, Pat,
    PatOrExpr, Prop, PropName,
};
use crate::destructuring::DestructuringMap;
use crate::id::{DependencyId, DependencyIdCounter};
use crate::import_map::{BindingKey, ImportMap, RefInfoV};
use crate::records::{
    DepV, HarmonyDependency, HarmonyImportSpecifierDependency, SpecifierV, deps_view, names_set, opt_view,
    strings_view,
};
use crate::text::copy_string;

verus! {

pub type ImportMapV = Map<BindingKey, RefInfoV>;

/// The state of the reference pass: records so far, whether a callee is being visited,
/// and the destructured property names waiting for their namespace's next use.
pub type RefState = (Seq<DepV>, bool, Map<Seq<char>, Set<Seq<char>>>);

/// The export path a binding stands for: its name in the imported module, if any.
pub open spec fn names_ids(n: Option<Seq<char>>) -> Seq<Seq<char>> {
    match n {
        Some(f) => seq![f],
        None => Seq::empty(),
    }
}

/// A use of an imported identifier; it takes the destructured names waiting for it.
pub open spec fn ref_ident(m: ImportMapV, st: RefState, i: Ident) -> RefState {
    let k = (i.sym@, i.ctxt);
    if m.contains_key(k) {
        let r = m[k];
        let destructured = if st.2.contains_key(i.sym@) {
            Some(st.2[i.sym@])
        } else {
            None
        };
        (
            st.0.push(
                DepV::ImportSpecifier {
                    request: r.0,
                    shorthand: false,
                    start: i.span.lo,
                    end: i.span.hi,
                    ids: names_ids(r.2),
                    is_call: st.1,
                    call_like: true,
                    specifier: r.1,
                    destructured,
                },
            ),
            st.1,
            st.2.remove(i.sym@),
        )
    } else {
        st
    }
}

/// The property a member expression names statically (`x.p` or `x["p"]`).
pub open spec fn member_prop_name(p: MemberProp) -> Option<Seq<char>> {
    match p {
        MemberProp::Ident(i) => Some(i.sym@),
        MemberProp::Computed(e) => match *e {
            Expr::Lit(Lit::Str(s)) => Some(s.value@),
            _ => None,
        },
    }
}

/// The property names bound by an object pattern.
pub open spec fn pattern_keys(ps: Seq<ObjectPatProp>) -> Set<Seq<char>>
    decreases ps.len(),
{
    if ps.len() == 0 {
        Set::empty()
    } else {
        let rest = pattern_keys(ps.drop_last());
        match ps.last() {
            ObjectPatProp::Assign { key, .. } => rest.insert(key.sym@),
            ObjectPatProp::KeyValue { key: PropName::Ident(i), .. } => rest.insert(i.sym@),
            ObjectPatProp::KeyValue { key: PropName::Str(s), .. } => rest.insert(s.value@),
            _ => rest,
        }
    }
}

/// Whether an assignment destructures a namespace import: `({ .. } = ns)`.
pub open spec fn destructures_namespace(m: ImportMapV, a: AssignExpr) -> bool {
    &&& a.left matches PatOrExpr::Pat(Pat::Object { .. })
    &&& a.op == AssignOp::Assign
    &&& *a.right matches Expr::Ident(o)
    &&& m.contains_key((o.sym@, o.ctxt))
    &&& m[(o.sym@, o.ctxt)].1 matches SpecifierV::Namespace(_)
}

pub open spec fn add_destructured(
    d: Map<Seq<char>, Set<Seq<char>>>,
    k: Seq<char>,
    s: Set<Seq<char>>,
) -> Map<Seq<char>, Set<Seq<char>>> {
    d.insert(
        k,
        if d.contains_key(k) {
            d[k].union(s)
        } else {
            s
        },
    )
}

pub open spec fn ref_expr(m: ImportMapV, st: RefState, e: Expr) -> RefState
    decreases e,
{
    match e {
        Expr::Ident(i) => ref_ident(m, st, i),
        Expr::Lit(_) => st,
        Expr::Member(me) => ref_member(m, st, me),
        Expr::Call(c) => ref_args(m, ref_callee(m, st, c.callee), c.args@),
        Expr::New(n) => match n.args {
            Some(a) => ref_args(m, ref_expr(m, st, *n.callee), a@),
            None => ref_expr(m, st, *n.callee),
        },
        Expr::Assign(a) => ref_assign(m, st, a),
        Expr::Object { props, .. } => ref_props(m, st, props@),
        Expr::MetaProp { .. } => st,
        Expr::VarDecl { decls, .. } => ref_declarators(m, st, decls@),
        Expr::Other { children, .. } => ref_exprs(m, st, children@),
    }
}

/// Whether a declaration destructures a namespace import: `const { .. } = ns`.
pub open spec fn declares_from_namespace(m: ImportMapV, d: VarDeclarator) -> bool {
    &&& d.name matches Pat::Object { .. }
    &&& d.init matches Some(e) && *e matches Expr::Ident(o) && m.contains_key((o.sym@, o.ctxt))
        && m[(o.sym@, o.ctxt)].1 matches SpecifierV::Namespace(_)
}

pub open spec fn ref_declarators(m: ImportMapV, st: RefState, ds: Seq<VarDeclarator>) -> RefState
    decreases ds,
{
    if ds.len() == 0 {
        st
    } else {
        ref_declarator(m, ref_declarators(m, st, ds.drop_last()), ds[ds.len() - 1])
    }
}

/// A binding collects the properties it destructures from a namespace import, like an
/// assignment does, then its pattern and its initializer are visited.
pub open spec fn ref_declarator(m: ImportMapV, st: RefState, d: VarDeclarator) -> RefState
    decreases d,
{
    let st1 = if declares_from_namespace(m, d) {
        match (d.name, d.init) {
            (Pat::Object { props, .. }, Some(e)) => match *e {
                Expr::Ident(o) => (st.0, st.1, add_destructured(st.2, o.sym@, pattern_keys(props@))),
                _ => st,
            },
            _ => st,
        }
    } else {
        st
    };
    let st2 = ref_pat(m, st1, d.name);
    match d.init {
        Some(e) => ref_expr(m, st2, *e),
        None => st2,
    }
}

pub open spec fn ref_exprs(m: ImportMapV, st: RefState, es: Seq<Expr>) -> RefState
    decreases es,
{
    if es.len() == 0 {
        st
    } else {
        ref_expr(m, ref_exprs(m, st, es.drop_last()), es[es.len() - 1])
    }
}

pub open spec fn ref_args(m: ImportMapV, st: RefState, a: Seq<ExprOrSpread>) -> RefState
    decreases a,
{
    if a.len() == 0 {
        st
    } else {
        ref_expr(m, ref_args(m, st, a.drop_last()), *a[a.len() - 1].expr)
    }
}

pub open spec fn ref_callee(m: ImportMapV, st: RefState, c: Callee) -> RefState
    decreases c,
{
    let s1 = (st.0, true, st.2);
    let s2 = match c {
        Callee::Expr(e) => ref_expr(m, s1, *e),
        _ => s1,
    };
    (s2.0, false, s2.2)
}

pub open spec fn ref_member(m: ImportMapV, st: RefState, me: MemberExpr) -> RefState
    decreases me,
{
    match *me.obj {
        Expr::Ident(o) => if m.contains_key((o.sym@, o.ctxt)) && member_prop_name(me.prop) is Some {
            let r = m[(o.sym@, o.ctxt)];
            (
                st.0.push(
                    DepV::ImportSpecifier {
                        request: r.0,
                        shorthand: false,
                        start: me.span.lo,
                        end: me.span.hi,
                        ids: names_ids(r.2).push(member_prop_name(me.prop)->0),
                        is_call: st.1,
                        call_like: !st.1,
                        specifier: r.1,
                        destructured: None,
                    },
                ),
                st.1,
                st.2,
            )
        } else {
            ref_member_prop(m, ref_ident(m, st, o), me.prop)
        },
        _ => ref_member_prop(m, ref_expr(m, st, *me.obj), me.prop),
    }
}

pub open spec fn ref_member_prop(m: ImportMapV, st: RefState, p: MemberProp) -> RefState
    decreases p,
{
    match p {
        MemberProp::Ident(i) => ref_ident(m, st, i),
        MemberProp::Computed(e) => ref_expr(m, st, *e),
    }
}

pub open spec fn ref_assign(m: ImportMapV, st: RefState, a: AssignExpr) -> RefState
    decreases a,
{
    let st1 = if destructures_namespace(m, a) {
        match (a.left, *a.right) {
            (PatOrExpr::Pat(Pat::Object { props, .. }), Expr::Ident(o)) => (
                st.0,
                st.1,
                add_destructured(st.2, o.sym@, pattern_keys(props@)),
            ),
            _ => st,
        }
    } else {
        st
    };
    let st2 = match a.left {
        PatOrExpr::Pat(p) => ref_pat(m, st1, p),
        PatOrExpr::Expr(e) => ref_expr(m, st1, *e),
    };
    ref_expr(m, st2, *a.right)
}

pub open spec fn ref_pat(m: ImportMapV, st: RefState, p: Pat) -> RefState
    decreases p,
{
    match p {
        Pat::Ident(i) => ref_ident(m, st, i),
        Pat::Object { props, .. } => ref_pat_props(m, st, props@),
        Pat::Expr(e) => ref_expr(m, st, *e),
    }
}

pub open spec fn ref_pat_props(m: ImportMapV, st: RefState, ps: Seq<ObjectPatProp>) -> RefState
    decreases ps,
{
    if ps.len() == 0 {
        st
    } else {
        ref_pat_prop(m, ref_pat_props(m, st, ps.drop_last()), ps[ps.len() - 1])
    }
}

pub open spec fn ref_pat_prop(m: ImportMapV, st: RefState, p: ObjectPatProp) -> RefState
    decreases p,
{
    match p {
        ObjectPatProp::KeyValue { key, value } => ref_pat(m, ref_prop_name(m, st, key), *value),
        ObjectPatProp::Assign { key, value } => match value {
            Some(e) => ref_expr(m, ref_ident(m, st, key), *e),
            None => ref_ident(m, st, key),
        },
        ObjectPatProp::Rest { arg } => ref_pat(m, st, *arg),
    }
}

pub open spec fn ref_prop_name(m: ImportMapV, st: RefState, pn: PropName) -> RefState
    decreases pn,
{
    match pn {
        PropName::Ident(i) => ref_ident(m, st, i),
        PropName::Str(_) => st,
        PropName::Computed(e) => ref_expr(m, st, *e),
    }
}

pub open spec fn ref_props(m: ImportMapV, st: RefState, ps: Seq<Prop>) -> RefState
    decreases ps,
{
    if ps.len() == 0 {
        st
    } else {
        ref_prop(m, ref_props(m, st, ps.drop_last()), ps[ps.len() - 1])
    }
}

/// A shorthand property `{ x }` of an imported `x` is one use, marked shorthand.
pub open spec fn ref_prop(m: ImportMapV, st: RefState, p: Prop) -> RefState
    decreases p,
{
    match p {
        Prop::Shorthand(i) => if m.contains_key((i.sym@, i.ctxt)) {
            let r = m[(i.sym@, i.ctxt)];
            (
                st.0.push(
                    DepV::ImportSpecifier {
                        request: r.0,
                        shorthand: true,
                        start: i.span.lo,
                        end: i.span.hi,
                        ids: names_ids(r.2),
                        is_call: false,
                        call_like: false,
                        specifier: r.1,
                        destructured: None,
                    },
                ),
                st.1,
                st.2,
            )
        } else {
            st
        },
        Prop::KeyValue { key, value } => ref_expr(m, ref_prop_name(m, st, key), *value),
        Prop::Other { children, .. } => ref_exprs(m, st, children@),
    }
}

/// The reference pass over the top-level items; declarations are not entered.
pub open spec fn ref_items(m: ImportMapV, st: RefState, items: Seq<ModuleItem>) -> RefState
    decreases items.len(),
{
    if items.len() == 0 {
        st
    } else {
        let s1 = ref_items(m, st, items.drop_last());
        match items.last() {
            ModuleItem::Stmt(e) => ref_expr(m, s1, e),
            _ => s1,
        }
    }
}

/// The property names an object pattern binds: `{ a, b: x, "c": y }` gives `a`, `b`, `c`.
pub fn collect_destructuring_assignment_properties(props: &Vec<ObjectPatProp>) -> (r: Vec<String>)
    ensures
        names_set(r@) == pattern_keys(props@),
{
    let mut keys: Vec<String> = Vec::new();
    let n = props.len();
    let mut i: usize = 0;
    while i < n
        invariant
            n == props@.len(),
            0 <= i <= n,
            names_set(keys@) == pattern_keys(props@.take(i as int)),
        decreases n - i,
    {
        let ghost before = keys@;
        let key = match &props[i] {
            ObjectPatProp::Assign { key, .. } => Some(copy_string(&key.sym)),
            ObjectPatProp::KeyValue { key: PropName::Ident(k), .. } => Some(copy_string(&k.sym)),
            ObjectPatProp::KeyValue { key: PropName::Str(k), .. } => Some(copy_string(&k.value)),
            _ => None,
        };
        match key {
            Some(k) => {
                let ghost kv = k@;
                keys.push(k);
                proof {
                    assert(keys@.map_values(|s: String| s@) =~= before.map_values(|s: String| s@).push(kv));
                    crate::harmony::lemma_to_set_push(before.map_values(|s: String| s@), kv);
                }
            },
            None => {},
        }
        proof {
            assert(props@.take(i as int + 1).drop_last() =~= props@.take(i as int));
        }
        i = i + 1;
    }
    proof {
        assert(props@.take(n as int) =~= props@);
    }
    keys
}

/// The name path of a binding as a list.
fn names_vec(names: &Option<String>) -> (r: Vec<String>)
    ensures
        strings_view(r@) == names_ids(opt_view(*names)),
{
    let mut v: Vec<String> = Vec::new();
    match names {
        Some(f) => {
            v.push(copy_string(f));
            proof {
                assert(strings_view(v@) =~= seq![f@]);
            }
        },
        None => {
            proof {
                assert(strings_view(v@) =~= Seq::<Seq<char>>::empty());
            }
        },
    }
    v
}

/// The second pass: one record per use of an imported binding.
pub struct HarmonyImportRefDependencyScanner {
    pub enter_callee: bool,
    pub dependencies: Vec<HarmonyDependency>,
    pub properties_in_destructuring: DestructuringMap,
    pub id_counter: DependencyIdCounter,
}

impl HarmonyImportRefDependencyScanner {
    pub fn new(dependencies: Vec<HarmonyDependency>, id_counter: DependencyIdCounter) -> (r: HarmonyImportRefDependencyScanner)
        ensures
            r.dependencies@ == dependencies@,
            !r.enter_callee,
            r.properties_in_destructuring@ == Map::<Seq<char>, Set<Seq<char>>>::empty(),
            r.id_counter == id_counter,
    {
        HarmonyImportRefDependencyScanner {
            enter_callee: false,
            dependencies,
            properties_in_destructuring: DestructuringMap::new(),
            id_counter,
        }
    }

    pub open spec fn state(&self) -> RefState {
        (deps_view(self.dependencies@), self.enter_callee, self.properties_in_destructuring@)
    }

    fn push_use(&mut self, dep: HarmonyImportSpecifierDependency)
        ensures
            final(self).state() == (
                old(self).state().0.push(HarmonyDependency::ImportSpecifier(dep)@),
                old(self).state().1,
                old(self).state().2,
            ),
    {
        self.dependencies.push(HarmonyDependency::ImportSpecifier(dep));
        proof {
            assert(deps_view(self.dependencies@) =~= deps_view(old(self).dependencies@).push(
                HarmonyDependency::ImportSpecifier(dep)@,
            ));
        }
    }

    pub fn visit_ident(&mut self, map: &ImportMap, ident: &Ident)
        ensures
            final(self).state() == ref_ident(map@, old(self).state(), *ident),
    {
        match map.get(&ident.sym, ident.ctxt) {
            Some(r) => {
                let destructured = self.properties_in_destructuring.take(&ident.sym);
                let id = DependencyId::new(&mut self.id_counter);
                let dep = HarmonyImportSpecifierDependency {
                    id,
                    request: copy_string(&r.request),
                    shorthand: false,
                    start: ident.span.lo,
                    end: ident.span.hi,
                    ids: names_vec(&r.names),
                    is_call: self.enter_callee,
                    call_like: true,
                    specifier: r.specifier.copied(),
                    referenced_properties_in_destructuring: destructured,
                };
                self.push_use(dep);
            },
            None => {},
        }
    }

    pub fn visit_expr(&mut self, map: &ImportMap, e: &Expr)
        ensures
            final(self).state() == ref_expr(map@, old(self).state(), *e),
        decreases e,
    {
        match e {
            Expr::Ident(i) => self.visit_ident(map, i),
            Expr::Lit(_) => {},
            Expr::Member(me) => self.visit_member_expr(map, me),
            Expr::Call(c) => {
                self.visit_callee(map, &c.callee);
                self.visit_args(map, &c.args);
            },
            Expr::New(n) => {
                self.visit_expr(map, &n.callee);
                match &n.args {
                    Some(a) => self.visit_args(map, a),
                    None => {},
                }
            },
            Expr::Assign(a) => self.visit_assign_expr(map, a),
            Expr::Object { props, .. } => self.visit_props(map, props),
            Expr::MetaProp { .. } => {},
            Expr::VarDecl { decls, .. } => self.visit_declarators(map, decls),
            Expr::Other { children, .. } => self.visit_exprs(map, children),
        }
    }

    pub fn visit_exprs(&mut self, map: &ImportMap, es: &Vec<Expr>)
        ensures
            final(self).state() == ref_exprs(map@, old(self).state(), es@),
        decreases es,
    {
        let n = es.len();
        let mut i: usize = 0;
        while i < n
            invariant
                n == es@.len(),
                0 <= i <= n,
                self.state() == ref_exprs(map@, old(self).state(), es@.take(i as int)),
            decreases n - i,
        {
            proof {
                let t = es@.take(i as int + 1);
                assert(t.drop_last() =~= es@.take(i as int));
                assert(t[t.len() - 1] == es@[i as int]);
            }
            self.visit_expr(map, &es[i]);
            i = i + 1;
        }
        proof {
            assert(es@.take(n as int) =~= es@);
        }
    }

    pub fn visit_args(&mut self, map: &ImportMap, args: &Vec<ExprOrSpread>)
        ensures
            final(self).state() == ref_args(map@, old(self).state(), args@),
        decreases args,
    {
        let n = args.len();
        let mut i: usize = 0;
        while i < n
            invariant
                n == args@.len(),
                0 <= i <= n,
                self.state() == ref_args(map@, old(self).state(), args@.take(i as int)),
            decreases n - i,
        {
            proof {
                let t = args@.take(i as int + 1);
                assert(t.drop_last() =~= args@.take(i as int));
                assert(t[t.len() - 1] == args@[i as int]);
            }
            self.visit_expr(map, &args[i].expr);
            i = i + 1;
        }
        proof {
            assert(args@.take(n as int) =~= args@);
        }
    }

    /// Visits a callee with the callee flag set, and clears it afterwards.
    pub fn visit_callee(&mut self, map: &ImportMap, callee: &Callee)
        ensures
            final(self).state() == ref_callee(map@, old(self).state(), *callee),
        decreases callee,
    {
        self.enter_callee = true;
        match callee {
            Callee::Expr(e) => self.visit_expr(map, e),
            _ => {},
        }
        self.enter_callee = false;
    }

    /// `ns.p` or `ns["p"]` of an imported `ns` is one use over the whole expression,
    /// with `p` appended to the path; otherwise the parts are visited.
    pub fn visit_member_expr(&mut self, map: &ImportMap, me: &MemberExpr)
        ensures
            final(self).state() == ref_member(map@, old(self).state(), *me),
        decreases me,
    {
        match &*me.obj {
            Expr::Ident(o) => {
                match map.get(&o.sym, o.ctxt) {
                    Some(r) => {
                        let prop: Option<String> = match &me.prop {
                            MemberProp::Ident(p) => Some(copy_string(&p.sym)),
                            MemberProp::Computed(c) => match &**c {
                                Expr::Lit(Lit::Str(s)) => Some(copy_string(&s.value)),
                                _ => None,
                            },
                        };
                        match prop {
                            Some(p) => {
                                let mut ids = names_vec(&r.names);
                                let ghost before = ids@;
                                let ghost pv = p@;
                                ids.push(p);
                                proof {
                                    assert(strings_view(ids@) =~= strings_view(before).push(pv));
                                }
                                let id = DependencyId::new(&mut self.id_counter);
                                let dep = HarmonyImportSpecifierDependency {
                                    id,
                                    request: copy_string(&r.request),
                                    shorthand: false,
                                    start: me.span.lo,
                                    end: me.span.hi,
                                    ids,
                                    is_call: self.enter_callee,
                                    call_like: !self.enter_callee,
                                    specifier: r.specifier.copied(),
                                    referenced_properties_in_destructuring: None,
                                };
                                self.push_use(dep);
                                return;
                            },
                            None => {},
                        }
                    },
                    None => {},
                }
                self.visit_ident(map, o);
                self.visit_member_prop(map, &me.prop);
            },
            _ => {
                self.visit_expr(map, &me.obj);
                self.visit_member_prop(map, &me.prop);
            },
        }
    }

    pub fn visit_member_prop(&mut self, map: &ImportMap, p: &MemberProp)
        ensures
            final(self).state() == ref_member_prop(map@, old(self).state(), *p),
        decreases p,
    {
        match p {
            MemberProp::Ident(i) => self.visit_ident(map, i),
            MemberProp::Computed(e) => self.visit_expr(map, e),
        }
    }

    /// Collects the properties destructured from a namespace import (`({ a } = ns)`),
    /// then visits both sides.
    pub fn visit_assign_expr(&mut self, map: &ImportMap, a: &AssignExpr)
        ensures
            final(self).state() == ref_assign(map@, old(self).state(), *a),
        decreases a,
    {
        match &a.left {
            PatOrExpr::Pat(Pat::Object { props, .. }) => {
                match a.op {
                    AssignOp::Assign => {
                        match &*a.right {
                            Expr::Ident(o) => {
                                match map.get(&o.sym, o.ctxt) {
                                    Some(r) => {
                                        match &r.specifier {
                                            crate::records::Specifier::Namespace(_) => {
                                                let keys = collect_destructuring_assignment_properties(props);
                                                self.properties_in_destructuring.extend(&o.sym, keys);
                                            },
                                            _ => {},
                                        }
                                    },
                                    None => {},
                                }
                            },
                            _ => {},
                        }
                    },
                    AssignOp::Compound => {},
                }
            },
            _ => {},
        }
        match &a.left {
            PatOrExpr::Pat(p) => self.visit_pat(map, p),
            PatOrExpr::Expr(e) => self.visit_expr(map, e),
        }
        self.visit_expr(map, &a.right);
    }

    pub fn visit_declarators(&mut self, map: &ImportMap, ds: &Vec<VarDeclarator>)
        ensures
            final(self).state() == ref_declarators(map@, old(self).state(), ds@),
        decreases ds,
    {
        let n = ds.len();
        let mut i: usize = 0;
        while i < n
            invariant
                n == ds@.len(),
                0 <= i <= n,
                self.state() == ref_declarators(map@, old(self).state(), ds@.take(i as int)),
            decreases n - i,
        {
            proof {
                let t = ds@.take(i as int + 1);
                assert(t.drop_last() =~= ds@.take(i as int));
                assert(t[t.len() - 1] == ds@[i as int]);
            }
            self.visit_declarator(map, &ds[i]);
            i = i + 1;
        }
        proof {
            assert(ds@.take(n as int) =~= ds@);
        }
    }

    /// `const { a, b } = ns` collects `a` and `b` for the namespace `ns`, then visits the
    /// pattern and the initializer.
    pub fn visit_declarator(&mut self, map: &ImportMap, d: &VarDeclarator)
        ensures
            final(self).state() == ref_declarator(map@, old(self).state(), *d),
        decreases d,
    {
        match (&d.name, &d.init) {
            (Pat::Object { props, .. }, Some(e)) => match &**e {
                Expr::Ident(o) => match map.get(&o.sym, o.ctxt) {
                    Some(r) => match &r.specifier {
                        crate::records::Specifier::Namespace(_) => {
                            let keys = collect_destructuring_assignment_properties(props);
                            self.properties_in_destructuring.extend(&o.sym, keys);
                        },
                        _ => {},
                    },
                    None => {},
                },
                _ => {},
            },
            _ => {},
        }
        self.visit_pat(map, &d.name);
        match &d.init {
            Some(e) => self.visit_expr(map, e),
            None => {},
        }
    }

    pub fn visit_pat(&mut self, map: &ImportMap, p: &Pat)
        ensures
            final(self).state() == ref_pat(map@, old(self).state(), *p),
        decreases p,
    {
        match p {
            Pat::Ident(i) => self.visit_ident(map, i),
            Pat::Object { props, .. } => self.visit_pat_props(map, props),
            Pat::Expr(e) => self.visit_expr(map, e),
        }
    }

    pub fn visit_pat_props(&mut self, map: &ImportMap, ps: &Vec<ObjectPatProp>)
        ensures
            final(self).state() == ref_pat_props(map@, old(self).state(), ps@),
        decreases ps,
    {
        let n = ps.len();
        let mut i: usize = 0;
        while i < n
            invariant
                n == ps@.len(),
                0 <= i <= n,
                self.state() == ref_pat_props(map@, old(self).state(), ps@.take(i as int)),
            decreases n - i,
        {
            proof {
                let t = ps@.take(i as int + 1);
                assert(t.drop_last() =~= ps@.take(i as int));
                assert(t[t.len() - 1] == ps@[i as int]);
            }
            self.visit_pat_prop(map, &ps[i]);
            i = i + 1;
        }
        proof {
            assert(ps@.take(n as int) =~= ps@);
        }
    }

    pub fn visit_pat_prop(&mut self, map: &ImportMap, p: &ObjectPatProp)
        ensures
            final(self).state() == ref_pat_prop(map@, old(self).state(), *p),
        decreases p,
    {
        match p {
            ObjectPatProp::KeyValue { key, value } => {
                self.visit_prop_name(map, key);
                self.visit_pat(map, value);
            },
            ObjectPatProp::Assign { key, value } => {
                self.visit_ident(map, key);
                match value {
                    Some(e) => self.visit_expr(map, e),
                    None => {},
                }
            },
            ObjectPatProp::Rest { arg } => self.visit_pat(map, arg),
        }
    }

    pub fn visit_prop_name(&mut self, map: &ImportMap, pn: &PropName)
        ensures
            final(self).state() == ref_prop_name(map@, old(self).state(), *pn),
        decreases pn,
    {
        match pn {
            PropName::Ident(i) => self.visit_ident(map, i),
            PropName::Str(_) => {},
            PropName::Computed(e) => self.visit_expr(map, e),
        }
    }

    pub fn visit_props(&mut self, map: &ImportMap, ps: &Vec<Prop>)
        ensures
            final(self).state() == ref_props(map@, old(self).state(), ps@),
        decreases ps,
    {
        let n = ps.len();
        let mut i: usize = 0;
        while i < n
            invariant
                n == ps@.len(),
                0 <= i <= n,
                self.state() == ref_props(map@, old(self).state(), ps@.take(i as int)),
            decreases n - i,
        {
            proof {
                let t = ps@.take(i as int + 1);
                assert(t.drop_last() =~= ps@.take(i as int));
                assert(t[t.len() - 1] == ps@[i as int]);
            }
            self.visit_prop(map, &ps[i]);
            i = i + 1;
        }
        proof {
            assert(ps@.take(n as int) =~= ps@);
        }
    }

    /// A shorthand `{ x }` of an imported `x` is one use marked shorthand; other
    /// properties are visited.
    pub fn visit_prop(&mut self, map: &ImportMap, p: &Prop)
        ensures
            final(self).state() == ref_prop(map@, old(self).state(), *p),
        decreases p,
    {
        match p {
            Prop::Shorthand(i) => {
                match map.get(&i.sym, i.ctxt) {
                    Some(r) => {
                        let id = DependencyId::new(&mut self.id_counter);
                        let dep = HarmonyImportSpecifierDependency {
                            id,
                            request: copy_string(&r.request),
                            shorthand: true,
                            start: i.span.lo,
                            end: i.span.hi,
                            ids: names_vec(&r.names),
                            is_call: false,
                            call_like: false,
                            specifier: r.specifier.copied(),
                            referenced_properties_in_destructuring: None,
                        };
                        self.push_use(dep);
                    },
                    None => {},
                }
            },
            Prop::KeyValue { key, value } => {
                self.visit_prop_name(map, key);
                self.visit_expr(map, value);
            },
            Prop::Other { children, .. } => self.visit_exprs(map, children),
        }
    }

    /// Visits the statements of a module; import and export declarations are skipped,
    /// their bindings being known from the first pass.
    pub fn visit_items(&mut self, map: &ImportMap, program: &Program)
        ensures
            final(self).state() == ref_items(map@, old(self).state(), program.body@),
    {
        let n = program.body.len();
        let mut i: usize = 0;
        while i < n
            invariant
                n == program.body@.len(),
                0 <= i <= n,
                self.state() == ref_items(map@, old(self).state(), program.body@.take(i as int)),
            decreases n - i,
        {
            proof {
                let t = program.body@.take(i as int + 1);
                assert(t.drop_last() =~= program.body@.take(i as int));
            }
            match &program.body[i] {
                ModuleItem::Stmt(e) => self.visit_expr(map, e),
                _ => {},
            }
            i = i + 1;
        }
        proof {
            assert(program.body@.take(n as int) =~= program.body@);
        }
    }
}

} // verus!
