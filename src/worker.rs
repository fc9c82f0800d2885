use vstd::prelude::*;

use crate::ast::{Expr, Ident, ImportDecl, ImportSpecifier, ModuleExportName, NewExpr};
use crate::regex_match::{groups_view, regex_captures, regex_captures_of};
use crate::text::{copy_string, owned, str_eq};

verus! {

/// The name and the module of a `Name from module` entry (an optional `()` may follow
/// the name), if it is one.
pub open spec fn worker_from_parts(s: Seq<char>) -> Option<(Seq<char>, Seq<char>)> {
    match regex_captures_of(r"^(.+?)(\(\))?\s+from\s+(.+)$"@, s) {
        Some(Some(g)) => parts_of_groups(g),
        _ => None,
    }
}

/// The name and module a `Name from module` match yields: its first and third groups.
pub open spec fn parts_of_groups(g: Seq<Option<Seq<char>>>) -> Option<(Seq<char>, Seq<char>)> {
    if g.len() > 3 && g[1] is Some && g[3] is Some {
        Some((g[1]->0, g[3]->0))
    } else {
        None
    }
}

/// Picks the name and the module out of the groups of a `Name from module` match.
pub fn worker_from_groups(g: &Vec<Option<String>>) -> (r: Option<(String, String)>)
    ensures
        r is None <==> parts_of_groups(groups_view(g@)) is None,
        r matches Some(p) ==> parts_of_groups(groups_view(g@)) == Some((p.0@, p.1@)),
{
    if g.len() > 3 {
        proof {
            assert(groups_view(g@)[1] == crate::records::opt_view(g@[1]));
            assert(groups_view(g@)[3] == crate::records::opt_view(g@[3]));
        }
        match (&g[1], &g[3]) {
            (Some(name), Some(source)) => Some((copy_string(name), copy_string(source))),
            _ => None,
        }
    } else {
        None
    }
}

fn split_worker_from(s: &str) -> (r: Option<(String, String)>)
    ensures
        r matches Some(p) ==> worker_from_parts(s@) == Some((p.0@, p.1@)),
        r is None ==> worker_from_parts(s@) is None,
{
    match regex_captures(r"^(.+?)(\(\))?\s+from\s+(.+)$", s) {
        Ok(Some(g)) => worker_from_groups(&g),
        _ => None,
    }
}

/// A constructor name that starts a worker: bound by an import (with the binding's
/// hygiene token) or global (without one).
#[derive(Debug, PartialEq, Eq)]
pub struct WorkerSyntax {
    pub word: String,
    pub ctxt: Option<u32>,
}

pub open spec fn syntax_view(s: WorkerSyntax) -> (Seq<char>, Option<u32>) {
    (s.word@, s.ctxt)
}

pub open spec fn syntaxes_view(v: Seq<WorkerSyntax>) -> Seq<(Seq<char>, Option<u32>)> {
    v.map_values(|s: WorkerSyntax| syntax_view(s))
}

/// The syntaxes that carry a hygiene token, in order.
pub open spec fn with_ctxt(s: Seq<(Seq<char>, Option<u32>)>) -> Seq<(Seq<char>, Option<u32>)>
    decreases s.len(),
{
    if s.len() == 0 {
        Seq::empty()
    } else if s.last().1 is Some {
        with_ctxt(s.drop_last()).push(s.last())
    } else {
        with_ctxt(s.drop_last())
    }
}

/// The syntaxes without a hygiene token, in order.
pub open spec fn without_ctxt(s: Seq<(Seq<char>, Option<u32>)>) -> Seq<(Seq<char>, Option<u32>)>
    decreases s.len(),
{
    if s.len() == 0 {
        Seq::empty()
    } else if s.last().1 is None {
        without_ctxt(s.drop_last()).push(s.last())
    } else {
        without_ctxt(s.drop_last())
    }
}

proof fn lemma_all_with_ctxt(s: Seq<(Seq<char>, Option<u32>)>)
    requires
        forall|i: int| 0 <= i < s.len() ==> (#[trigger] s[i]).1 is Some,
    ensures
        with_ctxt(s) == s,
        without_ctxt(s) == Seq::<(Seq<char>, Option<u32>)>::empty(),
    decreases s.len(),
{
    if s.len() > 0 {
        assert forall|i: int| 0 <= i < s.drop_last().len() implies (#[trigger] s.drop_last()[i]).1 is Some by {
            assert(s.drop_last()[i] == s[i]);
        }
        lemma_all_with_ctxt(s.drop_last());
        assert(s.last().1 is Some);
        assert(s.drop_last().push(s.last()) =~= s);
    }
}

/// An import-bound syntax names the identifier's binding: its text and hygiene token.
pub open spec fn bound_hit(v: Seq<(Seq<char>, Option<u32>)>, i: Ident) -> bool {
    exists|k: int| 0 <= k < v.len() && #[trigger] v[k] == (i.sym@, Some(i.ctxt))
}

/// A global syntax names the identifier's text.
pub open spec fn global_hit(g: Seq<(Seq<char>, Option<u32>)>, i: Ident) -> bool {
    exists|k: int| 0 <= k < g.len() && (#[trigger] g[k]).0 == i.sym@
}

/// Whether an identifier is the constructor a syntax names.
pub open spec fn syntax_matches(s: (Seq<char>, Option<u32>), ident: Ident) -> bool {
    match s.1 {
        Some(c) => s.0 == ident.sym@ && c == ident.ctxt,
        None => s.0 == ident.sym@,
    }
}

impl WorkerSyntax {
    pub fn new(word: String, ctxt: Option<u32>) -> (r: WorkerSyntax)
        ensures
            syntax_view(r) == (word@, ctxt),
    {
        WorkerSyntax { word, ctxt }
    }

    pub fn matches(&self, ident: &Ident) -> (r: bool)
        ensures
            r == syntax_matches(syntax_view(*self), *ident),
    {
        match self.ctxt {
            Some(c) => self.word == ident.sym && c == ident.ctxt,
            None => self.word == ident.sym,
        }
    }
}

/// The recognized worker constructors: import-bound ones are looked at before global ones.
#[derive(Debug)]
pub struct WorkerSyntaxList {
    variables: Vec<WorkerSyntax>,
    globals: Vec<WorkerSyntax>,
}

impl WorkerSyntaxList {
    pub closed spec fn variables_view(&self) -> Seq<(Seq<char>, Option<u32>)> {
        syntaxes_view(self.variables@)
    }

    pub closed spec fn globals_view(&self) -> Seq<(Seq<char>, Option<u32>)> {
        syntaxes_view(self.globals@)
    }

    /// Import-bound syntaxes carry a hygiene token; global ones carry none.
    pub open spec fn wf(&self) -> bool {
        &&& forall|i: int| 0 <= i < self.variables_view().len() ==> (#[trigger] self.variables_view()[i]).1 is Some
        &&& forall|i: int| 0 <= i < self.globals_view().len() ==> (#[trigger] self.globals_view()[i]).1 is None
    }

    /// All syntaxes in search order.
    pub open spec fn all(&self) -> Seq<(Seq<char>, Option<u32>)> {
        self.variables_view() + self.globals_view()
    }

    pub fn new() -> (r: WorkerSyntaxList)
        ensures
            r.variables_view().len() == 0,
            r.globals_view().len() == 0,
            r.wf(),
    {
        WorkerSyntaxList { variables: Vec::new(), globals: Vec::new() }
    }

    /// Files a syntax as import-bound or global, by whether it has a hygiene token.
    pub fn push(&mut self, syntax: WorkerSyntax)
        ensures
            syntax.ctxt is Some ==> final(self).variables_view() == old(self).variables_view().push(syntax_view(syntax))
                && final(self).globals_view() == old(self).globals_view(),
            syntax.ctxt is None ==> final(self).globals_view() == old(self).globals_view().push(syntax_view(syntax))
                && final(self).variables_view() == old(self).variables_view(),
            old(self).wf() ==> final(self).wf(),
    {
        let ghost sv = syntax_view(syntax);
        if syntax.ctxt.is_some() {
            self.variables.push(syntax);
            proof {
                assert(syntaxes_view(self.variables@) =~= syntaxes_view(old(self).variables@).push(sv));
            }
        } else {
            self.globals.push(syntax);
            proof {
                assert(syntaxes_view(self.globals@) =~= syntaxes_view(old(self).globals@).push(sv));
            }
        }
    }

    /// Pushes each syntax in order: those with a hygiene token go to the import-bound
    /// list, the others to the global one.
    pub fn extend(&mut self, items: Vec<WorkerSyntax>)
        ensures
            final(self).variables_view() == old(self).variables_view() + with_ctxt(syntaxes_view(items@)),
            final(self).globals_view() == old(self).globals_view() + without_ctxt(syntaxes_view(items@)),
            old(self).wf() ==> final(self).wf(),
    {
        let mut rest = items;
        let ghost all = rest@;
        let n = rest.len();
        let mut k: usize = 0;
        proof {
            assert(syntaxes_view(all.take(0)) =~= Seq::empty());
            assert(old(self).variables_view() + Seq::empty() =~= old(self).variables_view());
            assert(old(self).globals_view() + Seq::empty() =~= old(self).globals_view());
        }
        while rest.len() > 0
            invariant
                n == all.len(),
                rest@ == all.skip(k as int),
                k <= all.len(),
                self.variables_view() == old(self).variables_view() + with_ctxt(syntaxes_view(all.take(k as int))),
                self.globals_view() == old(self).globals_view() + without_ctxt(syntaxes_view(all.take(k as int))),
                old(self).wf() ==> self.wf(),
            decreases rest@.len(),
        {
            let s = rest.remove(0);
            assert(s == all[k as int]);
            let ghost v0 = self.variables_view();
            let ghost g0 = self.globals_view();
            self.push(s);
            proof {
                let t = syntaxes_view(all.take(k as int + 1));
                assert(t =~= syntaxes_view(all.take(k as int)).push(syntax_view(s)));
                assert(t.drop_last() =~= syntaxes_view(all.take(k as int)));
                assert(rest@ =~= all.skip(k as int + 1));
                if s.ctxt is Some {
                    assert(self.variables_view() =~= old(self).variables_view() + with_ctxt(t));
                    assert(self.globals_view() =~= old(self).globals_view() + without_ctxt(t));
                } else {
                    assert(self.variables_view() =~= old(self).variables_view() + with_ctxt(t));
                    assert(self.globals_view() =~= old(self).globals_view() + without_ctxt(t));
                }
            }
            k = k + 1;
        }
        proof {
            assert(all.take(k as int) =~= all);
        }
    }

    fn find_in(list: &Vec<WorkerSyntax>, ident: &Ident) -> (r: Option<usize>)
        ensures
            r is None <==> !(exists|i: int| 0 <= i < list@.len() && syntax_matches(syntax_view(#[trigger] list@[i]), *ident)),
            r matches Some(i) ==> i < list@.len() && syntax_matches(syntax_view(list@[i as int]), *ident),
    {
        let n = list.len();
        let mut i: usize = 0;
        while i < n
            invariant
                n == list@.len(),
                0 <= i <= n,
                forall|j: int| 0 <= j < i ==> !syntax_matches(syntax_view(#[trigger] list@[j]), *ident),
            decreases n - i,
        {
            if list[i].matches(ident) {
                return Some(i);
            }
            i = i + 1;
        }
        None
    }

    /// The first syntax, import-bound ones first, that the identifier matches.
    pub fn find_worker_syntax(&self, ident: &Ident) -> (r: Option<&WorkerSyntax>)
        ensures
            r is None <==> !(exists|i: int| 0 <= i < self.all().len() && syntax_matches(#[trigger] self.all()[i], *ident)),
            r matches Some(s) ==> syntax_matches(syntax_view(*s), *ident),
    {
        proof {
            assert forall|i: int| 0 <= i < self.variables@.len() implies #[trigger] self.all()[i] == syntax_view(self.variables@[i]) by {}
            assert forall|i: int| 0 <= i < self.globals@.len() implies #[trigger] self.all()[i + self.variables@.len()] == syntax_view(self.globals@[i]) by {}
        }
        match Self::find_in(&self.variables, ident) {
            Some(i) => {
                assert(syntax_matches(self.all()[i as int], *ident));
                Some(&self.variables[i])
            },
            None => match Self::find_in(&self.globals, ident) {
                Some(i) => {
                    assert(syntax_matches(self.all()[i + self.variables@.len()], *ident));
                    Some(&self.globals[i])
                },
                None => {
                    proof {
                        assert forall|i: int| 0 <= i < self.all().len() implies !syntax_matches(#[trigger] self.all()[i], *ident) by {
                            if i < self.variables@.len() {
                                assert(self.all()[i] == syntax_view(self.variables@[i]));
                            } else {
                                assert(self.all()[i] == syntax_view(self.globals@[i - self.variables@.len()]));
                            }
                        }
                    }
                    None
                },
            },
        }
    }

    /// Whether `new C(..)` constructs a worker: `C` is an identifier that an import-bound
    /// syntax names with the same hygiene token, or that a global syntax names.
    pub fn match_new_worker(&self, new_expr: &NewExpr) -> (r: bool)
        requires
            self.wf(),
        ensures
            r == (*new_expr.callee matches Expr::Ident(i) && exists|k: int| 0 <= k < self.all().len() && syntax_matches(#[trigger] self.all()[k], i)),
            r == (*new_expr.callee matches Expr::Ident(i) && (bound_hit(self.variables_view(), i) || global_hit(self.globals_view(), i))),
    {
        match &*new_expr.callee {
            Expr::Ident(ident) => {
                let r = self.find_worker_syntax(ident).is_some();
                proof {
                    let v = self.variables_view();
                    let g = self.globals_view();
                    let a = self.all();
                    let i = *ident;
                    if bound_hit(v, i) {
                        let k = choose|k: int| 0 <= k < v.len() && #[trigger] v[k] == (i.sym@, Some(i.ctxt));
                        assert(a[k] == v[k]);
                        assert(syntax_matches(a[k], i));
                    }
                    if global_hit(g, i) {
                        let k = choose|k: int| 0 <= k < g.len() && (#[trigger] g[k]).0 == i.sym@;
                        assert(a[k + v.len()] == g[k]);
                        assert(g[k].1 is None);
                        assert(syntax_matches(a[k + v.len()], i));
                    }
                    if r {
                        let k = choose|k: int| 0 <= k < a.len() && syntax_matches(#[trigger] a[k], i);
                        if k < v.len() {
                            assert(a[k] == v[k]);
                            assert(v[k].1 is Some);
                            assert(v[k] == (i.sym@, Some(i.ctxt)));
                        } else {
                            assert(a[k] == g[k - v.len()]);
                            assert(g[k - v.len()].0 == i.sym@);
                        }
                    }
                }
                r
            },
            _ => false,
        }
    }
}

/// The name an import specifier takes from its module (its local name when not renamed).
pub open spec fn imported_name(s: ImportSpecifier) -> Option<Seq<char>> {
    match s {
        ImportSpecifier::Named { local, imported } => match imported {
            Some(ModuleExportName::Ident(i)) => Some(i.sym@),
            Some(ModuleExportName::Str(t)) => Some(t.value@),
            None => Some(local.sym@),
        },
        _ => None,
    }
}

/// The bindings one `(name, module)` entry finds among an import's specifiers.
pub open spec fn found_for_cap(cap: (Seq<char>, Seq<char>), specs: Seq<ImportSpecifier>) -> Seq<(Seq<char>, Option<u32>)>
    decreases specs.len(),
{
    if specs.len() == 0 {
        Seq::empty()
    } else {
        let rest = found_for_cap(cap, specs.drop_last());
        match specs.last() {
            ImportSpecifier::Default { local } => if cap.0 == "default"@ {
                rest.push((local.sym@, Some(local.ctxt)))
            } else {
                rest
            },
            ImportSpecifier::Named { local, .. } => if cap.0 != "default"@ && imported_name(specs.last()) == Some(cap.0) {
                rest.push((local.sym@, Some(local.ctxt)))
            } else {
                rest
            },
            ImportSpecifier::Namespace { .. } => rest,
        }
    }
}

/// The bindings all entries find in an import of `src`, entry by entry.
pub open spec fn found_in_import(caps: Seq<(Seq<char>, Seq<char>)>, src: Seq<char>, specs: Seq<ImportSpecifier>) -> Seq<(Seq<char>, Option<u32>)>
    decreases caps.len(),
{
    if caps.len() == 0 {
        Seq::empty()
    } else {
        found_in_import(caps.drop_last(), src, specs) + if caps.last().1 == src {
            found_for_cap(caps.last(), specs)
        } else {
            Seq::empty()
        }
    }
}

/// What the scanner keeps of each configured syntax: a `(name, module)` pair, or a global
/// name.
pub open spec fn caps_of(syntax: Seq<Seq<char>>) -> Seq<(Seq<char>, Seq<char>)>
    decreases syntax.len(),
{
    if syntax.len() == 0 {
        Seq::empty()
    } else {
        let rest = caps_of(syntax.drop_last());
        match worker_from_parts(syntax.last()) {
            Some(p) => rest.push(p),
            None => rest,
        }
    }
}

/// The name a bare entry stands for: a trailing `()` carries no meaning.
pub open spec fn global_word(s: Seq<char>) -> Seq<char> {
    if s.len() >= 2 && s[s.len() - 2] == '(' && s[s.len() - 1] == ')' {
        s.subrange(0, s.len() - 2)
    } else {
        s
    }
}

fn bare_name(s: &str) -> (r: String)
    ensures
        r@ == global_word(s@),
{
    let n = s.unicode_len();
    if n >= 2 && s.get_char(n - 2) == '(' && s.get_char(n - 1) == ')' {
        owned(s.substring_char(0, n - 2))
    } else {
        owned(s)
    }
}

pub open spec fn globals_of(syntax: Seq<Seq<char>>) -> Seq<(Seq<char>, Option<u32>)>
    decreases syntax.len(),
{
    if syntax.len() == 0 {
        Seq::empty()
    } else {
        let rest = globals_of(syntax.drop_last());
        match worker_from_parts(syntax.last()) {
            Some(_) => rest,
            None => rest.push((global_word(syntax.last()), None)),
        }
    }
}

pub open spec fn strs_view(s: Seq<&str>) -> Seq<Seq<char>> {
    s.map_values(|x: &str| x@)
}

/// Finds the worker constructors of a module from the configured syntax list.
pub struct WorkerSyntaxScanner {
    result: WorkerSyntaxList,
    caps: Vec<(String, String)>,
}

/// The syntax list used when none is configured.
pub fn default_worker_syntax() -> (r: Vec<&'static str>)
    ensures
        r@.len() == 3,
        r@[0]@ == "Worker"@,
        r@[1]@ == "SharedWorker"@,
        r@[2]@ == "Worker from worker_threads"@,
{
    let mut v: Vec<&'static str> = Vec::new();
    v.push("Worker");
    v.push("SharedWorker");
    v.push("Worker from worker_threads");
    v
}

impl WorkerSyntaxScanner {
    pub closed spec fn caps_view(&self) -> Seq<(Seq<char>, Seq<char>)> {
        self.caps@.map_values(|c: (String, String)| (c.0@, c.1@))
    }

    pub closed spec fn result_list(&self) -> WorkerSyntaxList {
        self.result
    }

    /// Splits the syntax list: `Name from module` entries wait for the imports; every
    /// other entry is a global name.
    pub fn new(syntax: &[&str]) -> (r: WorkerSyntaxScanner)
        ensures
            r.caps_view() == caps_of(strs_view(syntax@)),
            r.result_list().globals_view() == globals_of(strs_view(syntax@)),
            r.result_list().variables_view().len() == 0,
            r.result_list().wf(),
    {
        let mut result = WorkerSyntaxList::new();
        let mut caps: Vec<(String, String)> = Vec::new();
        let n = syntax.len();
        let mut i: usize = 0;
        while i < n
            invariant
                n == syntax@.len(),
                0 <= i <= n,
                caps@.map_values(|c: (String, String)| (c.0@, c.1@)) == caps_of(strs_view(syntax@.take(i as int))),
                result.globals_view() == globals_of(strs_view(syntax@.take(i as int))),
                result.variables_view().len() == 0,
                result.wf(),
            decreases n - i,
        {
            let s: &str = syntax[i];
            let ghost before = caps@;
            proof {
                let t = strs_view(syntax@.take(i as int + 1));
                assert(t.drop_last() =~= strs_view(syntax@.take(i as int)));
                assert(t.last() == s@);
            }
            match split_worker_from(s) {
                Some(p) => {
                    let ghost pv = (p.0@, p.1@);
                    caps.push(p);
                    proof {
                        assert(caps@.map_values(|c: (String, String)| (c.0@, c.1@)) =~= before.map_values(|c: (String, String)| (c.0@, c.1@)).push(pv));
                    }
                },
                None => {
                    result.push(WorkerSyntax::new(bare_name(s), None));
                },
            }
            i = i + 1;
        }
        proof {
            assert(syntax@.take(n as int) =~= syntax@);
        }
        WorkerSyntaxScanner { result, caps }
    }

    fn found_for(cap: &(String, String), decl: &ImportDecl) -> (r: Vec<WorkerSyntax>)
        ensures
            syntaxes_view(r@) == found_for_cap((cap.0@, cap.1@), decl.specifiers@),
            forall|i: int| 0 <= i < r@.len() ==> (#[trigger] r@[i]).ctxt is Some,
    {
        let is_default = str_eq(cap.0.as_str(), "default");
        let mut out: Vec<WorkerSyntax> = Vec::new();
        let n = decl.specifiers.len();
        let mut i: usize = 0;
        while i < n
            invariant
                n == decl.specifiers@.len(),
                0 <= i <= n,
                is_default == (cap.0@ == "default"@),
                syntaxes_view(out@) == found_for_cap((cap.0@, cap.1@), decl.specifiers@.take(i as int)),
                forall|j: int| 0 <= j < out@.len() ==> (#[trigger] out@[j]).ctxt is Some,
            decreases n - i,
        {
            let ghost before = out@;
            proof {
                let t = decl.specifiers@.take(i as int + 1);
                assert(t.drop_last() =~= decl.specifiers@.take(i as int));
                assert(t.last() == decl.specifiers@[i as int]);
            }
            let hit: Option<&Ident> = match &decl.specifiers[i] {
                ImportSpecifier::Default { local } => if is_default {
                    Some(local)
                } else {
                    None
                },
                ImportSpecifier::Named { local, imported } => {
                    let name: &String = match imported {
                        Some(ModuleExportName::Ident(x)) => &x.sym,
                        Some(ModuleExportName::Str(x)) => &x.value,
                        None => &local.sym,
                    };
                    if !is_default && *name == cap.0 {
                        Some(local)
                    } else {
                        None
                    }
                },
                ImportSpecifier::Namespace { .. } => None,
            };
            match hit {
                Some(local) => {
                    let w = WorkerSyntax::new(copy_string(&local.sym), Some(local.ctxt));
                    let ghost wv = syntax_view(w);
                    out.push(w);
                    proof {
                        assert(syntaxes_view(out@) =~= syntaxes_view(before).push(wv));
                    }
                },
                None => {},
            }
            i = i + 1;
        }
        proof {
            assert(decl.specifiers@.take(n as int) =~= decl.specifiers@);
        }
        out
    }

    /// Adds, as import-bound syntaxes, the local bindings an import declaration gives to
    /// the `(name, module)` entries whose module it imports.
    pub fn visit_import_decl(&mut self, decl: &ImportDecl)
        ensures
            final(self).caps_view() == old(self).caps_view(),
            final(self).result_list().globals_view() == old(self).result_list().globals_view(),
            final(self).result_list().variables_view() == old(self).result_list().variables_view() + found_in_import(
                old(self).caps_view(),
                decl.src.value@,
                decl.specifiers@,
            ),
            old(self).result_list().wf() ==> final(self).result_list().wf(),
    {
        let n = self.caps.len();
        let mut i: usize = 0;
        while i < n
            invariant
                n == self.caps@.len(),
                0 <= i <= n,
                self.caps == old(self).caps,
                old(self).result.wf() ==> self.result.wf(),
                self.result.globals_view() == old(self).result.globals_view(),
                self.result.variables_view() == old(self).result.variables_view() + found_in_import(
                    old(self).caps_view().take(i as int),
                    decl.src.value@,
                    decl.specifiers@,
                ),
            decreases n - i,
        {
            proof {
                let t = old(self).caps_view().take(i as int + 1);
                assert(t.drop_last() =~= old(self).caps_view().take(i as int));
                assert(t.last() == (self.caps@[i as int].0@, self.caps@[i as int].1@));
            }
            let same_src = self.caps[i].1 == decl.src.value;
            if same_src {
                let found = Self::found_for(&self.caps[i], decl);
                proof {
                    assert forall|k: int| 0 <= k < syntaxes_view(found@).len() implies (#[trigger] syntaxes_view(found@)[k]).1 is Some by {
                        assert(found@[k].ctxt is Some);
                    }
                    lemma_all_with_ctxt(syntaxes_view(found@));
                    assert(self.result.globals_view() + Seq::empty() =~= self.result.globals_view());
                }
                self.result.extend(found);
            } else {
                proof {
                    assert(syntaxes_view(Seq::<WorkerSyntax>::empty()) =~= Seq::empty());
                }
            }
            proof {
                let t = old(self).caps_view().take(i as int + 1);
                assert(self.result.variables_view() =~= old(self).result.variables_view() + found_in_import(t, decl.src.value@, decl.specifiers@));
            }
            i = i + 1;
        }
        proof {
            assert(old(self).caps_view().take(n as int) =~= old(self).caps_view());
        }
    }

    /// The syntaxes found.
    pub fn into_list(self) -> (r: WorkerSyntaxList)
        ensures
            r == self.result_list(),
    {
        self.result
    }
}

} // verus!
