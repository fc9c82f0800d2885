use vstd::prelude::*;

use indexmap::IndexSet;

use crate::ast::Span;
use crate::records::{Specifier, SpecifierV, specifiers_view};
use crate::text::copy_string;

verus! {

#[verifier::external_type_specification]
#[verifier::external_body]
#[verifier::reject_recursive_types(T)]
#[verifier::reject_recursive_types(S)]
pub struct ExIndexSet<T, S>(IndexSet<T, S>);

/// The keys of an insertion-ordered set of `(request, is_export)` pairs, oldest first.
pub uninterp spec fn import_keys(s: IndexSet<(String, bool)>) -> Seq<(Seq<char>, bool)>;

/// Relies on `IndexSet::new`: the set starts empty.
#[verifier::external_body]
fn key_set_new() -> (r: IndexSet<(String, bool)>)
    ensures
        import_keys(r) == Seq::<(Seq<char>, bool)>::empty(),
{
    IndexSet::new()
}

/// Relies on `IndexSet::insert_full`: an equal key already present keeps its place and
/// its index is returned; otherwise the key is appended and its new index returned.
#[verifier::external_body]
fn key_set_insert_full(s: &mut IndexSet<(String, bool)>, key: (String, bool)) -> (r: (usize, bool))
    ensures
        import_keys(*old(s)).contains((key.0@, key.1)) ==> {
            &&& !r.1
            &&& 0 <= r.0 < import_keys(*old(s)).len()
            &&& import_keys(*old(s))[r.0 as int] == (key.0@, key.1)
            &&& import_keys(*final(s)) == import_keys(*old(s))
        },
        !import_keys(*old(s)).contains((key.0@, key.1)) ==> {
            &&& r.1
            &&& r.0 == import_keys(*old(s)).len()
            &&& import_keys(*final(s)) == import_keys(*old(s)).push((key.0@, key.1))
        },
{
    s.insert_full(key)
}

/// Relies on `IndexSet`'s indexing: the key at a valid position.
#[verifier::external_body]
fn key_set_get(s: &IndexSet<(String, bool)>, i: usize) -> (r: (String, bool))
    requires
        i < import_keys(*s).len(),
    ensures
        (r.0@, r.1) == import_keys(*s)[i as int],
{
    s[i].clone()
}

/// What is gathered about one source module (and whether it is imported or re-exported).
#[derive(Debug)]
pub struct ImporterInfo {
    pub span: Span,
    pub specifiers: Vec<Specifier>,
    pub exports_all: bool,
}

impl ImporterInfo {
    pub fn new(span: Span, specifiers: Vec<Specifier>, exports_all: bool) -> (r: ImporterInfo)
        ensures
            r.span == span,
            r.specifiers@ == specifiers@,
            r.exports_all == exports_all,
    {
        ImporterInfo { span, specifiers, exports_all }
    }
}

/// An entry of the imports table: `((request, is_export), first span, specifiers, exports_all)`.
pub type ImportsEntryV = ((Seq<char>, bool), Span, Seq<SpecifierV>, bool);

/// The table of imported and re-exported source modules, in first-occurrence order.
pub struct Imports {
    keys: IndexSet<(String, bool)>,
    infos: Vec<ImporterInfo>,
}

/// The first position of `k` in `s`, or -1.
pub open spec fn find_key<K>(s: Seq<K>, k: K) -> int
    decreases s.len(),
{
    if s.len() == 0 {
        -1
    } else {
        let j = find_key(s.drop_last(), k);
        if j >= 0 {
            j
        } else if s.last() == k {
            s.len() - 1
        } else {
            -1
        }
    }
}

pub proof fn lemma_find_key<K>(s: Seq<K>, k: K)
    ensures
        find_key(s, k) == -1 <==> !s.contains(k),
        find_key(s, k) >= 0 ==> {
            &&& find_key(s, k) < s.len()
            &&& s[find_key(s, k)] == k
            &&& forall|j: int| 0 <= j < find_key(s, k) ==> s[j] != k
        },
    decreases s.len(),
{
    if s.len() > 0 {
        lemma_find_key(s.drop_last(), k);
        if s.contains(k) && find_key(s.drop_last(), k) == -1 {
            let j = choose|j: int| 0 <= j < s.len() && s[j] == k;
            if j < s.len() - 1 {
                assert(s.drop_last()[j] == k);
            }
        }
        if s.drop_last().contains(k) {
            let j = choose|j: int| 0 <= j < s.drop_last().len() && s.drop_last()[j] == k;
            assert(s[j] == k);
        }
        let f = find_key(s.drop_last(), k);
        if f >= 0 {
            assert(s[f] == s.drop_last()[f]);
            assert forall|j: int| 0 <= j < f implies s[j] != k by {
                assert(s[j] == s.drop_last()[j]);
            }
        } else {
            assert forall|j: int| 0 <= j < s.len() - 1 implies s[j] != k by {
                assert(s[j] == s.drop_last()[j]);
            }
        }
    }
}

pub proof fn lemma_find_key_unique<K>(s: Seq<K>, k: K, i: int)
    requires
        s.no_duplicates(),
        0 <= i < s.len(),
        s[i] == k,
    ensures
        find_key(s, k) == i,
{
    lemma_find_key(s, k);
    assert(s.contains(k));
}

/// The name a re-exported specifier is exported under.
pub open spec fn exported_name(s: SpecifierV) -> Seq<char> {
    match s {
        SpecifierV::Namespace(n) => n,
        SpecifierV::Named(orig, exported) => match exported {
            Some(e) => e,
            None => orig,
        },
        SpecifierV::Default(l) => l,
    }
}

/// The name a specifier binds in this module: its local name for an import, the name it
/// is exported under for a re-export.
pub open spec fn bound_name(s: SpecifierV, is_export: bool) -> Seq<char> {
    if is_export {
        exported_name(s)
    } else {
        match s {
            SpecifierV::Default(l) => l,
            SpecifierV::Named(l, _) => l,
            SpecifierV::Namespace(l) => l,
        }
    }
}

pub open spec fn has_name(specs: Seq<SpecifierV>, n: Seq<char>, is_export: bool) -> bool {
    exists|i: int| 0 <= i < specs.len() && #[trigger] bound_name(specs[i], is_export) == n
}

/// `acc` followed by those of `new` whose bound name is not there yet (the first one kept).
pub open spec fn merge_specs(acc: Seq<SpecifierV>, new: Seq<SpecifierV>, is_export: bool) -> Seq<SpecifierV>
    decreases new.len(),
{
    if new.len() == 0 {
        acc
    } else {
        let r = merge_specs(acc, new.drop_last(), is_export);
        if has_name(r, bound_name(new.last(), is_export), is_export) {
            r
        } else {
            r.push(new.last())
        }
    }
}

/// The keys of the entries.
pub open spec fn entry_keys(e: Seq<ImportsEntryV>) -> Seq<(Seq<char>, bool)> {
    e.map_values(|x: ImportsEntryV| x.0)
}

/// Adds to the table what one declaration says of a source module: its specifiers are
/// appended to those already gathered, each bound name kept once (the first one), and
/// `exports_all` is set when `star` is.
pub open spec fn entries_add(
    e: Seq<ImportsEntryV>,
    key: (Seq<char>, bool),
    span: Span,
    specs: Seq<SpecifierV>,
    star: bool,
) -> Seq<ImportsEntryV> {
    let i = find_key(entry_keys(e), key);
    if i >= 0 {
        e.update(i, (e[i].0, e[i].1, merge_specs(e[i].2, specs, key.1), e[i].3 || star))
    } else {
        e.push((key, span, merge_specs(Seq::empty(), specs, key.1), star))
    }
}

/// The name a specifier binds, as `bound_name` says.
fn bound_name_of(s: &Specifier, is_export: bool) -> (r: String)
    ensures
        r@ == bound_name(s@, is_export),
{
    match s {
        Specifier::Default(l) => copy_string(l),
        Specifier::Namespace(l) => copy_string(l),
        Specifier::Named(l, e) => if is_export {
            match e {
                Some(x) => copy_string(x),
                None => copy_string(l),
            }
        } else {
            copy_string(l)
        },
    }
}

fn has_bound_name(acc: &Vec<Specifier>, name: &String, is_export: bool) -> (r: bool)
    ensures
        r == has_name(specifiers_view(acc@), name@, is_export),
{
    let n = acc.len();
    let mut i: usize = 0;
    while i < n
        invariant
            n == acc@.len(),
            0 <= i <= n,
            forall|j: int| 0 <= j < i ==> bound_name(#[trigger] specifiers_view(acc@)[j], is_export) != name@,
        decreases n - i,
    {
        let b = bound_name_of(&acc[i], is_export);
        if b == *name {
            assert(bound_name(specifiers_view(acc@)[i as int], is_export) == name@);
            return true;
        }
        i = i + 1;
    }
    false
}

/// Appends to `acc` each specifier of `new` whose bound name is not there yet.
fn merge_into(acc: &mut Vec<Specifier>, new: &Vec<Specifier>, is_export: bool)
    ensures
        specifiers_view(final(acc)@) == merge_specs(specifiers_view(old(acc)@), specifiers_view(new@), is_export),
{
    let ghost base = specifiers_view(acc@);
    let n = new.len();
    let mut j: usize = 0;
    while j < n
        invariant
            n == new@.len(),
            0 <= j <= n,
            specifiers_view(acc@) == merge_specs(base, specifiers_view(new@).take(j as int), is_export),
        decreases n - j,
    {
        let s = &new[j];
        proof {
            let t = specifiers_view(new@).take(j as int + 1);
            assert(t.drop_last() =~= specifiers_view(new@).take(j as int));
            assert(t.last() == s@);
        }
        let name = bound_name_of(s, is_export);
        if !has_bound_name(acc, &name, is_export) {
            let c = s.copied();
            let ghost before = acc@;
            let ghost cv = c@;
            acc.push(c);
            proof {
                assert(specifiers_view(acc@) =~= specifiers_view(before).push(cv));
            }
        }
        j = j + 1;
    }
    proof {
        assert(specifiers_view(new@).take(n as int) =~= specifiers_view(new@));
    }
}

impl Imports {
    pub closed spec fn wf(&self) -> bool {
        &&& import_keys(self.keys).len() == self.infos@.len()
        &&& import_keys(self.keys).no_duplicates()
    }

    pub closed spec fn entries(&self) -> Seq<ImportsEntryV> {
        Seq::new(
            self.infos@.len(),
            |i: int|
                (
                    import_keys(self.keys)[i],
                    self.infos@[i].span,
                    specifiers_view(self.infos@[i].specifiers@),
                    self.infos@[i].exports_all,
                ),
        )
    }

    proof fn lemma_keys(&self)
        requires
            self.wf(),
        ensures
            entry_keys(self.entries()) == import_keys(self.keys),
    {
        assert(entry_keys(self.entries()) =~= import_keys(self.keys));
    }

    pub fn new() -> (r: Imports)
        ensures
            r.wf(),
            r.entries().len() == 0,
    {
        Imports { keys: key_set_new(), infos: Vec::new() }
    }

    pub fn len(&self) -> (r: usize)
        requires
            self.wf(),
        ensures
            r == self.entries().len(),
    {
        self.infos.len()
    }

    /// Records a declaration about `request`, as `entries_add` says.
    pub fn add(
        &mut self,
        request: String,
        is_export: bool,
        span: Span,
        specifiers: Vec<Specifier>,
        star: bool,
    )
        requires
            old(self).wf(),
        ensures
            final(self).wf(),
            final(self).entries() == entries_add(
                old(self).entries(),
                (request@, is_export),
                span,
                specifiers_view(specifiers@),
                star,
            ),
    {
        proof {
            self.lemma_keys();
        }
        let ghost old_entries = self.entries();
        let ghost key = (request@, is_export);
        let (idx, fresh) = key_set_insert_full(&mut self.keys, (request, is_export));
        if fresh {
            let mut merged: Vec<Specifier> = Vec::new();
            proof {
                assert(specifiers_view(merged@) =~= Seq::<SpecifierV>::empty());
            }
            merge_into(&mut merged, &specifiers, is_export);
            self.infos.push(ImporterInfo::new(span, merged, star));
            proof {
                lemma_find_key(import_keys(self.keys).drop_last(), key);
                assert(import_keys(self.keys).drop_last() =~= entry_keys(old_entries));
                assert(import_keys(self.keys).no_duplicates()) by {
                    let ks = import_keys(self.keys);
                    assert forall|a: int, b: int| 0 <= a < b < ks.len() implies ks[a] != ks[b] by {
                        if b == ks.len() - 1 {
                            assert(entry_keys(old_entries)[a] == ks[a]);
                        } else {
                            assert(entry_keys(old_entries)[a] == ks[a]);
                            assert(entry_keys(old_entries)[b] == ks[b]);
                        }
                    }
                }
                assert(self.entries() =~= old_entries.push((key, span, merge_specs(Seq::empty(), specifiers_view(specifiers@), is_export), star)));
            }
        } else {
            proof {
                lemma_find_key_unique(import_keys(self.keys), key, idx as int);
            }
            let mut info = self.infos.remove(idx);
            merge_into(&mut info.specifiers, &specifiers, is_export);
            if star {
                info.exports_all = true;
            }
            self.infos.insert(idx, info);
            proof {
                let i = idx as int;
                let e0 = old_entries;
                assert(self.entries() =~= e0.update(i, (e0[i].0, e0[i].1, merge_specs(e0[i].2, specifiers_view(specifiers@), is_export), e0[i].3 || star)));
            }
        }
    }

    /// The key of entry `i`.
    pub fn key(&self, i: usize) -> (r: (String, bool))
        requires
            self.wf(),
            i < self.entries().len(),
        ensures
            (r.0@, r.1) == self.entries()[i as int].0,
    {
        key_set_get(&self.keys, i)
    }

    /// The gathered information of entry `i`.
    pub fn info(&self, i: usize) -> (r: &ImporterInfo)
        requires
            self.wf(),
            i < self.entries().len(),
        ensures
            r.span == self.entries()[i as int].1,
            specifiers_view(r.specifiers@) == self.entries()[i as int].2,
            r.exports_all == self.entries()[i as int].3,
    {
        &self.infos[i]
    }
}

} // verus!
