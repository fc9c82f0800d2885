use vstd::prelude::*;

use crate::records::{Specifier, SpecifierV, opt_view};

verus! {

/// What an imported binding refers to: the request, how it was imported, and the name
/// it has in the imported module (none for a namespace import).
#[derive(Debug)]
pub struct ImporterReferenceInfo {
    pub request: String,
    pub specifier: Specifier,
    pub names: Option<String>,
}

pub type RefInfoV = (Seq<char>, SpecifierV, Option<Seq<char>>);

pub open spec fn ref_info_view(r: ImporterReferenceInfo) -> RefInfoV {
    (r.request@, r.specifier@, opt_view(r.names))
}

impl ImporterReferenceInfo {
    pub fn new(request: String, specifier: Specifier, names: Option<String>) -> (r: ImporterReferenceInfo)
        ensures
            r.request@ == request@,
            r.specifier@ == specifier@,
            opt_view(r.names) == opt_view(names),
    {
        ImporterReferenceInfo { request, specifier, names }
    }
}

#[derive(Debug)]
pub struct ImportMapEntry {
    pub sym: String,
    pub ctxt: u32,
    pub info: ImporterReferenceInfo,
}

/// The binding key of an identifier: its text and its hygiene token.
pub type BindingKey = (Seq<char>, u32);

pub open spec fn entry_key(e: ImportMapEntry) -> BindingKey {
    (e.sym@, e.ctxt)
}

/// The map the entries describe; a later entry for a key replaces an earlier one.
pub open spec fn map_of(s: Seq<ImportMapEntry>) -> Map<BindingKey, RefInfoV>
    decreases s.len(),
{
    if s.len() == 0 {
        Map::empty()
    } else {
        map_of(s.drop_last()).insert(entry_key(s.last()), ref_info_view(s.last().info))
    }
}

proof fn lemma_map_of_absent(s: Seq<ImportMapEntry>, k: BindingKey)
    requires
        forall|j: int| 0 <= j < s.len() ==> entry_key(#[trigger] s[j]) != k,
    ensures
        !map_of(s).contains_key(k),
    decreases s.len(),
{
    if s.len() > 0 {
        assert forall|j: int| 0 <= j < s.drop_last().len() implies entry_key(#[trigger] s.drop_last()[j]) != k by {
            assert(s.drop_last()[j] == s[j]);
        }
        lemma_map_of_absent(s.drop_last(), k);
    }
}

proof fn lemma_map_of_last(s: Seq<ImportMapEntry>, k: BindingKey, i: int)
    requires
        0 <= i < s.len(),
        entry_key(s[i]) == k,
        forall|j: int| i < j < s.len() ==> entry_key(#[trigger] s[j]) != k,
    ensures
        map_of(s).contains_key(k),
        map_of(s)[k] == ref_info_view(s[i].info),
    decreases s.len(),
{
    if i < s.len() - 1 {
        assert forall|j: int| i < j < s.drop_last().len() implies entry_key(#[trigger] s.drop_last()[j]) != k by {
            assert(s.drop_last()[j] == s[j]);
        }
        assert(s.drop_last()[i] == s[i]);
        lemma_map_of_last(s.drop_last(), k, i);
        assert(entry_key(s[s.len() - 1]) != k);
    }
}

/// Local bindings introduced by import declarations, keyed by text and hygiene token.
#[derive(Debug)]
pub struct ImportMap {
    entries: Vec<ImportMapEntry>,
}

impl View for ImportMap {
    type V = Map<BindingKey, RefInfoV>;

    closed spec fn view(&self) -> Map<BindingKey, RefInfoV> {
        map_of(self.entries@)
    }
}

impl ImportMap {
    pub fn new() -> (r: ImportMap)
        ensures
            r@ == Map::<BindingKey, RefInfoV>::empty(),
    {
        ImportMap { entries: Vec::new() }
    }

    /// Binds `(sym, ctxt)` to `info`, replacing an earlier binding of the same key.
    pub fn insert(&mut self, sym: String, ctxt: u32, info: ImporterReferenceInfo)
        ensures
            final(self)@ == old(self)@.insert((sym@, ctxt), ref_info_view(info)),
    {
        self.entries.push(ImportMapEntry { sym, ctxt, info });
        proof {
            assert(self.entries@.drop_last() =~= old(self).entries@);
        }
    }

    /// The binding of `(sym, ctxt)`, if any.
    pub fn get(&self, sym: &String, ctxt: u32) -> (r: Option<&ImporterReferenceInfo>)
        ensures
            r is None <==> !self@.contains_key((sym@, ctxt)),
            r matches Some(info) ==> ref_info_view(*info) == self@[(sym@, ctxt)],
    {
        let ghost k = (sym@, ctxt);
        let mut i: usize = self.entries.len();
        while i > 0
            invariant
                i <= self.entries@.len(),
                k == (sym@, ctxt),
                forall|j: int| i <= j < self.entries@.len() ==> entry_key(#[trigger] self.entries@[j]) != k,
            decreases i,
        {
            let e = &self.entries[i - 1];
            let same_sym = e.sym.eq(sym);
            if e.ctxt == ctxt && same_sym {
                assert(entry_key(self.entries@[i - 1]) == k);
                proof {
                    lemma_map_of_last(self.entries@, k, i - 1);
                }
                return Some(&e.info);
            }
            i = i - 1;
        }
        proof {
            lemma_map_of_absent(self.entries@, k);
        }
        None
    }
}

} // verus!
