use vstd::prelude::*;

use crate::ast::Span;
use crate::id::DependencyId;
use crate::taxonomy::{DependencyCategory, DependencyType};
use crate::text::copy_string;

verus! {

/// The view of an optional string.
pub open spec fn opt_view(o: Option<String>) -> Option<Seq<char>> {
    match o {
        Some(s) => Some(s@),
        None => None,
    }
}

/// The set of texts held by a list of strings.
pub open spec fn names_set(v: Seq<String>) -> Set<Seq<char>> {
    v.map_values(|s: String| s@).to_set()
}

pub fn copy_opt_string(o: &Option<String>) -> (r: Option<String>)
    ensures
        opt_view(r) == opt_view(*o),
{
    match o {
        Some(s) => Some(copy_string(s)),
        None => None,
    }
}

/// How one import binding is written.
#[derive(Clone, Debug, PartialEq, Eq)]
pub enum Specifier {
    /// `import local from`
    Default(String),
    /// `import { imported as local }`; the imported name only where it differs
    Named(String, Option<String>),
    /// `import * as local`
    Namespace(String),
}

pub ghost enum SpecifierV {
    Default(Seq<char>),
    Named(Seq<char>, Option<Seq<char>>),
    Namespace(Seq<char>),
}

impl View for Specifier {
    type V = SpecifierV;

    open spec fn view(&self) -> SpecifierV {
        match self {
            Specifier::Default(l) => SpecifierV::Default(l@),
            Specifier::Named(l, i) => SpecifierV::Named(l@, opt_view(*i)),
            Specifier::Namespace(l) => SpecifierV::Namespace(l@),
        }
    }
}

pub open spec fn specifiers_view(v: Seq<Specifier>) -> Seq<SpecifierV> {
    v.map_values(|s: Specifier| s@)
}

impl Specifier {
    /// A copy of this specifier.
    pub fn copied(&self) -> (r: Specifier)
        ensures
            r@ == self@,
    {
        match self {
            Specifier::Default(l) => Specifier::Default(copy_string(l)),
            Specifier::Named(l, i) => Specifier::Named(copy_string(l), copy_opt_string(i)),
            Specifier::Namespace(l) => Specifier::Namespace(copy_string(l)),
        }
    }
}

/// One import (or re-export) of a source module, with all the bindings taken from it.
#[derive(Debug)]
pub struct HarmonyImportDependency {
    pub id: DependencyId,
    pub request: String,
    pub span: Span,
    pub specifiers: Vec<Specifier>,
    pub dependency_type: DependencyType,
    pub exports_all: bool,
}

/// One name re-exported from another module: `(exported, original)` pairs and the
/// exported name.
#[derive(Debug)]
pub struct HarmonyExportImportedSpecifierDependency {
    pub id: DependencyId,
    pub request: String,
    pub ids: Vec<(String, Option<String>)>,
    pub name: Option<String>,
}

/// One use site of an imported binding.
#[derive(Debug)]
pub struct HarmonyImportSpecifierDependency {
    pub id: DependencyId,
    pub request: String,
    pub shorthand: bool,
    pub start: u32,
    pub end: u32,
    pub ids: Vec<String>,
    pub is_call: bool,
    pub call_like: bool,
    pub specifier: Specifier,
    /// the properties taken from a namespace import by a destructuring, as a set
    pub referenced_properties_in_destructuring: Option<Vec<String>>,
}

/// A dependency record produced by the ESM analysis.
#[derive(Debug)]
pub enum HarmonyDependency {
    Import(HarmonyImportDependency),
    ExportImportedSpecifier(HarmonyExportImportedSpecifierDependency),
    ImportSpecifier(HarmonyImportSpecifierDependency),
}

/// A dependency record without its id.
pub ghost enum DepV {
    Import {
        request: Seq<char>,
        span: Span,
        specifiers: Seq<SpecifierV>,
        dependency_type: DependencyType,
        exports_all: bool,
    },
    ExportImportedSpecifier {
        request: Seq<char>,
        ids: Seq<(Seq<char>, Option<Seq<char>>)>,
        name: Option<Seq<char>>,
    },
    ImportSpecifier {
        request: Seq<char>,
        shorthand: bool,
        start: u32,
        end: u32,
        ids: Seq<Seq<char>>,
        is_call: bool,
        call_like: bool,
        specifier: SpecifierV,
        destructured: Option<Set<Seq<char>>>,
    },
}

pub open spec fn pairs_view(v: Seq<(String, Option<String>)>) -> Seq<(Seq<char>, Option<Seq<char>>)> {
    v.map_values(|p: (String, Option<String>)| (p.0@, opt_view(p.1)))
}

pub open spec fn strings_view(v: Seq<String>) -> Seq<Seq<char>> {
    v.map_values(|s: String| s@)
}

impl View for HarmonyDependency {
    type V = DepV;

    open spec fn view(&self) -> DepV {
        match self {
            HarmonyDependency::Import(d) => DepV::Import {
                request: d.request@,
                span: d.span,
                specifiers: specifiers_view(d.specifiers@),
                dependency_type: d.dependency_type,
                exports_all: d.exports_all,
            },
            HarmonyDependency::ExportImportedSpecifier(d) => DepV::ExportImportedSpecifier {
                request: d.request@,
                ids: pairs_view(d.ids@),
                name: opt_view(d.name),
            },
            HarmonyDependency::ImportSpecifier(d) => DepV::ImportSpecifier {
                request: d.request@,
                shorthand: d.shorthand,
                start: d.start,
                end: d.end,
                ids: strings_view(d.ids@),
                is_call: d.is_call,
                call_like: d.call_like,
                specifier: d.specifier@,
                destructured: match d.referenced_properties_in_destructuring {
                    Some(v) => Some(names_set(v@)),
                    None => None,
                },
            },
        }
    }
}

pub open spec fn deps_view(v: Seq<HarmonyDependency>) -> Seq<DepV> {
    v.map_values(|d: HarmonyDependency| d@)
}

impl HarmonyDependency {
    /// The family of every ESM record.
    pub fn category(&self) -> (r: DependencyCategory)
        ensures
            r == DependencyCategory::Esm,
    {
        DependencyCategory::Esm
    }

    /// The type of this record.
    pub fn dependency_type(&self) -> (r: DependencyType)
        ensures
            crate::taxonomy::same_type(r, dep_type(*self)),
    {
        match self {
            HarmonyDependency::Import(d) => d.dependency_type.copied(),
            HarmonyDependency::ExportImportedSpecifier(_) => DependencyType::EsmExportImportedSpecifier,
            HarmonyDependency::ImportSpecifier(_) => DependencyType::EsmImportSpecifier,
        }
    }

    /// The id of this record.
    pub fn id(&self) -> (r: DependencyId)
        ensures
            r == dep_id(*self),
    {
        match self {
            HarmonyDependency::Import(d) => d.id,
            HarmonyDependency::ExportImportedSpecifier(d) => d.id,
            HarmonyDependency::ImportSpecifier(d) => d.id,
        }
    }
}

/// The type of a record: an import's own (ESM import or re-export), a re-exported name,
/// or a use of an imported binding.
pub open spec fn dep_type(d: HarmonyDependency) -> DependencyType {
    match d {
        HarmonyDependency::Import(x) => x.dependency_type,
        HarmonyDependency::ExportImportedSpecifier(_) => DependencyType::EsmExportImportedSpecifier,
        HarmonyDependency::ImportSpecifier(_) => DependencyType::EsmImportSpecifier,
    }
}

pub open spec fn dep_id(d: HarmonyDependency) -> DependencyId {
    match d {
        HarmonyDependency::Import(x) => x.id,
        HarmonyDependency::ExportImportedSpecifier(x) => x.id,
        HarmonyDependency::ImportSpecifier(x) => x.id,
    }
}

/// An edit of the source applied at code generation: `[start, end)` becomes `content`.
#[derive(Clone, Debug)]
pub struct RewriteTemplate {
    pub start: u32,
    pub end: u32,
    pub content: String,
}

pub open spec fn template_view(t: RewriteTemplate) -> (u32, u32, Seq<char>) {
    (t.start, t.end, t.content@)
}

pub open spec fn templates_view(v: Seq<RewriteTemplate>) -> Seq<(u32, u32, Seq<char>)> {
    v.map_values(|t: RewriteTemplate| template_view(t))
}

/// What the analysis of a module records for the bundler besides its dependencies.
#[derive(Debug)]
pub struct BuildInfo {
    /// the names this module re-exports, each once
    pub harmony_named_exports: Vec<String>,
    /// the ids of the `export *` imports, in order
    pub all_star_exports: Vec<DependencyId>,
    pub need_create_require: bool,
}

impl BuildInfo {
    pub fn new() -> (r: BuildInfo)
        ensures
            r.harmony_named_exports@.len() == 0,
            r.all_star_exports@.len() == 0,
            !r.need_create_require,
    {
        BuildInfo {
            harmony_named_exports: Vec::new(),
            all_star_exports: Vec::new(),
            need_create_require: false,
        }
    }

    /// The set of re-exported names.
    pub open spec fn named_exports(&self) -> Set<Seq<char>> {
        names_set(self.harmony_named_exports@)
    }

    /// Adds a re-exported name unless it is already there.
    pub fn insert_named_export(&mut self, name: String)
        ensures
            final(self).named_exports() == old(self).named_exports().insert(name@),
            final(self).all_star_exports == old(self).all_star_exports,
            final(self).need_create_require == old(self).need_create_require,
    {
        let n = self.harmony_named_exports.len();
        let mut i: usize = 0;
        while i < n
            invariant
                n == self.harmony_named_exports@.len(),
                0 <= i <= n,
                forall|j: int| 0 <= j < i ==> self.harmony_named_exports@[j]@ != name@,
            decreases n - i,
        {
            if self.harmony_named_exports[i] == name {
                proof {
                    let s = self.harmony_named_exports@.map_values(|s: String| s@);
                    assert(s[i as int] == name@);
                    assert(s.to_set().contains(name@));
                    assert(self.named_exports().insert(name@) =~= self.named_exports());
                }
                return;
            }
            i = i + 1;
        }
        let ghost before = self.harmony_named_exports@;
        self.harmony_named_exports.push(name);
        proof {
            let s0 = before.map_values(|s: String| s@);
            let s1 = self.harmony_named_exports@.map_values(|s: String| s@);
            assert(s1 =~= s0.push(name@));
            assert(s1.to_set() =~= s0.to_set().insert(name@)) by {
                assert forall|x: Seq<char>| s1.to_set().contains(x) <==> s0.to_set().insert(name@).contains(x) by {
                    if s1.to_set().contains(x) {
                        let j = choose|j: int| 0 <= j < s1.len() && s1[j] == x;
                        if j < s0.len() {
                            assert(s0[j] == x);
                        }
                    }
                    if s0.to_set().contains(x) {
                        let j = choose|j: int| 0 <= j < s0.len() && s0[j] == x;
                        assert(s1[j] == x);
                    }
                    if x == name@ {
                        assert(s1[s0.len() as int] == x);
                    }
                }
            }
        }
    }
}

} // verus!
