use vstd::prelude::*;

use crate::ast::{ExportAll, ExportSpecifier, ImportDecl, ImportSpecifier, ModuleExportName, ModuleItem, NamedExport, Program};
use crate::id::{DependencyId, DependencyIdCounter};
use crate::import_map::{BindingKey, ImportMap, ImporterReferenceInfo, RefInfoV};
use crate::imports::{entries_add, exported_name, Imports, ImportsEntryV};
use crate::harmony_ref::{HarmonyImportRefDependencyScanner, ref_items};
use crate::records::{BuildInfo, DepV, HarmonyDependency, HarmonyExportImportedSpecifierDependency, HarmonyImportDependency, deps_view, opt_view, pairs_view, RewriteTemplate, Specifier, SpecifierV, specifiers_view, templates_view};
use crate::taxonomy::DependencyType;
use crate::text::{copy_string, owned};

verus! {

/// The name an export name carries when it is an identifier.
pub open spec fn ident_of(n: ModuleExportName) -> Option<Seq<char>> {
    match n {
        ModuleExportName::Ident(i) => Some(i.sym@),
        ModuleExportName::Str(_) => None,
    }
}

pub open spec fn opt_ident_of(n: Option<ModuleExportName>) -> Option<Seq<char>> {
    match n {
        Some(m) => ident_of(m),
        None => None,
    }
}

/// The name an export alias gives, identifier or string.
pub open spec fn opt_export_name(n: Option<ModuleExportName>) -> Option<Seq<char>> {
    match n {
        Some(ModuleExportName::Ident(i)) => Some(i.sym@),
        Some(ModuleExportName::Str(s)) => Some(s.value@),
        None => None,
    }
}

/// The specifier an import specifier records.
pub open spec fn import_specifier_view(s: ImportSpecifier) -> SpecifierV {
    match s {
        ImportSpecifier::Named { local, imported } => SpecifierV::Named(local.sym@, opt_ident_of(imported)),
        ImportSpecifier::Default { local } => SpecifierV::Default(local.sym@),
        ImportSpecifier::Namespace { local } => SpecifierV::Namespace(local.sym@),
    }
}

/// The name a binding has in the imported module: `default` for a default import, the
/// imported (or else the local) name for a named one, none for a namespace.
pub open spec fn import_ref_names(s: ImportSpecifier) -> Option<Seq<char>> {
    match s {
        ImportSpecifier::Named { local, imported } => match opt_ident_of(imported) {
            Some(n) => Some(n),
            None => Some(local.sym@),
        },
        ImportSpecifier::Default { .. } => Some("default"@),
        ImportSpecifier::Namespace { .. } => None,
    }
}

pub open spec fn import_binding(s: ImportSpecifier) -> BindingKey {
    match s {
        ImportSpecifier::Named { local, .. } => (local.sym@, local.ctxt),
        ImportSpecifier::Default { local } => (local.sym@, local.ctxt),
        ImportSpecifier::Namespace { local } => (local.sym@, local.ctxt),
    }
}

/// The import map after the bindings of `specs`, imported from `src`, are added in order.
pub open spec fn map_after_specs(
    m: Map<BindingKey, RefInfoV>,
    src: Seq<char>,
    specs: Seq<ImportSpecifier>,
) -> Map<BindingKey, RefInfoV>
    decreases specs.len(),
{
    if specs.len() == 0 {
        m
    } else {
        let s = specs.last();
        map_after_specs(m, src, specs.drop_last()).insert(
            import_binding(s),
            (src, import_specifier_view(s), import_ref_names(s)),
        )
    }
}

pub open spec fn import_specifiers_view(specs: Seq<ImportSpecifier>) -> Seq<SpecifierV> {
    specs.map_values(|s: ImportSpecifier| import_specifier_view(s))
}

/// The specifiers one export specifier records (string-named ones record none).
pub open spec fn export_spec_one(s: ExportSpecifier) -> Seq<SpecifierV> {
    match s {
        ExportSpecifier::Namespace { name: ModuleExportName::Ident(i) } => seq![SpecifierV::Namespace(i.sym@)],
        ExportSpecifier::Named { orig: ModuleExportName::Ident(o), exported } => seq![
            SpecifierV::Named(o.sym@, opt_export_name(exported)),
        ],
        _ => Seq::empty(),
    }
}

pub open spec fn export_specifiers_view(specs: Seq<ExportSpecifier>) -> Seq<SpecifierV>
    decreases specs.len(),
{
    if specs.len() == 0 {
        Seq::empty()
    } else {
        export_specifiers_view(specs.drop_last()) + export_spec_one(specs.last())
    }
}

/// An export specifier the analysis takes: any but the `export v from` proposal form.
pub open spec fn export_specifier_ok(s: ExportSpecifier) -> bool {
    match s {
        ExportSpecifier::Default { .. } => false,
        _ => true,
    }
}

pub open spec fn program_ok(p: Program) -> bool {
    forall|i: int| 0 <= i < p.body@.len() ==> item_ok(#[trigger] p.body@[i])
}

pub open spec fn item_ok(item: ModuleItem) -> bool {
    match item {
        ModuleItem::NamedExport(n) => n.src is Some ==> forall|j: int| 0 <= j < n.specifiers@.len() ==> export_specifier_ok(#[trigger] n.specifiers@[j]),
        _ => true,
    }
}

/// The state of the declaration pass: import map, imports table, rewrite templates.
pub type ScanState = (Map<BindingKey, RefInfoV>, Seq<ImportsEntryV>, Seq<(u32, u32, Seq<char>)>);

/// What the declaration pass does with one top-level item.
pub open spec fn scan_item(st: ScanState, item: ModuleItem) -> ScanState {
    match item {
        ModuleItem::Import(d) => (
            map_after_specs(st.0, d.src.value@, d.specifiers@),
            entries_add(st.1, (d.src.value@, false), d.span, import_specifiers_view(d.specifiers@), false),
            st.2.push((d.span.lo, d.span.hi, Seq::empty())),
        ),
        ModuleItem::NamedExport(n) => match n.src {
            Some(src) => (
                st.0,
                entries_add(st.1, (src.value@, true), n.span, export_specifiers_view(n.specifiers@), false),
                st.2.push((n.span.lo, n.span.hi, Seq::empty())),
            ),
            None => st,
        },
        ModuleItem::ExportAll(e) => (
            st.0,
            entries_add(st.1, (e.src.value@, true), e.span, Seq::empty(), true),
            st.2.push((e.span.lo, e.span.hi, Seq::empty())),
        ),
        ModuleItem::Stmt(_) => st,
    }
}

/// What the declaration pass does with the items in order.
pub open spec fn scan_items(st: ScanState, items: Seq<ModuleItem>) -> ScanState
    decreases items.len(),
{
    if items.len() == 0 {
        st
    } else {
        scan_item(scan_items(st, items.drop_last()), items.last())
    }
}

/// The name a re-exported specifier has in the module it comes from.
pub open spec fn original_name(s: SpecifierV) -> Option<Seq<char>> {
    match s {
        SpecifierV::Namespace(_) => None,
        SpecifierV::Named(orig, _) => Some(orig),
        SpecifierV::Default(_) => Some("default"@),
    }
}

pub open spec fn export_dep(request: Seq<char>, s: SpecifierV) -> DepV {
    DepV::ExportImportedSpecifier {
        request,
        ids: seq![(exported_name(s), original_name(s))],
        name: Some(exported_name(s)),
    }
}

pub open spec fn kind_of(is_export: bool) -> DependencyType {
    if is_export {
        DependencyType::EsmExport
    } else {
        DependencyType::EsmImport
    }
}

/// Whether an entry emits one re-export record per specifier.
pub open spec fn emits_specifiers(e: ImportsEntryV) -> bool {
    e.0.1 && e.2.len() > 0
}

/// The records one entry of the imports table emits: its re-exported names first, then
/// the import of the module itself.
pub open spec fn entry_deps(e: ImportsEntryV) -> Seq<DepV> {
    let specs = if emits_specifiers(e) {
        e.2.map_values(|s: SpecifierV| export_dep(e.0.0, s))
    } else {
        Seq::empty()
    };
    specs.push(
        DepV::Import {
            request: e.0.0,
            span: e.1,
            specifiers: e.2,
            dependency_type: kind_of(e.0.1),
            exports_all: e.3,
        },
    )
}

pub open spec fn entries_deps(es: Seq<ImportsEntryV>) -> Seq<DepV>
    decreases es.len(),
{
    if es.len() == 0 {
        Seq::empty()
    } else {
        entries_deps(es.drop_last()) + entry_deps(es.last())
    }
}

pub open spec fn entry_names(e: ImportsEntryV) -> Set<Seq<char>> {
    if emits_specifiers(e) {
        e.2.map_values(|s: SpecifierV| exported_name(s)).to_set()
    } else {
        Set::empty()
    }
}

/// The names the entries re-export.
pub open spec fn entries_names(es: Seq<ImportsEntryV>) -> Set<Seq<char>>
    decreases es.len(),
{
    if es.len() == 0 {
        Set::empty()
    } else {
        entries_names(es.drop_last()).union(entry_names(es.last()))
    }
}

/// The ids of the `export *` imports among the records, in order.
pub open spec fn star_ids(ds: Seq<HarmonyDependency>) -> Seq<DependencyId>
    decreases ds.len(),
{
    if ds.len() == 0 {
        Seq::empty()
    } else {
        let rest = star_ids(ds.drop_last());
        match ds.last() {
            HarmonyDependency::Import(d) => if d.exports_all {
                rest.push(d.id)
            } else {
                rest
            },
            _ => rest,
        }
    }
}

/// Appending to a list adds the element to its set.
pub proof fn lemma_to_set_push<A>(s: Seq<A>, x: A)
    ensures
        s.push(x).to_set() == s.to_set().insert(x),
{
    let t = s.push(x);
    assert forall|y: A| t.to_set().contains(y) <==> s.to_set().insert(x).contains(y) by {
        if t.to_set().contains(y) {
            let j = choose|j: int| 0 <= j < t.len() && t[j] == y;
            if j < s.len() {
                assert(s[j] == y);
            }
        }
        if s.to_set().contains(y) {
            let j = choose|j: int| 0 <= j < s.len() && s[j] == y;
            assert(t[j] == y);
        }
        if y == x {
            assert(t[s.len() as int] == y);
        }
    }
    assert(t.to_set() =~= s.to_set().insert(x));
}

pub proof fn lemma_star_ids_push(ds: Seq<HarmonyDependency>, d: HarmonyDependency)
    ensures
        star_ids(ds.push(d)) == match d {
            HarmonyDependency::Import(x) => if x.exports_all {
                star_ids(ds).push(x.id)
            } else {
                star_ids(ds)
            },
            _ => star_ids(ds),
        },
{
    assert(ds.push(d).drop_last() =~= ds);
}

/// The state before any declaration is seen.
pub open spec fn fresh_state() -> ScanState {
    (Map::empty(), Seq::empty(), Seq::empty())
}

/// The records the ESM analysis of a program yields, ids aside: the imports and re-exports
/// in first-occurrence order, then the uses of imported bindings in source order.
pub open spec fn esm_records(p: Program) -> Seq<DepV> {
    let st = scan_items(fresh_state(), p.body@);
    entries_deps(st.1) + ref_items(st.0, (Seq::empty(), false, Map::empty()), p.body@).0
}

/// The rewrite templates the ESM analysis of a program yields.
pub open spec fn esm_templates(p: Program) -> Seq<(u32, u32, Seq<char>)> {
    scan_items(fresh_state(), p.body@).2
}

/// The first pass over a module's ESM imports and re-exports.
pub struct HarmonyImportDependencyScanner {
    pub dependencies: Vec<HarmonyDependency>,
    pub presentational_dependencies: Vec<RewriteTemplate>,
    pub import_map: ImportMap,
    pub imports: Imports,
    pub build_info: BuildInfo,
    pub id_counter: DependencyIdCounter,
}

impl HarmonyImportDependencyScanner {
    pub fn new(
        dependencies: Vec<HarmonyDependency>,
        presentational_dependencies: Vec<RewriteTemplate>,
        import_map: ImportMap,
        build_info: BuildInfo,
        id_counter: DependencyIdCounter,
    ) -> (r: HarmonyImportDependencyScanner)
        ensures
            r.dependencies@ == dependencies@,
            r.presentational_dependencies@ == presentational_dependencies@,
            r.import_map@ == import_map@,
            r.imports.wf(),
            r.imports.entries().len() == 0,
            r.build_info == build_info,
            r.id_counter == id_counter,
    {
        HarmonyImportDependencyScanner {
            dependencies,
            presentational_dependencies,
            import_map,
            imports: Imports::new(),
            build_info,
            id_counter,
        }
    }

    pub open spec fn state(&self) -> ScanState {
        (self.import_map@, self.imports.entries(), templates_view(self.presentational_dependencies@))
    }

    fn push_template(&mut self, lo: u32, hi: u32)
        ensures
            templates_view(final(self).presentational_dependencies@) == templates_view(
                old(self).presentational_dependencies@,
            ).push((lo, hi, Seq::empty())),
            final(self).dependencies == old(self).dependencies,
            final(self).import_map == old(self).import_map,
            final(self).imports == old(self).imports,
            final(self).build_info == old(self).build_info,
            final(self).id_counter == old(self).id_counter,
    {
        self.presentational_dependencies.push(RewriteTemplate { start: lo, end: hi, content: String::new() });
        proof {
            assert(templates_view(self.presentational_dependencies@) =~= templates_view(
                old(self).presentational_dependencies@,
            ).push((lo, hi, Seq::empty())));
        }
    }

    /// `import .. from src`: binds each local name, gathers the specifiers under
    /// `(src, import)`, and deletes the declaration from the output.
    pub fn visit_import_decl(&mut self, decl: &ImportDecl)
        requires
            old(self).imports.wf(),
        ensures
            final(self).imports.wf(),
            final(self).state() == scan_item(old(self).state(), ModuleItem::Import(*decl)),
            final(self).dependencies == old(self).dependencies,
            final(self).build_info == old(self).build_info,
            final(self).id_counter == old(self).id_counter,
    {
        let mut specifiers: Vec<Specifier> = Vec::new();
        let n = decl.specifiers.len();
        let mut i: usize = 0;
        while i < n
            invariant
                n == decl.specifiers@.len(),
                0 <= i <= n,
                self.import_map@ == map_after_specs(old(self).import_map@, decl.src.value@, decl.specifiers@.take(i as int)),
                specifiers_view(specifiers@) == import_specifiers_view(decl.specifiers@.take(i as int)),
                self.dependencies == old(self).dependencies,
                self.presentational_dependencies == old(self).presentational_dependencies,
                self.imports == old(self).imports,
                self.build_info == old(self).build_info,
                self.id_counter == old(self).id_counter,
            decreases n - i,
        {
            let s = &decl.specifiers[i];
            let (specifier, sym, ctxt, names) = match s {
                ImportSpecifier::Named { local, imported } => {
                    let imported_name = match imported {
                        Some(ModuleExportName::Ident(ident)) => Some(copy_string(&ident.sym)),
                        _ => None,
                    };
                    let names = match imported {
                        Some(ModuleExportName::Ident(ident)) => copy_string(&ident.sym),
                        _ => copy_string(&local.sym),
                    };
                    (Specifier::Named(copy_string(&local.sym), imported_name), copy_string(&local.sym), local.ctxt, Some(names))
                },
                ImportSpecifier::Default { local } => {
                    (Specifier::Default(copy_string(&local.sym)), copy_string(&local.sym), local.ctxt, Some(owned("default")))
                },
                ImportSpecifier::Namespace { local } => {
                    (Specifier::Namespace(copy_string(&local.sym)), copy_string(&local.sym), local.ctxt, None)
                },
            };
            let info = ImporterReferenceInfo::new(copy_string(&decl.src.value), specifier.copied(), names);
            self.import_map.insert(sym, ctxt, info);
            let ghost sv = specifier@;
            assert(sv == import_specifier_view(decl.specifiers@[i as int]));
            let ghost before = specifiers@;
            specifiers.push(specifier);
            proof {
                let t = decl.specifiers@.take(i as int + 1);
                assert(t.drop_last() =~= decl.specifiers@.take(i as int));
                assert(specifiers_view(specifiers@) =~= specifiers_view(before).push(sv));
                assert(import_specifiers_view(t) =~= import_specifiers_view(t.drop_last()).push(sv));
                assert(specifiers_view(specifiers@) =~= import_specifiers_view(t));
            }
            i = i + 1;
        }
        proof {
            assert(decl.specifiers@.take(n as int) =~= decl.specifiers@);
        }
        self.imports.add(copy_string(&decl.src.value), false, decl.span, specifiers, false);
        self.push_template(decl.span.lo, decl.span.hi);
    }

    /// `export { .. } from src`: gathers the re-exported specifiers under `(src, export)`
    /// and deletes the declaration; a local `export { .. }` is left alone.
    pub fn visit_named_export(&mut self, named_export: &NamedExport)
        requires
            old(self).imports.wf(),
            item_ok(ModuleItem::NamedExport(*named_export)),
        ensures
            final(self).imports.wf(),
            final(self).state() == scan_item(old(self).state(), ModuleItem::NamedExport(*named_export)),
            final(self).dependencies == old(self).dependencies,
            final(self).build_info == old(self).build_info,
            final(self).id_counter == old(self).id_counter,
    {
        match &named_export.src {
            Some(src) => {
                let mut specifiers: Vec<Specifier> = Vec::new();
                let n = named_export.specifiers.len();
                let mut i: usize = 0;
                while i < n
                    invariant
                        n == named_export.specifiers@.len(),
                        0 <= i <= n,
                        forall|j: int| 0 <= j < n ==> export_specifier_ok(#[trigger] named_export.specifiers@[j]),
                        specifiers_view(specifiers@) == export_specifiers_view(named_export.specifiers@.take(i as int)),
                    decreases n - i,
                {
                    match &named_export.specifiers[i] {
                        ExportSpecifier::Namespace { name } => {
                            if let ModuleExportName::Ident(export) = name {
                                specifiers.push(Specifier::Namespace(copy_string(&export.sym)));
                            }
                        },
                        ExportSpecifier::Default { .. } => {
                            assert(export_specifier_ok(named_export.specifiers@[i as int]));
                        },
                        ExportSpecifier::Named { orig, exported } => {
                            if let ModuleExportName::Ident(o) = orig {
                                let e = match exported {
                                    Some(ModuleExportName::Ident(x)) => Some(copy_string(&x.sym)),
                                    Some(ModuleExportName::Str(x)) => Some(copy_string(&x.value)),
                                    _ => None,
                                };
                                specifiers.push(Specifier::Named(copy_string(&o.sym), e));
                            }
                        },
                    }
                    proof {
                        let t = named_export.specifiers@.take(i as int + 1);
                        assert(t.drop_last() =~= named_export.specifiers@.take(i as int));
                        assert(export_specifier_ok(named_export.specifiers@[i as int]));
                        assert(specifiers_view(specifiers@) =~= export_specifiers_view(t));
                    }
                    i = i + 1;
                }
                proof {
                    assert(named_export.specifiers@.take(n as int) =~= named_export.specifiers@);
                }
                self.imports.add(copy_string(&src.value), true, named_export.span, specifiers, false);
                self.push_template(named_export.span.lo, named_export.span.hi);
            },
            None => {},
        }
    }

    /// `export * from src`: marks `(src, export)` as re-exporting everything and deletes
    /// the declaration.
    pub fn visit_export_all(&mut self, export_all: &ExportAll)
        requires
            old(self).imports.wf(),
        ensures
            final(self).imports.wf(),
            final(self).state() == scan_item(old(self).state(), ModuleItem::ExportAll(*export_all)),
            final(self).dependencies == old(self).dependencies,
            final(self).build_info == old(self).build_info,
            final(self).id_counter == old(self).id_counter,
    {
        self.imports.add(copy_string(&export_all.src.value), true, export_all.span, Vec::new(), true);
        proof {
            assert(specifiers_view(Seq::<Specifier>::empty()) =~= Seq::<SpecifierV>::empty());
        }
        self.push_template(export_all.span.lo, export_all.span.hi);
    }

    /// The declaration pass over the top-level items.
    pub fn scan_declarations(&mut self, program: &Program)
        requires
            old(self).imports.wf(),
            program_ok(*program),
        ensures
            final(self).imports.wf(),
            final(self).state() == scan_items(old(self).state(), program.body@),
            final(self).dependencies == old(self).dependencies,
            final(self).build_info == old(self).build_info,
            final(self).id_counter == old(self).id_counter,
    {
        let n = program.body.len();
        let mut i: usize = 0;
        while i < n
            invariant
                n == program.body@.len(),
                0 <= i <= n,
                program_ok(*program),
                self.imports.wf(),
                self.state() == scan_items(old(self).state(), program.body@.take(i as int)),
                self.dependencies == old(self).dependencies,
                self.build_info == old(self).build_info,
                self.id_counter == old(self).id_counter,
            decreases n - i,
        {
            let item = &program.body[i];
            assert(item_ok(program.body@[i as int]));
            match item {
                ModuleItem::Import(d) => self.visit_import_decl(d),
                ModuleItem::NamedExport(e) => self.visit_named_export(e),
                ModuleItem::ExportAll(e) => self.visit_export_all(e),
                ModuleItem::Stmt(_) => {},
            }
            proof {
                let t = program.body@.take(i as int + 1);
                assert(t.drop_last() =~= program.body@.take(i as int));
            }
            i = i + 1;
        }
        proof {
            assert(program.body@.take(n as int) =~= program.body@);
        }
    }

    /// The emission pass: for each entry of the imports table in first-occurrence order,
    /// one re-export record per specifier of a re-export (each name also recorded in the
    /// build info), then one import record for the module; `export *` imports have their
    /// ids recorded. The table is left empty.
    pub fn emit_dependencies(&mut self)
        requires
            old(self).imports.wf(),
        ensures
            final(self).imports.wf(),
            final(self).imports.entries().len() == 0,
            final(self).dependencies@.len() >= old(self).dependencies@.len(),
            final(self).dependencies@.take(old(self).dependencies@.len() as int) == old(self).dependencies@,
            deps_view(final(self).dependencies@) == deps_view(old(self).dependencies@) + entries_deps(
                old(self).imports.entries(),
            ),
            final(self).build_info.named_exports() == old(self).build_info.named_exports().union(
                entries_names(old(self).imports.entries()),
            ),
            final(self).build_info.all_star_exports@ == old(self).build_info.all_star_exports@ + star_ids(
                final(self).dependencies@.skip(old(self).dependencies@.len() as int),
            ),
            final(self).build_info.need_create_require == old(self).build_info.need_create_require,
            final(self).import_map == old(self).import_map,
            final(self).presentational_dependencies == old(self).presentational_dependencies,
    {
        let n = self.imports.len();
        let ghost es = self.imports.entries();
        let ghost d0 = self.dependencies@;
        let ghost names0 = self.build_info.named_exports();
        let ghost stars0 = self.build_info.all_star_exports@;
        let mut i: usize = 0;
        while i < n
            invariant
                self.imports.wf(),
                self.imports.entries() == es,
                n == es.len(),
                0 <= i <= n,
                self.dependencies@.len() >= d0.len(),
                self.dependencies@.take(d0.len() as int) == d0,
                deps_view(self.dependencies@) == deps_view(d0) + entries_deps(es.take(i as int)),
                self.build_info.named_exports() == names0.union(entries_names(es.take(i as int))),
                self.build_info.all_star_exports@ == stars0 + star_ids(self.dependencies@.skip(d0.len() as int)),
                self.build_info.need_create_require == old(self).build_info.need_create_require,
                self.import_map == old(self).import_map,
                self.presentational_dependencies == old(self).presentational_dependencies,
            decreases n - i,
        {
            let (request, is_export) = self.imports.key(i);
            let ghost e = es[i as int];
            let ghost deps_i = self.dependencies@;
            let ghost names_i = self.build_info.named_exports();
            let info = self.imports.info(i);
            let m = info.specifiers.len();
            if is_export && m > 0 {
                let mut j: usize = 0;
                while j < m
                    invariant
                        self.imports.wf(),
                        self.imports.entries() == es,
                        0 <= i < n,
                        n == es.len(),
                        e == es[i as int],
                        (request@, is_export) == e.0,
                        is_export,
                        m == info.specifiers@.len(),
                        specifiers_view(info.specifiers@) == e.2,
                        0 <= j <= m,
                        self.dependencies@.len() >= deps_i.len(),
                        self.dependencies@.take(deps_i.len() as int) == deps_i,
                        deps_i.len() >= d0.len(),
                        deps_i.take(d0.len() as int) == d0,
                        deps_view(self.dependencies@) == deps_view(deps_i) + e.2.take(j as int).map_values(
                            |s: SpecifierV| export_dep(e.0.0, s),
                        ),
                        self.build_info.named_exports() == names_i.union(
                            e.2.take(j as int).map_values(|s: SpecifierV| exported_name(s)).to_set(),
                        ),
                        self.build_info.all_star_exports@ == stars0 + star_ids(self.dependencies@.skip(d0.len() as int)),
                        star_ids(self.dependencies@.skip(d0.len() as int)) == star_ids(deps_i.skip(d0.len() as int)),
                        self.build_info.need_create_require == old(self).build_info.need_create_require,
                        self.import_map == old(self).import_map,
                        self.presentational_dependencies == old(self).presentational_dependencies,
                    decreases m - j,
                {
                    let s = &info.specifiers[j];
                    let ghost sv = e.2[j as int];
                    assert(s@ == sv);
                    let (name, orig) = match s {
                        Specifier::Namespace(l) => (copy_string(l), None),
                        Specifier::Named(o, exported) => {
                            let name = match exported {
                                Some(x) => copy_string(x),
                                None => copy_string(o),
                            };
                            (name, Some(copy_string(o)))
                        },
                        Specifier::Default(l) => (copy_string(l), Some(owned("default"))),
                    };
                    assert(name@ == exported_name(sv));
                    assert(opt_view(orig) == original_name(sv));
                    let id = DependencyId::new(&mut self.id_counter);
                    let mut ids: Vec<(String, Option<String>)> = Vec::new();
                    ids.push((copy_string(&name), orig));
                    let dep = HarmonyExportImportedSpecifierDependency {
                        id,
                        request: copy_string(&request),
                        ids,
                        name: Some(copy_string(&name)),
                    };
                    let ghost before = self.dependencies@;
                    self.dependencies.push(HarmonyDependency::ExportImportedSpecifier(dep));
                    self.build_info.insert_named_export(name);
                    proof {
                        let d = self.dependencies@.last();
                        assert(pairs_view(ids@) =~= seq![(exported_name(sv), original_name(sv))]);
                        assert(d@ == export_dep(e.0.0, sv));
                        let f = |s: SpecifierV| export_dep(e.0.0, s);
                        let g = |s: SpecifierV| exported_name(s);
                        let t1 = e.2.take(j as int + 1);
                        let t0 = e.2.take(j as int);
                        assert(t1.map_values(f) =~= t0.map_values(f).push(f(sv)));
                        assert(t1.map_values(g) =~= t0.map_values(g).push(g(sv)));
                        lemma_to_set_push(t0.map_values(g), g(sv));
                        assert(deps_view(self.dependencies@) =~= deps_view(before).push(d@));
                        assert(self.dependencies@.take(deps_i.len() as int) =~= deps_i);
                        assert(self.dependencies@.skip(d0.len() as int) =~= before.skip(d0.len() as int).push(d));
                        lemma_star_ids_push(before.skip(d0.len() as int), d);
                        assert(names_i.union(t0.map_values(g).to_set()).insert(g(sv)) =~= names_i.union(
                            t0.map_values(g).to_set().insert(g(sv)),
                        ));
                    }
                    j = j + 1;
                }
                proof {
                    assert(e.2.take(m as int) =~= e.2);
                }
            }
            let mut copies: Vec<Specifier> = Vec::new();
            let mut k: usize = 0;
            while k < m
                invariant
                    0 <= k <= m,
                    m == info.specifiers@.len(),
                    specifiers_view(copies@) == specifiers_view(info.specifiers@.take(k as int)),
                decreases m - k,
            {
                let ghost before = copies@;
                let c = info.specifiers[k].copied();
                let ghost cv = c@;
                copies.push(c);
                proof {
                    assert(specifiers_view(copies@) =~= specifiers_view(before).push(cv));
                    assert(specifiers_view(info.specifiers@.take(k as int + 1)) =~= specifiers_view(
                        info.specifiers@.take(k as int),
                    ).push(cv));
                    assert(specifiers_view(copies@) =~= specifiers_view(info.specifiers@.take(k as int + 1)));
                }
                k = k + 1;
            }
            proof {
                assert(info.specifiers@.take(m as int) =~= info.specifiers@);
            }
            let exports_all = info.exports_all;
            let span = info.span;
            let id = DependencyId::new(&mut self.id_counter);
            let dep = HarmonyImportDependency {
                id,
                request,
                span,
                specifiers: copies,
                dependency_type: if is_export {
                    DependencyType::EsmExport
                } else {
                    DependencyType::EsmImport
                },
                exports_all,
            };
            let ghost before = self.dependencies@;
            self.dependencies.push(HarmonyDependency::Import(dep));
            if exports_all {
                self.build_info.all_star_exports.push(id);
            }
            proof {
                let d = self.dependencies@.last();
                let specs = if emits_specifiers(e) {
                    e.2.map_values(|s: SpecifierV| export_dep(e.0.0, s))
                } else {
                    Seq::empty()
                };
                assert(deps_view(before) =~= deps_view(deps_i) + specs);
                assert(deps_view(self.dependencies@) =~= deps_view(before).push(d@));
                assert(es.take(i as int + 1).drop_last() =~= es.take(i as int));
                assert(deps_view(self.dependencies@) =~= deps_view(d0) + entries_deps(es.take(i as int + 1)));
                if emits_specifiers(e) {
                    assert(self.build_info.named_exports() =~= names0.union(entries_names(es.take(i as int + 1))));
                } else {
                    assert(entry_names(e) =~= Set::empty());
                    assert(self.build_info.named_exports() =~= names0.union(entries_names(es.take(i as int + 1))));
                }
                assert(self.dependencies@.take(d0.len() as int) =~= d0) by {
                    assert(before.take(deps_i.len() as int) == deps_i);
                }
                assert(self.dependencies@.skip(d0.len() as int) =~= before.skip(d0.len() as int).push(d));
                lemma_star_ids_push(before.skip(d0.len() as int), d);
            }
            i = i + 1;
        }
        proof {
            assert(es.take(n as int) =~= es);
        }
        self.imports = Imports::new();
    }

    /// The whole ESM analysis of a module: the declaration pass, the emission pass, then
    /// the reference pass over the statements with the bindings the first pass found.
    pub fn visit_program(&mut self, program: &Program)
        requires
            old(self).imports.wf(),
            program_ok(*program),
        ensures
            final(self).imports.wf(),
            final(self).imports.entries().len() == 0,
            final(self).import_map@ == scan_items(old(self).state(), program.body@).0,
            templates_view(final(self).presentational_dependencies@) == scan_items(old(self).state(), program.body@).2,
            deps_view(final(self).dependencies@) == deps_view(old(self).dependencies@) + entries_deps(
                scan_items(old(self).state(), program.body@).1,
            ) + ref_items(
                scan_items(old(self).state(), program.body@).0,
                (Seq::empty(), false, Map::empty()),
                program.body@,
            ).0,
            final(self).build_info.named_exports() == old(self).build_info.named_exports().union(
                entries_names(scan_items(old(self).state(), program.body@).1),
            ),
            final(self).build_info.all_star_exports@ == old(self).build_info.all_star_exports@ + star_ids(
                final(self).dependencies@.subrange(
                    old(self).dependencies@.len() as int,
                    (old(self).dependencies@.len() + entries_deps(scan_items(old(self).state(), program.body@).1).len()) as int,
                ),
            ),
            final(self).build_info.need_create_require == old(self).build_info.need_create_require,
    {
        self.scan_declarations(program);
        let ghost mid = self.dependencies@;
        self.emit_dependencies();
        let ghost emitted = self.dependencies@;
        let mut counter = DependencyIdCounter::new();
        std::mem::swap(&mut counter, &mut self.id_counter);
        let mut refs = HarmonyImportRefDependencyScanner::new(Vec::new(), counter);
        proof {
            assert(deps_view(Seq::<HarmonyDependency>::empty()) =~= Seq::<DepV>::empty());
        }
        refs.visit_items(&self.import_map, program);
        let HarmonyImportRefDependencyScanner { mut dependencies, id_counter, .. } = refs;
        self.id_counter = id_counter;
        let ghost found = dependencies@;
        self.dependencies.append(&mut dependencies);
        proof {
            assert(self.dependencies@ =~= emitted + found);
            assert(deps_view(self.dependencies@) =~= deps_view(emitted) + deps_view(found));
            assert(deps_view(emitted).len() == emitted.len());
            let lo = old(self).dependencies@.len() as int;
            let hi = lo + entries_deps(scan_items(old(self).state(), program.body@).1).len();
            assert(deps_view(emitted).len() == deps_view(mid).len() + entries_deps(scan_items(old(self).state(), program.body@).1).len());
            assert(self.dependencies@.subrange(lo, hi) =~= emitted.skip(lo));
        }
    }
}

/// Runs the ESM analysis of a module from a fresh state and hands back its records and
/// rewrite templates; the build info gets the re-exported names and the `export *` ids.
pub fn analyze_module(
    program: &Program,
    build_info: BuildInfo,
    id_counter: DependencyIdCounter,
) -> (r: (Vec<HarmonyDependency>, Vec<RewriteTemplate>, BuildInfo, DependencyIdCounter))
    requires
        program_ok(*program),
    ensures
        deps_view(r.0@) == esm_records(*program),
        templates_view(r.1@) == esm_templates(*program),
        r.2.named_exports() == build_info.named_exports().union(
            entries_names(scan_items(fresh_state(), program.body@).1),
        ),
        r.2.all_star_exports@ == build_info.all_star_exports@ + star_ids(
            r.0@.subrange(0, entries_deps(scan_items(fresh_state(), program.body@).1).len() as int),
        ),
        r.2.need_create_require == build_info.need_create_require,
{
    let mut scanner = HarmonyImportDependencyScanner::new(
        Vec::new(),
        Vec::new(),
        ImportMap::new(),
        build_info,
        id_counter,
    );
    proof {
        assert(templates_view(Seq::<RewriteTemplate>::empty()) =~= Seq::empty());
        assert(deps_view(Seq::<HarmonyDependency>::empty()) =~= Seq::empty());
        assert(scanner.state() =~= fresh_state());
    }
    scanner.visit_program(program);
    proof {
        assert(deps_view(scanner.dependencies@) =~= esm_records(*program));
    }
    let HarmonyImportDependencyScanner { dependencies, presentational_dependencies, build_info, id_counter, .. } = scanner;
    (dependencies, presentational_dependencies, build_info, id_counter)
}

} // verus!
