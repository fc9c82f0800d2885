use rspack_deps::api_plugin::{APIPlugin, ChunkInitFragments, InitFragmentStage, NormalInitFragment};
use rspack_deps::ast::{Expr, Ident, ImportDecl, ImportSpecifier, ModuleExportName, NewExpr, Span, StrLit};
use rspack_deps::copy_options::{
    CopyOptionsError, CopyPattern, CopyRspackPluginOptions, RawCopyGlobOptions, RawCopyPattern,
    RawCopyRspackPluginOptions, ToType,
};
use rspack_deps::dependency::{is_async_dependency, ModuleDependency};
use rspack_deps::exports::{ExportNameOrSpec, ExportSpec, ExportsOfExportsSpec, ExportsReferencedType, ExportsSpec};
use rspack_deps::id::{DependencyId, DependencyIdCounter};
use rspack_deps::records::BuildInfo;
use rspack_deps::taxonomy::{ContextMode, ContextOptions, DependencyCategory, DependencyType};
use rspack_deps::worker::{default_worker_syntax, worker_from_groups, WorkerSyntax, WorkerSyntaxList, WorkerSyntaxScanner};

#[test]
fn category_names_round_trip() {
    let all = [
        DependencyCategory::Unknown,
        DependencyCategory::Esm,
        DependencyCategory::CommonJS,
        DependencyCategory::Url,
        DependencyCategory::CssImport,
        DependencyCategory::CssCompose,
        DependencyCategory::Wasm,
        DependencyCategory::Worker,
    ];
    for c in all {
        assert_eq!(DependencyCategory::parse(&c.to_string()), Some(c));
    }
    assert_eq!(DependencyCategory::Esm.to_string(), "esm");
    assert_eq!(DependencyCategory::CssCompose.to_string(), "css-compose");
    assert_eq!(DependencyCategory::parse("ESM"), None);
    assert_eq!(DependencyCategory::parse(""), None);
}

#[test]
fn dependency_type_phrases() {
    assert_eq!(DependencyType::NewUrl.to_string(), "new URL()");
    assert_eq!(DependencyType::ImportMetaHotAccept.to_string(), "import.meta.webpackHot.accept");
    assert_eq!(DependencyType::EsmExportImportedSpecifier.to_string(), "esm export import specifier");
    assert_eq!(DependencyType::Custom("plugin-x".to_string()).to_string(), "custom plugin-x");
    assert_eq!(DependencyType::default(), DependencyType::Unknown);
}

#[test]
fn ids_count_up_and_wrap() {
    let mut c = DependencyIdCounter::new();
    assert_eq!(DependencyId::new(&mut c), DependencyId(0));
    assert_eq!(DependencyId::new(&mut c), DependencyId(1));
    let mut top = DependencyIdCounter { next: u32::MAX };
    assert_eq!(DependencyId::new(&mut top).as_u32(), u32::MAX);
    assert_eq!(top.next, 0);
    assert_eq!(DependencyId::from(7).as_u32(), 7);
}

fn dep(t: DependencyType, mode: Option<ContextMode>) -> ModuleDependency {
    ModuleDependency {
        id: DependencyId(0),
        dependency_type: t,
        request: "./chunk".to_string(),
        span: None,
        weak: false,
        options: mode.map(|m| ContextOptions {
            mode: m,
            recursive: true,
            reg_exp: "\\.json$".to_string(),
            included: None,
            excluded: None,
            chunk_name: None,
        }),
    }
}

#[test]
fn async_dependencies() {
    assert!(is_async_dependency(&dep(DependencyType::DynamicImport, None)));
    assert!(is_async_dependency(&dep(DependencyType::NewWorker, None)));
    assert!(is_async_dependency(&dep(DependencyType::ContextElement, Some(ContextMode::Lazy))));
    assert!(is_async_dependency(&dep(DependencyType::ContextElement, Some(ContextMode::LazyOnce))));
    assert!(!is_async_dependency(&dep(DependencyType::ContextElement, Some(ContextMode::Eager))));
    assert!(!is_async_dependency(&dep(DependencyType::ContextElement, None)));
    assert!(!is_async_dependency(&dep(DependencyType::RequireContext, Some(ContextMode::Sync))));
    assert!(!is_async_dependency(&dep(DependencyType::CjsRequire, None)));
}

#[test]
fn async_is_stable_across_copies() {
    let d = dep(DependencyType::DynamicImport, None);
    let c = d.copied();
    assert_eq!(is_async_dependency(&d), is_async_dependency(&c));
    assert_eq!(c.request, d.request);
    let e = dep(DependencyType::ContextElement, Some(ContextMode::Weak));
    assert_eq!(is_async_dependency(&e), is_async_dependency(&e.copied()));
}

fn id(sym: &str, ctxt: u32) -> Ident {
    Ident { sym: sym.to_string(), ctxt, span: Span { lo: 0, hi: sym.len() as u32 } }
}

fn new_of(callee: Ident) -> NewExpr {
    NewExpr { span: Span { lo: 0, hi: 20 }, callee: Box::new(Expr::Ident(callee)), args: Some(vec![]) }
}

#[test]
fn worker_syntax_from_imports_and_globals() {
    let syntax = default_worker_syntax();
    let mut scanner = WorkerSyntaxScanner::new(&syntax);
    // import { Worker as W } from "worker_threads"; import W2 from "other";
    scanner.visit_import_decl(&ImportDecl {
        span: Span { lo: 0, hi: 40 },
        src: StrLit { value: "worker_threads".to_string(), span: Span { lo: 25, hi: 41 } },
        specifiers: vec![ImportSpecifier::Named {
            local: id("W", 5),
            imported: Some(ModuleExportName::Ident(id("Worker", 0))),
        }],
    });
    scanner.visit_import_decl(&ImportDecl {
        span: Span { lo: 42, hi: 70 },
        src: StrLit { value: "other".to_string(), span: Span { lo: 60, hi: 67 } },
        specifiers: vec![ImportSpecifier::Named { local: id("Worker2", 5), imported: None }],
    });
    let list = scanner.into_list();
    assert!(list.match_new_worker(&new_of(id("W", 5))));
    assert!(!list.match_new_worker(&new_of(id("W", 6))));
    assert!(list.match_new_worker(&new_of(id("Worker", 9))));
    assert!(list.match_new_worker(&new_of(id("SharedWorker", 0))));
    assert!(!list.match_new_worker(&new_of(id("Worker2", 5))));
    let not_ident = NewExpr { span: Span { lo: 0, hi: 5 }, callee: Box::new(Expr::Other { span: Span { lo: 0, hi: 1 }, children: vec![] }), args: None };
    assert!(!list.match_new_worker(&not_ident));
}

#[test]
fn worker_syntax_with_parens_and_default() {
    let syntax = ["default() from my-worker", "MyWorker()"];
    let mut scanner = WorkerSyntaxScanner::new(&syntax);
    scanner.visit_import_decl(&ImportDecl {
        span: Span { lo: 0, hi: 30 },
        src: StrLit { value: "my-worker".to_string(), span: Span { lo: 18, hi: 29 } },
        specifiers: vec![ImportSpecifier::Default { local: id("Pool", 3) }],
    });
    let list = scanner.into_list();
    assert!(list.match_new_worker(&new_of(id("Pool", 3))));
    assert!(list.match_new_worker(&new_of(id("MyWorker", 0))));
    assert!(!list.match_new_worker(&new_of(id("Pool", 4))));
}

fn raw(to_type: Option<&str>, ignore: Option<Vec<&str>>) -> RawCopyPattern {
    RawCopyPattern {
        from: "src/assets".to_string(),
        to: Some("dist".to_string()),
        context: None,
        to_type: to_type.map(|s| s.to_string()),
        no_error_on_missing: true,
        force: false,
        priority: 3,
        glob_options: RawCopyGlobOptions {
            case_sensitive_match: Some(true),
            dot: None,
            ignore: ignore.map(|v| v.into_iter().map(|s| s.to_string()).collect()),
        },
    }
}

#[test]
fn copy_pattern_to_type_ignores_case() {
    let p = CopyPattern::from_raw(raw(Some("DIR"), None)).unwrap();
    assert_eq!(p.to_type, Some(ToType::Dir));
    assert_eq!(p.from, "src/assets");
    assert_eq!(p.to.as_deref(), Some("dist"));
    assert_eq!(p.priority, 3);
    assert!(p.no_error_on_missing);
    assert_eq!(CopyPattern::from_raw(raw(Some("Template"), None)).unwrap().to_type, Some(ToType::Template));
    assert_eq!(CopyPattern::from_raw(raw(Some("file"), None)).unwrap().to_type, Some(ToType::File));
    assert_eq!(CopyPattern::from_raw(raw(Some("folder"), None)).unwrap().to_type, None);
    assert_eq!(CopyPattern::from_raw(raw(None, None)).unwrap().to_type, None);
}

#[test]
fn copy_pattern_ignore_globs() {
    let p = CopyPattern::from_raw(raw(None, Some(vec!["**/*.tmp", "a?c"]))).unwrap();
    let ignore = p.glob_options.ignore.unwrap();
    assert_eq!(ignore.len(), 2);
    assert_eq!(ignore[0].as_str(), "**/*.tmp");
    match CopyPattern::from_raw(raw(None, Some(vec!["ok", "***", "a**b"]))) {
        Err(CopyOptionsError::InvalidIgnorePattern(bad)) => assert_eq!(bad, "***"),
        other => panic!("unexpected {:?}", other),
    }
}

#[test]
fn copy_options_convert_each_pattern() {
    let opts = CopyRspackPluginOptions::from_raw(RawCopyRspackPluginOptions {
        patterns: vec![raw(Some("dir"), None), raw(None, Some(vec!["*.md"]))],
    })
    .unwrap();
    assert_eq!(opts.patterns.len(), 2);
    assert_eq!(opts.patterns[0].to_type, Some(ToType::Dir));
    let bad = CopyRspackPluginOptions::from_raw(RawCopyRspackPluginOptions {
        patterns: vec![raw(None, None), raw(None, Some(vec!["x/***"]))],
    });
    assert!(matches!(bad, Err(CopyOptionsError::InvalidIgnorePattern(b)) if b == "x/***"));
}

#[test]
fn create_require_fragment_added_once() {
    let plugin = APIPlugin;
    let mut fragments = ChunkInitFragments::new();
    let mut info = BuildInfo::new();
    plugin.render_module_content(Some(&info), &mut fragments);
    assert_eq!(fragments.len(), 0);
    plugin.render_module_content(None, &mut fragments);
    assert_eq!(fragments.len(), 0);
    info.need_create_require = true;
    plugin.render_module_content(Some(&info), &mut fragments);
    plugin.render_module_content(Some(&info), &mut fragments);
    assert_eq!(fragments.len(), 1);
    let (key, fragment) = fragments.get(0);
    assert_eq!(key, "external module node-commonjs");
    assert_eq!(fragment.content, "import { createRequire as __WEBPACK_EXTERNAL_createRequire } from 'module';\n");
    assert_eq!(fragment.stage, InitFragmentStage::StageHarmonyImports);
    assert!(fragment.end_content.is_none());
}

#[test]
fn existing_fragment_is_kept() {
    let mut fragments = ChunkInitFragments::new();
    fragments.entry_or_insert(
        "external module node-commonjs".to_string(),
        NormalInitFragment::new("custom".to_string(), InitFragmentStage::StageConstants, None),
    );
    let mut info = BuildInfo::new();
    info.need_create_require = true;
    APIPlugin.render_module_content(Some(&info), &mut fragments);
    assert_eq!(fragments.len(), 1);
    assert_eq!(fragments.get(0).1.content, "custom");
}

#[test]
fn export_spec_defaults() {
    let s = ExportSpec::new("x".to_string());
    assert_eq!(s.name, "x");
    assert!(s.can_mangle.is_none() && s.priority.is_none() && s.from.is_none());
    assert!(matches!(ExportNameOrSpec::default(), ExportNameOrSpec::String(n) if n.is_empty()));
    assert!(matches!(ExportsOfExportsSpec::default(), ExportsOfExportsSpec::Null));
    assert!(matches!(ExportsSpec::default().exports, ExportsOfExportsSpec::Null));
    match ExportsReferencedType::from_name("a".to_string()) {
        ExportsReferencedType::String(v) => assert_eq!(v, vec![vec!["a".to_string()]]),
        other => panic!("unexpected {:?}", other),
    }
    match ExportsReferencedType::from_path(vec!["a".to_string(), "b".to_string()]) {
        ExportsReferencedType::String(v) => assert_eq!(v, vec![vec!["a".to_string(), "b".to_string()]]),
        other => panic!("unexpected {:?}", other),
    }
}

#[test]
fn worker_groups_give_name_and_module() {
    let g = vec![Some("Worker from worker_threads".to_string()), Some("Worker".to_string()), None, Some("worker_threads".to_string())];
    assert_eq!(worker_from_groups(&g), Some(("Worker".to_string(), "worker_threads".to_string())));
    let short = vec![Some("x".to_string()), Some("x".to_string())];
    assert_eq!(worker_from_groups(&short), None);
    let missing = vec![Some("x".to_string()), None, None, Some("m".to_string())];
    assert_eq!(worker_from_groups(&missing), None);
}

#[test]
fn extend_files_each_syntax_by_token() {
    let mut list = WorkerSyntaxList::new();
    list.extend(vec![WorkerSyntax::new("Local".to_string(), Some(4)), WorkerSyntax::new("Global".to_string(), None)]);
    assert!(list.match_new_worker(&new_of(id("Local", 4))));
    assert!(!list.match_new_worker(&new_of(id("Local", 5))));
    assert!(list.match_new_worker(&new_of(id("Global", 7))));
}
