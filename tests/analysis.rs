use rspack_deps::ast::{
    AssignExpr, AssignOp, CallExpr, Callee, ExportAll, ExportSpecifier, Expr, ExprOrSpread, Ident, ImportDecl,
    ImportSpecifier, Lit, MemberExpr, MemberProp, MetaPropKind, ModuleExportName, ModuleItem, NamedExport, NewExpr,
    ObjectPatProp, Pat, PatOrExpr, Program, Prop, PropName, Span, StrLit, VarDeclarator,
};
use rspack_deps::harmony::{analyze_module, HarmonyImportDependencyScanner};
use rspack_deps::id::DependencyIdCounter;
use rspack_deps::import_map::ImportMap;
use rspack_deps::new_url::match_new_url;
use rspack_deps::records::{BuildInfo, HarmonyDependency, Specifier};
use rspack_deps::taxonomy::DependencyType;

const TOP: u32 = 1;

fn sp(lo: u32, hi: u32) -> Span {
    Span { lo, hi }
}

fn ident(sym: &str, ctxt: u32, lo: u32) -> Ident {
    Ident { sym: sym.to_string(), ctxt, span: sp(lo, lo + sym.len() as u32) }
}

fn strlit(value: &str, lo: u32) -> StrLit {
    StrLit { value: value.to_string(), span: sp(lo, lo + value.len() as u32 + 2) }
}

fn stmt(e: Expr) -> ModuleItem {
    ModuleItem::Stmt(e)
}

fn call(callee: Expr, lo: u32, hi: u32) -> Expr {
    Expr::Call(CallExpr { span: sp(lo, hi), callee: Callee::Expr(Box::new(callee)), args: vec![] })
}

fn fresh(program: &Program) -> (Vec<HarmonyDependency>, Vec<rspack_deps::records::RewriteTemplate>, BuildInfo) {
    let (deps, templates, info, _) = analyze_module(program, BuildInfo::new(), DependencyIdCounter::new());
    (deps, templates, info)
}

#[test]
fn renamed_import_then_call() {
    // import { a as b } from "x"; b();
    let program = Program {
        body: vec![
            ModuleItem::Import(ImportDecl {
                span: sp(0, 28),
                src: strlit("x", 23),
                specifiers: vec![ImportSpecifier::Named {
                    local: ident("b", TOP, 14),
                    imported: Some(ModuleExportName::Ident(ident("a", 0, 9))),
                }],
            }),
            stmt(call(Expr::Ident(ident("b", TOP, 29)), 29, 32)),
        ],
    };
    let (deps, templates, _) = fresh(&program);
    assert_eq!(deps.len(), 2);
    match &deps[0] {
        HarmonyDependency::Import(d) => {
            assert_eq!(d.request, "x");
            assert_eq!(d.specifiers, vec![Specifier::Named("b".to_string(), Some("a".to_string()))]);
            assert_eq!(d.dependency_type, DependencyType::EsmImport);
            assert!(!d.exports_all);
        },
        other => panic!("unexpected {:?}", other),
    }
    match &deps[1] {
        HarmonyDependency::ImportSpecifier(d) => {
            assert_eq!(d.request, "x");
            assert_eq!(d.ids, vec!["a".to_string()]);
            assert!(d.is_call);
            assert!(d.call_like);
            assert!(!d.shorthand);
            assert_eq!((d.start, d.end), (29, 30));
        },
        other => panic!("unexpected {:?}", other),
    }
    assert_eq!(templates.len(), 1);
    assert_eq!((templates[0].start, templates[0].end, templates[0].content.as_str()), (0, 28, ""));
}

#[test]
fn export_star_records_star_id() {
    // export * from "./y";
    let program = Program {
        body: vec![ModuleItem::ExportAll(ExportAll { span: sp(0, 20), src: strlit("./y", 14) })],
    };
    let (deps, templates, info) = fresh(&program);
    assert_eq!(deps.len(), 1);
    match &deps[0] {
        HarmonyDependency::Import(d) => {
            assert_eq!(d.request, "./y");
            assert!(d.specifiers.is_empty());
            assert!(d.exports_all);
            assert_eq!(d.dependency_type, DependencyType::EsmExport);
            assert_eq!(info.all_star_exports, vec![d.id]);
        },
        other => panic!("unexpected {:?}", other),
    }
    assert_eq!(templates.len(), 1);
    assert_eq!((templates[0].start, templates[0].end), (0, 20));
}

fn import_meta_url(lo: u32) -> Expr {
    Expr::Member(MemberExpr {
        span: sp(lo, lo + 15),
        obj: Box::new(Expr::MetaProp { span: sp(lo, lo + 11), kind: MetaPropKind::ImportMeta }),
        prop: MemberProp::Ident(ident("url", 0, lo + 12)),
    })
}

fn new_url(spread_first: bool) -> NewExpr {
    // new URL("./img.png", import.meta.url)
    NewExpr {
        span: sp(10, 48),
        callee: Box::new(Expr::Ident(ident("URL", 0, 14))),
        args: Some(vec![
            ExprOrSpread { spread: spread_first, expr: Box::new(Expr::Lit(Lit::Str(strlit("./img.png", 18)))) },
            ExprOrSpread { spread: false, expr: Box::new(import_meta_url(31)) },
        ]),
    }
}

#[test]
fn new_url_with_import_meta_url() {
    assert_eq!(match_new_url(&new_url(false)), Some((18, 46, "./img.png".to_string())));
}

#[test]
fn new_url_spread_argument_is_not_recognized() {
    assert_eq!(match_new_url(&new_url(true)), None);
}

#[test]
fn new_url_needs_import_meta_url() {
    let mut e = new_url(false);
    e.args.as_mut().unwrap()[1].expr = Box::new(Expr::Ident(ident("base", TOP, 31)));
    assert_eq!(match_new_url(&e), None);
    let mut f = new_url(false);
    f.callee = Box::new(Expr::Ident(ident("Url", 0, 14)));
    assert_eq!(match_new_url(&f), None);
}

#[test]
fn namespace_destructuring_attaches_names_once() {
    // import * as ns from "m"; ({ a, b } = ns); ns.c;
    let program = Program {
        body: vec![
            ModuleItem::Import(ImportDecl {
                span: sp(0, 24),
                src: strlit("m", 20),
                specifiers: vec![ImportSpecifier::Namespace { local: ident("ns", TOP, 12) }],
            }),
            stmt(Expr::Assign(AssignExpr {
                span: sp(26, 40),
                op: AssignOp::Assign,
                left: PatOrExpr::Pat(Pat::Object {
                    span: sp(26, 34),
                    props: vec![
                        ObjectPatProp::Assign { key: ident("a", 2, 28), value: None },
                        ObjectPatProp::Assign { key: ident("b", 2, 31), value: None },
                    ],
                }),
                right: Box::new(Expr::Ident(ident("ns", TOP, 37))),
            })),
            stmt(Expr::Member(MemberExpr {
                span: sp(42, 46),
                obj: Box::new(Expr::Ident(ident("ns", TOP, 42))),
                prop: MemberProp::Ident(ident("c", 0, 45)),
            })),
            stmt(Expr::Ident(ident("ns", TOP, 48))),
        ],
    };
    let (deps, _, _) = fresh(&program);
    assert_eq!(deps.len(), 4);
    let uses: Vec<_> = deps
        .iter()
        .filter_map(|d| match d {
            HarmonyDependency::ImportSpecifier(s) => Some(s),
            _ => None,
        })
        .collect();
    assert_eq!(uses.len(), 3);
    let mut names = uses[0].referenced_properties_in_destructuring.clone().expect("names attached");
    names.sort();
    assert_eq!(names, vec!["a".to_string(), "b".to_string()]);
    assert_eq!((uses[0].start, uses[0].end), (37, 39));
    assert!(uses[0].ids.is_empty());
    assert_eq!(uses[1].ids, vec!["c".to_string()]);
    assert!(uses[1].call_like);
    assert!(uses[1].referenced_properties_in_destructuring.is_none());
    assert!(uses[2].referenced_properties_in_destructuring.is_none());
}

#[test]
fn member_call_and_shorthand_uses() {
    // import d from "m"; d.run(); ({ d });
    let program = Program {
        body: vec![
            ModuleItem::Import(ImportDecl {
                span: sp(0, 18),
                src: strlit("m", 14),
                specifiers: vec![ImportSpecifier::Default { local: ident("d", TOP, 7) }],
            }),
            stmt(call(
                Expr::Member(MemberExpr {
                    span: sp(19, 24),
                    obj: Box::new(Expr::Ident(ident("d", TOP, 19))),
                    prop: MemberProp::Computed(Box::new(Expr::Lit(Lit::Str(strlit("run", 21))))),
                }),
                19,
                26,
            )),
            stmt(Expr::Object { span: sp(28, 33), props: vec![Prop::Shorthand(ident("d", TOP, 30))] }),
            stmt(Expr::Object {
                span: sp(35, 45),
                props: vec![Prop::KeyValue { key: PropName::Ident(ident("k", 0, 36)), value: Box::new(Expr::Ident(ident("d", 9, 39))) }],
            }),
        ],
    };
    let (deps, _, _) = fresh(&program);
    assert_eq!(deps.len(), 3);
    match &deps[1] {
        HarmonyDependency::ImportSpecifier(s) => {
            assert_eq!(s.ids, vec!["default".to_string(), "run".to_string()]);
            assert!(s.is_call);
            assert!(!s.call_like);
            assert_eq!((s.start, s.end), (19, 24));
            assert_eq!(s.specifier, Specifier::Default("d".to_string()));
        },
        other => panic!("unexpected {:?}", other),
    }
    match &deps[2] {
        HarmonyDependency::ImportSpecifier(s) => {
            assert!(s.shorthand);
            assert!(!s.is_call);
            assert!(!s.call_like);
            assert_eq!((s.start, s.end), (30, 31));
        },
        other => panic!("unexpected {:?}", other),
    }
}

fn scanner() -> HarmonyImportDependencyScanner {
    HarmonyImportDependencyScanner::new(Vec::new(), Vec::new(), ImportMap::new(), BuildInfo::new(), DependencyIdCounter::new())
}

#[test]
fn empty_import_registers_importer_info() {
    // import {} from "m";
    let program = Program {
        body: vec![ModuleItem::Import(ImportDecl { span: sp(0, 19), src: strlit("m", 15), specifiers: vec![] })],
    };
    let mut s = scanner();
    s.scan_declarations(&program);
    assert_eq!(s.imports.len(), 1);
    assert_eq!(s.imports.key(0), ("m".to_string(), false));
    let info = s.imports.info(0);
    assert!(info.specifiers.is_empty());
    assert!(!info.exports_all);
    assert_eq!(info.span, sp(0, 19));
}

#[test]
fn export_star_and_named_reexport_share_one_entry() {
    // export * from "m"; export { a } from "m";
    let program = Program {
        body: vec![
            ModuleItem::ExportAll(ExportAll { span: sp(0, 18), src: strlit("m", 14) }),
            ModuleItem::NamedExport(NamedExport {
                span: sp(19, 41),
                src: Some(strlit("m", 37)),
                specifiers: vec![ExportSpecifier::Named { orig: ModuleExportName::Ident(ident("a", 0, 28)), exported: None }],
            }),
        ],
    };
    let mut s = scanner();
    s.scan_declarations(&program);
    assert_eq!(s.imports.len(), 1);
    assert_eq!(s.imports.key(0), ("m".to_string(), true));
    let info = s.imports.info(0);
    assert!(info.exports_all);
    assert_eq!(info.specifiers, vec![Specifier::Named("a".to_string(), None)]);
    assert_eq!(info.span, sp(0, 18));
    s.emit_dependencies();
    assert_eq!(s.dependencies.len(), 2);
    assert!(matches!(&s.dependencies[0], HarmonyDependency::ExportImportedSpecifier(d) if d.name.as_deref() == Some("a")));
    assert_eq!(s.build_info.harmony_named_exports, vec!["a".to_string()]);
    assert_eq!(s.build_info.all_star_exports.len(), 1);
}

#[test]
fn reexports_come_before_their_import_and_in_first_occurrence_order() {
    // import "b" first, then export { x as y } from "a", then import from "b" again
    let program = Program {
        body: vec![
            ModuleItem::Import(ImportDecl { span: sp(0, 10), src: strlit("b", 7), specifiers: vec![] }),
            ModuleItem::NamedExport(NamedExport {
                span: sp(11, 40),
                src: Some(strlit("a", 36)),
                specifiers: vec![
                    ExportSpecifier::Named {
                        orig: ModuleExportName::Ident(ident("x", 0, 20)),
                        exported: Some(ModuleExportName::Ident(ident("y", 0, 25))),
                    },
                    ExportSpecifier::Namespace { name: ModuleExportName::Ident(ident("ns", 0, 28)) },
                ],
            }),
            ModuleItem::Import(ImportDecl {
                span: sp(41, 60),
                src: strlit("b", 56),
                specifiers: vec![ImportSpecifier::Default { local: ident("q", TOP, 48) }],
            }),
        ],
    };
    let (deps, templates, info) = fresh(&program);
    assert_eq!(deps.len(), 4);
    match &deps[0] {
        HarmonyDependency::Import(d) => {
            assert_eq!(d.request, "b");
            assert_eq!(d.specifiers, vec![Specifier::Default("q".to_string())]);
            assert_eq!(d.span, sp(0, 10));
        },
        other => panic!("unexpected {:?}", other),
    }
    match &deps[1] {
        HarmonyDependency::ExportImportedSpecifier(d) => {
            assert_eq!(d.ids, vec![("y".to_string(), Some("x".to_string()))]);
            assert_eq!(d.name.as_deref(), Some("y"));
        },
        other => panic!("unexpected {:?}", other),
    }
    match &deps[2] {
        HarmonyDependency::ExportImportedSpecifier(d) => {
            assert_eq!(d.ids, vec![("ns".to_string(), None)]);
        },
        other => panic!("unexpected {:?}", other),
    }
    assert!(matches!(&deps[3], HarmonyDependency::Import(d) if d.request == "a" && d.dependency_type == DependencyType::EsmExport));
    let mut names = info.harmony_named_exports.clone();
    names.sort();
    assert_eq!(names, vec!["ns".to_string(), "y".to_string()]);
    assert_eq!(templates.len(), 3);
    assert!(templates.windows(2).all(|w| w[0].end <= w[1].start));
}

#[test]
fn analysis_is_deterministic_apart_from_ids() {
    let program = Program {
        body: vec![
            ModuleItem::Import(ImportDecl {
                span: sp(0, 20),
                src: strlit("x", 16),
                specifiers: vec![ImportSpecifier::Named { local: ident("f", TOP, 9), imported: None }],
            }),
            stmt(call(Expr::Ident(ident("f", TOP, 21)), 21, 24)),
        ],
    };
    let (a, ta, _, _) = analyze_module(&program, BuildInfo::new(), DependencyIdCounter::new());
    let (b, tb, _, _) = analyze_module(&program, BuildInfo::new(), DependencyIdCounter { next: 100 });
    assert_eq!(a.len(), b.len());
    for (x, y) in a.iter().zip(b.iter()) {
        let strip = |d: &HarmonyDependency| format!("{:?}", d).replace(&format!("{:?}", d.id()), "ID");
        assert_eq!(strip(x), strip(y));
        assert_ne!(x.id(), y.id());
    }
    assert_eq!(ta.len(), tb.len());
}

#[test]
fn module_without_declarations_has_no_imports() {
    let program = Program { body: vec![stmt(call(Expr::Ident(ident("f", TOP, 0)), 0, 3))] };
    let (deps, templates, info) = fresh(&program);
    assert!(deps.is_empty());
    assert!(templates.is_empty());
    assert!(info.all_star_exports.is_empty());
}

#[test]
fn local_export_is_left_alone() {
    let program = Program {
        body: vec![ModuleItem::NamedExport(NamedExport {
            span: sp(0, 12),
            src: None,
            specifiers: vec![ExportSpecifier::Named { orig: ModuleExportName::Ident(ident("v", TOP, 9)), exported: None }],
        })],
    };
    let (deps, templates, _) = fresh(&program);
    assert!(deps.is_empty());
    assert!(templates.is_empty());
}

#[test]
fn record_types_and_category() {
    let program = Program {
        body: vec![
            ModuleItem::NamedExport(NamedExport {
                span: sp(0, 20),
                src: Some(strlit("m", 16)),
                specifiers: vec![ExportSpecifier::Named { orig: ModuleExportName::Ident(ident("a", 0, 9)), exported: None }],
            }),
            ModuleItem::Import(ImportDecl {
                span: sp(21, 40),
                src: strlit("n", 36),
                specifiers: vec![ImportSpecifier::Default { local: ident("d", TOP, 28) }],
            }),
            stmt(Expr::Ident(ident("d", TOP, 41))),
        ],
    };
    let (deps, _, _) = fresh(&program);
    let types: Vec<DependencyType> = deps.iter().map(|d| d.dependency_type()).collect();
    assert_eq!(
        types,
        vec![
            DependencyType::EsmExportImportedSpecifier,
            DependencyType::EsmExport,
            DependencyType::EsmImport,
            DependencyType::EsmImportSpecifier,
        ]
    );
    assert!(deps.iter().all(|d| d.category() == rspack_deps::taxonomy::DependencyCategory::Esm));
}

#[test]
fn repeated_import_binding_is_kept_once() {
    // import { a } from "m"; import { a, b } from "m";
    let program = Program {
        body: vec![
            ModuleItem::Import(ImportDecl {
                span: sp(0, 22),
                src: strlit("m", 18),
                specifiers: vec![ImportSpecifier::Named { local: ident("a", TOP, 9), imported: None }],
            }),
            ModuleItem::Import(ImportDecl {
                span: sp(23, 48),
                src: strlit("m", 44),
                specifiers: vec![
                    ImportSpecifier::Named { local: ident("a", TOP, 32), imported: None },
                    ImportSpecifier::Named { local: ident("b", TOP, 35), imported: None },
                ],
            }),
        ],
    };
    let mut s = scanner();
    s.scan_declarations(&program);
    assert_eq!(s.imports.len(), 1);
    assert_eq!(
        s.imports.info(0).specifiers,
        vec![Specifier::Named("a".to_string(), None), Specifier::Named("b".to_string(), None)]
    );
    assert_eq!(s.presentational_dependencies.len(), 2);
}

#[test]
fn reexports_kept_once_per_exported_name() {
    // export { a } from "m"; export { a as b, c as b } from "m";
    let program = Program {
        body: vec![
            ModuleItem::NamedExport(NamedExport {
                span: sp(0, 22),
                src: Some(strlit("m", 18)),
                specifiers: vec![ExportSpecifier::Named { orig: ModuleExportName::Ident(ident("a", 0, 9)), exported: None }],
            }),
            ModuleItem::NamedExport(NamedExport {
                span: sp(23, 60),
                src: Some(strlit("m", 56)),
                specifiers: vec![
                    ExportSpecifier::Named {
                        orig: ModuleExportName::Ident(ident("a", 0, 32)),
                        exported: Some(ModuleExportName::Ident(ident("b", 0, 37))),
                    },
                    ExportSpecifier::Named {
                        orig: ModuleExportName::Ident(ident("c", 0, 40)),
                        exported: Some(ModuleExportName::Ident(ident("b", 0, 45))),
                    },
                ],
            }),
        ],
    };
    let mut s = scanner();
    s.scan_declarations(&program);
    assert_eq!(
        s.imports.info(0).specifiers,
        vec![Specifier::Named("a".to_string(), None), Specifier::Named("a".to_string(), Some("b".to_string()))]
    );
}

#[test]
fn string_export_alias_is_taken() {
    // export { a as "b c" } from "m";
    let program = Program {
        body: vec![ModuleItem::NamedExport(NamedExport {
            span: sp(0, 30),
            src: Some(strlit("m", 26)),
            specifiers: vec![ExportSpecifier::Named {
                orig: ModuleExportName::Ident(ident("a", 0, 9)),
                exported: Some(ModuleExportName::Str(strlit("b c", 14))),
            }],
        })],
    };
    let (deps, _, info) = fresh(&program);
    assert!(matches!(&deps[0], HarmonyDependency::ExportImportedSpecifier(d)
        if d.ids == vec![("b c".to_string(), Some("a".to_string()))] && d.name.as_deref() == Some("b c")));
    assert_eq!(info.harmony_named_exports, vec!["b c".to_string()]);
}

#[test]
fn const_destructuring_of_namespace_attaches_names() {
    // import * as ns from "m"; const { a, b } = ns; a();
    let program = Program {
        body: vec![
            ModuleItem::Import(ImportDecl {
                span: sp(0, 24),
                src: strlit("m", 20),
                specifiers: vec![ImportSpecifier::Namespace { local: ident("ns", TOP, 12) }],
            }),
            stmt(Expr::VarDecl {
                span: sp(25, 45),
                decls: vec![VarDeclarator {
                    span: sp(31, 44),
                    name: Pat::Object {
                        span: sp(31, 39),
                        props: vec![
                            ObjectPatProp::Assign { key: ident("a", TOP, 33), value: None },
                            ObjectPatProp::Assign { key: ident("b", TOP, 36), value: None },
                        ],
                    },
                    init: Some(Box::new(Expr::Ident(ident("ns", TOP, 42)))),
                }],
            }),
            stmt(call(Expr::Ident(ident("a", TOP, 46)), 46, 49)),
        ],
    };
    let (deps, _, _) = fresh(&program);
    let uses: Vec<_> = deps
        .iter()
        .filter_map(|d| match d {
            HarmonyDependency::ImportSpecifier(s) => Some(s),
            _ => None,
        })
        .collect();
    assert_eq!(uses.len(), 1);
    assert_eq!((uses[0].start, uses[0].end), (42, 44));
    let mut names = uses[0].referenced_properties_in_destructuring.clone().expect("names attached");
    names.sort();
    assert_eq!(names, vec!["a".to_string(), "b".to_string()]);
}
