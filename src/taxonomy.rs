use vstd::prelude::*;

use crate::text::{copy_string, owned, str_eq};

verus! {

/// What a dependency record stands for in the source.
#[derive(Clone, Debug, PartialEq, Eq, Hash)]
pub enum DependencyType {
    Unknown,
    ExportInfoApi,
    Entry,
    EsmImport,
    EsmImportSpecifier,
    EsmExport,
    EsmExportImportedSpecifier,
    EsmExportSpecifier,
    DynamicImport,
    CjsRequire,
    NewUrl,
    NewWorker,
    ImportMetaHotAccept,
    ImportMetaHotDecline,
    ModuleHotAccept,
    ModuleHotDecline,
    CssUrl,
    CssImport,
    CssCompose,
    ContextElement,
    ImportContext,
    CommonJSRequireContext,
    RequireContext,
    RequireResolve,
    WasmImport,
    WasmExportImported,
    StaticExports,
    Custom(String),
}

/// Whether two dependency types are the same kind (a plugin-defined one by its tag text).
pub open spec fn same_type(a: DependencyType, b: DependencyType) -> bool {
    match (a, b) {
        (DependencyType::Custom(x), DependencyType::Custom(y)) => x@ == y@,
        _ => a == b,
    }
}

/// The phrase shown for a dependency type.
pub open spec fn dependency_type_text(t: DependencyType) -> Seq<char> {
    match t {
        DependencyType::Unknown => "unknown"@,
        DependencyType::Entry => "entry"@,
        DependencyType::EsmImport => "esm import"@,
        DependencyType::EsmExport => "esm export"@,
        DependencyType::EsmExportSpecifier => "esm export specifier"@,
        DependencyType::EsmExportImportedSpecifier => "esm export import specifier"@,
        DependencyType::EsmImportSpecifier => "esm import specifier"@,
        DependencyType::DynamicImport => "dynamic import"@,
        DependencyType::CjsRequire => "cjs require"@,
        DependencyType::NewUrl => "new URL()"@,
        DependencyType::NewWorker => "new Worker()"@,
        DependencyType::ImportMetaHotAccept => "import.meta.webpackHot.accept"@,
        DependencyType::ImportMetaHotDecline => "import.meta.webpackHot.decline"@,
        DependencyType::ModuleHotAccept => "module.hot.accept"@,
        DependencyType::ModuleHotDecline => "module.hot.decline"@,
        DependencyType::CssUrl => "css url"@,
        DependencyType::CssImport => "css import"@,
        DependencyType::CssCompose => "css compose"@,
        DependencyType::ContextElement => "context element"@,
        DependencyType::ImportContext => "import context"@,
        DependencyType::CommonJSRequireContext => "commonjs require context"@,
        DependencyType::RequireContext => "require.context"@,
        DependencyType::RequireResolve => "require.resolve"@,
        DependencyType::WasmImport => "wasm import"@,
        DependencyType::WasmExportImported => "wasm export imported"@,
        DependencyType::StaticExports => "static exports"@,
        DependencyType::Custom(ty) => "custom "@ + ty@,
        DependencyType::ExportInfoApi => "export info api"@,
    }
}

impl DependencyType {
    /// A copy of this type.
    pub fn copied(&self) -> (r: DependencyType)
        ensures
            same_type(r, *self),
    {
        match self {
            DependencyType::Unknown => DependencyType::Unknown,
            DependencyType::ExportInfoApi => DependencyType::ExportInfoApi,
            DependencyType::Entry => DependencyType::Entry,
            DependencyType::EsmImport => DependencyType::EsmImport,
            DependencyType::EsmImportSpecifier => DependencyType::EsmImportSpecifier,
            DependencyType::EsmExport => DependencyType::EsmExport,
            DependencyType::EsmExportImportedSpecifier => DependencyType::EsmExportImportedSpecifier,
            DependencyType::EsmExportSpecifier => DependencyType::EsmExportSpecifier,
            DependencyType::DynamicImport => DependencyType::DynamicImport,
            DependencyType::CjsRequire => DependencyType::CjsRequire,
            DependencyType::NewUrl => DependencyType::NewUrl,
            DependencyType::NewWorker => DependencyType::NewWorker,
            DependencyType::ImportMetaHotAccept => DependencyType::ImportMetaHotAccept,
            DependencyType::ImportMetaHotDecline => DependencyType::ImportMetaHotDecline,
            DependencyType::ModuleHotAccept => DependencyType::ModuleHotAccept,
            DependencyType::ModuleHotDecline => DependencyType::ModuleHotDecline,
            DependencyType::CssUrl => DependencyType::CssUrl,
            DependencyType::CssImport => DependencyType::CssImport,
            DependencyType::CssCompose => DependencyType::CssCompose,
            DependencyType::ContextElement => DependencyType::ContextElement,
            DependencyType::ImportContext => DependencyType::ImportContext,
            DependencyType::CommonJSRequireContext => DependencyType::CommonJSRequireContext,
            DependencyType::RequireContext => DependencyType::RequireContext,
            DependencyType::RequireResolve => DependencyType::RequireResolve,
            DependencyType::WasmImport => DependencyType::WasmImport,
            DependencyType::WasmExportImported => DependencyType::WasmExportImported,
            DependencyType::StaticExports => DependencyType::StaticExports,
            DependencyType::Custom(s) => DependencyType::Custom(copy_string(s)),
        }
    }

    /// The phrase shown for this type (`custom <tag>` for a plugin-defined one).
    pub fn to_string(&self) -> (r: String)
        ensures
            r@ == dependency_type_text(*self),
    {
        match self {
            DependencyType::Unknown => owned("unknown"),
            DependencyType::Entry => owned("entry"),
            DependencyType::EsmImport => owned("esm import"),
            DependencyType::EsmExport => owned("esm export"),
            DependencyType::EsmExportSpecifier => owned("esm export specifier"),
            DependencyType::EsmExportImportedSpecifier => owned("esm export import specifier"),
            DependencyType::EsmImportSpecifier => owned("esm import specifier"),
            DependencyType::DynamicImport => owned("dynamic import"),
            DependencyType::CjsRequire => owned("cjs require"),
            DependencyType::NewUrl => owned("new URL()"),
            DependencyType::NewWorker => owned("new Worker()"),
            DependencyType::ImportMetaHotAccept => owned("import.meta.webpackHot.accept"),
            DependencyType::ImportMetaHotDecline => owned("import.meta.webpackHot.decline"),
            DependencyType::ModuleHotAccept => owned("module.hot.accept"),
            DependencyType::ModuleHotDecline => owned("module.hot.decline"),
            DependencyType::CssUrl => owned("css url"),
            DependencyType::CssImport => owned("css import"),
            DependencyType::CssCompose => owned("css compose"),
            DependencyType::ContextElement => owned("context element"),
            DependencyType::ImportContext => owned("import context"),
            DependencyType::CommonJSRequireContext => owned("commonjs require context"),
            DependencyType::RequireContext => owned("require.context"),
            DependencyType::RequireResolve => owned("require.resolve"),
            DependencyType::WasmImport => owned("wasm import"),
            DependencyType::WasmExportImported => owned("wasm export imported"),
            DependencyType::StaticExports => owned("static exports"),
            DependencyType::Custom(ty) => {
                let prefix = owned("custom ");
                prefix.concat(ty.as_str())
            },
            DependencyType::ExportInfoApi => owned("export info api"),
        }
    }
}

impl Default for DependencyType {
    fn default() -> (r: Self)
        ensures
            r == DependencyType::Unknown,
    {
        DependencyType::Unknown
    }
}

/// The family a dependency belongs to.
#[derive(Clone, Copy, Debug, PartialEq, Eq, Structural, Hash)]
pub enum DependencyCategory {
    Unknown,
    Esm,
    CommonJS,
    Url,
    CssImport,
    CssCompose,
    Wasm,
    Worker,
}

/// The exact lowercase name of a category.
pub open spec fn category_text(c: DependencyCategory) -> Seq<char> {
    match c {
        DependencyCategory::Unknown => "unknown"@,
        DependencyCategory::Esm => "esm"@,
        DependencyCategory::CommonJS => "commonjs"@,
        DependencyCategory::Url => "url"@,
        DependencyCategory::CssImport => "css-import"@,
        DependencyCategory::CssCompose => "css-compose"@,
        DependencyCategory::Wasm => "wasm"@,
        DependencyCategory::Worker => "worker"@,
    }
}

impl DependencyCategory {
    /// The name of this category.
    pub fn to_string(&self) -> (r: String)
        ensures
            r@ == category_text(*self),
    {
        match self {
            DependencyCategory::Unknown => owned("unknown"),
            DependencyCategory::Esm => owned("esm"),
            DependencyCategory::CommonJS => owned("commonjs"),
            DependencyCategory::Url => owned("url"),
            DependencyCategory::CssImport => owned("css-import"),
            DependencyCategory::CssCompose => owned("css-compose"),
            DependencyCategory::Wasm => owned("wasm"),
            DependencyCategory::Worker => owned("worker"),
        }
    }

    /// Reads a category from its name; any other text is rejected.
    pub fn parse(s: &str) -> (r: Option<DependencyCategory>)
        ensures
            r matches Some(c) ==> category_text(c) == s@,
            r is None ==> forall|c: DependencyCategory| category_text(c) != s@,
    {
        if str_eq(s, "esm") {
            Some(DependencyCategory::Esm)
        } else if str_eq(s, "commonjs") {
            Some(DependencyCategory::CommonJS)
        } else if str_eq(s, "url") {
            Some(DependencyCategory::Url)
        } else if str_eq(s, "wasm") {
            Some(DependencyCategory::Wasm)
        } else if str_eq(s, "css-import") {
            Some(DependencyCategory::CssImport)
        } else if str_eq(s, "css-compose") {
            Some(DependencyCategory::CssCompose)
        } else if str_eq(s, "worker") {
            Some(DependencyCategory::Worker)
        } else if str_eq(s, "unknown") {
            Some(DependencyCategory::Unknown)
        } else {
            assert forall|c: DependencyCategory| category_text(c) != s@ by {
                match c {
                    DependencyCategory::Unknown => {},
                    DependencyCategory::Esm => {},
                    DependencyCategory::CommonJS => {},
                    DependencyCategory::Url => {},
                    DependencyCategory::CssImport => {},
                    DependencyCategory::CssCompose => {},
                    DependencyCategory::Wasm => {},
                    DependencyCategory::Worker => {},
                }
            }
            None
        }
    }
}

impl Default for DependencyCategory {
    fn default() -> (r: Self)
        ensures
            r == DependencyCategory::Unknown,
    {
        DependencyCategory::Unknown
    }
}

/// How the modules of a context request are loaded.
#[derive(Clone, Copy, Debug, PartialEq, Eq, Structural, Hash)]
pub enum ContextMode {
    Sync,
    Eager,
    Weak,
    AsyncWeak,
    Lazy,
    LazyOnce,
}

/// The options of a `require.context`-style request.
#[derive(Clone, Debug)]
pub struct ContextOptions {
    pub mode: ContextMode,
    pub recursive: bool,
    pub reg_exp: String,
    pub included: Option<String>,
    pub excluded: Option<String>,
    pub chunk_name: Option<String>,
}

} // verus!
