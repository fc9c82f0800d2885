use vstd::prelude::*;

use crate::id::DependencyId;

verus! {

/// What a dependency says about one export of its module.
#[derive(Debug, Default)]
pub struct ExportSpec {
    pub name: String,
    pub export: Option<Vec<String>>,
    pub exports: Option<Vec<ExportNameOrSpec>>,
    pub can_mangle: Option<bool>,
    pub terminal_binding: Option<bool>,
    pub priority: Option<u8>,
    pub hidden: Option<bool>,
    /// the dependency whose module connection the export is re-exported from
    pub from: Option<DependencyId>,
    pub from_export: Option<DependencyId>,
}

impl ExportSpec {
    /// An export known by its name only.
    pub fn new(name: String) -> (r: ExportSpec)
        ensures
            r.name@ == name@,
            r.export is None,
            r.exports is None,
            r.can_mangle is None,
            r.terminal_binding is None,
            r.priority is None,
            r.hidden is None,
            r.from is None,
            r.from_export is None,
    {
        ExportSpec {
            name,
            export: None,
            exports: None,
            can_mangle: None,
            terminal_binding: None,
            priority: None,
            hidden: None,
            from: None,
            from_export: None,
        }
    }
}

/// An export given by name alone or with its details.
#[derive(Debug)]
pub enum ExportNameOrSpec {
    String(String),
    ExportSpec(ExportSpec),
}

impl Default for ExportNameOrSpec {
    fn default() -> (r: Self)
        ensures
            r matches ExportNameOrSpec::String(s) && s@.len() == 0,
    {
        ExportNameOrSpec::String(String::new())
    }
}

/// The exports a dependency contributes: all (`True`), unknown (`Null`), or a list.
#[derive(Debug)]
pub enum ExportsOfExportsSpec {
    True,
    Null,
    Array(Vec<ExportNameOrSpec>),
}

impl Default for ExportsOfExportsSpec {
    fn default() -> (r: Self)
        ensures
            r is Null,
    {
        ExportsOfExportsSpec::Null
    }
}

/// A dependency's contribution to its module's export table.
#[derive(Debug)]
pub struct ExportsSpec {
    pub exports: ExportsOfExportsSpec,
    pub priority: Option<u8>,
    pub can_mangle: Option<bool>,
    pub terminal_binding: Option<bool>,
    pub from: Option<DependencyId>,
    /// identifiers of the modules the exports depend on
    pub dependencies: Option<Vec<String>>,
    pub hide_export: Option<Vec<String>>,
    pub exclude_exports: Option<Vec<String>>,
}

impl Default for ExportsSpec {
    fn default() -> (r: ExportsSpec)
        ensures
            r.exports is Null,
            r.priority is None,
            r.can_mangle is None,
            r.terminal_binding is None,
            r.from is None,
            r.dependencies is None,
            r.hide_export is None,
            r.exclude_exports is None,
    {
        ExportsSpec {
            exports: ExportsOfExportsSpec::Null,
            priority: None,
            can_mangle: None,
            terminal_binding: None,
            from: None,
            dependencies: None,
            hide_export: None,
            exclude_exports: None,
        }
    }
}

/// An export path that is used, and whether its name may be mangled.
#[derive(Debug)]
pub struct ReferencedExport {
    pub name: Vec<String>,
    pub can_mangle: bool,
}

/// Which exports of a module a dependency uses.
#[derive(Debug)]
pub enum ExportsReferencedType {
    /// none
    No,
    /// the exports object itself
    Object,
    /// these export paths
    String(Vec<Vec<String>>),
    /// these export paths, with mangling permission
    Value(Vec<ReferencedExport>),
}

impl ExportsReferencedType {
    /// One export, by name.
    pub fn from_name(name: String) -> (r: ExportsReferencedType)
        ensures
            r matches ExportsReferencedType::String(v) && v@.len() == 1 && v@[0]@.len() == 1 && v@[0]@[0]@ == name@,
    {
        let mut path: Vec<String> = Vec::new();
        path.push(name);
        let mut v: Vec<Vec<String>> = Vec::new();
        v.push(path);
        ExportsReferencedType::String(v)
    }

    /// One export path.
    pub fn from_path(path: Vec<String>) -> (r: ExportsReferencedType)
        ensures
            r matches ExportsReferencedType::String(v) && v@ == seq![path],
    {
        let mut v: Vec<Vec<String>> = Vec::new();
        v.push(path);
        proof {
            assert(v@ =~= seq![path]);
        }
        ExportsReferencedType::String(v)
    }

    /// Several export paths.
    pub fn from_paths(paths: Vec<Vec<String>>) -> (r: ExportsReferencedType)
        ensures
            r matches ExportsReferencedType::String(v) && v@ == paths@,
    {
        ExportsReferencedType::String(paths)
    }

    /// Several export paths with their mangling permission.
    pub fn from_referenced(exports: Vec<ReferencedExport>) -> (r: ExportsReferencedType)
        ensures
            r matches ExportsReferencedType::Value(v) && v@ == exports@,
    {
        ExportsReferencedType::Value(exports)
    }
}

} // verus!
