use vstd::prelude::*;

use crate::ast::Span;
use crate::id::DependencyId;
use crate::taxonomy::{ContextMode, ContextOptions, DependencyType, same_type};
use crate::text::copy_string;

verus! {

/// A dependency record that requests a module.
#[derive(Debug)]
pub struct ModuleDependency {
    pub id: DependencyId,
    pub dependency_type: DependencyType,
    pub request: String,
    pub span: Option<Span>,
    pub weak: bool,
    pub options: Option<ContextOptions>,
}

/// Whether the requested module is loaded asynchronously: a dynamic import, a worker,
/// or a context element loaded lazily.
pub open spec fn async_kind(t: DependencyType, mode: Option<ContextMode>) -> bool {
    ||| t is DynamicImport
    ||| t is NewWorker
    ||| (t is ContextElement && (mode == Some(ContextMode::Lazy) || mode == Some(ContextMode::LazyOnce)))
}

pub open spec fn mode_of(o: Option<ContextOptions>) -> Option<ContextMode> {
    match o {
        Some(op) => Some(op.mode),
        None => None,
    }
}

pub open spec fn spec_is_async(d: ModuleDependency) -> bool {
    async_kind(d.dependency_type, mode_of(d.options))
}

pub fn is_async_dependency(dep: &ModuleDependency) -> (r: bool)
    ensures
        r == spec_is_async(*dep),
{
    match &dep.dependency_type {
        DependencyType::DynamicImport => true,
        DependencyType::NewWorker => true,
        DependencyType::ContextElement => match &dep.options {
            Some(options) => match options.mode {
                ContextMode::Lazy => true,
                ContextMode::LazyOnce => true,
                _ => false,
            },
            None => false,
        },
        _ => false,
    }
}

pub open spec fn same_options(a: Option<ContextOptions>, b: Option<ContextOptions>) -> bool {
    match (a, b) {
        (Some(x), Some(y)) => x.mode == y.mode && x.recursive == y.recursive && x.reg_exp@ == y.reg_exp@
            && crate::records::opt_view(x.included) == crate::records::opt_view(y.included)
            && crate::records::opt_view(x.excluded) == crate::records::opt_view(y.excluded)
            && crate::records::opt_view(x.chunk_name) == crate::records::opt_view(y.chunk_name),
        (None, None) => true,
        _ => false,
    }
}

impl ModuleDependency {
    /// Whether `self` is a copy of `other`: every field holds the same value.
    pub open spec fn same_record(&self, other: ModuleDependency) -> bool {
        &&& self.id == other.id
        &&& same_type(self.dependency_type, other.dependency_type)
        &&& self.request@ == other.request@
        &&& self.span == other.span
        &&& self.weak == other.weak
        &&& same_options(self.options, other.options)
    }

    /// A deep copy of the record (graph snapshots fork records this way).
    pub fn copied(&self) -> (r: ModuleDependency)
        ensures
            r.same_record(*self),
    {
        let options = match &self.options {
            Some(o) => Some(ContextOptions {
                mode: o.mode,
                recursive: o.recursive,
                reg_exp: copy_string(&o.reg_exp),
                included: crate::records::copy_opt_string(&o.included),
                excluded: crate::records::copy_opt_string(&o.excluded),
                chunk_name: crate::records::copy_opt_string(&o.chunk_name),
            }),
            None => None,
        };
        ModuleDependency {
            id: self.id,
            dependency_type: self.dependency_type.copied(),
            request: copy_string(&self.request),
            span: self.span,
            weak: self.weak,
            options,
        }
    }
}

} // verus!
