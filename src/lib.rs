use vstd::prelude::*;

pub mod api_plugin;
pub mod ast;
pub mod comments;
pub mod copy_options;
pub mod dependency;
pub mod destructuring;
pub mod exports;
pub mod harmony;
pub mod harmony_ref;
pub mod id;
pub mod import_map;
pub mod imports;
pub mod laws;
pub mod new_url;
pub mod records;
pub mod regex_match;
pub mod taxonomy;
pub mod text;
pub mod worker;

verus! {

} // verus!
