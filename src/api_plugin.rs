use vstd::prelude::*;

use crate::records::{BuildInfo, opt_view};
use crate::text::owned;

verus! {

/// When an init fragment is rendered, relative to the others.
#[derive(Debug, Clone, Copy, PartialEq, Eq, Structural)]
pub enum InitFragmentStage {
    StageConstants,
    StageAsyncBoundary,
    StageHarmonyExports,
    StageHarmonyImports,
    StageProvides,
}

/// Code placed at the start of a chunk (and optionally at its end).
#[derive(Debug)]
pub struct NormalInitFragment {
    pub content: String,
    pub stage: InitFragmentStage,
    pub end_content: Option<String>,
}

pub type FragmentV = (Seq<char>, InitFragmentStage, Option<Seq<char>>);

pub open spec fn fragment_view(f: NormalInitFragment) -> FragmentV {
    (f.content@, f.stage, opt_view(f.end_content))
}

impl NormalInitFragment {
    pub fn new(content: String, stage: InitFragmentStage, end_content: Option<String>) -> (r: NormalInitFragment)
        ensures
            fragment_view(r) == (content@, stage, opt_view(end_content)),
    {
        NormalInitFragment { content, stage, end_content }
    }
}

/// A chunk's init fragments by key, in insertion order, each key once.
#[derive(Debug)]
pub struct ChunkInitFragments {
    entries: Vec<(String, NormalInitFragment)>,
}

impl ChunkInitFragments {
    pub closed spec fn view_entries(&self) -> Seq<(Seq<char>, FragmentV)> {
        self.entries@.map_values(|e: (String, NormalInitFragment)| (e.0@, fragment_view(e.1)))
    }

    pub open spec fn has_key(&self, k: Seq<char>) -> bool {
        exists|i: int| 0 <= i < self.view_entries().len() && (#[trigger] self.view_entries()[i]).0 == k
    }

    pub fn new() -> (r: ChunkInitFragments)
        ensures
            r.view_entries().len() == 0,
    {
        ChunkInitFragments { entries: Vec::new() }
    }

    pub fn len(&self) -> (r: usize)
        ensures
            r == self.view_entries().len(),
    {
        self.entries.len()
    }

    /// The key and fragment at position `i`.
    pub fn get(&self, i: usize) -> (r: (&String, &NormalInitFragment))
        requires
            i < self.view_entries().len(),
        ensures
            (r.0@, fragment_view(*r.1)) == self.view_entries()[i as int],
    {
        let e = &self.entries[i];
        (&e.0, &e.1)
    }

    /// Adds the fragment under `key` unless the key is already there.
    pub fn entry_or_insert(&mut self, key: String, fragment: NormalInitFragment)
        ensures
            old(self).has_key(key@) ==> final(self).view_entries() == old(self).view_entries(),
            !old(self).has_key(key@) ==> final(self).view_entries() == old(self).view_entries().push(
                (key@, fragment_view(fragment)),
            ),
    {
        let n = self.entries.len();
        let mut i: usize = 0;
        while i < n
            invariant
                n == self.entries@.len(),
                0 <= i <= n,
                forall|j: int| 0 <= j < i ==> (#[trigger] self.entries@[j]).0@ != key@,
            decreases n - i,
        {
            if self.entries[i].0 == key {
                assert(self.view_entries()[i as int].0 == key@);
                return;
            }
            i = i + 1;
        }
        let ghost fv = (key@, fragment_view(fragment));
        proof {
            assert forall|j: int| 0 <= j < self.view_entries().len() implies (#[trigger] self.view_entries()[j]).0 != key@ by {
                assert(self.view_entries()[j].0 == self.entries@[j].0@);
            }
        }
        self.entries.push((key, fragment));
        proof {
            assert(self.view_entries() =~= old(self).view_entries().push(fv));
        }
    }
}

/// The key of the `createRequire` import fragment.
pub open spec fn create_require_key() -> Seq<char> {
    "external module node-commonjs"@
}

/// The `createRequire` import a module that needs it adds to its chunk.
pub open spec fn create_require_fragment() -> FragmentV {
    (
        "import { createRequire as __WEBPACK_EXTERNAL_createRequire } from 'module';\n"@,
        InitFragmentStage::StageHarmonyImports,
        None,
    )
}

/// Renders the module-level API: a module that needs `createRequire` gets its import
/// once per chunk.
#[derive(Debug)]
pub struct APIPlugin;

impl APIPlugin {
    pub fn render_module_content(&self, build_info: Option<&BuildInfo>, chunk_init_fragments: &mut ChunkInitFragments)
        ensures
            (build_info matches Some(b) && b.need_create_require && !old(chunk_init_fragments).has_key(create_require_key()))
                ==> final(chunk_init_fragments).view_entries() == old(chunk_init_fragments).view_entries().push(
                (create_require_key(), create_require_fragment()),
            ),
            !(build_info matches Some(b) && b.need_create_require && !old(chunk_init_fragments).has_key(create_require_key()))
                ==> final(chunk_init_fragments).view_entries() == old(chunk_init_fragments).view_entries(),
    {
        match build_info {
            Some(b) => {
                if b.need_create_require {
                    let fragment = NormalInitFragment::new(
                        owned("import { createRequire as __WEBPACK_EXTERNAL_createRequire } from 'module';\n"),
                        InitFragmentStage::StageHarmonyImports,
                        None,
                    );
                    chunk_init_fragments.entry_or_insert(owned("external module node-commonjs"), fragment);
                }
            },
            None => {},
        }
    }
}

} // verus!
