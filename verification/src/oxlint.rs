//! The oxlint language server.

use vstd::prelude::*;
use std::collections::BTreeMap;
use crate::lsp::{ZedLspSupport, OXLINT_SERVER_ID};

verus! {

/// The oxlint language server and the binary source of each worktree.
pub struct ZedOxlintLsp {
    sources: BTreeMap<u64, bool>,
}

impl ZedOxlintLsp {
    /// For each worktree, whether the server last launched from Vite+.
    pub closed spec fn source_map(&self) -> Map<u64, bool> {
        self.sources@
    }
}

impl Default for ZedOxlintLsp {
    fn default() -> (r: ZedOxlintLsp)
        ensures
            r.source_map() == Map::<u64, bool>::empty(),
    {
        ZedOxlintLsp { sources: BTreeMap::new() }
    }
}

impl ZedLspSupport for ZedOxlintLsp {
    fn package_name(&self) -> (r: &'static str)
        ensures
            r@ == "oxlint"@,
    {
        OXLINT_SERVER_ID
    }

    fn sources(&self) -> (r: &BTreeMap<u64, bool>)
        ensures
            r@ == self.source_map(),
    {
        &self.sources
    }

    fn sources_mut(&mut self) -> (r: &mut BTreeMap<u64, bool>)
        ensures
            r@ == old(self).source_map(),
            final(self).source_map() == final(r)@,
    {
        &mut self.sources
    }
}

} // verus!
