//! The oxfmt language server.

use vstd::prelude::*;
use std::collections::BTreeMap;
use crate::lsp::{ZedLspSupport, OXFMT_SERVER_ID};

verus! {

/// The oxfmt language server and the binary source of each worktree.
pub struct ZedOxfmtLsp {
    sources: BTreeMap<u64, bool>,
}

impl ZedOxfmtLsp {
    /// For each worktree, whether the server last launched from Vite+.
    pub closed spec fn source_map(&self) -> Map<u64, bool> {
        self.sources@
    }
}

impl Default for ZedOxfmtLsp {
    fn default() -> (r: ZedOxfmtLsp)
        ensures
            r.source_map() == Map::<u64, bool>::empty(),
    {
        ZedOxfmtLsp { sources: BTreeMap::new() }
    }
}

impl ZedLspSupport for ZedOxfmtLsp {
    fn package_name(&self) -> (r: &'static str)
        ensures
            r@ == "oxfmt"@,
    {
        OXFMT_SERVER_ID
    }

    fn sources(&self) -> (r: &BTreeMap<u64, bool>)
        ensures
            r@ == self.source_map(),
    {
        &self.sources
    }

    fn sources_mut(&mut self) -> (r: &mut BTreeMap<u64, bool>)
        ensures
            r@ == old(self).source_map(),
            final(self).source_map() == final(r)@,
    {
        &mut self.sources
    }
}

} // verus!
