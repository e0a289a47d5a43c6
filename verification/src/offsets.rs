//! The emitter for offsets.

use crate::formatter::{Formatter, Line};
use crate::ident::Dialect;
use crate::model::{ModuleSymbolsView, OffsetMap};
use crate::source::{symbols_document, write_symbols_document};
use vstd::prelude::*;

verus! {

/// The lines of the offsets file.
pub open spec fn offsets_document(depth: nat, modules: Seq<ModuleSymbolsView>) -> Seq<Line> {
    symbols_document(depth, "offsets"@, modules)
}

impl OffsetMap {
    /// Writes the offsets as Rust source: a namespace `offsets` with one
    /// namespace for each module, and in it one constant for each offset,
    /// all in the order of the map. The name of each module's namespace
    /// holds letters, digits and underscores only.
    pub fn write_rs(&self, fmt: &mut Formatter)
        requires
            old(fmt).wf(),
            old(fmt).depth() + 3 <= usize::MAX,
        ensures
            final(fmt).wf(),
            final(fmt).width() == old(fmt).width(),
            final(fmt).depth() == old(fmt).depth(),
            final(fmt).lines() == old(fmt).lines() + offsets_document(old(fmt).depth(), self@),
            forall|i: int|
                0 <= i < self@.len() ==> Dialect::Rust.legal_text(
                    Dialect::Rust.namespace((#[trigger] self@[i]).name),
                ),
    {
        write_symbols_document(fmt, "offsets", &self.modules);
    }
}

} // verus!
