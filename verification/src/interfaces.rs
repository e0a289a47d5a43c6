//! The emitter for interfaces.

use crate::formatter::{Formatter, Line};
use crate::ident::Dialect;
use crate::model::{InterfaceMap, ModuleSymbolsView};
use crate::source::{symbols_document, write_symbols_document};
use vstd::prelude::*;

verus! {

/// The lines of the interfaces file.
pub open spec fn interfaces_document(depth: nat, modules: Seq<ModuleSymbolsView>) -> Seq<Line> {
    symbols_document(depth, "interfaces"@, modules)
}

impl InterfaceMap {
    /// Writes the interfaces as Rust source: a namespace `interfaces` with
    /// one namespace for each module, and in it one constant for each
    /// interface, all in the order of the map.
    pub fn write_rs(&self, fmt: &mut Formatter)
        requires
            old(fmt).wf(),
            old(fmt).depth() + 3 <= usize::MAX,
        ensures
            final(fmt).wf(),
            final(fmt).width() == old(fmt).width(),
            final(fmt).depth() == old(fmt).depth(),
            final(fmt).lines() == old(fmt).lines() + interfaces_document(
                old(fmt).depth(),
                self@,
            ),
            forall|i: int|
                0 <= i < self@.len() ==> Dialect::Rust.legal_text(
                    Dialect::Rust.namespace((#[trigger] self@[i]).name),
                ),
    {
        write_symbols_document(fmt, "interfaces", &self.modules);
    }
}

} // verus!
