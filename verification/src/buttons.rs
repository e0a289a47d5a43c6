//! The emitter for buttons.

use crate::formatter::{block, Formatter, Line};
use crate::ident::Dialect;
use crate::model::{ButtonMap, SymbolView};
use crate::source::{constant_text, preamble, write_constant, write_preamble};
use crate::text::{hex_text, hex_value, lemma_hex_round_trip};
use vstd::prelude::*;

verus! {

/// One constant for each button, in order. A button whose name is a
/// reserved word gets the escaped name.
pub open spec fn button_constants(depth: nat, buttons: Seq<SymbolView>) -> Seq<Line> {
    Seq::new(
        buttons.len(),
        |i: int|
            Line {
                depth,
                text: constant_text(Dialect::Rust.escaped(buttons[i].name), buttons[i].value),
            },
    )
}

/// The lines of the buttons file.
pub open spec fn buttons_document(depth: nat, buttons: Seq<SymbolView>) -> Seq<Line> {
    preamble(depth, "#![allow(non_upper_case_globals, unused)]"@) + block(
        depth,
        "pub mod cs2_dumper"@,
        false,
        seq![Line { depth: depth + 1, text: "// Module: client.dll"@ }] + block(
            depth + 1,
            "pub mod buttons"@,
            false,
            button_constants(depth + 2, buttons),
        ),
    )
}

impl ButtonMap {
    /// Writes the buttons as Rust source: a namespace `buttons` with one
    /// constant for each button, in the order of the map.
    pub fn write_rs(&self, fmt: &mut Formatter)
        requires
            old(fmt).wf(),
            old(fmt).depth() + 2 <= usize::MAX,
        ensures
            final(fmt).wf(),
            final(fmt).width() == old(fmt).width(),
            final(fmt).depth() == old(fmt).depth(),
            final(fmt).lines() == old(fmt).lines() + buttons_document(old(fmt).depth(), self@),
    {
        let ghost depth = fmt.depth();
        write_preamble(fmt, "#![allow(non_upper_case_globals, unused)]");
        fmt.begin_block("pub mod cs2_dumper");
        fmt.write_line("// Module: client.dll");
        fmt.begin_block("pub mod buttons");
        let ghost head = fmt.lines();
        let dialect = Dialect::Rust;
        let mut i: usize = 0;
        while i < self.buttons.len()
            invariant
                i <= self.buttons.len(),
                fmt.wf(),
                fmt.width() == old(fmt).width(),
                fmt.depth() == depth + 2,
                dialect == Dialect::Rust,
                fmt.lines() == head + button_constants(depth + 2, self@.take(i as int)),
            decreases self.buttons.len() - i,
        {
            let name = dialect.escape_reserved(self.buttons[i].name.as_str());
            write_constant(fmt, name.as_str(), self.buttons[i].value);
            i += 1;
        }
        fmt.end_block(false);
        fmt.end_block(false);
    }
}

/// The buttons file holds one constant for each button, in the order of
/// the map: after five opening lines come as many constants as there are
/// buttons, and two closing lines. Each constant carries the name of its
/// button, escaped where it is reserved, and a value that reads back as the
/// button's number.
pub proof fn lemma_button_constants(depth: nat, buttons: Seq<SymbolView>)
    ensures
        buttons_document(depth, buttons).len() == buttons.len() + 7,
        forall|i: int|
            0 <= i < buttons.len() ==> buttons_document(depth, buttons)[i + 5] == (Line {
                depth: depth + 2,
                text: constant_text(
                    Dialect::Rust.escaped((#[trigger] buttons[i]).name),
                    buttons[i].value,
                ),
            }),
        forall|i: int|
            0 <= i < buttons.len() ==> hex_value(hex_text((#[trigger] buttons[i]).value as nat))
                == Some(buttons[i].value as nat),
{
    assert forall|i: int| 0 <= i < buttons.len() implies hex_value(
        hex_text((#[trigger] buttons[i]).value as nat),
    ) == Some(buttons[i].value as nat) by {
        lemma_hex_round_trip(buttons[i].value as nat);
    }
}

} // verus!
