//! Pieces of Rust source that the emitters share: the preamble, constants,
//! and the comment that names a module.

use crate::formatter::{block, Formatter, Line};
use crate::ident::Dialect;
use crate::model::{module_views, symbol_views, ModuleSymbols, ModuleSymbolsView, Symbol, SymbolView};
use crate::text::{format_hex, hex_text};
use vstd::prelude::*;

verus! {

/// The lines that open an emitted file: an attribute and a blank line.
pub open spec fn preamble(depth: nat, attribute: Seq<char>) -> Seq<Line> {
    seq![Line { depth, text: attribute }, Line { depth, text: ""@ }]
}

/// The text of a constant: its name and its value in hexadecimal.
pub open spec fn constant_text(name: Seq<char>, value: u64) -> Seq<char> {
    "pub const "@ + name + ": usize = "@ + hex_text(value as nat) + ";"@
}

/// One constant for each symbol, in order, under the symbol's own name.
pub open spec fn constants(depth: nat, symbols: Seq<SymbolView>) -> Seq<Line> {
    Seq::new(
        symbols.len(),
        |i: int| Line { depth, text: constant_text(symbols[i].name, symbols[i].value) },
    )
}

/// The comment that names the module of the process that a namespace holds.
pub open spec fn module_comment(name: Seq<char>) -> Seq<char> {
    "// Module: "@ + name
}

/// Writes the attribute line and the blank line after it.
pub fn write_preamble(fmt: &mut Formatter, attribute: &str)
    requires
        old(fmt).wf(),
    ensures
        final(fmt).wf(),
        final(fmt).width() == old(fmt).width(),
        final(fmt).depth() == old(fmt).depth(),
        final(fmt).lines() == old(fmt).lines() + preamble(old(fmt).depth(), attribute@),
{
    fmt.write_line(attribute);
    fmt.write_line("");
}

/// Writes one constant.
pub fn write_constant(fmt: &mut Formatter, name: &str, value: u64)
    requires
        old(fmt).wf(),
    ensures
        final(fmt).wf(),
        final(fmt).width() == old(fmt).width(),
        final(fmt).depth() == old(fmt).depth(),
        final(fmt).lines() == old(fmt).lines().push(
            Line { depth: old(fmt).depth(), text: constant_text(name@, value) },
        ),
{
    let mut line = String::new();
    line.append("pub const ");
    line.append(name);
    line.append(": usize = ");
    let hex = format_hex(value);
    line.append(hex.as_str());
    line.append(";");
    fmt.write_line(line.as_str());
}

/// Writes one constant for each symbol.
pub fn write_constants(fmt: &mut Formatter, symbols: &Vec<Symbol>)
    requires
        old(fmt).wf(),
    ensures
        final(fmt).wf(),
        final(fmt).width() == old(fmt).width(),
        final(fmt).depth() == old(fmt).depth(),
        final(fmt).lines() == old(fmt).lines() + constants(
            old(fmt).depth(),
            symbol_views(symbols@),
        ),
{
    let ghost views = symbol_views(symbols@);
    let mut i: usize = 0;
    while i < symbols.len()
        invariant
            i <= symbols.len(),
            fmt.wf(),
            fmt.width() == old(fmt).width(),
            fmt.depth() == old(fmt).depth(),
            views == symbol_views(symbols@),
            fmt.lines() == old(fmt).lines() + constants(old(fmt).depth(), views.take(i as int)),
        decreases symbols.len() - i,
    {
        write_constant(fmt, symbols[i].name.as_str(), symbols[i].value);
        i += 1;
    }
}

/// Writes the comment that names a module.
pub fn write_module_comment(fmt: &mut Formatter, name: &str)
    requires
        old(fmt).wf(),
    ensures
        final(fmt).wf(),
        final(fmt).width() == old(fmt).width(),
        final(fmt).depth() == old(fmt).depth(),
        final(fmt).lines() == old(fmt).lines().push(
            Line { depth: old(fmt).depth(), text: module_comment(name@) },
        ),
{
    let mut line = String::new();
    line.append("// Module: ");
    line.append(name);
    fmt.write_line(line.as_str());
}

/// The lines of one module: the comment that names it, and a namespace
/// called `namespace` with one constant for each of its symbols.
pub open spec fn symbol_module_lines(
    depth: nat,
    module: ModuleSymbolsView,
    namespace: Seq<char>,
) -> Seq<Line> {
    seq![Line { depth, text: module_comment(module.name) }] + block(
        depth,
        "pub mod "@ + namespace,
        false,
        constants(depth + 1, module.symbols),
    )
}

/// The lines of a run of modules, in order, each in the namespace that its
/// name gives.
pub open spec fn symbol_modules_lines(depth: nat, modules: Seq<ModuleSymbolsView>) -> Seq<Line> {
    modules.map_values(
        |m: ModuleSymbolsView| symbol_module_lines(depth, m, Dialect::Rust.namespace(m.name)),
    ).flatten()
}

/// The lines of a run of modules are those of all but the last, then those
/// of the last.
pub proof fn lemma_symbol_modules_lines_push(
    depth: nat,
    modules: Seq<ModuleSymbolsView>,
    module: ModuleSymbolsView,
)
    ensures
        symbol_modules_lines(depth, modules.push(module)) == symbol_modules_lines(depth, modules)
            + symbol_module_lines(depth, module, Dialect::Rust.namespace(module.name)),
{
    let f = |m: ModuleSymbolsView| symbol_module_lines(depth, m, Dialect::Rust.namespace(m.name));
    assert(modules.push(module).map_values(f) =~= modules.map_values(f).push(f(module)));
    modules.map_values(f).lemma_flatten_push(f(module));
}

/// The lines of a file of symbols by module: the preamble, and inside the
/// outer namespace the namespace `kind` with one namespace for each module.
pub open spec fn symbols_document(
    depth: nat,
    kind: Seq<char>,
    modules: Seq<ModuleSymbolsView>,
) -> Seq<Line> {
    preamble(depth, "#![allow(non_upper_case_globals, unused)]"@) + block(
        depth,
        "pub mod cs2_dumper"@,
        false,
        block(depth + 1, "pub mod "@ + kind, false, symbol_modules_lines(depth + 2, modules)),
    )
}

/// Writes one module in the namespace `namespace`.
pub fn write_symbol_module(fmt: &mut Formatter, module: &ModuleSymbols, namespace: &str)
    requires
        old(fmt).wf(),
        old(fmt).depth() < usize::MAX,
    ensures
        final(fmt).wf(),
        final(fmt).width() == old(fmt).width(),
        final(fmt).depth() == old(fmt).depth(),
        final(fmt).lines() == old(fmt).lines() + symbol_module_lines(
            old(fmt).depth(),
            module@,
            namespace@,
        ),
{
    write_module_comment(fmt, module.name.as_str());
    let mut header = String::new();
    header.append("pub mod ");
    header.append(namespace);
    fmt.begin_block(header.as_str());
    write_constants(fmt, &module.symbols);
    fmt.end_block(false);
}

/// Writes a file of symbols by module, with `kind` as the name of the inner
/// namespace.
pub fn write_symbols_document(fmt: &mut Formatter, kind: &str, modules: &Vec<ModuleSymbols>)
    requires
        old(fmt).wf(),
        old(fmt).depth() + 3 <= usize::MAX,
    ensures
        final(fmt).wf(),
        final(fmt).width() == old(fmt).width(),
        final(fmt).depth() == old(fmt).depth(),
        final(fmt).lines() == old(fmt).lines() + symbols_document(
            old(fmt).depth(),
            kind@,
            module_views(modules@),
        ),
        forall|i: int|
            0 <= i < modules@.len() ==> Dialect::Rust.legal_text(
                Dialect::Rust.namespace((#[trigger] modules@[i]).name@),
            ),
{
    let ghost depth = fmt.depth();
    let ghost views = module_views(modules@);
    write_preamble(fmt, "#![allow(non_upper_case_globals, unused)]");
    fmt.begin_block("pub mod cs2_dumper");
    let mut header = String::new();
    header.append("pub mod ");
    header.append(kind);
    fmt.begin_block(header.as_str());
    let ghost head = fmt.lines();
    let dialect = Dialect::Rust;
    let mut i: usize = 0;
    while i < modules.len()
        invariant
            i <= modules.len(),
            fmt.wf(),
            fmt.width() == old(fmt).width(),
            fmt.depth() == depth + 2,
            depth + 3 <= usize::MAX,
            dialect == Dialect::Rust,
            views == module_views(modules@),
            fmt.lines() == head + symbol_modules_lines(depth + 2, views.take(i as int)),
            forall|j: int|
                0 <= j < i ==> Dialect::Rust.legal_text(
                    Dialect::Rust.namespace((#[trigger] modules@[j]).name@),
                ),
        decreases modules.len() - i,
    {
        let namespace = dialect.namespace_name(modules[i].name.as_str());
        write_symbol_module(fmt, &modules[i], namespace.as_str());
        proof {
            lemma_symbol_modules_lines_push(depth + 2, views.take(i as int), views[i as int]);
            assert(views.take(i + 1) =~= views.take(i as int).push(views[i as int]));
        }
        i += 1;
    }
    assert(views.take(i as int) =~= views);
    fmt.end_block(false);
    fmt.end_block(false);
}

} // verus!
