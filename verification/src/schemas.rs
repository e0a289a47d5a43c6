//! The emitter for class schemas: for each module its enums and its classes.

use crate::formatter::{block, Formatter, Line};
use crate::ident::Dialect;
use crate::model::{
    Class, ClassField, ClassFieldView, ClassMetadata, ClassMetadataView, ClassView, Enum,
    EnumMember, EnumMemberView, EnumView, SchemaMap, SchemaModule, SchemaModuleView,
};
use crate::source::{module_comment, preamble, write_module_comment, write_preamble};
use crate::text::{
    bits_of, decimal_digits, format_decimal, format_hex, format_hex_signed, hex_text,
    lemma_hex_text_unsigned,
};
use std::collections::HashSet;
use vstd::prelude::*;

verus! {

/// The comment that renders one note of a class: the kind of note and what
/// it carries, or for an unknown note its bare name.
pub open spec fn metadata_text(metadata: ClassMetadataView) -> Seq<char> {
    match metadata {
        ClassMetadataView::NetworkChangeCallback { name } => "// NetworkChangeCallback: "@ + name,
        ClassMetadataView::NetworkVarNames { name, declared_type } => "// NetworkVarNames: "@
            + name + " ("@ + declared_type + ")"@,
        ClassMetadataView::Unknown { name } => "// "@ + name,
    }
}

/// The lines that render the notes of a class: nothing where there are
/// none, else a two-line heading and one comment for each note, in order.
pub open spec fn metadata_lines(depth: nat, metadata: Seq<ClassMetadataView>) -> Seq<Line> {
    if metadata.len() == 0 {
        Seq::empty()
    } else {
        seq![Line { depth, text: "//"@ }, Line { depth, text: "// Metadata:"@ }] + Seq::new(
            metadata.len(),
            |i: int| Line { depth, text: metadata_text(metadata[i]) },
        )
    }
}

/// The text of a field: a constant with the field's own name, its offset in
/// hexadecimal, and its declared type in a trailing comment.
pub open spec fn field_text(field: ClassFieldView) -> Seq<char> {
    "pub const "@ + field.name + ": usize = "@ + hex_text(field.offset as nat) + "; // "@
        + field.declared_type
}

/// One constant for each field, in order.
pub open spec fn field_lines(depth: nat, fields: Seq<ClassFieldView>) -> Seq<Line> {
    Seq::new(fields.len(), |i: int| Line { depth, text: field_text(fields[i]) })
}

/// The name that the header of a class gives for its parent.
pub open spec fn parent_text(parent: Option<Seq<char>>) -> Seq<char> {
    match parent {
        Some(name) => Dialect::Rust.slug(name),
        None => "None"@,
    }
}

/// The lines of a class: a header that names the parent and counts the
/// fields, the notes, and a namespace with one constant for each field.
pub open spec fn class_lines(depth: nat, class: ClassView) -> Seq<Line> {
    seq![
        Line { depth, text: "// Parent: "@ + parent_text(class.parent) },
        Line { depth, text: "// Field count: "@ + decimal_digits(class.fields.len()) },
    ] + metadata_lines(depth, class.metadata) + block(
        depth,
        "pub mod "@ + Dialect::Rust.slug(class.name),
        false,
        field_lines(depth + 1, class.fields),
    )
}

/// The lines of a run of classes, in order.
pub open spec fn classes_lines(depth: nat, classes: Seq<ClassView>) -> Seq<Line> {
    classes.map_values(|c: ClassView| class_lines(depth, c)).flatten()
}

/// The lines of a run of classes are those of all but the last, then those
/// of the last.
pub proof fn lemma_classes_lines_push(depth: nat, classes: Seq<ClassView>, class: ClassView)
    ensures
        classes_lines(depth, classes.push(class)) == classes_lines(depth, classes) + class_lines(
            depth,
            class,
        ),
{
    let f = |c: ClassView| class_lines(depth, c);
    assert(classes.push(class).map_values(f) =~= classes.map_values(f).push(f(class)));
    classes.map_values(f).lemma_flatten_push(f(class));
}

fn metadata_comment(metadata: &ClassMetadata) -> (line: String)
    ensures
        line@ == metadata_text(metadata@),
{
    let mut line = String::new();
    match metadata {
        ClassMetadata::NetworkChangeCallback { name } => {
            line.append("// NetworkChangeCallback: ");
            line.append(name.as_str());
        },
        ClassMetadata::NetworkVarNames { name, declared_type } => {
            line.append("// NetworkVarNames: ");
            line.append(name.as_str());
            line.append(" (");
            line.append(declared_type.as_str());
            line.append(")");
        },
        ClassMetadata::Unknown { name } => {
            line.append("// ");
            line.append(name.as_str());
        },
    }
    line
}

/// Writes the notes of a class as comments: nothing where there are none,
/// else a heading and one line for each note.
pub fn write_metadata(fmt: &mut Formatter, metadata: &[ClassMetadata])
    requires
        old(fmt).wf(),
    ensures
        final(fmt).wf(),
        final(fmt).width() == old(fmt).width(),
        final(fmt).depth() == old(fmt).depth(),
        final(fmt).lines() == old(fmt).lines() + metadata_lines(
            old(fmt).depth(),
            crate::model::metadata_views(metadata@),
        ),
{
    let ghost views = crate::model::metadata_views(metadata@);
    if metadata.len() == 0 {
        return ;
    }
    fmt.write_line("//");
    fmt.write_line("// Metadata:");
    let ghost head = fmt.lines();
    let ghost depth = fmt.depth();
    let mut i: usize = 0;
    while i < metadata.len()
        invariant
            i <= metadata.len(),
            fmt.wf(),
            fmt.width() == old(fmt).width(),
            fmt.depth() == depth,
            views == crate::model::metadata_views(metadata@),
            fmt.lines() == head + Seq::new(
                i as nat,
                |k: int| Line { depth, text: metadata_text(views[k]) },
            ),
        decreases metadata.len() - i,
    {
        let line = metadata_comment(&metadata[i]);
        fmt.write_line(line.as_str());
        i += 1;
    }
}

fn field_constant(field: &ClassField) -> (line: String)
    ensures
        line@ == field_text(field@),
{
    let mut line = String::new();
    line.append("pub const ");
    line.append(field.name.as_str());
    line.append(": usize = ");
    let hex = format_hex(field.offset);
    line.append(hex.as_str());
    line.append("; // ");
    line.append(field.declared_type.as_str());
    line
}

fn class_header(class: &Class) -> (lines: (String, String))
    ensures
        lines.0@ == "// Parent: "@ + parent_text(class@.parent),
        lines.1@ == "// Field count: "@ + decimal_digits(class@.fields.len()),
{
    let mut parent = String::new();
    parent.append("// Parent: ");
    match &class.parent {
        Some(name) => {
            let slug = Dialect::Rust.slugify(name.as_str());
            parent.append(slug.as_str());
        },
        None => {
            parent.append("None");
        },
    }
    let mut count = String::new();
    count.append("// Field count: ");
    let n = format_decimal(class.fields.len() as u64);
    count.append(n.as_str());
    (parent, count)
}

/// Writes a class: its header, its notes, and a namespace with one constant
/// for each field.
pub fn write_class(fmt: &mut Formatter, class: &Class)
    requires
        old(fmt).wf(),
        old(fmt).depth() < usize::MAX,
    ensures
        final(fmt).wf(),
        final(fmt).width() == old(fmt).width(),
        final(fmt).depth() == old(fmt).depth(),
        final(fmt).lines() == old(fmt).lines() + class_lines(old(fmt).depth(), class@),
{
    let ghost depth = fmt.depth();
    let (parent, count) = class_header(class);
    fmt.write_line(parent.as_str());
    fmt.write_line(count.as_str());
    write_metadata(fmt, class.metadata.as_slice());
    let mut header = String::new();
    header.append("pub mod ");
    let slug = Dialect::Rust.slugify(class.name.as_str());
    header.append(slug.as_str());
    fmt.begin_block(header.as_str());
    let ghost head = fmt.lines();
    let ghost fields = class@.fields;
    let mut i: usize = 0;
    while i < class.fields.len()
        invariant
            i <= class.fields.len(),
            fmt.wf(),
            fmt.width() == old(fmt).width(),
            fmt.depth() == depth + 1,
            fields == class@.fields,
            fmt.lines() == head + field_lines(depth + 1, fields.take(i as int)),
        decreases class.fields.len() - i,
    {
        let line = field_constant(&class.fields[i]);
        fmt.write_line(line.as_str());
        i += 1;
    }
    fmt.end_block(false);
}

/// The unsigned type that holds the values of an enum of the given width
/// in bytes, if there is one.
pub open spec fn underlying_type(alignment: u8) -> Option<Seq<char>> {
    if alignment == 1 {
        Some("u8"@)
    } else if alignment == 2 {
        Some("u16"@)
    } else if alignment == 4 {
        Some("u32"@)
    } else if alignment == 8 {
        Some("u64"@)
    } else {
        None
    }
}

/// Whether one of `members` has the value `value`.
pub open spec fn has_value(members: Seq<EnumMemberView>, value: i64) -> bool {
    exists|j: int| 0 <= j < members.len() && (#[trigger] members[j]).value == value
}

/// Whether the member at `i` is the first of `members` with its value.
pub open spec fn is_first(members: Seq<EnumMemberView>, i: int) -> bool {
    &&& 0 <= i < members.len()
    &&& forall|j: int| 0 <= j < i ==> (#[trigger] members[j]).value != members[i].value
}

/// Whether `member` is the first of `members` with its value.
pub open spec fn is_first_member(members: Seq<EnumMemberView>, member: EnumMemberView) -> bool {
    exists|i: int| #[trigger] is_first(members, i) && members[i] == member
}

/// The members that are kept: of those that share a value the first, in
/// the order of `members`.
pub open spec fn distinct_members(members: Seq<EnumMemberView>) -> Seq<EnumMemberView>
    decreases members.len(),
{
    if members.len() == 0 {
        Seq::empty()
    } else if has_value(members.drop_last(), members.last().value) {
        distinct_members(members.drop_last())
    } else {
        distinct_members(members.drop_last()).push(members.last())
    }
}

/// The value of a member as it is written in an enum of type `ty`: -1 is
/// the greatest value of the type, any other number its 64 bits in
/// hexadecimal.
pub open spec fn member_value_text(ty: Seq<char>, value: i64) -> Seq<char> {
    if value == -1 {
        ty + "::MAX"@
    } else {
        hex_text(bits_of(value))
    }
}

/// The text of a member: its name and its value.
pub open spec fn member_text(ty: Seq<char>, member: EnumMemberView) -> Seq<char> {
    member.name + " = "@ + member_value_text(ty, member.value)
}

/// The body of an enum: one line for each member that is kept, with a comma
/// after each but the last; a blank line where there is no member.
pub open spec fn member_lines(depth: nat, ty: Seq<char>, kept: Seq<EnumMemberView>) -> Seq<Line> {
    if kept.len() == 0 {
        seq![Line { depth, text: ""@ }]
    } else {
        Seq::new(
            kept.len(),
            |i: int|
                Line {
                    depth,
                    text: if i + 1 < kept.len() {
                        member_text(ty, kept[i]) + ","@
                    } else {
                        member_text(ty, kept[i])
                    },
                },
        )
    }
}

/// The lines of an enum: nothing where no unsigned type has its width, else
/// a header with the width and the declared number of members, and the enum
/// itself with the members that are kept.
pub open spec fn enum_lines(depth: nat, e: EnumView) -> Seq<Line> {
    match underlying_type(e.alignment) {
        None => Seq::empty(),
        Some(ty) => seq![
            Line { depth, text: "// Alignment: "@ + decimal_digits(e.alignment as nat) },
            Line { depth, text: "// Member count: "@ + decimal_digits(e.size as nat) },
            Line { depth, text: "#[repr("@ + ty + ")]"@ },
        ] + block(
            depth,
            "pub enum "@ + Dialect::Rust.slug(e.name),
            false,
            member_lines(depth + 1, ty, distinct_members(e.members)),
        ),
    }
}

/// The lines of a run of enums, in order.
pub open spec fn enums_lines(depth: nat, enums: Seq<EnumView>) -> Seq<Line> {
    enums.map_values(|e: EnumView| enum_lines(depth, e)).flatten()
}

/// The lines of a run of enums are those of all but the last, then those of
/// the last.
pub proof fn lemma_enums_lines_push(depth: nat, enums: Seq<EnumView>, e: EnumView)
    ensures
        enums_lines(depth, enums.push(e)) == enums_lines(depth, enums) + enum_lines(depth, e),
{
    let f = |x: EnumView| enum_lines(depth, x);
    assert(enums.push(e).map_values(f) =~= enums.map_values(f).push(f(e)));
    enums.map_values(f).lemma_flatten_push(f(e));
}

/// The name of the unsigned type of the given width in bytes.
pub fn enum_type(alignment: u8) -> (ty: Option<&'static str>)
    ensures
        match ty {
            Some(name) => underlying_type(alignment) == Some(name@),
            None => underlying_type(alignment) is None,
        },
{
    if alignment == 1 {
        Some("u8")
    } else if alignment == 2 {
        Some("u16")
    } else if alignment == 4 {
        Some("u32")
    } else if alignment == 8 {
        Some("u64")
    } else {
        None
    }
}

fn member_entry(ty: &str, member: &EnumMember) -> (text: String)
    ensures
        text@ == member_text(ty@, member@),
{
    let mut text = String::new();
    text.append(member.name.as_str());
    text.append(" = ");
    if member.value == -1 {
        text.append(ty);
        text.append("::MAX");
    } else {
        let hex = format_hex_signed(member.value);
        text.append(hex.as_str());
    }
    text
}

/// The views of a run of strings.
pub open spec fn texts(strings: Seq<String>) -> Seq<Seq<char>> {
    strings.map_values(|s: String| s@)
}

/// The texts of the members that are kept, in order: a member whose value
/// an earlier member has is dropped.
pub fn member_entries(ty: &str, members: &Vec<EnumMember>) -> (entries: Vec<String>)
    ensures
        texts(entries@) == distinct_members(crate::model::member_views(members@)).map_values(
            |m: EnumMemberView| member_text(ty@, m),
        ),
{
    broadcast use vstd::std_specs::hash::group_hash_axioms;

    let ghost views = crate::model::member_views(members@);
    let mut used: HashSet<i64> = HashSet::new();
    let mut entries: Vec<String> = Vec::new();
    let mut i: usize = 0;
    while i < members.len()
        invariant
            i <= members.len(),
            views == crate::model::member_views(members@),
            forall|v: i64| used@.contains(v) <==> has_value(views.take(i as int), v),
            texts(entries@) == distinct_members(views.take(i as int)).map_values(
                |m: EnumMemberView| member_text(ty@, m),
            ),
        decreases members.len() - i,
    {
        let ghost seen = views.take(i as int);
        let ghost next = views.take(i + 1);
        let ghost before = entries@;
        let value = members[i].value;
        assert(next.drop_last() =~= seen);
        let fresh = used.insert(value);
        if fresh {
            let entry = member_entry(ty, &members[i]);
            entries.push(entry);
            assert(texts(entries@) =~= texts(before).push(entry@));
        }
        assert forall|v: i64| used@.contains(v) <==> has_value(next, v) by {
            if has_value(next, v) {
                let j = choose|j: int| 0 <= j < next.len() && (#[trigger] next[j]).value == v;
                assert(j < i ==> seen[j].value == v);
            }
            if has_value(seen, v) {
                let j = choose|j: int| 0 <= j < seen.len() && (#[trigger] seen[j]).value == v;
                assert(next[j].value == v);
            }
            if v == value {
                assert(next[i as int].value == v);
            }
        }
        i += 1;
    }
    assert(views.take(i as int) =~= views);
    entries
}

fn enum_header(e: &Enum, ty: &str) -> (lines: (String, String, String, String))
    ensures
        lines.0@ == "// Alignment: "@ + decimal_digits(e.alignment as nat),
        lines.1@ == "// Member count: "@ + decimal_digits(e.size as nat),
        lines.2@ == "#[repr("@ + ty@ + ")]"@,
        lines.3@ == "pub enum "@ + Dialect::Rust.slug(e.name@),
{
    let mut alignment = String::new();
    alignment.append("// Alignment: ");
    let n = format_decimal(e.alignment as u64);
    alignment.append(n.as_str());
    let mut count = String::new();
    count.append("// Member count: ");
    let n = format_decimal(e.size as u64);
    count.append(n.as_str());
    let mut repr = String::new();
    repr.append("#[repr(");
    repr.append(ty);
    repr.append(")]");
    let mut header = String::new();
    header.append("pub enum ");
    let slug = Dialect::Rust.slugify(e.name.as_str());
    header.append(slug.as_str());
    (alignment, count, repr, header)
}

/// Writes an enum with the members that are kept. An enum whose width is
/// not 1, 2, 4 or 8 bytes is passed over: nothing is written for it.
pub fn write_enum(fmt: &mut Formatter, e: &Enum)
    requires
        old(fmt).wf(),
        old(fmt).depth() < usize::MAX,
    ensures
        final(fmt).wf(),
        final(fmt).width() == old(fmt).width(),
        final(fmt).depth() == old(fmt).depth(),
        final(fmt).lines() == old(fmt).lines() + enum_lines(old(fmt).depth(), e@),
        underlying_type(e.alignment) is None ==> final(fmt).lines() == old(fmt).lines(),
{
    let ghost depth = fmt.depth();
    let ty = match enum_type(e.alignment) {
        Some(ty) => ty,
        None => {
            return ;
        },
    };
    let (alignment, count, repr, header) = enum_header(e, ty);
    fmt.write_line(alignment.as_str());
    fmt.write_line(count.as_str());
    fmt.write_line(repr.as_str());
    fmt.begin_block(header.as_str());
    let ghost head = fmt.lines();
    let ghost kept = distinct_members(e@.members);
    let entries = member_entries(ty, &e.members);
    assert(entries@.len() == kept.len()) by {
        assert(texts(entries@).len() == entries@.len());
    }
    if entries.len() == 0 {
        fmt.write_line("");
    } else {
        let mut i: usize = 0;
        while i < entries.len()
            invariant
                i <= entries.len(),
                entries@.len() == kept.len(),
                kept.len() > 0,
                texts(entries@) == kept.map_values(|m: EnumMemberView| member_text(ty@, m)),
                fmt.wf(),
                fmt.width() == old(fmt).width(),
                fmt.depth() == depth + 1,
                fmt.lines() == head + member_lines(depth + 1, ty@, kept).take(i as int),
            decreases entries.len() - i,
        {
            assert(entries@[i as int]@ == member_text(ty@, kept[i as int])) by {
                assert(texts(entries@)[i as int] == entries@[i as int]@);
            }
            if i + 1 < entries.len() {
                let mut line = entries[i].clone();
                line.append(",");
                fmt.write_line(line.as_str());
            } else {
                fmt.write_line(entries[i].as_str());
            }
            i += 1;
        }
    }
    fmt.end_block(false);
}

/// The lines of one module: a header that names the module and counts its
/// classes and enums, and a namespace called `namespace` with the enums,
/// then the classes.
pub open spec fn schema_module_lines(
    depth: nat,
    module: SchemaModuleView,
    namespace: Seq<char>,
) -> Seq<Line> {
    seq![
        Line { depth, text: module_comment(module.name) },
        Line { depth, text: "// Class count: "@ + decimal_digits(module.classes.len()) },
        Line { depth, text: "// Enum count: "@ + decimal_digits(module.enums.len()) },
    ] + block(
        depth,
        "pub mod "@ + namespace,
        false,
        enums_lines(depth + 1, module.enums) + classes_lines(depth + 1, module.classes),
    )
}

/// The lines of a run of modules, in order, each in the namespace that its
/// name gives.
pub open spec fn schema_modules_lines(depth: nat, modules: Seq<SchemaModuleView>) -> Seq<Line> {
    modules.map_values(
        |m: SchemaModuleView| schema_module_lines(depth, m, Dialect::Rust.namespace(m.name)),
    ).flatten()
}

/// The lines of a run of modules are those of all but the last, then those
/// of the last.
pub proof fn lemma_schema_modules_lines_push(
    depth: nat,
    modules: Seq<SchemaModuleView>,
    module: SchemaModuleView,
)
    ensures
        schema_modules_lines(depth, modules.push(module)) == schema_modules_lines(depth, modules)
            + schema_module_lines(depth, module, Dialect::Rust.namespace(module.name)),
{
    let f = |m: SchemaModuleView| schema_module_lines(depth, m, Dialect::Rust.namespace(m.name));
    assert(modules.push(module).map_values(f) =~= modules.map_values(f).push(f(module)));
    modules.map_values(f).lemma_flatten_push(f(module));
}

/// The lines of the schemas file.
pub open spec fn schemas_document(depth: nat, modules: Seq<SchemaModuleView>) -> Seq<Line> {
    preamble(
        depth,
        "#![allow(non_upper_case_globals, non_camel_case_types, non_snake_case, unused)]"@,
    ) + block(
        depth,
        "pub mod cs2_dumper"@,
        false,
        block(depth + 1, "pub mod schemas"@, false, schema_modules_lines(depth + 2, modules)),
    )
}

fn count_comment(label: &str, count: usize) -> (line: String)
    ensures
        line@ == label@ + decimal_digits(count as nat),
{
    let mut line = String::new();
    line.append(label);
    let n = format_decimal(count as u64);
    line.append(n.as_str());
    line
}

/// Writes one module in the namespace `namespace`: the header, then the
/// enums, then the classes.
pub fn write_schema_module(fmt: &mut Formatter, module: &SchemaModule, namespace: &str)
    requires
        old(fmt).wf(),
        old(fmt).depth() + 2 <= usize::MAX,
    ensures
        final(fmt).wf(),
        final(fmt).width() == old(fmt).width(),
        final(fmt).depth() == old(fmt).depth(),
        final(fmt).lines() == old(fmt).lines() + schema_module_lines(
            old(fmt).depth(),
            module@,
            namespace@,
        ),
{
    let ghost depth = fmt.depth();
    write_module_comment(fmt, module.name.as_str());
    let classes = count_comment("// Class count: ", module.classes.len());
    fmt.write_line(classes.as_str());
    let enums = count_comment("// Enum count: ", module.enums.len());
    fmt.write_line(enums.as_str());
    let mut header = String::new();
    header.append("pub mod ");
    header.append(namespace);
    fmt.begin_block(header.as_str());
    let ghost head = fmt.lines();
    let ghost enum_views = module@.enums;
    let ghost class_views = module@.classes;
    let mut i: usize = 0;
    while i < module.enums.len()
        invariant
            i <= module.enums.len(),
            fmt.wf(),
            fmt.width() == old(fmt).width(),
            fmt.depth() == depth + 1,
            depth + 2 <= usize::MAX,
            enum_views == module@.enums,
            fmt.lines() == head + enums_lines(depth + 1, enum_views.take(i as int)),
        decreases module.enums.len() - i,
    {
        write_enum(fmt, &module.enums[i]);
        proof {
            lemma_enums_lines_push(depth + 1, enum_views.take(i as int), enum_views[i as int]);
            assert(enum_views.take(i + 1) =~= enum_views.take(i as int).push(
                enum_views[i as int],
            ));
        }
        i += 1;
    }
    assert(enum_views.take(i as int) =~= enum_views);
    let ghost middle = fmt.lines();
    let mut k: usize = 0;
    while k < module.classes.len()
        invariant
            k <= module.classes.len(),
            fmt.wf(),
            fmt.width() == old(fmt).width(),
            fmt.depth() == depth + 1,
            depth + 2 <= usize::MAX,
            class_views == module@.classes,
            fmt.lines() == middle + classes_lines(depth + 1, class_views.take(k as int)),
        decreases module.classes.len() - k,
    {
        write_class(fmt, &module.classes[k]);
        proof {
            lemma_classes_lines_push(
                depth + 1,
                class_views.take(k as int),
                class_views[k as int],
            );
            assert(class_views.take(k + 1) =~= class_views.take(k as int).push(
                class_views[k as int],
            ));
        }
        k += 1;
    }
    assert(class_views.take(k as int) =~= class_views);
    fmt.end_block(false);
}

impl SchemaMap {
    /// Writes the schemas as Rust source: a namespace `schemas` with one
    /// namespace for each module, in the order of the map. The name of each
    /// module's namespace holds letters, digits and underscores only.
    pub fn write_rs(&self, fmt: &mut Formatter)
        requires
            old(fmt).wf(),
            old(fmt).depth() + 4 <= usize::MAX,
        ensures
            final(fmt).wf(),
            final(fmt).width() == old(fmt).width(),
            final(fmt).depth() == old(fmt).depth(),
            final(fmt).lines() == old(fmt).lines() + schemas_document(old(fmt).depth(), self@),
            forall|i: int|
                0 <= i < self@.len() ==> Dialect::Rust.legal_text(
                    Dialect::Rust.namespace((#[trigger] self@[i]).name),
                ),
    {
        let ghost depth = fmt.depth();
        write_preamble(
            fmt,
            "#![allow(non_upper_case_globals, non_camel_case_types, non_snake_case, unused)]",
        );
        fmt.begin_block("pub mod cs2_dumper");
        fmt.begin_block("pub mod schemas");
        let ghost head = fmt.lines();
        let dialect = Dialect::Rust;
        let mut i: usize = 0;
        while i < self.modules.len()
            invariant
                i <= self.modules.len(),
                fmt.wf(),
                fmt.width() == old(fmt).width(),
                fmt.depth() == depth + 2,
                depth + 4 <= usize::MAX,
                dialect == Dialect::Rust,
                fmt.lines() == head + schema_modules_lines(depth + 2, self@.take(i as int)),
                forall|j: int|
                    0 <= j < i ==> Dialect::Rust.legal_text(
                        Dialect::Rust.namespace((#[trigger] self@[j]).name),
                    ),
            decreases self.modules.len() - i,
        {
            let namespace = dialect.namespace_name(self.modules[i].name.as_str());
            write_schema_module(fmt, &self.modules[i], namespace.as_str());
            proof {
                lemma_schema_modules_lines_push(depth + 2, self@.take(i as int), self@[i as int]);
                assert(self@.take(i + 1) =~= self@.take(i as int).push(self@[i as int]));
            }
            i += 1;
        }
        assert(self@.take(i as int) =~= self@);
        fmt.end_block(false);
        fmt.end_block(false);
    }
}

/// Of the members that share a value exactly one is kept, the first: no two
/// kept members have the same value, every value of a member is the value
/// of a kept one, and each kept member is the first member with its value.
pub proof fn lemma_distinct_members(members: Seq<EnumMemberView>)
    ensures
        distinct_members(members).len() <= members.len(),
        forall|a: int, b: int|
            0 <= a < b < distinct_members(members).len() ==> (#[trigger] distinct_members(
                members,
            )[a]).value != (#[trigger] distinct_members(members)[b]).value,
        forall|v: i64| has_value(members, v) <==> has_value(distinct_members(members), v),
        forall|k: int|
            0 <= k < distinct_members(members).len() ==> is_first_member(
                members,
                #[trigger] distinct_members(members)[k],
            ),
    decreases members.len(),
{
    let kept = distinct_members(members);
    if members.len() > 0 {
        let init = members.drop_last();
        let last = members.last();
        let kept_init = distinct_members(init);
        lemma_distinct_members(init);
        // The values of the members are the values of the kept ones.
        assert forall|v: i64| has_value(members, v) <==> has_value(kept, v) by {
            if has_value(members, v) {
                let j = choose|j: int| 0 <= j < members.len() && (#[trigger] members[j]).value == v;
                if j < init.len() {
                    assert(init[j].value == v);
                    assert(has_value(init, v));
                    let k = choose|k: int|
                        0 <= k < kept_init.len() && (#[trigger] kept_init[k]).value == v;
                    assert(kept[k].value == v);
                } else if !has_value(init, last.value) {
                    assert(kept[kept.len() - 1].value == v);
                }
            }
            if has_value(kept, v) {
                let k = choose|k: int| 0 <= k < kept.len() && (#[trigger] kept[k]).value == v;
                if k < kept_init.len() {
                    assert(kept_init[k].value == v);
                    assert(has_value(init, v));
                    let j = choose|j: int| 0 <= j < init.len() && (#[trigger] init[j]).value == v;
                    assert(members[j].value == v);
                } else {
                    assert(members[members.len() - 1].value == v);
                }
            }
        }
        // No two kept members share a value: where the last member is kept, no
        // earlier one has its value.
        assert forall|a: int, b: int| 0 <= a < b < kept.len() implies (#[trigger] kept[a]).value
            != (#[trigger] kept[b]).value by {
            if b >= kept_init.len() && kept[a].value == last.value {
                assert(kept_init[a].value == last.value);
                assert(has_value(kept_init, last.value));
            }
        }
        // A member that was first among all but the last is first among all;
        // where the last member is kept, it is the first with its value.
        assert forall|k: int| 0 <= k < kept.len() implies is_first_member(
            members,
            #[trigger] kept[k],
        ) by {
            if k < kept_init.len() {
                let i = choose|i: int| #[trigger] is_first(init, i) && init[i] == kept_init[k];
                assert forall|j: int| 0 <= j < i implies (#[trigger] members[j]).value
                    != members[i].value by {
                    assert(init[j].value != init[i].value);
                }
                assert(is_first(members, i) && members[i] == kept[k]);
            } else {
                let i = members.len() - 1;
                assert forall|j: int| 0 <= j < i implies (#[trigger] members[j]).value
                    != members[i].value by {
                    if members[j].value == members[i].value {
                        assert(init[j].value == last.value);
                    }
                }
                assert(is_first(members, i) && members[i] == kept[k]);
            }
        }
    }
}

/// A member valued -1 is written as the greatest value of the enum's type,
/// and the value of no member is written with a minus sign.
pub proof fn lemma_member_value_text(ty: Seq<char>, value: i64)
    ensures
        value == -1 ==> member_value_text(ty, value) == ty + "::MAX"@,
        value != -1 ==> member_value_text(ty, value) == hex_text(bits_of(value)),
        value != -1 ==> !member_value_text(ty, value).contains('-'),
{
    lemma_hex_text_unsigned(bits_of(value));
}

/// An enum whose width is not 1, 2, 4 or 8 bytes has no lines.
pub proof fn lemma_unsupported_alignment(depth: nat, e: EnumView)
    requires
        e.alignment != 1,
        e.alignment != 2,
        e.alignment != 4,
        e.alignment != 8,
    ensures
        enum_lines(depth, e) == Seq::<Line>::empty(),
{
}

/// Two enums with the same content are written as the same text, whatever
/// the depth and the indentation.
pub proof fn lemma_same_enum_same_text(width: nat, depth: nat, first: Enum, second: Enum)
    requires
        first@ == second@,
    ensures
        crate::formatter::layout(width, enum_lines(depth, first@)) == crate::formatter::layout(
            width,
            enum_lines(depth, second@),
        ),
{
}

/// Two schema maps with the same content are written as the same text.
pub proof fn lemma_same_schemas_same_text(width: nat, depth: nat, first: SchemaMap, second: SchemaMap)
    requires
        first@ == second@,
    ensures
        crate::formatter::layout(width, schemas_document(depth, first@))
            == crate::formatter::layout(width, schemas_document(depth, second@)),
{
}

} // verus!
