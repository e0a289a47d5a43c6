//! The output driver's decisions: which dialects are asked for, what each
//! file is called, and what it holds. Writing the files is left to the
//! caller.

use crate::buttons::buttons_document;
use crate::formatter::{layout, Formatter, Line};
use crate::ident::Dialect;
use crate::interfaces::interfaces_document;
use crate::model::{ButtonMap, InterfaceMap, OffsetMap, SchemaMap};
use crate::offsets::offsets_document;
use crate::schemas::schemas_document;
use crate::text::same_text;
use vstd::prelude::*;

verus! {

/// The kinds of entity map, in the order in which their files are made.
#[derive(Clone, Copy, PartialEq, Eq, Structural, Debug)]
pub enum Kind {
    Buttons,
    Interfaces,
    Offsets,
    Schemas,
}

/// The four entity maps of one analysis.
#[derive(Clone, Debug)]
pub struct AnalysisResult {
    pub buttons: ButtonMap,
    pub interfaces: InterfaceMap,
    pub offsets: OffsetMap,
    pub schemas: SchemaMap,
}

/// Why output could not be made.
#[derive(Clone, Debug)]
pub enum OutputError {
    /// A file type was asked for that no emitter writes.
    UnsupportedDialect { name: String },
    /// The file of one kind in one dialect could not be written.
    WriteError { dialect: Dialect, kind: Kind },
}

/// An error as a value.
pub enum OutputErrorView {
    UnsupportedDialect { name: Seq<char> },
    WriteError { dialect: Dialect, kind: Kind },
}

impl View for OutputError {
    type V = OutputErrorView;

    open spec fn view(&self) -> OutputErrorView {
        match self {
            OutputError::UnsupportedDialect { name } => OutputErrorView::UnsupportedDialect {
                name: name@,
            },
            OutputError::WriteError { dialect, kind } => OutputErrorView::WriteError {
                dialect: *dialect,
                kind: *kind,
            },
        }
    }
}

/// A file to write: the dialect and the kind it holds, its name below the
/// output directory, and its text.
#[derive(Clone, Debug)]
pub struct OutputFile {
    pub dialect: Dialect,
    pub kind: Kind,
    pub name: String,
    pub text: String,
}

/// A file as a value.
pub struct OutputFileView {
    pub dialect: Dialect,
    pub kind: Kind,
    pub name: Seq<char>,
    pub text: Seq<char>,
}

impl View for OutputFile {
    type V = OutputFileView;

    open spec fn view(&self) -> OutputFileView {
        OutputFileView { dialect: self.dialect, kind: self.kind, name: self.name@, text: self.text@ }
    }
}

/// The dialect that a file type names, if it names one.
pub open spec fn dialect_named(name: Seq<char>) -> Option<Dialect> {
    if name == "rs"@ {
        Some(Dialect::Rust)
    } else {
        None
    }
}

/// Whether each of the file types names a dialect.
pub open spec fn all_known(file_types: Seq<String>) -> bool {
    forall|i: int|
        0 <= i < file_types.len() ==> dialect_named((#[trigger] file_types[i])@) is Some
}

/// The ending of the files of a dialect.
pub open spec fn extension(dialect: Dialect) -> Seq<char> {
    match dialect {
        Dialect::Rust => "rs"@,
    }
}

/// The name of the files of a kind, without the ending.
pub open spec fn stem(kind: Kind) -> Seq<char> {
    match kind {
        Kind::Buttons => "buttons"@,
        Kind::Interfaces => "interfaces"@,
        Kind::Offsets => "offsets"@,
        Kind::Schemas => "schemas"@,
    }
}

/// The name of the file that holds one kind in one dialect.
pub open spec fn file_name_text(dialect: Dialect, kind: Kind) -> Seq<char> {
    stem(kind) + "."@ + extension(dialect)
}

/// The lines of the Rust file of one kind.
pub open spec fn document(kind: Kind, result: &AnalysisResult) -> Seq<Line> {
    match kind {
        Kind::Buttons => buttons_document(0, result.buttons@),
        Kind::Interfaces => interfaces_document(0, result.interfaces@),
        Kind::Offsets => offsets_document(0, result.offsets@),
        Kind::Schemas => schemas_document(0, result.schemas@),
    }
}

/// The text of the file of one kind in one dialect, indented by `width`
/// spaces per level.
pub open spec fn rendered(
    dialect: Dialect,
    kind: Kind,
    width: nat,
    result: &AnalysisResult,
) -> Seq<char> {
    match dialect {
        Dialect::Rust => layout(width, document(kind, result)),
    }
}

/// The file of one kind in one dialect.
pub open spec fn file_view(
    dialect: Dialect,
    kind: Kind,
    width: nat,
    result: &AnalysisResult,
) -> OutputFileView {
    OutputFileView {
        dialect,
        kind,
        name: file_name_text(dialect, kind),
        text: rendered(dialect, kind, width, result),
    }
}

/// The files of one kind: one for each dialect, in order.
pub open spec fn kind_files(
    dialects: Seq<Dialect>,
    kind: Kind,
    width: nat,
    result: &AnalysisResult,
) -> Seq<OutputFileView> {
    Seq::new(dialects.len(), |i: int| file_view(dialects[i], kind, width, result))
}

/// All the files: those of the buttons, the interfaces, the offsets and
/// the schemas, in that order.
pub open spec fn all_files(dialects: Seq<Dialect>, width: nat, result: &AnalysisResult) -> Seq<
    OutputFileView,
> {
    kind_files(dialects, Kind::Buttons, width, result) + kind_files(
        dialects,
        Kind::Interfaces,
        width,
        result,
    ) + kind_files(dialects, Kind::Offsets, width, result) + kind_files(
        dialects,
        Kind::Schemas,
        width,
        result,
    )
}

/// The views of a run of files.
pub open spec fn file_views(files: Seq<OutputFile>) -> Seq<OutputFileView> {
    files.map_values(|f: OutputFile| f@)
}

/// The views of a run of errors.
pub open spec fn error_views(errors: Seq<OutputError>) -> Seq<OutputErrorView> {
    errors.map_values(|e: OutputError| e@)
}

/// Whether the file at `i` was written: a file for which nothing is
/// recorded was not.
pub open spec fn was_written(written: Seq<bool>, i: int) -> bool {
    0 <= i < written.len() && written[i]
}

/// One error for each file that was not written, in the order of the files.
pub open spec fn failures(files: Seq<OutputFileView>, written: Seq<bool>) -> Seq<OutputErrorView>
    decreases files.len(),
{
    if files.len() == 0 {
        Seq::empty()
    } else if was_written(written, files.len() - 1) {
        failures(files.drop_last(), written)
    } else {
        failures(files.drop_last(), written).push(
            OutputErrorView::WriteError { dialect: files.last().dialect, kind: files.last().kind },
        )
    }
}

/// The dialect that the file type `name` asks for: `rs` is Rust, and no
/// other name is known.
pub fn parse_dialect(name: &str) -> (dialect: Option<Dialect>)
    ensures
        dialect == dialect_named(name@),
{
    if same_text(name, "rs") {
        Some(Dialect::Rust)
    } else {
        None
    }
}

/// The name of the file that holds one kind in one dialect.
pub fn file_name(dialect: Dialect, kind: Kind) -> (name: String)
    ensures
        name@ == file_name_text(dialect, kind),
{
    let mut name = String::new();
    match kind {
        Kind::Buttons => name.append("buttons"),
        Kind::Interfaces => name.append("interfaces"),
        Kind::Offsets => name.append("offsets"),
        Kind::Schemas => name.append("schemas"),
    }
    name.append(".");
    match dialect {
        Dialect::Rust => name.append("rs"),
    }
    name
}

/// Renders one kind in one dialect, starting at depth 0 with `indent_size`
/// spaces per level.
pub fn render(dialect: Dialect, kind: Kind, indent_size: usize, result: &AnalysisResult) -> (text:
    String)
    ensures
        text@ == rendered(dialect, kind, indent_size as nat, result),
{
    let mut fmt = Formatter::new(indent_size);
    match dialect {
        Dialect::Rust => match kind {
            Kind::Buttons => result.buttons.write_rs(&mut fmt),
            Kind::Interfaces => result.interfaces.write_rs(&mut fmt),
            Kind::Offsets => result.offsets.write_rs(&mut fmt),
            Kind::Schemas => result.schemas.write_rs(&mut fmt),
        },
    }
    fmt.finish()
}

/// Nothing is reported exactly when every file was written, and never more
/// errors than there are files.
pub proof fn lemma_failures(files: Seq<OutputFileView>, written: Seq<bool>)
    ensures
        failures(files, written).len() <= files.len(),
        failures(files, written).len() == 0 <==> forall|i: int|
            0 <= i < files.len() ==> #[trigger] was_written(written, i),
    decreases files.len(),
{
    if files.len() > 0 {
        lemma_failures(files.drop_last(), written);
    }
}

/// What is reported once every file has been tried: an error for each file
/// that was not written, with its dialect and its kind, in the order of the
/// files. `written` holds for each file whether it was written; that one
/// file failed changes nothing for the others.
pub fn write_errors(files: &Vec<OutputFile>, written: &Vec<bool>) -> (errors: Vec<OutputError>)
    ensures
        error_views(errors@) == failures(file_views(files@), written@),
{
    let ghost views = file_views(files@);
    let mut errors: Vec<OutputError> = Vec::new();
    let mut i: usize = 0;
    while i < files.len()
        invariant
            i <= files.len(),
            views == file_views(files@),
            error_views(errors@) == failures(views.take(i as int), written@),
        decreases files.len() - i,
    {
        let ok = i < written.len() && written[i];
        assert(views.take(i + 1).drop_last() =~= views.take(i as int));
        if !ok {
            let error = OutputError::WriteError { dialect: files[i].dialect, kind: files[i].kind };
            errors.push(error);
        }
        i += 1;
    }
    assert(views.take(i as int) =~= views);
    errors
}

/// What is needed to make the output of one analysis: the dialects asked
/// for, the indentation, and the entity maps.
pub struct Output<'a> {
    dialects: Vec<Dialect>,
    indent_size: usize,
    result: &'a AnalysisResult,
}

impl<'a> Output<'a> {
    /// The dialects asked for, in order.
    pub closed spec fn dialects(&self) -> Seq<Dialect> {
        self.dialects@
    }

    /// The number of spaces per level.
    pub closed spec fn width(&self) -> nat {
        self.indent_size as nat
    }

    /// The entity maps.
    pub closed spec fn result(&self) -> &'a AnalysisResult {
        self.result
    }

    /// Takes the file types asked for. The first that names no dialect is
    /// refused, before anything is rendered.
    pub fn new(file_types: &Vec<String>, indent_size: usize, result: &'a AnalysisResult) -> (out:
        Result<Self, OutputError>)
        ensures
            out is Ok <==> all_known(file_types@),
            match out {
                Ok(output) => {
                    &&& output.width() == indent_size
                    &&& output.result() == result
                    &&& output.dialects().len() == file_types@.len()
                    &&& forall|i: int|
                        0 <= i < file_types@.len() ==> dialect_named(
                            (#[trigger] file_types@[i])@,
                        ) == Some(output.dialects()[i])
                },
                Err(OutputError::UnsupportedDialect { name }) => exists|i: int|
                    {
                        &&& 0 <= i < file_types@.len()
                        &&& dialect_named((#[trigger] file_types@[i])@) is None
                        &&& name@ == file_types@[i]@
                        &&& forall|j: int|
                            0 <= j < i ==> dialect_named((#[trigger] file_types@[j])@) is Some
                    },
                Err(OutputError::WriteError { .. }) => false,
            },
    {
        let mut dialects: Vec<Dialect> = Vec::new();
        let mut i: usize = 0;
        while i < file_types.len()
            invariant
                i <= file_types.len(),
                dialects@.len() == i,
                forall|j: int|
                    0 <= j < i ==> dialect_named((#[trigger] file_types@[j])@) == Some(
                        dialects@[j],
                    ),
            decreases file_types.len() - i,
        {
            match parse_dialect(file_types[i].as_str()) {
                Some(dialect) => dialects.push(dialect),
                None => {
                    return Err(OutputError::UnsupportedDialect { name: file_types[i].clone() });
                },
            }
            i += 1;
        }
        Ok(Output { dialects, indent_size, result })
    }

    /// Renders one kind in one dialect.
    pub fn render(&self, dialect: Dialect, kind: Kind) -> (text: String)
        ensures
            text@ == rendered(dialect, kind, self.width(), self.result()),
    {
        render(dialect, kind, self.indent_size, self.result)
    }

    fn push_kind(&self, kind: Kind, files: &mut Vec<OutputFile>)
        ensures
            file_views(final(files)@) == file_views(old(files)@) + kind_files(
                self.dialects(),
                kind,
                self.width(),
                self.result(),
            ),
    {
        let ghost before = file_views(files@);
        let mut i: usize = 0;
        while i < self.dialects.len()
            invariant
                i <= self.dialects.len(),
                file_views(files@) == before + kind_files(
                    self.dialects@.take(i as int),
                    kind,
                    self.indent_size as nat,
                    self.result,
                ),
            decreases self.dialects.len() - i,
        {
            let dialect = self.dialects[i];
            let file = OutputFile {
                dialect,
                kind,
                name: file_name(dialect, kind),
                text: self.render(dialect, kind),
            };
            let ghost prev = files@;
            files.push(file);
            i += 1;
            assert(file_views(files@) =~= file_views(prev).push(file@));
        }
    }

    /// Renders every kind in every dialect asked for: the files of the
    /// buttons first, then those of the interfaces, the offsets and the
    /// schemas.
    pub fn render_all(&self) -> (files: Vec<OutputFile>)
        ensures
            file_views(files@) == all_files(self.dialects(), self.width(), self.result()),
    {
        let mut files: Vec<OutputFile> = Vec::new();
        self.push_kind(Kind::Buttons, &mut files);
        self.push_kind(Kind::Interfaces, &mut files);
        self.push_kind(Kind::Offsets, &mut files);
        self.push_kind(Kind::Schemas, &mut files);
        files
    }
}

} // verus!
