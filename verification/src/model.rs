//! The entity maps that an analysis hands to the emitters, and their
//! mathematical views. A map is a sequence of entries: the emitters walk it
//! in the order in which it was filled.

use vstd::prelude::*;

verus! {

/// A name with the number found for it: a button and its id, an interface
/// and its address, a symbol and its offset.
#[derive(Clone, Debug)]
pub struct Symbol {
    pub name: String,
    pub value: u64,
}

/// A symbol as a value: the characters of its name, and its number.
pub struct SymbolView {
    pub name: Seq<char>,
    pub value: u64,
}

impl View for Symbol {
    type V = SymbolView;

    open spec fn view(&self) -> SymbolView {
        SymbolView { name: self.name@, value: self.value }
    }
}

/// The views of a run of symbols.
pub open spec fn symbol_views(symbols: Seq<Symbol>) -> Seq<SymbolView> {
    symbols.map_values(|s: Symbol| s@)
}

/// The input buttons, by name.
#[derive(Clone, Debug)]
pub struct ButtonMap {
    pub buttons: Vec<Symbol>,
}

impl View for ButtonMap {
    type V = Seq<SymbolView>;

    open spec fn view(&self) -> Seq<SymbolView> {
        symbol_views(self.buttons@)
    }
}

/// What was found in one module of the process: its name, as the process
/// has it, and the symbols.
#[derive(Clone, Debug)]
pub struct ModuleSymbols {
    pub name: String,
    pub symbols: Vec<Symbol>,
}

/// A module and its symbols as a value.
pub struct ModuleSymbolsView {
    pub name: Seq<char>,
    pub symbols: Seq<SymbolView>,
}

impl View for ModuleSymbols {
    type V = ModuleSymbolsView;

    open spec fn view(&self) -> ModuleSymbolsView {
        ModuleSymbolsView { name: self.name@, symbols: symbol_views(self.symbols@) }
    }
}

/// The views of a run of modules.
pub open spec fn module_views(modules: Seq<ModuleSymbols>) -> Seq<ModuleSymbolsView> {
    modules.map_values(|m: ModuleSymbols| m@)
}

/// The interfaces of each module, by name, with their addresses.
#[derive(Clone, Debug)]
pub struct InterfaceMap {
    pub modules: Vec<ModuleSymbols>,
}

impl View for InterfaceMap {
    type V = Seq<ModuleSymbolsView>;

    open spec fn view(&self) -> Seq<ModuleSymbolsView> {
        module_views(self.modules@)
    }
}

/// The offsets of each module, by name.
#[derive(Clone, Debug)]
pub struct OffsetMap {
    pub modules: Vec<ModuleSymbols>,
}

impl View for OffsetMap {
    type V = Seq<ModuleSymbolsView>;

    open spec fn view(&self) -> Seq<ModuleSymbolsView> {
        module_views(self.modules@)
    }
}

/// A field of a class. The type name is documentation only.
#[derive(Clone, Debug)]
pub struct ClassField {
    pub name: String,
    pub offset: u64,
    pub declared_type: String,
}

/// A field as a value.
pub struct ClassFieldView {
    pub name: Seq<char>,
    pub offset: u64,
    pub declared_type: Seq<char>,
}

impl View for ClassField {
    type V = ClassFieldView;

    open spec fn view(&self) -> ClassFieldView {
        ClassFieldView { name: self.name@, offset: self.offset, declared_type: self.declared_type@ }
    }
}

/// A note attached to a class.
#[derive(Clone, Debug)]
pub enum ClassMetadata {
    NetworkChangeCallback { name: String },
    NetworkVarNames { name: String, declared_type: String },
    Unknown { name: String },
}

/// A note as a value.
pub enum ClassMetadataView {
    NetworkChangeCallback { name: Seq<char> },
    NetworkVarNames { name: Seq<char>, declared_type: Seq<char> },
    Unknown { name: Seq<char> },
}

impl View for ClassMetadata {
    type V = ClassMetadataView;

    open spec fn view(&self) -> ClassMetadataView {
        match self {
            ClassMetadata::NetworkChangeCallback { name } => {
                ClassMetadataView::NetworkChangeCallback { name: name@ }
            },
            ClassMetadata::NetworkVarNames { name, declared_type } => {
                ClassMetadataView::NetworkVarNames { name: name@, declared_type: declared_type@ }
            },
            ClassMetadata::Unknown { name } => ClassMetadataView::Unknown { name: name@ },
        }
    }
}

/// A class: its name, the name of the class it derives from, if any, its
/// fields and its notes.
#[derive(Clone, Debug)]
pub struct Class {
    pub name: String,
    pub parent: Option<String>,
    pub fields: Vec<ClassField>,
    pub metadata: Vec<ClassMetadata>,
}

/// A class as a value.
pub struct ClassView {
    pub name: Seq<char>,
    pub parent: Option<Seq<char>>,
    pub fields: Seq<ClassFieldView>,
    pub metadata: Seq<ClassMetadataView>,
}

/// The views of a run of fields.
pub open spec fn field_views(fields: Seq<ClassField>) -> Seq<ClassFieldView> {
    fields.map_values(|f: ClassField| f@)
}

/// The views of a run of notes.
pub open spec fn metadata_views(metadata: Seq<ClassMetadata>) -> Seq<ClassMetadataView> {
    metadata.map_values(|m: ClassMetadata| m@)
}

impl View for Class {
    type V = ClassView;

    open spec fn view(&self) -> ClassView {
        ClassView {
            name: self.name@,
            parent: match self.parent {
                Some(p) => Some(p@),
                None => None,
            },
            fields: field_views(self.fields@),
            metadata: metadata_views(self.metadata@),
        }
    }
}

/// A member of an enum.
#[derive(Clone, Debug)]
pub struct EnumMember {
    pub name: String,
    pub value: i64,
}

/// A member as a value.
pub struct EnumMemberView {
    pub name: Seq<char>,
    pub value: i64,
}

impl View for EnumMember {
    type V = EnumMemberView;

    open spec fn view(&self) -> EnumMemberView {
        EnumMemberView { name: self.name@, value: self.value }
    }
}

/// The views of a run of members.
pub open spec fn member_views(members: Seq<EnumMember>) -> Seq<EnumMemberView> {
    members.map_values(|m: EnumMember| m@)
}

/// An enum: its name, the width of its values in bytes, the number of
/// members it declares, and the members that were read.
#[derive(Clone, Debug)]
pub struct Enum {
    pub name: String,
    pub alignment: u8,
    pub size: u16,
    pub members: Vec<EnumMember>,
}

/// An enum as a value.
pub struct EnumView {
    pub name: Seq<char>,
    pub alignment: u8,
    pub size: u16,
    pub members: Seq<EnumMemberView>,
}

impl View for Enum {
    type V = EnumView;

    open spec fn view(&self) -> EnumView {
        EnumView {
            name: self.name@,
            alignment: self.alignment,
            size: self.size,
            members: member_views(self.members@),
        }
    }
}

/// The views of a run of classes.
pub open spec fn class_views(classes: Seq<Class>) -> Seq<ClassView> {
    classes.map_values(|c: Class| c@)
}

/// The views of a run of enums.
pub open spec fn enum_views(enums: Seq<Enum>) -> Seq<EnumView> {
    enums.map_values(|e: Enum| e@)
}

/// The classes and enums of one module of the process.
#[derive(Clone, Debug)]
pub struct SchemaModule {
    pub name: String,
    pub classes: Vec<Class>,
    pub enums: Vec<Enum>,
}

/// The classes and enums of a module as a value.
pub struct SchemaModuleView {
    pub name: Seq<char>,
    pub classes: Seq<ClassView>,
    pub enums: Seq<EnumView>,
}

impl View for SchemaModule {
    type V = SchemaModuleView;

    open spec fn view(&self) -> SchemaModuleView {
        SchemaModuleView {
            name: self.name@,
            classes: class_views(self.classes@),
            enums: enum_views(self.enums@),
        }
    }
}

/// The class schemas of each module.
#[derive(Clone, Debug)]
pub struct SchemaMap {
    pub modules: Vec<SchemaModule>,
}

impl View for SchemaMap {
    type V = Seq<SchemaModuleView>;

    open spec fn view(&self) -> Seq<SchemaModuleView> {
        self.modules@.map_values(|m: SchemaModule| m@)
    }
}

} // verus!
