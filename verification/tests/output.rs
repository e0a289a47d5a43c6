use cs2_dumper::ident::Dialect;
use cs2_dumper::model::{
    ButtonMap, Class, ClassField, Enum, EnumMember, InterfaceMap, ModuleSymbols, OffsetMap, SchemaMap,
    SchemaModule, Symbol,
};
use cs2_dumper::output::{
    file_name, parse_dialect, render, write_errors, AnalysisResult, Kind, Output, OutputError, OutputFile,
};

fn sample() -> AnalysisResult {
    AnalysisResult {
        buttons: ButtonMap {
            buttons: vec![
                Symbol { name: "use".to_string(), value: 4 },
                Symbol { name: "jump".to_string(), value: 1 },
            ],
        },
        interfaces: InterfaceMap {
            modules: vec![ModuleSymbols {
                name: "client.dll".to_string(),
                symbols: vec![Symbol { name: "Source2Client002".to_string(), value: 0x1A2B30 }],
            }],
        },
        offsets: OffsetMap {
            modules: vec![ModuleSymbols {
                name: "engine2.dll".to_string(),
                symbols: vec![Symbol { name: "dwBuildNumber".to_string(), value: 0x540BE4 }],
            }],
        },
        schemas: SchemaMap {
            modules: vec![SchemaModule {
                name: "client.dll".to_string(),
                classes: vec![Class {
                    name: "CEntityInstance".to_string(),
                    parent: None,
                    fields: vec![ClassField {
                        name: "m_pEntity".to_string(),
                        offset: 0x10,
                        declared_type: "CEntityIdentity*".to_string(),
                    }],
                    metadata: vec![],
                }],
                enums: vec![Enum {
                    name: "Team".to_string(),
                    alignment: 4,
                    size: 3,
                    members: vec![
                        EnumMember { name: "TEAM_NONE".to_string(), value: 0 },
                        EnumMember { name: "TEAM_DUP".to_string(), value: 0 },
                        EnumMember { name: "TEAM_A".to_string(), value: 1 },
                    ],
                }],
            }],
        },
    }
}

fn names(list: &[&str]) -> Vec<String> {
    list.iter().map(|s| s.to_string()).collect()
}

fn file(kind: Kind) -> OutputFile {
    OutputFile {
        dialect: Dialect::Rust,
        kind,
        name: file_name(Dialect::Rust, kind),
        text: String::new(),
    }
}

#[test]
fn dialect_rs_is_rust() {
    assert_eq!(parse_dialect("rs"), Some(Dialect::Rust));
}

#[test]
fn other_dialect_names_are_unknown() {
    for name in ["", "RS", "rs ", "rust", "cs", "hpp", "json", "yaml"] {
        assert_eq!(parse_dialect(name), None);
    }
}

#[test]
fn file_names_by_kind() {
    assert_eq!(file_name(Dialect::Rust, Kind::Buttons), "buttons.rs");
    assert_eq!(file_name(Dialect::Rust, Kind::Interfaces), "interfaces.rs");
    assert_eq!(file_name(Dialect::Rust, Kind::Offsets), "offsets.rs");
    assert_eq!(file_name(Dialect::Rust, Kind::Schemas), "schemas.rs");
}

#[test]
fn output_of_known_dialects() {
    let result = sample();
    assert!(Output::new(&names(&["rs"]), 4, &result).is_ok());
    assert!(Output::new(&names(&["rs", "rs"]), 4, &result).is_ok());
    assert!(Output::new(&names(&[]), 4, &result).is_ok());
}

#[test]
fn output_refuses_the_first_unknown_dialect() {
    let result = sample();
    match Output::new(&names(&["rs", "cs", "hpp"]), 4, &result) {
        Err(OutputError::UnsupportedDialect { name }) => assert_eq!(name, "cs"),
        _ => panic!("an unknown file type was accepted"),
    }
    match Output::new(&names(&["yaml"]), 4, &result) {
        Err(OutputError::UnsupportedDialect { name }) => assert_eq!(name, "yaml"),
        _ => panic!("an unknown file type was accepted"),
    }
}

#[test]
fn render_buttons_from_depth_zero() {
    let result = sample();
    let expected = "\
#![allow(non_upper_case_globals, unused)]

pub mod cs2_dumper {
    // Module: client.dll
    pub mod buttons {
        pub const r#use: usize = 0x4;
        pub const jump: usize = 0x1;
    }
}
";
    assert_eq!(render(Dialect::Rust, Kind::Buttons, 4, &result), expected);
}

#[test]
fn render_each_kind() {
    let result = sample();
    let interfaces = render(Dialect::Rust, Kind::Interfaces, 4, &result);
    assert!(interfaces.contains("    pub mod interfaces {\n        // Module: client.dll\n        pub mod client_dll {\n"));
    assert!(interfaces.contains("            pub const Source2Client002: usize = 0x1A2B30;\n"));
    let offsets = render(Dialect::Rust, Kind::Offsets, 4, &result);
    assert!(offsets.contains("    pub mod offsets {\n        // Module: engine2.dll\n        pub mod engine2_dll {\n"));
    assert!(offsets.contains("            pub const dwBuildNumber: usize = 0x540BE4;\n"));
    let schemas = render(Dialect::Rust, Kind::Schemas, 4, &result);
    assert!(schemas.contains("                TEAM_NONE = 0x0,\n                TEAM_A = 0x1\n"));
    assert!(schemas.contains("                pub const m_pEntity: usize = 0x10; // CEntityIdentity*\n"));
}

#[test]
fn render_goes_by_the_indentation() {
    let result = sample();
    let narrow = render(Dialect::Rust, Kind::Buttons, 1, &result);
    assert!(narrow.contains("\n  pub const jump: usize = 0x1;\n"));
    let wide = render(Dialect::Rust, Kind::Buttons, 8, &result);
    assert!(wide.contains("\n                pub const jump: usize = 0x1;\n"));
}

#[test]
fn output_renders_like_render() {
    let result = sample();
    let output = Output::new(&names(&["rs"]), 2, &result).unwrap();
    for kind in [Kind::Buttons, Kind::Interfaces, Kind::Offsets, Kind::Schemas] {
        assert_eq!(output.render(Dialect::Rust, kind), render(Dialect::Rust, kind, 2, &result));
    }
}

#[test]
fn render_all_makes_one_file_for_each_kind() {
    let result = sample();
    let output = Output::new(&names(&["rs"]), 4, &result).unwrap();
    let files = output.render_all();
    let file_names: Vec<&str> = files.iter().map(|f| f.name.as_str()).collect();
    assert_eq!(file_names, vec!["buttons.rs", "interfaces.rs", "offsets.rs", "schemas.rs"]);
    let kinds: Vec<Kind> = files.iter().map(|f| f.kind).collect();
    assert_eq!(kinds, vec![Kind::Buttons, Kind::Interfaces, Kind::Offsets, Kind::Schemas]);
    for f in &files {
        assert_eq!(f.dialect, Dialect::Rust);
        assert_eq!(f.text, render(Dialect::Rust, f.kind, 4, &result));
    }
}

#[test]
fn render_all_of_no_dialect_is_empty() {
    let result = sample();
    let output = Output::new(&names(&[]), 4, &result).unwrap();
    assert!(output.render_all().is_empty());
}

#[test]
fn render_all_twice_gives_the_same_files() {
    let result = sample();
    let output = Output::new(&names(&["rs"]), 4, &result).unwrap();
    let first = output.render_all();
    let second = output.render_all();
    assert_eq!(first.len(), second.len());
    for (a, b) in first.iter().zip(second.iter()) {
        assert_eq!(a.name, b.name);
        assert_eq!(a.text, b.text);
    }
}

#[test]
fn no_write_errors_when_every_file_was_written() {
    let files = vec![file(Kind::Buttons), file(Kind::Interfaces)];
    assert!(write_errors(&files, &vec![true, true]).is_empty());
    assert!(write_errors(&vec![], &vec![]).is_empty());
}

#[test]
fn write_errors_name_each_failed_file() {
    let files = vec![file(Kind::Buttons), file(Kind::Interfaces), file(Kind::Offsets), file(Kind::Schemas)];
    let errors = write_errors(&files, &vec![true, false, true, false]);
    assert_eq!(errors.len(), 2);
    assert!(matches!(errors[0], OutputError::WriteError { dialect: Dialect::Rust, kind: Kind::Interfaces }));
    assert!(matches!(errors[1], OutputError::WriteError { dialect: Dialect::Rust, kind: Kind::Schemas }));
}

#[test]
fn write_errors_count_untried_files_as_failed() {
    let files = vec![file(Kind::Buttons), file(Kind::Offsets)];
    let errors = write_errors(&files, &vec![true]);
    assert_eq!(errors.len(), 1);
    assert!(matches!(errors[0], OutputError::WriteError { dialect: Dialect::Rust, kind: Kind::Offsets }));
}
