use cs2_dumper::formatter::Formatter;
use cs2_dumper::model::{InterfaceMap, ModuleSymbols, OffsetMap, Symbol};
use cs2_dumper::source::{write_constant, write_constants, write_module_comment, write_preamble, write_symbol_module};

fn symbol(name: &str, value: u64) -> Symbol {
    Symbol { name: name.to_string(), value }
}

fn module(name: &str, symbols: Vec<Symbol>) -> ModuleSymbols {
    ModuleSymbols { name: name.to_string(), symbols }
}

#[test]
fn interfaces_of_two_modules() {
    let map = InterfaceMap {
        modules: vec![
            module(
                "client.dll",
                vec![symbol("Source2Client002", 0x1A2B30), symbol("GameClientExports001", 0x1A0000)],
            ),
            module("engine2.dll", vec![symbol("GameEventSystemClientV001", 0x5F0)]),
        ],
    };
    let mut fmt = Formatter::new(4);
    map.write_rs(&mut fmt);
    let expected = "\
#![allow(non_upper_case_globals, unused)]

pub mod cs2_dumper {
    pub mod interfaces {
        // Module: client.dll
        pub mod client_dll {
            pub const Source2Client002: usize = 0x1A2B30;
            pub const GameClientExports001: usize = 0x1A0000;
        }
        // Module: engine2.dll
        pub mod engine2_dll {
            pub const GameEventSystemClientV001: usize = 0x5F0;
        }
    }
}
";
    assert_eq!(fmt.finish(), expected);
}

#[test]
fn interfaces_empty_map() {
    let map = InterfaceMap { modules: vec![] };
    let mut fmt = Formatter::new(4);
    map.write_rs(&mut fmt);
    let expected = "\
#![allow(non_upper_case_globals, unused)]

pub mod cs2_dumper {
    pub mod interfaces {
    }
}
";
    assert_eq!(fmt.finish(), expected);
}

#[test]
fn offsets_of_two_modules() {
    let map = OffsetMap {
        modules: vec![
            module(
                "client.dll",
                vec![symbol("dwEntityList", 0x19F2488), symbol("dwLocalPlayerPawn", 0x1855CE8)],
            ),
            module("Input System.dll", vec![symbol("dwInputSystem", 0x387E0)]),
        ],
    };
    let mut fmt = Formatter::new(2);
    map.write_rs(&mut fmt);
    let expected = "\
#![allow(non_upper_case_globals, unused)]

pub mod cs2_dumper {
  pub mod offsets {
    // Module: client.dll
    pub mod client_dll {
      pub const dwEntityList: usize = 0x19F2488;
      pub const dwLocalPlayerPawn: usize = 0x1855CE8;
    }
    // Module: Input System.dll
    pub mod input_system_dll {
      pub const dwInputSystem: usize = 0x387E0;
    }
  }
}
";
    assert_eq!(fmt.finish(), expected);
}

#[test]
fn offsets_module_without_symbols() {
    let map = OffsetMap { modules: vec![module("server.dll", vec![])] };
    let mut fmt = Formatter::new(4);
    map.write_rs(&mut fmt);
    let expected = "\
#![allow(non_upper_case_globals, unused)]

pub mod cs2_dumper {
    pub mod offsets {
        // Module: server.dll
        pub mod server_dll {
        }
    }
}
";
    assert_eq!(fmt.finish(), expected);
}

#[test]
fn symbol_names_are_written_as_they_are() {
    let map = OffsetMap { modules: vec![module("client.dll", vec![symbol("use", 1)])] };
    let mut fmt = Formatter::new(4);
    map.write_rs(&mut fmt);
    assert!(fmt.finish().contains("pub const use: usize = 0x1;"));
}

#[test]
fn module_namespaces_hold_identifier_characters_only() {
    let names = ["client.dll", "Engine 2.DLL", "steam-audio.dll", "lib vstdlib.so"];
    let mut modules = Vec::new();
    for name in names {
        modules.push(module(name, vec![]));
    }
    let map = InterfaceMap { modules };
    let mut fmt = Formatter::new(4);
    map.write_rs(&mut fmt);
    let text = fmt.finish();
    let mut found = Vec::new();
    for line in text.lines() {
        let line = line.trim();
        if line.starts_with("pub mod ") {
            let name = line.trim_start_matches("pub mod ").trim_end_matches(" {");
            assert!(!name.is_empty());
            assert!(name.chars().all(|c| c.is_ascii_lowercase() || c.is_ascii_digit() || c == '_'));
            assert!(!name.chars().next().unwrap().is_ascii_digit());
            found.push(name.to_string());
        }
    }
    assert_eq!(
        found,
        vec!["cs2_dumper", "interfaces", "client_dll", "engine_2_dll", "steam_audio_dll", "lib_vstdlib_so"]
    );
}

#[test]
fn symbol_module_in_a_given_namespace() {
    let mut fmt = Formatter::new(4);
    write_symbol_module(&mut fmt, &module("client.dll", vec![symbol("a", 10)]), "anything");
    assert_eq!(fmt.finish(), "// Module: client.dll\npub mod anything {\n    pub const a: usize = 0xA;\n}\n");
}

#[test]
fn preamble_is_attribute_and_blank_line() {
    let mut fmt = Formatter::new(4);
    write_preamble(&mut fmt, "#![allow(unused)]");
    assert_eq!(fmt.finish(), "#![allow(unused)]\n\n");
}

#[test]
fn constant_line() {
    let mut fmt = Formatter::new(4);
    write_constant(&mut fmt, "dwViewMatrix", 0x1A54550);
    assert_eq!(fmt.finish(), "pub const dwViewMatrix: usize = 0x1A54550;\n");
}

#[test]
fn constants_in_order() {
    let mut fmt = Formatter::new(4);
    write_constants(&mut fmt, &vec![symbol("b", 2), symbol("a", 1)]);
    assert_eq!(fmt.finish(), "pub const b: usize = 0x2;\npub const a: usize = 0x1;\n");
}

#[test]
fn module_comment_names_the_module_as_it_is() {
    let mut fmt = Formatter::new(4);
    write_module_comment(&mut fmt, "Input System.dll");
    assert_eq!(fmt.finish(), "// Module: Input System.dll\n");
}
