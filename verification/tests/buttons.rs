use cs2_dumper::formatter::Formatter;
use cs2_dumper::model::{ButtonMap, Symbol};

fn button(name: &str, value: u64) -> Symbol {
    Symbol { name: name.to_string(), value }
}

fn written(map: &ButtonMap, indent_size: usize) -> String {
    let mut fmt = Formatter::new(indent_size);
    map.write_rs(&mut fmt);
    fmt.finish()
}

#[test]
fn buttons_use_and_jump() {
    let map = ButtonMap { buttons: vec![button("use", 4), button("jump", 1)] };
    let expected = "\
#![allow(non_upper_case_globals, unused)]

pub mod cs2_dumper {
    // Module: client.dll
    pub mod buttons {
        pub const r#use: usize = 0x4;
        pub const jump: usize = 0x1;
    }
}
";
    assert_eq!(written(&map, 4), expected);
}

#[test]
fn buttons_reserved_word_is_escaped_and_others_are_not() {
    let map = ButtonMap { buttons: vec![button("use", 4), button("jump", 1)] };
    let text = written(&map, 4);
    assert!(text.contains("pub const r#use: usize = 0x4;"));
    assert!(!text.contains("pub const use:"));
    assert!(text.contains("pub const jump: usize = 0x1;"));
    assert_eq!(text.matches("pub const ").count(), 2);
}

#[test]
fn buttons_empty_map() {
    let map = ButtonMap { buttons: vec![] };
    let expected = "\
#![allow(non_upper_case_globals, unused)]

pub mod cs2_dumper {
    // Module: client.dll
    pub mod buttons {
    }
}
";
    assert_eq!(written(&map, 4), expected);
}

#[test]
fn buttons_keep_the_order_of_the_map() {
    let map = ButtonMap {
        buttons: vec![button("zoom", 0x2000), button("attack", 0x1), button("reload", 0x8)],
    };
    let text = written(&map, 2);
    let zoom = text.find("pub const zoom").unwrap();
    let attack = text.find("pub const attack").unwrap();
    let reload = text.find("pub const reload").unwrap();
    assert!(zoom < attack);
    assert!(attack < reload);
}

#[test]
fn buttons_one_constant_for_each_entry() {
    let mut buttons = Vec::new();
    for i in 0..40u64 {
        buttons.push(button(&format!("button{}", i), i * 37));
    }
    let map = ButtonMap { buttons };
    let text = written(&map, 4);
    assert_eq!(text.matches("pub const ").count(), 40);
    assert_eq!(text.lines().count(), 47);
}

#[test]
fn buttons_values_read_back() {
    let values: Vec<u64> = vec![0, 1, 0x10, 0xFFFF, 0x8000_0000, u64::MAX];
    let mut buttons = Vec::new();
    for (i, v) in values.iter().enumerate() {
        buttons.push(button(&format!("b{}", i), *v));
    }
    let map = ButtonMap { buttons };
    let text = written(&map, 4);
    let mut read = Vec::new();
    for line in text.lines() {
        let line = line.trim();
        if line.starts_with("pub const ") {
            let value = line.split(" = ").nth(1).unwrap().trim_end_matches(';');
            read.push(u64::from_str_radix(value.trim_start_matches("0x"), 16).unwrap());
        }
    }
    assert_eq!(read, values);
}

#[test]
fn buttons_written_into_an_open_block() {
    let map = ButtonMap { buttons: vec![button("jump", 1)] };
    let mut fmt = Formatter::new(2);
    fmt.begin_block("outer");
    map.write_rs(&mut fmt);
    assert_eq!(fmt.indent_level(), 1);
    fmt.end_block(false);
    let expected = "\
outer {
  #![allow(non_upper_case_globals, unused)]
  
  pub mod cs2_dumper {
    // Module: client.dll
    pub mod buttons {
      pub const jump: usize = 0x1;
    }
  }
}
";
    assert_eq!(fmt.finish(), expected);
}
