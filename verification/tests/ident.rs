use cs2_dumper::ident::Dialect;

#[test]
fn slugify_replaces_dots_and_spaces() {
    assert_eq!(Dialect::Rust.slugify("client.dll"), "client_dll");
    assert_eq!(Dialect::Rust.slugify("my module.dll"), "my_module_dll");
    assert_eq!(Dialect::Rust.slugify("a-b+c"), "a_b_c");
}

#[test]
fn slugify_keeps_identifier_characters() {
    assert_eq!(Dialect::Rust.slugify("C_BaseEntity2"), "C_BaseEntity2");
    assert_eq!(Dialect::Rust.slugify(""), "");
}

#[test]
fn slugify_replaces_each_character_once() {
    assert_eq!(Dialect::Rust.slugify("a::b"), "a__b");
    assert_eq!(Dialect::Rust.slugify("CUtlVector< int >"), "CUtlVector__int__");
    assert_eq!(Dialect::Rust.slugify("h\u{e9}llo"), "h_llo");
}

#[test]
fn slugify_is_idempotent() {
    let once = Dialect::Rust.slugify("engine 2.dll");
    let twice = Dialect::Rust.slugify(&once);
    assert_eq!(once, twice);
}

#[test]
fn slugify_is_deterministic() {
    assert_eq!(Dialect::Rust.slugify("server.dll"), Dialect::Rust.slugify("server.dll"));
}

#[test]
fn reserved_word_is_escaped() {
    assert!(Dialect::Rust.is_reserved("use"));
    assert_eq!(Dialect::Rust.escape_reserved("use"), "r#use");
}

#[test]
fn other_names_are_not_escaped() {
    assert!(!Dialect::Rust.is_reserved("jump"));
    assert!(!Dialect::Rust.is_reserved("Use"));
    assert!(!Dialect::Rust.is_reserved("used"));
    assert_eq!(Dialect::Rust.escape_reserved("jump"), "jump");
    assert_eq!(Dialect::Rust.escape_reserved("used"), "used");
    assert_eq!(Dialect::Rust.escape_reserved(""), "");
}

#[test]
fn legal_characters() {
    for c in ['a', 'z', 'A', 'Z', '0', '9', '_'] {
        assert!(Dialect::Rust.is_legal_char(c));
    }
    for c in ['.', ' ', '-', ':', '<', '\n', '\u{e9}'] {
        assert!(!Dialect::Rust.is_legal_char(c));
    }
}

#[test]
fn namespace_of_library_name() {
    assert_eq!(Dialect::Rust.namespace_name("client.dll"), "client_dll");
}

#[test]
fn namespace_is_in_snake_case() {
    assert_eq!(Dialect::Rust.namespace_name("Engine2.DLL"), "engine2_dll");
    assert_eq!(Dialect::Rust.namespace_name("MatchMaking.dll"), "match_making_dll");
    assert_eq!(Dialect::Rust.namespace_name("libSDL3.so.0"), "lib_sdl3_so_0");
}

#[test]
fn namespace_folds_runs_of_illegal_characters() {
    assert_eq!(Dialect::Rust.namespace_name("my  module..dll"), "my_module_dll");
    assert_eq!(Dialect::Rust.namespace_name(".hidden.dll."), "hidden_dll");
}

#[test]
fn namespace_has_identifier_characters_only() {
    for name in ["client.dll", "Engine2.DLL", "a b\tc", "x-y.z", "\u{e9}t\u{e9}.dll", "7z.dll"] {
        let namespace = Dialect::Rust.namespace_name(name);
        assert!(namespace.chars().all(|c| c.is_ascii_lowercase() || c.is_ascii_digit() || c == '_'));
    }
}

#[test]
fn namespace_of_name_without_letters_is_empty() {
    assert_eq!(Dialect::Rust.namespace_name("..."), "");
    assert_eq!(Dialect::Rust.namespace_name(""), "");
}

#[test]
fn namespace_may_start_with_digit() {
    assert_eq!(Dialect::Rust.namespace_name("7z.dll"), "7z_dll");
}
