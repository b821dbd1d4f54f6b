//! The name of the override variable.

use bevy_config_file::env_name::{env_var_name, simple_name_of};

#[test]
fn qualified_name_keeps_its_last_segment() {
    assert_eq!(env_var_name("my_game::config::CameraSettings"), "CONFIG_CameraSettings");
    assert_eq!(env_var_name("integration_tests::EnvOverrideConfig"), "CONFIG_EnvOverrideConfig");
}

#[test]
fn plain_name_is_kept_whole() {
    assert_eq!(env_var_name("CameraSettings"), "CONFIG_CameraSettings");
    assert_eq!(env_var_name("i32"), "CONFIG_i32");
}

#[test]
fn empty_name_gives_the_bare_prefix() {
    assert_eq!(env_var_name(""), "CONFIG_");
    assert_eq!(simple_name_of(""), "");
}

#[test]
fn trailing_separator_gives_an_empty_segment() {
    assert_eq!(simple_name_of("a::"), "");
    assert_eq!(env_var_name("a::b::"), "CONFIG_");
}

#[test]
fn single_colons_do_not_separate() {
    assert_eq!(simple_name_of("a:b"), "a:b");
    assert_eq!(simple_name_of(":"), ":");
    assert_eq!(simple_name_of("a::b:c"), "b:c");
}

#[test]
fn separators_are_read_from_the_left() {
    assert_eq!(simple_name_of("a:::b"), ":b");
    assert_eq!(simple_name_of("a::::b"), "b");
    assert_eq!(simple_name_of(":::"), ":");
    assert_eq!(simple_name_of("::"), "");
}

#[test]
fn simple_name_agrees_with_splitting() {
    let names = [
        "alloc::vec::Vec<alloc::string::String>",
        "core::option::Option<my::Type>",
        "x",
        "::x",
        "x::",
        "a:::b::c",
        "sp ace::nä me::Ünï",
    ];
    for name in names {
        assert_eq!(simple_name_of(name), name.split("::").last().unwrap());
    }
}

#[test]
fn generic_type_names_keep_what_follows_the_last_separator() {
    assert_eq!(env_var_name("alloc::vec::Vec<my_game::Settings>"), "CONFIG_Settings>");
}

#[test]
fn non_ascii_names_are_cut_by_characters() {
    assert_eq!(env_var_name("módulo::Configuración"), "CONFIG_Configuración");
}
