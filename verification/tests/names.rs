use envie_vault::scan::{is_config_entry_name, is_pruned_entry_name};
use envie_vault::text::{matches_ignoring_ascii_case, same_text};

#[test]
fn same_text_compares_characters() {
    assert!(same_text("", ""));
    assert!(same_text("legacy", "legacy"));
    assert!(!same_text("legacy", "legacx"));
    assert!(!same_text("legacy", "legac"));
    assert!(!same_text("legac", "legacy"));
    assert!(!same_text("Legacy", "legacy"));
    assert!(same_text("clé", "clé"));
    assert!(!same_text("clé", "cle"));
    assert!(!same_text("", "x"));
}

#[test]
fn config_names_are_matched_exactly() {
    assert!(is_config_entry_name(".env"));
    assert!(is_config_entry_name("config.local.yaml"));
    assert!(!is_config_entry_name(".ENV"));
    assert!(!is_config_entry_name(".env.local"));
    assert!(!is_config_entry_name("env"));
    assert!(!is_config_entry_name("config.local.yml"));
    assert!(!is_config_entry_name("Config.local.yaml"));
    assert!(!is_config_entry_name(""));
}

#[test]
fn node_modules_is_pruned_in_any_case() {
    assert!(is_pruned_entry_name("node_modules"));
    assert!(is_pruned_entry_name("NODE_MODULES"));
    assert!(is_pruned_entry_name("Node_Modules"));
    assert!(!is_pruned_entry_name("node_module"));
    assert!(!is_pruned_entry_name("node_modules2"));
    assert!(!is_pruned_entry_name("node-modules"));
    assert!(!is_pruned_entry_name("nodeÿmodules"));
    assert!(!is_pruned_entry_name(""));
    assert!(!is_pruned_entry_name("src"));
}

#[test]
fn ascii_case_is_ignored_for_letters_only() {
    assert!(matches_ignoring_ascii_case("AbC", "aBc"));
    assert!(matches_ignoring_ascii_case("", ""));
    assert!(matches_ignoring_ascii_case("é1_", "é1_"));
    assert!(!matches_ignoring_ascii_case("É", "é"));
    assert!(!matches_ignoring_ascii_case("@", "`"));
    assert!(!matches_ignoring_ascii_case("[", "{"));
    assert!(!matches_ignoring_ascii_case("abc", "abcd"));
    assert!(!matches_ignoring_ascii_case("k", "\u{212A}"));
    assert!(matches_ignoring_ascii_case("Z", "z"));
    assert!(matches_ignoring_ascii_case("a", "A"));
}
