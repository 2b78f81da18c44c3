use suiforge::error::SuiForgeError;
use suiforge::templates::{basic, nft, token, template_for_name, Template};

#[test]
fn template_names_parse_case_insensitively() {
    assert_eq!(Template::from_str("basic").unwrap(), Template::Basic);
    assert_eq!(Template::from_str("BASIC").unwrap(), Template::Basic);
    assert_eq!(Template::from_str("Nft").unwrap(), Template::Nft);
    assert_eq!(Template::from_str("token").unwrap(), Template::Token);
    assert_eq!(
        Template::from_str("marketplace").unwrap(),
        Template::Marketplace
    );
    assert_eq!(Template::from_str("DeFi").unwrap(), Template::Defi);
    assert_eq!(Template::from_str("game").unwrap(), Template::Game);
}

#[test]
fn unknown_template_name_is_rejected_with_the_input() {
    match Template::from_str("Bogus") {
        Err(SuiForgeError::InvalidTemplate(name)) => assert_eq!(name, "Bogus"),
        other => panic!("expected an invalid-template error, got {:?}", other.is_ok()),
    }
}

#[test]
fn template_lookup_uses_exact_lowercase_names() {
    assert_eq!(
        template_for_name(&"game".to_string()),
        Some(Template::Game)
    );
    assert_eq!(template_for_name(&"GAME".to_string()), None);
    assert_eq!(template_for_name(&"".to_string()), None);
}

#[test]
fn move_toml_splices_the_project_name_twice() {
    let toml = Template::Basic.get_move_toml("myproj");
    let expected = format!(
        r#"[package]
name = "{}"
version = "0.1.0"
edition = "2024.beta"

[dependencies]
Sui = {{ git = "https://github.com/MystenLabs/sui.git", subdir = "crates/sui-framework/packages/sui-framework", rev = "framework/mainnet" }}

[addresses]
{} = "0x0"
"#,
        "myproj", "myproj"
    );
    assert_eq!(toml, expected);
}

#[test]
fn main_move_dispatches_per_template() {
    assert!(Template::Basic
        .get_main_move("p")
        .starts_with("module p::main {"));
    assert!(Template::Nft.get_main_move("p").starts_with("module p::nft {"));
    assert!(Template::Token
        .get_main_move("p")
        .starts_with("module p::token {"));
    assert!(Template::Marketplace
        .get_main_move("p")
        .starts_with("module p::marketplace {"));
    assert!(Template::Defi
        .get_main_move("p")
        .starts_with("module p::vault {"));
    assert!(Template::Game
        .get_main_move("p")
        .starts_with("module p::game {"));
}

#[test]
fn submodule_templates_match_the_dispatch() {
    assert_eq!(basic::get_template("p"), Template::Basic.get_main_move("p"));
    assert_eq!(nft::get_template("p"), Template::Nft.get_main_move("p"));
    assert_eq!(token::get_template("p"), Template::Token.get_main_move("p"));
}

#[test]
fn basic_template_holds_its_entry_points() {
    let s = basic::get_template("demo");
    assert!(s.contains("public fun create(value: u64, ctx: &mut TxContext): Item {"));
    assert!(s.contains("public fun transfer_item(item: Item, recipient: address) {"));
    assert!(s.contains("public fun get_value(item: &Item): u64 {"));
    assert!(s.contains("public fun update_value(item: &mut Item, new_value: u64) {"));
}
