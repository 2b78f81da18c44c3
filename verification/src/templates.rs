//! Project templates: the Move sources and manifest a new project starts
//! with, parameterized by the project's name.

pub mod basic;
pub mod nft;
pub mod token;

use vstd::prelude::*;
use vstd::string::StringExecFns;
use crate::error::SuiForgeError;

verus! {

/// The available project templates.
#[derive(Clone, Copy, Debug, PartialEq, Eq, Structural)]
pub enum Template {
    Basic,
    Nft,
    Token,
    Marketplace,
    Defi,
    Game,
}

/// The lowercase form of a string, as the Unicode lowercase mapping
/// produces it.
pub uninterp spec fn lower_of(s: Seq<char>) -> Seq<char>;

/// Relies on str::to_lowercase: the result is the Unicode lowercase mapping
/// of the input and depends on its characters alone.
#[verifier::external_body]
fn to_lowercase(s: &str) -> (r: String)
    ensures
        r@ == lower_of(s@),
{
    s.to_lowercase()
}

/// The template a lowercase name selects, tried in a fixed order.
pub open spec fn spec_template_for(name: Seq<char>) -> Option<Template> {
    if name == "basic"@ {
        Some(Template::Basic)
    } else if name == "nft"@ {
        Some(Template::Nft)
    } else if name == "token"@ {
        Some(Template::Token)
    } else if name == "marketplace"@ {
        Some(Template::Marketplace)
    } else if name == "defi"@ {
        Some(Template::Defi)
    } else if name == "game"@ {
        Some(Template::Game)
    } else {
        None
    }
}

/// Look a template up by its lowercase name.
pub fn template_for_name(name: &String) -> (r: Option<Template>)
    ensures
        r == spec_template_for(name@),
{
    if *name == String::from_str("basic") {
        Some(Template::Basic)
    } else if *name == String::from_str("nft") {
        Some(Template::Nft)
    } else if *name == String::from_str("token") {
        Some(Template::Token)
    } else if *name == String::from_str("marketplace") {
        Some(Template::Marketplace)
    } else if *name == String::from_str("defi") {
        Some(Template::Defi)
    } else if *name == String::from_str("game") {
        Some(Template::Game)
    } else {
        None
    }
}

/// The manifest of a new project: the project's name fills the package name
/// and the address alias.
pub open spec fn spec_move_toml(name: Seq<char>) -> Seq<char> {
    r#"[package]
name = ""#@ + name + r#""
version = "0.1.0"
edition = "2024.beta"

[dependencies]
Sui = { git = "https://github.com/MystenLabs/sui.git", subdir = "crates/sui-framework/packages/sui-framework", rev = "framework/mainnet" }

[addresses]
"#@ + name + r#" = "0x0"
"#@
}

/// The marketplace template's Move source.
pub open spec fn spec_marketplace_template(name: Seq<char>) -> Seq<char> {
    "module "@ + name + r#"::marketplace {
    use sui::object::{Self, UID};
    use sui::transfer;
    use sui::tx_context::{Self, TxContext};
    use sui::coin::{Self, Coin};
    use sui::sui::SUI;
    use sui::table::{Self, Table};

    // Marketplace for trading NFTs
    public struct Marketplace has key {
        id: UID,
        listings: Table<address, Listing>,
    }

    public struct Listing has store {
        price: u64,
        seller: address,
    }

    public fun create(ctx: &mut TxContext) {
        let marketplace = Marketplace {
            id: object::new(ctx),
            listings: table::new(ctx),
        };
        transfer::share_object(marketplace);
    }
}
"#@
}

/// The DeFi template's Move source.
pub open spec fn spec_defi_template(name: Seq<char>) -> Seq<char> {
    "module "@ + name + r#"::vault {
    use sui::object::{Self, UID};
    use sui::transfer;
    use sui::tx_context::{Self, TxContext};
    use sui::coin::{Self, Coin};
    use sui::balance::{Self, Balance};

    // Simple vault for depositing and withdrawing tokens
    public struct Vault<phantom T> has key {
        id: UID,
        balance: Balance<T>,
    }

    public fun create<T>(ctx: &mut TxContext) {
        let vault = Vault<T> {
            id: object::new(ctx),
            balance: balance::zero(),
        };
        transfer::share_object(vault);
    }

    public fun deposit<T>(vault: &mut Vault<T>, coin: Coin<T>) {
        let balance = coin::into_balance(coin);
        balance::join(&mut vault.balance, balance);
    }
}
"#@
}

/// The game template's Move source.
pub open spec fn spec_game_template(name: Seq<char>) -> Seq<char> {
    "module "@ + name + r#"::game {
    use sui::object::{Self, UID};
    use sui::transfer;
    use sui::tx_context::{Self, TxContext};

    // Simple on-chain game character
    public struct Character has key, store {
        id: UID,
        name: vector<u8>,
        level: u64,
        experience: u64,
    }

    public fun create_character(name: vector<u8>, ctx: &mut TxContext): Character {
        Character {
            id: object::new(ctx),
            name,
            level: 1,
            experience: 0,
        }
    }

    public fun gain_experience(character: &mut Character, amount: u64) {
        character.experience = character.experience + amount;
        if (character.experience >= 100) {
            character.level = character.level + 1;
            character.experience = 0;
        }
    }
}
"#@
}

/// The Move source that `get_main_move` produces for each template.
pub open spec fn spec_main_move(t: Template, name: Seq<char>) -> Seq<char> {
    match t {
        Template::Basic => basic::spec_template(name),
        Template::Nft => nft::spec_template(name),
        Template::Token => token::spec_template(name),
        Template::Marketplace => spec_marketplace_template(name),
        Template::Defi => spec_defi_template(name),
        Template::Game => spec_game_template(name),
    }
}

impl Template {
    /// Select a template by name, case-insensitively; an unknown name is
    /// rejected with the offending input.
    pub fn from_str(s: &str) -> (r: Result<Template, SuiForgeError>)
        ensures
            spec_template_for(lower_of(s@)) matches Some(t) ==> r == Ok::<
                Template,
                SuiForgeError,
            >(t),
            (spec_template_for(lower_of(s@)) is None) ==> (r matches Err(
                SuiForgeError::InvalidTemplate(m),
            ) && m@ == s@),
    {
        let lowered = to_lowercase(s);
        match template_for_name(&lowered) {
            Some(t) => Ok(t),
            None => Err(SuiForgeError::InvalidTemplate(String::from_str(s))),
        }
    }

    /// The manifest of a new project using this template.
    pub fn get_move_toml(&self, project_name: &str) -> (r: String)
        ensures
            r@ == spec_move_toml(project_name@),
    {
        let mut s = String::new();
        s.append(
            r#"[package]
name = ""#,
        );
        s.append(project_name);
        s.append(
            r#""
version = "0.1.0"
edition = "2024.beta"

[dependencies]
Sui = { git = "https://github.com/MystenLabs/sui.git", subdir = "crates/sui-framework/packages/sui-framework", rev = "framework/mainnet" }

[addresses]
"#,
        );
        s.append(project_name);
        s.append(
            r#" = "0x0"
"#,
        );
        s
    }

    /// The main Move source of a new project using this template.
    pub fn get_main_move(&self, project_name: &str) -> (r: String)
        ensures
            r@ == spec_main_move(*self, project_name@),
    {
        match self {
            Template::Basic => basic::get_template(project_name),
            Template::Nft => nft::get_template(project_name),
            Template::Token => token::get_template(project_name),
            Template::Marketplace => self.get_marketplace_template(project_name),
            Template::Defi => self.get_defi_template(project_name),
            Template::Game => self.get_game_template(project_name),
        }
    }

    fn get_marketplace_template(&self, project_name: &str) -> (r: String)
        ensures
            r@ == spec_marketplace_template(project_name@),
    {
        let mut s = String::new();
        s.append("module ");
        s.append(project_name);
        s.append(
            r#"::marketplace {
    use sui::object::{Self, UID};
    use sui::transfer;
    use sui::tx_context::{Self, TxContext};
    use sui::coin::{Self, Coin};
    use sui::sui::SUI;
    use sui::table::{Self, Table};

    // Marketplace for trading NFTs
    public struct Marketplace has key {
        id: UID,
        listings: Table<address, Listing>,
    }

    public struct Listing has store {
        price: u64,
        seller: address,
    }

    public fun create(ctx: &mut TxContext) {
        let marketplace = Marketplace {
            id: object::new(ctx),
            listings: table::new(ctx),
        };
        transfer::share_object(marketplace);
    }
}
"#,
        );
        s
    }

    fn get_defi_template(&self, project_name: &str) -> (r: String)
        ensures
            r@ == spec_defi_template(project_name@),
    {
        let mut s = String::new();
        s.append("module ");
        s.append(project_name);
        s.append(
            r#"::vault {
    use sui::object::{Self, UID};
    use sui::transfer;
    use sui::tx_context::{Self, TxContext};
    use sui::coin::{Self, Coin};
    use sui::balance::{Self, Balance};

    // Simple vault for depositing and withdrawing tokens
    public struct Vault<phantom T> has key {
        id: UID,
        balance: Balance<T>,
    }

    public fun create<T>(ctx: &mut TxContext) {
        let vault = Vault<T> {
            id: object::new(ctx),
            balance: balance::zero(),
        };
        transfer::share_object(vault);
    }

    public fun deposit<T>(vault: &mut Vault<T>, coin: Coin<T>) {
        let balance = coin::into_balance(coin);
        balance::join(&mut vault.balance, balance);
    }
}
"#,
        );
        s
    }

    fn get_game_template(&self, project_name: &str) -> (r: String)
        ensures
            r@ == spec_game_template(project_name@),
    {
        let mut s = String::new();
        s.append("module ");
        s.append(project_name);
        s.append(
            r#"::game {
    use sui::object::{Self, UID};
    use sui::transfer;
    use sui::tx_context::{Self, TxContext};

    // Simple on-chain game character
    public struct Character has key, store {
        id: UID,
        name: vector<u8>,
        level: u64,
        experience: u64,
    }

    public fun create_character(name: vector<u8>, ctx: &mut TxContext): Character {
        Character {
            id: object::new(ctx),
            name,
            level: 1,
            experience: 0,
        }
    }

    public fun gain_experience(character: &mut Character, amount: u64) {
        character.experience = character.experience + amount;
        if (character.experience >= 100) {
            character.level = character.level + 1;
            character.experience = 0;
        }
    }
}
"#,
        );
        s
    }
}

} // verus!
