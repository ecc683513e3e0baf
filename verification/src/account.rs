//! The wire-level account record.
//!
//! This is the shape an account takes in every request and reply: the opaque
//! identifier string, the optional display name, the optional birthday as an
//! epoch-millisecond timestamp, and the optional platform source
//! identifiers. Only the chat-platform source is honoured today; the
//! game-platform source is reserved in the shape but never populated.

use vstd::prelude::*;

verus! {

/// View of an optional owned string as an optional character sequence.
pub open spec fn opt_view(o: Option<String>) -> Option<Seq<char>> {
    match o {
        Some(s) => Some(s@),
        None => None,
    }
}

/// The source rule: an optional platform source field anchors an account
/// only when it is present and non-empty.
pub open spec fn source_present(s: Option<Seq<char>>) -> bool {
    s matches Some(v) && v.len() > 0
}

/// An account as transmitted: all temporal and identifier fields already in
/// their external encodings.
#[derive(Clone, Debug, PartialEq)]
pub struct Account {
    pub identifier: String,
    pub first_name: Option<String>,
    pub birthday: Option<i64>,
    pub discord_source_id: Option<String>,
    pub minecraft_source_id: Option<String>,
}

/// Mathematical view of an [`Account`]: every string as a character sequence.
pub ghost struct AccountV {
    pub identifier: Seq<char>,
    pub first_name: Option<Seq<char>>,
    pub birthday: Option<i64>,
    pub discord_source_id: Option<Seq<char>>,
    pub minecraft_source_id: Option<Seq<char>>,
}

impl View for Account {
    type V = AccountV;

    open spec fn view(&self) -> AccountV {
        AccountV {
            identifier: self.identifier@,
            first_name: opt_view(self.first_name),
            birthday: self.birthday,
            discord_source_id: opt_view(self.discord_source_id),
            minecraft_source_id: opt_view(self.minecraft_source_id),
        }
    }
}

/// Clones an optional owned string, preserving its view.
pub fn clone_opt_string(o: &Option<String>) -> (r: Option<String>)
    ensures
        opt_view(r) == opt_view(*o),
{
    match o {
        Some(s) => Some(s.clone()),
        None => None,
    }
}

/// Clones an account, preserving its view.
pub fn clone_account(a: &Account) -> (r: Account)
    ensures
        r@ == a@,
{
    Account {
        identifier: a.identifier.clone(),
        first_name: clone_opt_string(&a.first_name),
        birthday: a.birthday,
        discord_source_id: clone_opt_string(&a.discord_source_id),
        minecraft_source_id: clone_opt_string(&a.minecraft_source_id),
    }
}

} // verus!
