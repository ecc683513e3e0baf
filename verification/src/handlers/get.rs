//! The get handler: `accounts.get`.
//!
//! A get request names exactly one lookup key, tried in priority order: the
//! opaque account identifier first, then the chat-platform source
//! identifier. Absence of a match is a valid, successful outcome — the
//! reply simply carries no account. An identifier that does not decode can
//! match no row, so it is answered the same way rather than allowed to
//! abort the handling task. The reserved game-platform key is recognised
//! but not served: such a request is dropped without a reply, as the
//! service has always done.

use vstd::prelude::*;

use crate::account::{opt_view, Account};
use crate::ids::hex_value;
use crate::store::{decode_identifier, row_to_account, spec_row_account, AccountRow};

verus! {

/// A decoded `accounts.get` request: at most one key is honoured.
pub struct GetAccountRequest {
    pub account_id: Option<String>,
    pub discord_id: Option<String>,
    pub minecraft_id: Option<String>,
}

/// The reply to an `accounts.get` request. Absence of an account is not a
/// failure, so the reply carries nothing else.
pub struct GetAccountResponse {
    pub account: Option<Account>,
}

/// What the lookup step decides: answer at once, run one of the two wired
/// lookups, or — for the reserved key — send nothing at all.
pub enum GetAction {
    Reply(GetAccountResponse),
    LookupById(i64),
    LookupByDiscord(String),
    NoReply,
}

/// The identifier key is present and decodes to a row number.
pub open spec fn id_key_decodes(req: GetAccountRequest) -> bool {
    req.account_id matches Some(s) && crate::ids::well_formed_hex(s@) && hex_value(s@)
        <= i64::MAX
}

/// The row number the identifier key decodes to.
pub open spec fn id_key_value(req: GetAccountRequest) -> int {
    match req.account_id {
        Some(s) => hex_value(s@),
        None => 0,
    }
}

/// Picks the lookup for a get request, keys in priority order. An
/// identifier that decodes becomes a row-number lookup; one that does not
/// is answered with an absent account at once. With no identifier, a
/// present chat-platform key is looked up as given; a request naming only
/// the reserved game-platform key gets no reply; a request naming no key is
/// answered with an absent account.
pub fn plan_get(req: &GetAccountRequest) -> (r: GetAction)
    ensures
        id_key_decodes(*req) ==> (r matches GetAction::LookupById(n) && n == id_key_value(
            *req,
        )),
        req.account_id is Some && !id_key_decodes(*req) ==> (r matches GetAction::Reply(resp)
            && resp.account is None),
        req.account_id is None && req.discord_id is Some ==> (r matches
            GetAction::LookupByDiscord(d) && Some(d@) == opt_view(req.discord_id)),
        req.account_id is None && req.discord_id is None && req.minecraft_id is Some ==> r
            is NoReply,
        req.account_id is None && req.discord_id is None && req.minecraft_id is None ==> (r
            matches GetAction::Reply(resp) && resp.account is None),
{
    match &req.account_id {
        Some(s) => {
            match decode_identifier(s.as_str()) {
                Ok(n) => GetAction::LookupById(n),
                Err(_) => GetAction::Reply(GetAccountResponse { account: None }),
            }
        },
        None => {
            match &req.discord_id {
                Some(s) => GetAction::LookupByDiscord(s.clone()),
                None => {
                    if req.minecraft_id.is_some() {
                        GetAction::NoReply
                    } else {
                        GetAction::Reply(GetAccountResponse { account: None })
                    }
                },
            }
        },
    }
}

/// Shapes the reply once a lookup has run: the found row's account, or an
/// absent account when no row matched.
pub fn conclude_get(found: Option<AccountRow>) -> (r: GetAccountResponse)
    requires
        found matches Some(row) ==> row.wf(),
    ensures
        found matches Some(row) ==> (r.account matches Some(a) && a@ == spec_row_account(row)),
        found is None ==> r.account is None,
{
    match found {
        Some(row) => GetAccountResponse { account: Some(row_to_account(&row)) },
        None => GetAccountResponse { account: None },
    }
}

} // verus!
