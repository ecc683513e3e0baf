//! The update handler: `accounts.update`.
//!
//! An update request carries the target account, which must keep at least
//! one non-empty source — the same rule the create handler enforces, so no
//! update can strip an account of its last source. The opaque identifier on
//! the account names the row to change; a malformed identifier is answered
//! with a structured failure, never allowed to abort the handling task. A
//! successful write is mirrored back and broadcast like a create.

use vstd::prelude::*;

use crate::account::{opt_view, source_present, Account};
use crate::dates::{internal_of_transmitted, stamp_in_range};
use crate::ids::{hex_value, well_formed_hex};
use crate::store::{
    prepare_update, row_to_account, spec_row_account, AccountRow, StoreError, UpdateRowValues,
};

verus! {

/// A decoded `accounts.update` request: the account to write, absent when
/// the message carried none.
pub struct UpdateAccountRequest {
    pub account: Option<Account>,
}

/// The reply to an `accounts.update` request.
pub struct UpdateAccountResponse {
    pub success: bool,
    pub error: Option<String>,
    pub account: Option<Account>,
}

/// The broadcast sent on `accounts.updated` after any successful write: the
/// full post-write account, never a diff.
pub struct AccountUpdated {
    pub account: Account,
}

/// What a failure reply to an update request looks like.
pub open spec fn update_failure(resp: UpdateAccountResponse, msg: Seq<char>) -> bool {
    &&& resp.success == false
    &&& opt_view(resp.error) == Some(msg)
    &&& resp.account is None
}

/// What a success reply to an update request looks like.
pub open spec fn update_success(resp: UpdateAccountResponse, row: AccountRow) -> bool {
    &&& resp.success == true
    &&& resp.error is None
    &&& (resp.account matches Some(a) && a@ == spec_row_account(row))
}

/// The identifier on the target account decodes to a row number.
pub open spec fn identifier_decodes(a: Account) -> bool {
    well_formed_hex(a@.identifier) && hex_value(a@.identifier) <= i64::MAX
}

/// What the validation step decides: answer at once, or run the row update.
pub enum UpdateAction {
    Reply(UpdateAccountResponse),
    Update(UpdateRowValues),
}

/// The request carries an account that keeps the source rule.
pub open spec fn update_source_ok(req: UpdateAccountRequest) -> bool {
    req.account matches Some(a) && source_present(a@.discord_source_id)
}

/// The request's account carries an identifier that decodes.
pub open spec fn update_id_ok(req: UpdateAccountRequest) -> bool {
    req.account matches Some(a) && identifier_decodes(a)
}

/// The request's account carries no birthday, or one in range.
pub open spec fn update_birthday_ok(req: UpdateAccountRequest) -> bool {
    req.account matches Some(a) && (a.birthday matches Some(ms) ==> stamp_in_range(ms as int))
}

/// The row update a valid request becomes: the decoded row number as
/// target, every column value taken from the request's account, the
/// birthday internalised.
pub open spec fn update_values_match(req: UpdateAccountRequest, v: UpdateRowValues) -> bool {
    req.account matches Some(a) && {
        &&& v.id == hex_value(a@.identifier)
        &&& 0 <= v.id
        &&& opt_view(v.first_name) == a@.first_name
        &&& opt_view(v.discord_id) == a@.discord_source_id
        &&& (v.birthday matches Some(d) ==> d.wf())
        &&& v.birthday == internal_of_transmitted(a.birthday)
    }
}

/// Validates an update request, in the order the checks apply: the source
/// rule first, then the identifier, then the birthday. Only a request that
/// passes all three reaches the store, carrying the decoded row number and
/// the internalised column values.
pub fn plan_update(req: &UpdateAccountRequest) -> (r: UpdateAction)
    ensures
        !update_source_ok(*req) ==> (r matches UpdateAction::Reply(resp) && update_failure(
            resp,
            "Must have an account source."@,
        )),
        update_source_ok(*req) && !update_id_ok(*req) ==> (r matches UpdateAction::Reply(resp)
            && update_failure(resp, "Malformed account identifier."@)),
        update_source_ok(*req) && update_id_ok(*req) && !update_birthday_ok(*req) ==> (r
            matches UpdateAction::Reply(resp) && update_failure(
            resp,
            "Birthday out of range."@,
        )),
        update_source_ok(*req) && update_id_ok(*req) && update_birthday_ok(*req) ==> (r
            matches UpdateAction::Update(v) && update_values_match(*req, v)),
{
    let account = match &req.account {
        Some(a) => a,
        None => {
            return UpdateAction::Reply(failure_reply("Must have an account source."));
        },
    };
    let has_source = match &account.discord_source_id {
        Some(s) => !s.as_str().is_empty(),
        None => false,
    };
    if !has_source {
        return UpdateAction::Reply(failure_reply("Must have an account source."));
    }
    match prepare_update(account) {
        Ok(v) => UpdateAction::Update(v),
        Err(StoreError::MalformedIdentifier) => UpdateAction::Reply(
            failure_reply("Malformed account identifier."),
        ),
        Err(_) => UpdateAction::Reply(failure_reply("Birthday out of range.")),
    }
}

/// Shapes the reply and the broadcast once the row update has run. A
/// written row is mirrored back and broadcast; each failure keeps its own
/// structured reply — a vanished row is told apart from any other
/// persistence failure — and nothing is broadcast.
pub fn conclude_update(outcome: Result<AccountRow, StoreError>) -> (r: (
    UpdateAccountResponse,
    Option<AccountUpdated>,
))
    requires
        outcome matches Ok(row) ==> row.wf(),
    ensures
        outcome matches Ok(row) ==> {
            &&& update_success(r.0, row)
            &&& (r.1 matches Some(b) && b.account@ == spec_row_account(row))
        },
        outcome is Err ==> r.1 is None,
        outcome == Err::<AccountRow, StoreError>(StoreError::MalformedIdentifier)
            ==> update_failure(r.0, "Malformed account identifier."@),
        outcome == Err::<AccountRow, StoreError>(StoreError::BirthdayOutOfRange)
            ==> update_failure(r.0, "Birthday out of range."@),
        outcome == Err::<AccountRow, StoreError>(StoreError::NotFound) ==> update_failure(
            r.0,
            "Account not found."@,
        ),
        outcome == Err::<AccountRow, StoreError>(StoreError::Persistence) ==> update_failure(
            r.0,
            "Error updating account."@,
        ),
{
    match outcome {
        Ok(row) => {
            let account = row_to_account(&row);
            let broadcast = AccountUpdated { account: crate::account::clone_account(&account) };
            let resp = UpdateAccountResponse {
                success: true,
                error: None,
                account: Some(account),
            };
            (resp, Some(broadcast))
        },
        Err(StoreError::MalformedIdentifier) => (
            failure_reply("Malformed account identifier."),
            None,
        ),
        Err(StoreError::BirthdayOutOfRange) => (failure_reply("Birthday out of range."), None),
        Err(StoreError::NotFound) => (failure_reply("Account not found."), None),
        Err(StoreError::Persistence) => (failure_reply("Error updating account."), None),
    }
}

fn failure_reply(msg: &str) -> (resp: UpdateAccountResponse)
    ensures
        update_failure(resp, msg@),
{
    UpdateAccountResponse { success: false, error: Some(String::from_str(msg)), account: None }
}

} // verus!
