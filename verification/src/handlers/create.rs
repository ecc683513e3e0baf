//! The create handler: `accounts.create`.
//!
//! A create request must carry at least one non-empty account source —
//! today that is the chat-platform identifier. A sourceless request is
//! answered with a structured failure and nothing is written or broadcast.
//! A valid request becomes a row insert; the reply mirrors the written row
//! and the same account is broadcast on the update subject.

use vstd::prelude::*;

use crate::account::{opt_view, source_present, Account};
use crate::dates::{internal_of_transmitted, stamp_in_range};
use crate::handlers::update::AccountUpdated;
use crate::store::{
    prepare_insert, row_to_account, spec_row_account, AccountRow, NewRowValues, StoreError,
};

verus! {

/// A decoded `accounts.create` request.
pub struct CreateAccountRequest {
    pub discord_id: Option<String>,
    pub first_name: Option<String>,
    pub birthday: Option<i64>,
}

/// The reply to an `accounts.create` request.
pub struct CreateAccountResponse {
    pub success: bool,
    pub error: Option<String>,
    pub account: Option<Account>,
}

/// What a failure reply to a create request looks like: not successful, a
/// human-readable error, no account.
pub open spec fn create_failure(resp: CreateAccountResponse, msg: Seq<char>) -> bool {
    &&& resp.success == false
    &&& opt_view(resp.error) == Some(msg)
    &&& resp.account is None
}

/// What a success reply to a create request looks like: successful, no
/// error, carrying exactly the written row's account.
pub open spec fn create_success(resp: CreateAccountResponse, row: AccountRow) -> bool {
    &&& resp.success == true
    &&& resp.error is None
    &&& (resp.account matches Some(a) && a@ == spec_row_account(row))
}

/// What the validation step decides: answer at once, or run the insert.
pub enum CreateAction {
    Reply(CreateAccountResponse),
    Insert(NewRowValues),
}

/// The request keeps the source rule: a non-empty chat-platform identifier.
pub open spec fn create_source_ok(req: CreateAccountRequest) -> bool {
    source_present(opt_view(req.discord_id))
}

/// The request carries no birthday, or one in the representable range.
pub open spec fn create_birthday_ok(req: CreateAccountRequest) -> bool {
    req.birthday matches Some(ms) ==> stamp_in_range(ms as int)
}

/// The row insert a valid request becomes: every column value taken from
/// the request, the birthday internalised.
pub open spec fn insert_values_match(req: CreateAccountRequest, v: NewRowValues) -> bool {
    &&& opt_view(v.first_name) == opt_view(req.first_name)
    &&& opt_view(v.discord_id) == opt_view(req.discord_id)
    &&& (v.birthday matches Some(d) ==> d.wf())
    &&& v.birthday == internal_of_transmitted(req.birthday)
}

/// Validates a create request. A request without a non-empty source is
/// refused outright, so no sourceless account can ever be written; a
/// birthday outside the representable range is likewise refused rather than
/// allowed to abort the handling task. Anything else becomes the column
/// values of the row insert.
pub fn plan_create(req: &CreateAccountRequest) -> (a: CreateAction)
    ensures
        !create_source_ok(*req) ==> (a matches CreateAction::Reply(resp) && create_failure(
            resp,
            "Must have an account source."@,
        )),
        create_source_ok(*req) && !create_birthday_ok(*req) ==> (a matches
            CreateAction::Reply(resp) && create_failure(resp, "Birthday out of range."@)),
        create_source_ok(*req) && create_birthday_ok(*req) ==> (a matches
            CreateAction::Insert(v) && insert_values_match(*req, v)),
{
    let has_source = match &req.discord_id {
        Some(s) => !s.as_str().is_empty(),
        None => false,
    };
    if !has_source {
        return CreateAction::Reply(failure_reply("Must have an account source."));
    }
    match prepare_insert(&req.first_name, &req.birthday, &req.discord_id) {
        Ok(v) => CreateAction::Insert(v),
        Err(_) => CreateAction::Reply(failure_reply("Birthday out of range.")),
    }
}

/// Shapes the reply and the broadcast once the insert has run. A written
/// row is mirrored back as a success reply and broadcast unchanged; any
/// store failure becomes a generic structured failure and nothing is
/// broadcast.
pub fn conclude_create(outcome: Result<AccountRow, StoreError>) -> (r: (
    CreateAccountResponse,
    Option<AccountUpdated>,
))
    requires
        outcome matches Ok(row) ==> row.wf(),
    ensures
        outcome matches Ok(row) ==> {
            &&& create_success(r.0, row)
            &&& (r.1 matches Some(b) && b.account@ == spec_row_account(row))
        },
        outcome is Err ==> {
            &&& create_failure(r.0, "Error creating account."@)
            &&& r.1 is None
        },
{
    match outcome {
        Ok(row) => {
            let account = row_to_account(&row);
            let broadcast = AccountUpdated { account: crate::account::clone_account(&account) };
            let resp = CreateAccountResponse {
                success: true,
                error: None,
                account: Some(account),
            };
            (resp, Some(broadcast))
        },
        Err(_) => (failure_reply("Error creating account."), None),
    }
}

fn failure_reply(msg: &str) -> (resp: CreateAccountResponse)
    ensures
        create_failure(resp, msg@),
{
    CreateAccountResponse { success: false, error: Some(String::from_str(msg)), account: None }
}

} // verus!
