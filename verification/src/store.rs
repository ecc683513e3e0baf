//! Row-level rules of the account store.
//!
//! The store owns the canonical representation of a persisted account: the
//! numeric row number, the optional display name, the birthday as a calendar
//! date, and the chat-platform source identifier. This module holds
//! everything about a store operation that is not the database round trip
//! itself: decoding the opaque identifier on the way in, converting the
//! birthday in both directions, and turning a fetched row back into a
//! wire-level account. The single-statement insert, update and select are
//! run outside the library and exchange these validated values with it.

use vstd::prelude::*;

use crate::account::{clone_opt_string, opt_view, Account, AccountV};
use crate::dates::{
    internal_of_transmitted, stamp_in_range, stamp_of_date, to_internal, to_transmitted, Date,
};
use crate::ids::{decode_row_id, encode_row_id, encoded_id, hex_value, well_formed_hex};

verus! {

/// Why a store operation failed.
#[derive(Clone, Copy, Debug, PartialEq, Eq, Structural)]
pub enum StoreError {
    /// The opaque identifier is not a non-empty hex string within the signed
    /// 64-bit range.
    MalformedIdentifier,
    /// The transmitted birthday lies outside the range of dates the store
    /// can hold.
    BirthdayOutOfRange,
    /// The targeted row does not exist.
    NotFound,
    /// Any other failure of the backing relation.
    Persistence,
}

/// A persisted account row, as the backing relation holds it.
pub struct AccountRow {
    pub id: i64,
    pub first_name: Option<String>,
    pub birthday: Option<Date>,
    pub discord_id: Option<String>,
}

impl AccountRow {
    /// A row the store could have written: a non-negative row number and a
    /// representable birthday.
    pub open spec fn wf(self) -> bool {
        &&& 0 <= self.id
        &&& (self.birthday matches Some(d) ==> d.wf())
    }
}

/// Column values for a fresh row, already in their stored encodings.
pub struct NewRowValues {
    pub first_name: Option<String>,
    pub birthday: Option<Date>,
    pub discord_id: Option<String>,
}

/// Column values for an update, together with the targeted row number.
pub struct UpdateRowValues {
    pub id: i64,
    pub first_name: Option<String>,
    pub birthday: Option<Date>,
    pub discord_id: Option<String>,
}

/// The wire-level account a fetched row presents: identifier re-encoded,
/// birthday re-transmitted, the reserved game-platform source left absent.
pub open spec fn spec_row_account(row: AccountRow) -> AccountV {
    AccountV {
        identifier: encoded_id(row.id),
        first_name: opt_view(row.first_name),
        birthday: match row.birthday {
            Some(d) => Some(stamp_of_date(d) as i64),
            None => None,
        },
        discord_source_id: opt_view(row.discord_id),
        minecraft_source_id: None,
    }
}

/// Decodes an opaque external identifier to a row number, surfacing a
/// malformed string as a store error rather than a crash.
pub fn decode_identifier(s: &str) -> (r: Result<i64, StoreError>)
    ensures
        r is Ok <==> well_formed_hex(s@) && hex_value(s@) <= i64::MAX,
        r is Ok ==> r == Ok::<i64, StoreError>(hex_value(s@) as i64) && hex_value(s@) >= 0,
        r is Err ==> r == Err::<i64, StoreError>(StoreError::MalformedIdentifier),
{
    match decode_row_id(s) {
        Some(n) => Ok(n),
        None => Err(StoreError::MalformedIdentifier),
    }
}

/// Internalises the column values of a create request: the birthday moves
/// from its transmitted epoch-millisecond form to a stored date. Fails only
/// when a birthday is present and out of the representable range.
pub fn prepare_insert(
    first_name: &Option<String>,
    birthday: &Option<i64>,
    discord_id: &Option<String>,
) -> (r: Result<NewRowValues, StoreError>)
    ensures
        r is Ok <==> (*birthday matches Some(ms) ==> stamp_in_range(ms as int)),
        r matches Ok(v) ==> {
            &&& opt_view(v.first_name) == opt_view(*first_name)
            &&& opt_view(v.discord_id) == opt_view(*discord_id)
            &&& (v.birthday matches Some(d) ==> d.wf())
            &&& v.birthday == internal_of_transmitted(*birthday)
        },
        r is Err ==> r == Err::<NewRowValues, StoreError>(StoreError::BirthdayOutOfRange),
{
    let birthday = match check_stamp(birthday) {
        Ok(b) => b,
        Err(e) => {
            return Err(e);
        },
    };
    Ok(NewRowValues {
        first_name: clone_opt_string(first_name),
        birthday: to_internal(birthday),
        discord_id: clone_opt_string(discord_id),
    })
}

/// Internalises an update request: decodes the identifier to the targeted
/// row number, then converts the birthday. A malformed identifier is
/// reported ahead of a bad birthday.
pub fn prepare_update(account: &Account) -> (r: Result<UpdateRowValues, StoreError>)
    ensures
        r is Ok <==> {
            &&& well_formed_hex(account@.identifier)
            &&& hex_value(account@.identifier) <= i64::MAX
            &&& (account.birthday matches Some(ms) ==> stamp_in_range(ms as int))
        },
        r matches Ok(v) ==> {
            &&& v.id == hex_value(account@.identifier)
            &&& 0 <= v.id
            &&& opt_view(v.first_name) == account@.first_name
            &&& opt_view(v.discord_id) == account@.discord_source_id
            &&& (v.birthday matches Some(d) ==> d.wf())
            &&& v.birthday == internal_of_transmitted(account.birthday)
        },
        r is Err ==> r == Err::<UpdateRowValues, StoreError>(
            if well_formed_hex(account@.identifier) && hex_value(account@.identifier)
                <= i64::MAX {
                StoreError::BirthdayOutOfRange
            } else {
                StoreError::MalformedIdentifier
            },
        ),
{
    let id = match decode_identifier(account.identifier.as_str()) {
        Ok(id) => id,
        Err(e) => {
            return Err(e);
        },
    };
    let birthday = match check_stamp(&account.birthday) {
        Ok(b) => b,
        Err(e) => {
            return Err(e);
        },
    };
    Ok(UpdateRowValues {
        id,
        first_name: clone_opt_string(&account.first_name),
        birthday: to_internal(birthday),
        discord_id: clone_opt_string(&account.discord_source_id),
    })
}

/// Turns a fetched row into the wire-level account the caller sees, applying
/// both codecs on the way out.
pub fn row_to_account(row: &AccountRow) -> (a: Account)
    requires
        row.wf(),
    ensures
        a@ == spec_row_account(*row),
{
    Account {
        identifier: encode_row_id(row.id),
        first_name: clone_opt_string(&row.first_name),
        birthday: to_transmitted(row.birthday),
        discord_source_id: clone_opt_string(&row.discord_id),
        minecraft_source_id: None,
    }
}

/// Law: the identifier a returned account carries decodes back to its own
/// row number. An update addressed with a service-issued identifier
/// therefore targets exactly the row that issued it, and the re-encoded
/// identifier on the reply is the identical string of characters.
pub proof fn lemma_row_identifier_round_trip(row: AccountRow)
    requires
        row.wf(),
    ensures
        well_formed_hex(spec_row_account(row).identifier),
        spec_row_account(row).identifier.len() == 16,
        hex_value(spec_row_account(row).identifier) == row.id,
        forall|other: AccountRow|
            other.id == row.id ==> #[trigger] spec_row_account(other).identifier
                == spec_row_account(row).identifier,
{
    crate::ids::lemma_identifier_round_trip(row.id);
}

/// Bounds-checks a transmitted birthday against the representable range.
fn check_stamp(birthday: &Option<i64>) -> (r: Result<Option<i64>, StoreError>)
    ensures
        r is Ok <==> (*birthday matches Some(ms) ==> stamp_in_range(ms as int)),
        r is Ok ==> r == Ok::<Option<i64>, StoreError>(*birthday),
        r is Err ==> r == Err::<Option<i64>, StoreError>(StoreError::BirthdayOutOfRange),
{
    match birthday {
        Some(ms) => {
            let ms = *ms;
            if -8_640_000_000_000_000 <= ms && ms <= 8_640_000_000_000_000 {
                Ok(Some(ms))
            } else {
                Err(StoreError::BirthdayOutOfRange)
            }
        },
        None => Ok(None),
    }
}

} // verus!
