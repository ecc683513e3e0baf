use account_directory::account::Account;
use account_directory::dates::Date;
use account_directory::handlers::create::{
    conclude_create, plan_create, CreateAccountRequest, CreateAction,
};
use account_directory::handlers::get::{conclude_get, plan_get, GetAccountRequest, GetAction};
use account_directory::handlers::update::{
    conclude_update, plan_update, UpdateAccountRequest, UpdateAction,
};
use account_directory::store::{
    decode_identifier, prepare_insert, prepare_update, row_to_account, AccountRow, StoreError,
};

fn s(text: &str) -> Option<String> {
    Some(text.to_string())
}

#[test]
fn create_without_source_is_refused_and_nothing_is_written() {
    let req = CreateAccountRequest { discord_id: None, first_name: s("Ada"), birthday: Some(0) };
    match plan_create(&req) {
        CreateAction::Reply(resp) => {
            assert!(!resp.success);
            assert_eq!(resp.error, s("Must have an account source."));
            assert!(resp.account.is_none());
        },
        CreateAction::Insert(_) => panic!("a sourceless create must not reach the store"),
    }
}

#[test]
fn create_with_empty_source_is_refused() {
    let req = CreateAccountRequest { discord_id: s(""), first_name: None, birthday: None };
    match plan_create(&req) {
        CreateAction::Reply(resp) => {
            assert!(!resp.success);
            assert_eq!(resp.error, s("Must have an account source."));
        },
        CreateAction::Insert(_) => panic!("an empty source must not reach the store"),
    }
}

#[test]
fn create_with_discord_source_succeeds_and_broadcasts_the_account() {
    let req =
        CreateAccountRequest { discord_id: s("123"), first_name: None, birthday: None };
    let values = match plan_create(&req) {
        CreateAction::Insert(v) => v,
        CreateAction::Reply(_) => panic!("a sourced create must reach the store"),
    };
    assert_eq!(values.discord_id, s("123"));
    assert_eq!(values.first_name, None);
    assert_eq!(values.birthday, None);

    // The backing relation assigns the next row number and returns the row.
    let row = AccountRow {
        id: 1,
        first_name: values.first_name,
        birthday: values.birthday,
        discord_id: values.discord_id,
    };
    let (resp, broadcast) = conclude_create(Ok(row));
    assert!(resp.success);
    assert!(resp.error.is_none());
    let account = resp.account.expect("a success reply carries the account");
    assert_eq!(account.identifier, "0000000000000001");
    assert_eq!(account.identifier.len(), 16);
    assert!(account.identifier.chars().all(|c| c.is_ascii_hexdigit()));
    assert_eq!(account.discord_source_id, s("123"));
    let broadcast = broadcast.expect("a successful create is broadcast");
    assert_eq!(broadcast.account, account);
}

#[test]
fn create_store_failure_is_a_structured_reply_without_broadcast() {
    let (resp, broadcast) = conclude_create(Err(StoreError::Persistence));
    assert!(!resp.success);
    assert_eq!(resp.error, s("Error creating account."));
    assert!(resp.account.is_none());
    assert!(broadcast.is_none());
}

#[test]
fn create_with_out_of_range_birthday_is_refused() {
    let req = CreateAccountRequest {
        discord_id: s("123"),
        first_name: None,
        birthday: Some(i64::MAX),
    };
    match plan_create(&req) {
        CreateAction::Reply(resp) => {
            assert!(!resp.success);
            assert_eq!(resp.error, s("Birthday out of range."));
        },
        CreateAction::Insert(_) => panic!("an unrepresentable birthday must not reach the store"),
    }
}

#[test]
fn create_internalises_the_birthday() {
    let req = CreateAccountRequest {
        discord_id: s("123"),
        first_name: s("Ada"),
        birthday: Some(0),
    };
    match plan_create(&req) {
        CreateAction::Insert(v) => {
            assert_eq!(v.birthday, Some(Date { days: 0 }));
            assert_eq!(v.first_name, s("Ada"));
        },
        CreateAction::Reply(_) => panic!("a valid create must reach the store"),
    }
}

#[test]
fn get_by_unknown_identifier_is_an_absent_account_not_a_failure() {
    let req = GetAccountRequest {
        account_id: s("00000000000000ff"),
        discord_id: None,
        minecraft_id: None,
    };
    match plan_get(&req) {
        GetAction::LookupById(n) => assert_eq!(n, 255),
        _ => panic!("a decodable identifier becomes a row lookup"),
    }
    // No row matches: the reply carries no account and is not an error.
    let resp = conclude_get(None);
    assert!(resp.account.is_none());
}

#[test]
fn get_by_malformed_identifier_is_an_absent_account() {
    let req = GetAccountRequest { account_id: s("zzz"), discord_id: None, minecraft_id: None };
    match plan_get(&req) {
        GetAction::Reply(resp) => assert!(resp.account.is_none()),
        _ => panic!("an undecodable identifier matches no row"),
    }
}

#[test]
fn get_by_discord_source_looks_up_the_given_key() {
    let req = GetAccountRequest { account_id: None, discord_id: s("123"), minecraft_id: None };
    match plan_get(&req) {
        GetAction::LookupByDiscord(key) => assert_eq!(key, "123"),
        _ => panic!("a present source key becomes a source lookup"),
    }
    let row = AccountRow { id: 9, first_name: None, birthday: None, discord_id: s("123") };
    let resp = conclude_get(Some(row));
    let account = resp.account.expect("a found row is returned");
    assert_eq!(account.identifier, "0000000000000009");
    assert_eq!(account.discord_source_id, s("123"));
}

#[test]
fn get_by_reserved_source_gets_no_reply() {
    let req = GetAccountRequest { account_id: None, discord_id: None, minecraft_id: s("mc") };
    assert!(matches!(plan_get(&req), GetAction::NoReply));
}

#[test]
fn get_without_any_key_is_an_absent_account() {
    let req = GetAccountRequest { account_id: None, discord_id: None, minecraft_id: None };
    match plan_get(&req) {
        GetAction::Reply(resp) => assert!(resp.account.is_none()),
        _ => panic!("a keyless get is answered at once"),
    }
}

#[test]
fn update_changes_the_name_and_keeps_the_identifier() {
    let target = Account {
        identifier: "0000000000000007".to_string(),
        first_name: s("Neo"),
        birthday: None,
        discord_source_id: s("123"),
        minecraft_source_id: None,
    };
    let req = UpdateAccountRequest { account: Some(target) };
    let values = match plan_update(&req) {
        UpdateAction::Update(v) => v,
        UpdateAction::Reply(_) => panic!("a valid update must reach the store"),
    };
    assert_eq!(values.id, 7);
    assert_eq!(values.first_name, s("Neo"));

    // The backing relation rewrites row 7 and returns its new values.
    let row = AccountRow {
        id: values.id,
        first_name: values.first_name,
        birthday: values.birthday,
        discord_id: values.discord_id,
    };
    let (resp, broadcast) = conclude_update(Ok(row));
    assert!(resp.success);
    let account = resp.account.expect("a success reply carries the account");
    assert_eq!(account.identifier, "0000000000000007");
    assert_eq!(account.first_name, s("Neo"));
    let broadcast = broadcast.expect("a successful update is broadcast");
    assert_eq!(broadcast.account.first_name, s("Neo"));
    assert_eq!(broadcast.account, account);
}

#[test]
fn update_with_malformed_identifier_is_a_structured_failure() {
    let target = Account {
        identifier: "not-hex".to_string(),
        first_name: None,
        birthday: None,
        discord_source_id: s("123"),
        minecraft_source_id: None,
    };
    let req = UpdateAccountRequest { account: Some(target) };
    match plan_update(&req) {
        UpdateAction::Reply(resp) => {
            assert!(!resp.success);
            assert_eq!(resp.error, s("Malformed account identifier."));
            assert!(resp.account.is_none());
        },
        UpdateAction::Update(_) => panic!("a malformed identifier must not reach the store"),
    }
}

#[test]
fn update_without_source_is_refused() {
    let target = Account {
        identifier: "0000000000000007".to_string(),
        first_name: s("Neo"),
        birthday: None,
        discord_source_id: None,
        minecraft_source_id: None,
    };
    let req = UpdateAccountRequest { account: Some(target) };
    match plan_update(&req) {
        UpdateAction::Reply(resp) => {
            assert!(!resp.success);
            assert_eq!(resp.error, s("Must have an account source."));
        },
        UpdateAction::Update(_) => panic!("a sourceless update must not reach the store"),
    }
}

#[test]
fn update_without_account_is_refused() {
    let req = UpdateAccountRequest { account: None };
    match plan_update(&req) {
        UpdateAction::Reply(resp) => {
            assert!(!resp.success);
            assert_eq!(resp.error, s("Must have an account source."));
        },
        UpdateAction::Update(_) => panic!("an empty update must not reach the store"),
    }
}

#[test]
fn update_failures_are_told_apart() {
    let (resp, broadcast) = conclude_update(Err(StoreError::NotFound));
    assert!(!resp.success);
    assert_eq!(resp.error, s("Account not found."));
    assert!(broadcast.is_none());

    let (resp, broadcast) = conclude_update(Err(StoreError::Persistence));
    assert!(!resp.success);
    assert_eq!(resp.error, s("Error updating account."));
    assert!(broadcast.is_none());
}

#[test]
fn store_decodes_identifiers_and_reports_malformed_ones() {
    assert_eq!(decode_identifier("0000000000000001"), Ok(1));
    assert_eq!(decode_identifier("abc"), Ok(0xabc));
    assert_eq!(decode_identifier(""), Err(StoreError::MalformedIdentifier));
    assert_eq!(decode_identifier("g"), Err(StoreError::MalformedIdentifier));
    assert_eq!(
        decode_identifier("ffffffffffffffff"),
        Err(StoreError::MalformedIdentifier)
    );
}

#[test]
fn store_rejects_out_of_range_birthdays() {
    let r = prepare_insert(&None, &Some(i64::MIN), &s("123"));
    assert!(matches!(r, Err(StoreError::BirthdayOutOfRange)));
    let target = Account {
        identifier: "0000000000000001".to_string(),
        first_name: None,
        birthday: Some(i64::MAX),
        discord_source_id: s("123"),
        minecraft_source_id: None,
    };
    let r = prepare_update(&target);
    assert!(matches!(r, Err(StoreError::BirthdayOutOfRange)));
}

#[test]
fn epoch_millisecond_zero_round_trips_through_the_store() {
    let values = prepare_insert(&None, &Some(0), &s("123")).expect("a birthday of 0 is valid");
    // Stored as the epoch date, 1970-01-01.
    assert_eq!(values.birthday, Some(Date { days: 0 }));
    let row = AccountRow {
        id: 1,
        first_name: values.first_name,
        birthday: values.birthday,
        discord_id: values.discord_id,
    };
    let account = row_to_account(&row);
    assert_eq!(account.birthday, Some(0));
}
