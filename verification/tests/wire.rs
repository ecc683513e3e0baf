use account_directory::account::Account;
use account_directory::handlers::create::CreateAccountResponse;
use account_directory::handlers::get::GetAccountResponse;
use account_directory::handlers::update::AccountUpdated;
use account_directory::wire::{
    encode_account, encode_account_updated, encode_create_response, encode_get_response,
};
use protobuf::CodedInputStream;

fn bare_account(identifier: &str) -> Account {
    Account {
        identifier: identifier.to_string(),
        first_name: None,
        birthday: None,
        discord_source_id: None,
        minecraft_source_id: None,
    }
}

#[test]
fn account_frame_is_exact() {
    let mut account = bare_account("0000000000000001");
    account.discord_source_id = Some("123".to_string());
    let mut expected: Vec<u8> = Vec::new();
    expected.extend([0x0a, 16]);
    expected.extend(b"0000000000000001");
    expected.extend([0x22, 3]);
    expected.extend(b"123");
    assert_eq!(encode_account(&account), expected);
}

#[test]
fn absent_fields_contribute_no_bytes() {
    let account = bare_account("00000000000000ff");
    let bytes = encode_account(&account);
    assert_eq!(bytes.len(), 2 + 16);
    assert_eq!(&bytes[..2], &[0x0a, 16]);
}

#[test]
fn birthday_field_is_a_varint() {
    let mut account = bare_account("0000000000000001");
    account.birthday = Some(300);
    let bytes = encode_account(&account);
    // tag 3<<3, then 300 = 0b10_0101100 as two varint bytes.
    assert_eq!(&bytes[18..], &[0x18, 0xac, 0x02]);
}

#[test]
fn failure_reply_frame_is_exact() {
    let resp = CreateAccountResponse {
        success: false,
        error: Some("no".to_string()),
        account: None,
    };
    assert_eq!(encode_create_response(&resp), vec![0x08, 0, 0x12, 2, b'n', b'o']);
}

#[test]
fn empty_get_reply_is_an_empty_frame() {
    let resp = GetAccountResponse { account: None };
    assert_eq!(encode_get_response(&resp), Vec::<u8>::new());
}

#[test]
fn frames_parse_back_with_a_protobuf_reader() {
    let mut account = bare_account("0000000000000009");
    account.first_name = Some("Ada".to_string());
    account.birthday = Some(-86_400_000);
    account.discord_source_id = Some("123".to_string());
    let resp = CreateAccountResponse {
        success: true,
        error: None,
        account: Some(account.clone()),
    };
    let bytes = encode_create_response(&resp);

    let mut is = CodedInputStream::from_bytes(&bytes);
    let mut success = None;
    let mut parsed: Option<Account> = None;
    while let Some(tag) = is.read_raw_tag_or_eof().unwrap() {
        match tag {
            0x08 => success = Some(is.read_bool().unwrap()),
            0x1a => {
                let inner = is.read_bytes().unwrap();
                let mut ais = CodedInputStream::from_bytes(&inner);
                let mut a = bare_account("");
                while let Some(atag) = ais.read_raw_tag_or_eof().unwrap() {
                    match atag {
                        0x0a => a.identifier = ais.read_string().unwrap(),
                        0x12 => a.first_name = Some(ais.read_string().unwrap()),
                        0x18 => a.birthday = Some(ais.read_int64().unwrap()),
                        0x22 => a.discord_source_id = Some(ais.read_string().unwrap()),
                        0x2a => a.minecraft_source_id = Some(ais.read_string().unwrap()),
                        other => panic!("unexpected account tag {other}"),
                    }
                }
                parsed = Some(a);
            },
            other => panic!("unexpected reply tag {other}"),
        }
    }
    assert_eq!(success, Some(true));
    assert_eq!(parsed, Some(account));
}

#[test]
fn broadcast_frame_embeds_the_account() {
    let account = bare_account("0000000000000001");
    let broadcast = AccountUpdated { account: account.clone() };
    let bytes = encode_account_updated(&broadcast);
    let inner = encode_account(&account);
    let mut expected: Vec<u8> = vec![0x0a, inner.len() as u8];
    expected.extend(inner);
    assert_eq!(bytes, expected);
}
