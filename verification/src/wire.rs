//! Reply framing.
//!
//! Every reply and broadcast leaves the service as a binary-framed message:
//! each present field as a tag byte (field number and wire kind), varint
//! lengths and values, and UTF-8 string bytes, in field order. Optional
//! fields that are absent contribute no bytes, so they stay optional on the
//! wire; the identifier crosses only as a string field. The functions here
//! build those frames and are exact to the byte: the specification
//! functions state the frame, and each encoder returns precisely it.

use vstd::prelude::*;

use crate::account::{opt_view, Account, AccountV};
use crate::handlers::create::CreateAccountResponse;
use crate::handlers::get::GetAccountResponse;
use crate::handlers::update::{AccountUpdated, UpdateAccountResponse};

verus! {

/// Base-128 varint encoding, least significant group first, the high bit
/// marking continuation.
pub open spec fn varint(n: nat) -> Seq<u8>
    decreases n,
{
    if n < 128 {
        seq![n as u8]
    } else {
        seq![(128 + n % 128) as u8] + varint(n / 128)
    }
}

/// A string field: its tag, the byte length, the UTF-8 bytes.
pub open spec fn str_field(field: nat, s: Seq<char>) -> Seq<u8> {
    varint(field * 8 + 2) + varint(vstd::utf8::encode_utf8(s).len()) + vstd::utf8::encode_utf8(s)
}

/// An optional string field: absent fields contribute no bytes.
pub open spec fn opt_str_field(field: nat, s: Option<Seq<char>>) -> Seq<u8> {
    match s {
        Some(cs) => str_field(field, cs),
        None => Seq::empty(),
    }
}

/// A signed 64-bit integer field: its tag, then the varint of the value's
/// two's-complement 64-bit form.
pub open spec fn int64_field(field: nat, v: i64) -> Seq<u8> {
    varint(field * 8) + varint((v as u64) as nat)
}

/// An optional integer field: absent fields contribute no bytes.
pub open spec fn opt_int64_field(field: nat, v: Option<i64>) -> Seq<u8> {
    match v {
        Some(ms) => int64_field(field, ms),
        None => Seq::empty(),
    }
}

/// A boolean field: its tag, then one byte for true or false.
pub open spec fn bool_field(field: nat, v: bool) -> Seq<u8> {
    varint(field * 8) + varint(if v { 1 } else { 0 })
}

/// An embedded message field: its tag, the byte length, the inner frame.
pub open spec fn message_field(field: nat, b: Seq<u8>) -> Seq<u8> {
    varint(field * 8 + 2) + varint(b.len()) + b
}

/// An optional embedded account field.
pub open spec fn opt_account_field(field: nat, a: Option<AccountV>) -> Seq<u8> {
    match a {
        Some(av) => message_field(field, account_bytes(av)),
        None => Seq::empty(),
    }
}

/// View of an optional account.
pub open spec fn opt_account_view(o: Option<Account>) -> Option<AccountV> {
    match o {
        Some(a) => Some(a@),
        None => None,
    }
}

/// The frame of an account: identifier, display name, birthday, and the two
/// platform sources, fields one to five.
pub open spec fn account_bytes(a: AccountV) -> Seq<u8> {
    str_field(1, a.identifier) + opt_str_field(2, a.first_name) + opt_int64_field(3, a.birthday)
        + opt_str_field(4, a.discord_source_id) + opt_str_field(5, a.minecraft_source_id)
}

/// The frame of a create or update reply: success flag, error text, account.
pub open spec fn status_reply_bytes(
    success: bool,
    error: Option<Seq<char>>,
    account: Option<AccountV>,
) -> Seq<u8> {
    bool_field(1, success) + opt_str_field(2, error) + opt_account_field(3, account)
}

/// The frame of a get reply: just the optional account.
pub open spec fn get_reply_bytes(account: Option<AccountV>) -> Seq<u8> {
    opt_account_field(1, account)
}

/// The frame of the update broadcast: the full account, field one.
pub open spec fn account_updated_bytes(a: AccountV) -> Seq<u8> {
    message_field(1, account_bytes(a))
}

fn push_varint(out: &mut Vec<u8>, n: u64)
    ensures
        final(out)@ == old(out)@ + varint(n as nat),
    decreases n,
{
    if n < 128 {
        out.push(n as u8);
        assert(out@ =~= old(out)@ + varint(n as nat));
    } else {
        out.push((128 + n % 128) as u8);
        proof {
            assert(n / 128 < n) by (nonlinear_arith)
                requires
                    n >= 128,
            ;
        }
        push_varint(out, n / 128);
        assert(out@ =~= old(out)@ + varint(n as nat));
    }
}

fn push_slice(out: &mut Vec<u8>, b: &[u8])
    ensures
        final(out)@ == old(out)@ + b@,
{
    let mut i: usize = 0;
    while i < b.len()
        invariant
            i <= b@.len(),
            out@ == old(out)@ + b@.take(i as int),
        decreases b@.len() - i,
    {
        out.push(b[i]);
        assert(out@ =~= old(out)@ + b@.take(i + 1));
        i += 1;
    }
    assert(b@.take(b@.len() as int) =~= b@);
}

fn push_str_field(out: &mut Vec<u8>, field: u64, s: &String)
    requires
        1 <= field <= 15,
    ensures
        final(out)@ == old(out)@ + str_field(field as nat, s@),
{
    let bytes = s.as_str().as_bytes();
    push_varint(out, field * 8 + 2);
    push_varint(out, bytes.len() as u64);
    push_slice(out, bytes);
    assert(out@ =~= old(out)@ + str_field(field as nat, s@));
}

fn push_opt_str_field(out: &mut Vec<u8>, field: u64, s: &Option<String>)
    requires
        1 <= field <= 15,
    ensures
        final(out)@ == old(out)@ + opt_str_field(field as nat, opt_view(*s)),
{
    match s {
        Some(s) => push_str_field(out, field, s),
        None => {
            assert(out@ =~= old(out)@ + opt_str_field(field as nat, opt_view(*s)));
        },
    }
}

fn push_opt_int64_field(out: &mut Vec<u8>, field: u64, v: &Option<i64>)
    requires
        1 <= field <= 15,
    ensures
        final(out)@ == old(out)@ + opt_int64_field(field as nat, *v),
{
    match v {
        Some(ms) => {
            push_varint(out, field * 8);
            push_varint(out, *ms as u64);
            assert(out@ =~= old(out)@ + opt_int64_field(field as nat, *v));
        },
        None => {
            assert(out@ =~= old(out)@ + opt_int64_field(field as nat, *v));
        },
    }
}

fn push_bool_field(out: &mut Vec<u8>, field: u64, v: bool)
    requires
        1 <= field <= 15,
    ensures
        final(out)@ == old(out)@ + bool_field(field as nat, v),
{
    push_varint(out, field * 8);
    push_varint(out, if v { 1 } else { 0 });
    assert(out@ =~= old(out)@ + bool_field(field as nat, v));
}

fn push_account_field(out: &mut Vec<u8>, field: u64, a: &Option<Account>)
    requires
        1 <= field <= 15,
    ensures
        final(out)@ == old(out)@ + opt_account_field(field as nat, opt_account_view(*a)),
{
    match a {
        Some(account) => {
            let inner = encode_account(account);
            push_varint(out, field * 8 + 2);
            push_varint(out, inner.len() as u64);
            push_slice(out, inner.as_slice());
            assert(out@ =~= old(out)@ + opt_account_field(field as nat, opt_account_view(*a)));
        },
        None => {
            assert(out@ =~= old(out)@ + opt_account_field(field as nat, opt_account_view(*a)));
        },
    }
}

/// Frames an account, exactly as `account_bytes` states it.
pub fn encode_account(a: &Account) -> (out: Vec<u8>)
    ensures
        out@ == account_bytes(a@),
{
    let mut out: Vec<u8> = Vec::new();
    push_str_field(&mut out, 1, &a.identifier);
    push_opt_str_field(&mut out, 2, &a.first_name);
    push_opt_int64_field(&mut out, 3, &a.birthday);
    push_opt_str_field(&mut out, 4, &a.discord_source_id);
    push_opt_str_field(&mut out, 5, &a.minecraft_source_id);
    assert(out@ =~= account_bytes(a@));
    out
}

/// Frames the reply to a create request.
pub fn encode_create_response(resp: &CreateAccountResponse) -> (out: Vec<u8>)
    ensures
        out@ == status_reply_bytes(resp.success, opt_view(resp.error), opt_account_view(
            resp.account,
        )),
{
    let mut out: Vec<u8> = Vec::new();
    push_bool_field(&mut out, 1, resp.success);
    push_opt_str_field(&mut out, 2, &resp.error);
    push_account_field(&mut out, 3, &resp.account);
    assert(out@ =~= status_reply_bytes(
        resp.success,
        opt_view(resp.error),
        opt_account_view(resp.account),
    ));
    out
}

/// Frames the reply to an update request.
pub fn encode_update_response(resp: &UpdateAccountResponse) -> (out: Vec<u8>)
    ensures
        out@ == status_reply_bytes(resp.success, opt_view(resp.error), opt_account_view(
            resp.account,
        )),
{
    let mut out: Vec<u8> = Vec::new();
    push_bool_field(&mut out, 1, resp.success);
    push_opt_str_field(&mut out, 2, &resp.error);
    push_account_field(&mut out, 3, &resp.account);
    assert(out@ =~= status_reply_bytes(
        resp.success,
        opt_view(resp.error),
        opt_account_view(resp.account),
    ));
    out
}

/// Frames the reply to a get request.
pub fn encode_get_response(resp: &GetAccountResponse) -> (out: Vec<u8>)
    ensures
        out@ == get_reply_bytes(opt_account_view(resp.account)),
{
    let mut out: Vec<u8> = Vec::new();
    push_account_field(&mut out, 1, &resp.account);
    assert(out@ =~= get_reply_bytes(opt_account_view(resp.account)));
    out
}

/// Frames the broadcast sent after a successful create or update.
pub fn encode_account_updated(broadcast: &AccountUpdated) -> (out: Vec<u8>)
    ensures
        out@ == account_updated_bytes(broadcast.account@),
{
    let mut out: Vec<u8> = Vec::new();
    push_varint(&mut out, 10);
    let inner = encode_account(&broadcast.account);
    push_varint(&mut out, inner.len() as u64);
    push_slice(&mut out, inner.as_slice());
    assert(out@ =~= account_updated_bytes(broadcast.account@));
    out
}

} // verus!
