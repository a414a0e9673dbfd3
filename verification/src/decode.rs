//! Decoding: dispatch of an account's binary payload to the decoder that the
//! shared decoding library registers for the owner program.

use crate::account::{AccountError, AccountId, AccountRecord, Owner, ParsedAccount};
use crate::account::{owner_name_text, spec_label, well_known_label};
use solana_account_decoder::parse_account_data::ParsedAccount as DecodedPayload;
use vstd::prelude::*;

verus! {

/// Whether the decoding library's fixed registry holds a decoder for `owner`
/// that accepts `data` (for an account addressed by `pubkey`). The registry
/// is a static table, so the outcome is a function of these values alone.
pub uninterp spec fn payload_parses(pubkey: Seq<u8>, owner: Seq<u8>, data: Seq<u8>) -> bool;

/// Relies on solana_account_decoder::parse_account_data::parse_account_data:
/// it looks the owner program up in a fixed registry and deserializes the
/// payload, so success is determined by the account key, the owner
/// identifier, and the raw bytes alone.
#[verifier::external_body]
fn parse_payload(pubkey: &AccountId, owner: &AccountId, data: &Vec<u8>) -> (r: Option<
    DecodedPayload,
>)
    requires
        pubkey.wf(),
        owner.wf(),
    ensures
        r is Some <==> payload_parses(pubkey@, owner@, data@),
{
    let pk = solana_sdk::pubkey::Pubkey::try_from(pubkey.bytes.as_slice()).unwrap();
    let ow = solana_sdk::pubkey::Pubkey::try_from(owner.bytes.as_slice()).unwrap();
    solana_account_decoder::parse_account_data::parse_account_data(
        &pk,
        &ow,
        data.as_slice(),
        None,
    ).ok()
}

/// Decodes a fetched record into the form the presenter shows. An empty
/// payload is a normal case and leaves no structured payload; a non-empty
/// payload must find a decoder registered for the record's owner, else the
/// whole operation fails with `UnsupportedOwner`. The owner label comes from
/// the static well-known table, independently of decoding.
pub fn parse_account(pubkey: &AccountId, account: AccountRecord) -> (r: Result<
    ParsedAccount,
    AccountError,
>)
    requires
        pubkey.wf(),
        account.wf(),
    ensures
        account.data@.len() == 0 ==> r is Ok && r->Ok_0.parsed_data is None,
        account.data@.len() != 0 ==> (r is Ok <==> payload_parses(
            pubkey@,
            account.owner@,
            account.data@,
        )),
        account.data@.len() != 0 && r is Ok ==> r->Ok_0.parsed_data is Some,
        r is Err ==> r->Err_0 == AccountError::UnsupportedOwner,
        r is Ok ==> {
            &&& r->Ok_0.owner.pubkey@ == account.owner@
            &&& r->Ok_0.owner.pubkey.wf()
            &&& owner_name_text(r->Ok_0.owner.name) == spec_label(account.owner@)
            &&& r->Ok_0.lamports == account.lamports
            &&& r->Ok_0.executable == account.executable
        },
{
    let AccountRecord { lamports, data, owner, executable, rent_epoch: _ } = account;

    let parsed_data = if data.len() != 0 {
        match parse_payload(pubkey, &owner, &data) {
            Some(decoded) => Some(decoded),
            None => {
                return Err(AccountError::UnsupportedOwner);
            },
        }
    } else {
        None
    };

    let name = well_known_label(&owner);

    Ok(ParsedAccount { owner: Owner { name, pubkey: owner }, lamports, parsed_data, executable })
}

} // verus!
