//! Data model: account identifiers, the raw record fetched from a node, the
//! decoded account, and the errors that abort an invocation.

use solana_account_decoder::parse_account_data::ParsedAccount as DecodedPayload;
use vstd::prelude::*;
use vstd::string::StringExecFns;

verus! {

/// Raw identifier of the system program: thirty-two zero bytes (the base58
/// text of all ones).
pub const SYSTEM_PROGRAM_ID: [u8; 32] = [
    0, 0, 0, 0, 0, 0, 0, 0, 0, 0, 0, 0, 0, 0, 0, 0, 0, 0, 0, 0, 0, 0, 0, 0, 0, 0, 0, 0, 0, 0, 0,
    0,
];

/// Raw identifier of the token program (base58 text
/// `TokenkegQfeZyiNwAJbNbGKPFXCWuBvf9Ss623VQ5DA`).
pub const TOKEN_PROGRAM_ID: [u8; 32] = [
    6, 221, 246, 225, 215, 101, 161, 147, 217, 203, 225, 70, 206, 235, 121, 172, 28, 180, 133,
    237, 95, 91, 55, 145, 58, 140, 245, 133, 126, 255, 0, 169,
];

/// A fixed-length public-key value that addresses an account or names an
/// owner program.
#[derive(Debug)]
pub struct AccountId {
    pub bytes: Vec<u8>,
}

impl AccountId {
    /// An identifier is well formed when it holds exactly thirty-two bytes.
    pub open spec fn wf(self) -> bool {
        self.bytes@.len() == 32
    }

    /// Builds an identifier from raw bytes; any length other than thirty-two
    /// is rejected.
    pub fn from_bytes(bytes: Vec<u8>) -> (r: Option<AccountId>)
        ensures
            bytes@.len() == 32 ==> r is Some && r->Some_0.wf() && r->Some_0@ == bytes@,
            bytes@.len() != 32 ==> r is None,
    {
        if bytes.len() == 32 {
            Some(AccountId { bytes })
        } else {
            None
        }
    }
}

impl View for AccountId {
    type V = Seq<u8>;

    open spec fn view(&self) -> Seq<u8> {
        self.bytes@
    }
}

/// The raw account state a node returns for an identifier: balance in the
/// smallest native unit, the owner program's identifier, the owner-specific
/// binary payload, and opaque metadata.
#[derive(Debug)]
pub struct AccountRecord {
    pub lamports: u64,
    pub data: Vec<u8>,
    pub owner: AccountId,
    pub executable: bool,
    pub rent_epoch: u64,
}

impl AccountRecord {
    pub open spec fn wf(self) -> bool {
        self.owner.wf()
    }
}

/// Owner metadata of a decoded account: the raw identifier, and a label when
/// the identifier is one of the well-known owner programs.
#[derive(Debug)]
pub struct Owner {
    pub name: Option<String>,
    pub pubkey: AccountId,
}

/// Declares the decoding library's structured payload type so that values of
/// it can be carried through; the inspector never looks inside one.
#[verifier::external_type_specification]
#[verifier::external_body]
pub struct ExParsedPayload(DecodedPayload);

/// An account record decoded for display. `owner.pubkey` always mirrors the
/// record's owner; `parsed_data` is present exactly when the record held a
/// non-empty payload (in which case decoding must have succeeded).
#[derive(Debug)]
pub struct ParsedAccount {
    pub owner: Owner,
    pub lamports: u64,
    pub parsed_data: Option<DecodedPayload>,
    pub executable: bool,
}

impl ParsedAccount {
    pub open spec fn wf(self) -> bool {
        self.owner.pubkey.wf()
    }
}

/// The three failures that abort an invocation: the node could not be
/// reached, the account does not exist on-chain, or a non-empty payload has
/// no decoder registered for its owner.
#[derive(Debug, PartialEq, Eq, Structural)]
pub enum AccountError {
    TransportError,
    NotFound,
    UnsupportedOwner,
}

/// The label the inspector gives a well-known owner program, if any.
pub open spec fn spec_label(owner: Seq<u8>) -> Option<Seq<char>> {
    if owner == SYSTEM_PROGRAM_ID@ {
        Some("System Program"@)
    } else if owner == TOKEN_PROGRAM_ID@ {
        Some("Token Program"@)
    } else {
        None
    }
}

/// The text of an optional owner name, for stating contracts about it.
pub open spec fn owner_name_text(name: Option<String>) -> Option<Seq<char>> {
    match name {
        Some(s) => Some(s@),
        None => None,
    }
}

fn id_bytes_eq(a: &Vec<u8>, b: &[u8; 32]) -> (r: bool)
    requires
        a@.len() == 32,
    ensures
        r <==> a@ == b@,
{
    let mut i: usize = 0;
    while i < 32
        invariant
            a@.len() == 32,
            0 <= i <= 32,
            forall|j: int| 0 <= j < i ==> a@[j] == b@[j],
        decreases 32 - i,
    {
        if a[i] != b[i] {
            return false;
        }
        i += 1;
    }
    proof {
        assert(a@ =~= b@);
    }
    true
}

/// Looks an owner identifier up in the static table of well-known owner
/// programs.
pub fn well_known_label(owner: &AccountId) -> (r: Option<String>)
    requires
        owner.wf(),
    ensures
        owner_name_text(r) == spec_label(owner@),
{
    if id_bytes_eq(&owner.bytes, &SYSTEM_PROGRAM_ID) {
        Some(String::from_str("System Program"))
    } else if id_bytes_eq(&owner.bytes, &TOKEN_PROGRAM_ID) {
        Some(String::from_str("Token Program"))
    } else {
        None
    }
}

/// Classifies the node's answer for an identifier: an absent value means the
/// account does not exist on-chain.
pub fn require_present(fetched: Option<AccountRecord>) -> (r: Result<AccountRecord, AccountError>)
    ensures
        fetched is Some ==> r is Ok && r->Ok_0 == fetched->Some_0,
        fetched is None ==> r is Err && r->Err_0 == AccountError::NotFound,
{
    match fetched {
        Some(a) => Ok(a),
        None => Err(AccountError::NotFound),
    }
}

} // verus!
