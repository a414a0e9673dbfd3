//! Rendering: the cells of the two-row summary table the inspector prints —
//! the owner line and the balance in native units with two fractional digits.

use crate::account::{owner_name_text, AccountId, Owner, ParsedAccount};
use vstd::arithmetic::div_mod::lemma_multiply_divide_lt;
use vstd::prelude::*;
use vstd::string::StringExecFns;

verus! {

/// Number of lamports in one display unit of native balance.
pub const LAMPORTS_PER_SOL: u64 = 1_000_000_000;

/// The character of a single decimal digit.
pub open spec fn spec_digit_char(d: int) -> char
    recommends
        0 <= d < 10,
{
    if d == 0 {
        '0'
    } else if d == 1 {
        '1'
    } else if d == 2 {
        '2'
    } else if d == 3 {
        '3'
    } else if d == 4 {
        '4'
    } else if d == 5 {
        '5'
    } else if d == 6 {
        '6'
    } else if d == 7 {
        '7'
    } else if d == 8 {
        '8'
    } else {
        '9'
    }
}

/// The decimal text of a non-negative integer, without leading zeros (a lone
/// zero for zero).
pub open spec fn spec_decimal(n: int) -> Seq<char>
    recommends
        n >= 0,
    decreases n,
{
    if n < 10 {
        seq![spec_digit_char(n)]
    } else {
        spec_decimal(n / 10).push(spec_digit_char(n % 10))
    }
}

/// The balance in hundredths of a display unit, rounded to the nearest
/// hundredth with ties away from zero.
pub open spec fn spec_cents(lamports: u64) -> int {
    ((lamports as int) * 100 + (LAMPORTS_PER_SOL as int) / 2) / (LAMPORTS_PER_SOL as int)
}

/// The balance cell: whole display units, a point, and exactly two
/// fractional digits.
pub open spec fn spec_balance_text(lamports: u64) -> Seq<char> {
    spec_decimal(spec_cents(lamports) / 100) + seq!['.'] + seq![
        spec_digit_char((spec_cents(lamports) % 100) / 10),
        spec_digit_char((spec_cents(lamports) % 100) % 10),
    ]
}

fn digit_str(d: u64) -> (r: &'static str)
    requires
        d < 10,
    ensures
        r@ == seq![spec_digit_char(d as int)],
{
    proof {
        reveal_strlit("0");
        reveal_strlit("1");
        reveal_strlit("2");
        reveal_strlit("3");
        reveal_strlit("4");
        reveal_strlit("5");
        reveal_strlit("6");
        reveal_strlit("7");
        reveal_strlit("8");
        reveal_strlit("9");
    }
    let r: &'static str = if d == 0 {
        "0"
    } else if d == 1 {
        "1"
    } else if d == 2 {
        "2"
    } else if d == 3 {
        "3"
    } else if d == 4 {
        "4"
    } else if d == 5 {
        "5"
    } else if d == 6 {
        "6"
    } else if d == 7 {
        "7"
    } else if d == 8 {
        "8"
    } else {
        "9"
    };
    proof {
        assert(r@ =~= seq![spec_digit_char(d as int)]);
    }
    r
}

/// Renders an unsigned integer in decimal.
pub fn u64_to_decimal(n: u64) -> (r: String)
    ensures
        r@ == spec_decimal(n as int),
    decreases n,
{
    if n < 10 {
        String::from_str(digit_str(n))
    } else {
        let prefix = u64_to_decimal(n / 10);
        let r = prefix.concat(digit_str(n % 10));
        proof {
            assert(r@ =~= spec_decimal(n as int));
        }
        r
    }
}

/// Renders a balance given in lamports as display units with exactly two
/// fractional digits, rounded to the nearest hundredth.
pub fn lamports_display(lamports: u64) -> (r: String)
    ensures
        r@ == spec_balance_text(lamports),
{
    let total: u128 = (lamports as u128) * 100 + 500_000_000;
    let cents_wide: u128 = total / 1_000_000_000;
    proof {
        lemma_multiply_divide_lt(total as int, 1_000_000_000int, 0x1_0000_0000_0000_0000int);
        assert(cents_wide <= u64::MAX);
        assert(cents_wide as int == spec_cents(lamports));
    }
    let cents: u64 = cents_wide as u64;
    let whole: u64 = cents / 100;
    let frac: u64 = cents % 100;
    let mut text = u64_to_decimal(whole);
    proof {
        reveal_strlit(".");
    }
    text.append(".");
    text.append(digit_str(frac / 10));
    text.append(digit_str(frac % 10));
    proof {
        assert(text@ =~= spec_balance_text(lamports));
    }
    text
}

/// The base58 text of a thirty-two-byte identifier.
pub uninterp spec fn base58_of(key: Seq<u8>) -> Seq<char>;

/// Relies on solana_sdk::pubkey::Pubkey::to_string (its Display impl): it
/// base58-encodes the thirty-two key bytes, so the text is a function of the
/// bytes alone, and the base58 alphabet holds no space character.
#[verifier::external_body]
fn pubkey_base58(key: &AccountId) -> (r: String)
    requires
        key.wf(),
    ensures
        r@ == base58_of(key@),
        forall|i: int| 0 <= i < r@.len() ==> r@[i] != ' ',
{
    let pk = solana_sdk::pubkey::Pubkey::try_from(key.bytes.as_slice()).unwrap();
    pk.to_string()
}

/// The owner cell: the well-known label when one is set, else the textual
/// form of the raw identifier.
pub open spec fn spec_owner_cell(name: Option<Seq<char>>, owner: Seq<u8>) -> Seq<char> {
    match name {
        Some(label) => label,
        None => base58_of(owner),
    }
}

pub fn owner_cell(owner: &Owner) -> (r: String)
    requires
        owner.pubkey.wf(),
    ensures
        r@ == spec_owner_cell(owner_name_text(owner.name), owner.pubkey@),
{
    match &owner.name {
        Some(label) => label.clone(),
        None => pubkey_base58(&owner.pubkey),
    }
}

/// The summary table: a fixed title and two rows of label and value.
pub struct AccountTable {
    pub title: String,
    pub owner_label: String,
    pub owner_value: String,
    pub balance_label: String,
    pub balance_value: String,
}

impl ParsedAccount {
    /// Computes the table the presenter prints: the owner row shows the
    /// well-known label if one is set, else the textual identifier; the
    /// balance row shows the balance in display units with two fractional
    /// digits.
    pub fn view(&self) -> (t: AccountTable)
        requires
            self.wf(),
        ensures
            t.title@ == "Account Overview"@,
            t.owner_label@ == "Owner"@,
            t.owner_value@ == spec_owner_cell(
                owner_name_text(self.owner.name),
                self.owner.pubkey@,
            ),
            t.balance_label@ == "SOL Balance"@,
            t.balance_value@ == spec_balance_text(self.lamports),
    {
        AccountTable {
            title: String::from_str("Account Overview"),
            owner_label: String::from_str("Owner"),
            owner_value: owner_cell(&self.owner),
            balance_label: String::from_str("SOL Balance"),
            balance_value: lamports_display(self.lamports),
        }
    }
}

} // verus!
