//! Laws relating decoding and rendering: what the owner cell of the summary
//! table shows for any fetched record. (That an empty payload decodes without
//! failure, and that a non-empty payload without a registered decoder fails
//! with `UnsupportedOwner`, are stated directly on `decode::parse_account`.)

use crate::account::{owner_name_text, spec_label, AccountRecord, ParsedAccount};
use crate::account::{SYSTEM_PROGRAM_ID, TOKEN_PROGRAM_ID};
use crate::render::{base58_of, spec_balance_text, spec_cents, spec_decimal, spec_owner_cell};
use vstd::arithmetic::div_mod::lemma_div_pos_is_pos;
use vstd::prelude::*;

verus! {

/// Every character of the decimal text of a non-negative integer is a digit.
pub proof fn lemma_decimal_chars_are_digits(n: int)
    requires
        n >= 0,
    ensures
        spec_decimal(n).len() >= 1,
        forall|i: int| 0 <= i < spec_decimal(n).len() ==> '0' <= #[trigger] spec_decimal(n)[i]
            <= '9',
    decreases n,
{
    if n >= 10 {
        lemma_decimal_chars_are_digits(n / 10);
    }
}

/// Law: the balance cell always shows exactly two fractional digits — it
/// ends in a point followed by two digit characters, and holds no point
/// anywhere else.
pub proof fn lemma_balance_has_two_fraction_digits(lamports: u64)
    ensures
        ({
            let text = spec_balance_text(lamports);
            &&& text.len() >= 4
            &&& text[text.len() - 3] == '.'
            &&& '0' <= text[text.len() - 2] <= '9'
            &&& '0' <= text[text.len() - 1] <= '9'
            &&& forall|i: int| 0 <= i < text.len() - 3 ==> #[trigger] text[i] != '.'
        }),
{
    lemma_div_pos_is_pos((lamports as int) * 100 + 500_000_000, 1_000_000_000);
    let cents = spec_cents(lamports);
    assert(cents >= 0);
    lemma_div_pos_is_pos(cents, 100);
    lemma_decimal_chars_are_digits(cents / 100);
}

/// Law: for any record whose owner is a registered well-known identifier,
/// the rendered owner cell is that identifier's label. The hypotheses on
/// `parsed` are what `decode::parse_account` ensures of its result.
pub proof fn lemma_labeled_owner_shown(rec: AccountRecord, parsed: ParsedAccount)
    requires
        spec_label(rec.owner@) is Some,
        owner_name_text(parsed.owner.name) == spec_label(rec.owner@),
        parsed.owner.pubkey@ == rec.owner@,
    ensures
        spec_owner_cell(owner_name_text(parsed.owner.name), parsed.owner.pubkey@) == spec_label(
            rec.owner@,
        )->Some_0,
{
}

/// Law: for any record whose owner is a registered well-known identifier,
/// the rendered owner cell is never the textual form of the raw identifier.
/// The last hypothesis — the base58 text holds no space character — is what
/// `render::pubkey_base58` ensures wherever that text is produced.
pub proof fn lemma_labeled_owner_not_raw(rec: AccountRecord, parsed: ParsedAccount)
    requires
        spec_label(rec.owner@) is Some,
        owner_name_text(parsed.owner.name) == spec_label(rec.owner@),
        parsed.owner.pubkey@ == rec.owner@,
        forall|i: int| 0 <= i < base58_of(rec.owner@).len() ==> base58_of(rec.owner@)[i] != ' ',
    ensures
        spec_owner_cell(owner_name_text(parsed.owner.name), parsed.owner.pubkey@) != base58_of(
            rec.owner@,
        ),
{
    reveal_strlit("System Program");
    reveal_strlit("Token Program");
    let cell = spec_owner_cell(owner_name_text(parsed.owner.name), parsed.owner.pubkey@);
    if rec.owner@ == SYSTEM_PROGRAM_ID@ {
        assert(cell.len() == 14 && cell[6] == ' ');
        if cell == base58_of(rec.owner@) {
            assert(base58_of(rec.owner@)[6] != ' ');
            assert(false);
        }
    } else {
        assert(cell.len() == 13 && cell[5] == ' ');
        if cell == base58_of(rec.owner@) {
            assert(base58_of(rec.owner@)[5] != ' ');
            assert(false);
        }
    }
}

/// Law: for any record whose owner has no label, the rendered owner cell is
/// the textual form of the raw owner identifier. (Whether the payload was
/// empty or decoded, `decode::parse_account` hands the renderer the same
/// owner metadata: the hypotheses on `parsed` are what it ensures.)
pub proof fn lemma_unlabeled_owner_shown(rec: AccountRecord, parsed: ParsedAccount)
    requires
        spec_label(rec.owner@) is None,
        owner_name_text(parsed.owner.name) == spec_label(rec.owner@),
        parsed.owner.pubkey@ == rec.owner@,
    ensures
        spec_owner_cell(owner_name_text(parsed.owner.name), parsed.owner.pubkey@) == base58_of(
            rec.owner@,
        ),
{
}

} // verus!
