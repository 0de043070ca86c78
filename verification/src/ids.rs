//! Identifiers of accounts, orders and tasks.
//!
//! Each is a UUID, held as its 128 bits. In texts it stands in the hyphenated
//! form that the `uuid` crate prints.
use vstd::arithmetic::power::pow;
use vstd::prelude::*;

use crate::json::{
    hex_digit, in_quotes, is_plain, lemma_plain_text_is_quoted_as_it_is, quoted,
};

verus! {

/// The identifier of an account.
pub type AccountId = u128;

/// The identifier of an order.
pub type OrderId = u128;

/// The identifier of a task.
pub type TaskIdentifier = u128;

/// How many hyphens stand before a place of the hyphenated text.
pub open spec fn hyphens_before(place: int) -> int {
    if place <= 8 {
        0
    } else if place <= 13 {
        1
    } else if place <= 18 {
        2
    } else if place <= 23 {
        3
    } else {
        4
    }
}

/// The hyphenated text of a UUID: its 32 hexadecimal digits, the highest first, in groups
/// of eight, four, four, four and twelve.
pub open spec fn uuid_text(id: u128) -> Seq<char> {
    Seq::new(
        36,
        |place: int|
            if place == 8 || place == 13 || place == 18 || place == 23 {
                '-'
            } else {
                hex_digit(((id as int) / pow(16, (31 - (place - hyphens_before(place))) as nat)) % 16)
            },
    )
}

/// The hyphenated text of a UUID has nothing that a string literal must escape.
pub proof fn law_uuid_text_needs_no_escape(id: u128)
    ensures
        is_plain(uuid_text(id)),
        quoted(uuid_text(id)) == in_quotes(uuid_text(id)),
{
    assert forall|value: int| 0 <= value < 16 implies is_plain(seq![#[trigger] hex_digit(value)]) by {
    }
    assert forall|i: int| 0 <= i < 36 implies #[trigger] uuid_text(id)[i] as u32 >= 32 && uuid_text(
        id,
    )[i] != '"' && uuid_text(id)[i] != '\\' by {
        if !(i == 8 || i == 13 || i == 18 || i == 23) {
            let value = ((id as int) / pow(16, (31 - (i - hyphens_before(i))) as nat)) % 16;
            assert(uuid_text(id)[i] == hex_digit(value));
            assert(seq![hex_digit(value)][0] == hex_digit(value));
        }
    }
    lemma_plain_text_is_quoted_as_it_is(uuid_text(id));
}

/// The UUID that a text stands for, `None` where it stands for none.
pub uninterp spec fn uuid_parsed(text: Seq<char>) -> Option<u128>;

/// `Uuid`'s `to_string`: the hyphenated text in lower case, which reads back as the same
/// bits.
#[verifier::external_body]
pub(crate) fn print_uuid(id: u128) -> (res: String)
    ensures
        res@ == uuid_text(id),
        uuid_parsed(res@) == Some(id),
{
    uuid::Uuid::from_u128(id).to_string()
}

/// `Uuid::parse_str`: whether a text is accepted, and which bits it stands for,
/// depends on the text alone.
#[verifier::external_body]
pub(crate) fn parse_uuid(text: &str) -> (res: Option<u128>)
    ensures
        res == uuid_parsed(text@),
{
    uuid::Uuid::parse_str(text).ok().map(|id| id.as_u128())
}

} // verus!
