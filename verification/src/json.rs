//! JSON as the game's frames need it: string literals, lists of them, small
//! numbers, and flat objects. Reading and quoting are `serde_json`'s work;
//! how the pieces are put together is decided here.

use vstd::prelude::*;
use vstd::string::*;
use crate::error::GameError;
use crate::vocab::texts_view;

verus! {

#[verifier::external_type_specification]
#[verifier::external_body]
pub struct ExJsonError(serde_json::Error);

/// The JSON string literal for `text`, quotes and escapes included, where
/// `serde_json::to_string` gives one.
pub uninterp spec fn quoted(text: Seq<char>) -> Option<Seq<char>>;

/// The members of the JSON object that `text` holds, in the order of their
/// names, where `serde_json::from_str` reads `text` as an object whose
/// values are all whole numbers from 0 to 255.
pub uninterp spec fn number_object(text: Seq<char>) -> Option<Seq<(Seq<char>, u8)>>;

/// The members of the JSON object that `text` holds, in the order of their
/// names, where `serde_json::from_str` reads `text` as an object whose
/// values are all strings.
pub uninterp spec fn text_object(text: Seq<char>) -> Option<Seq<(Seq<char>, Seq<char>)>>;

/// The members of `members` with the characters of their names.
pub open spec fn number_members(members: Seq<(String, u8)>) -> Seq<(Seq<char>, u8)> {
    members.map_values(|member: (String, u8)| (member.0@, member.1))
}

/// The members of `members` with the characters of their names and values.
pub open spec fn text_members(members: Seq<(String, String)>) -> Seq<(Seq<char>, Seq<char>)> {
    members.map_values(|member: (String, String)| (member.0@, member.1@))
}

/// `serde_json::to_string` on a string slice.
///
/// Believed of it: the outcome depends on the characters of `text` alone, so
/// it is `quoted` of them. Whether it succeeds is not claimed.
#[verifier::external_body]
pub(crate) fn quote(text: &str) -> (literal: Result<String, serde_json::Error>)
    ensures
        literal is Ok <==> quoted(text@) is Some,
        literal matches Ok(json) ==> quoted(text@) == Some(json@),
{
    serde_json::to_string(text)
}

/// `serde_json::from_str` with a `BTreeMap<String, u8>` as its target, the
/// map's entries handed out in the map's order.
///
/// Believed of it: the outcome depends on the characters of `text` alone, so
/// it is `number_object` of them.
#[verifier::external_body]
pub(crate) fn parse_number_object(text: &str) -> (members: Result<
    Vec<(String, u8)>,
    serde_json::Error,
>)
    ensures
        members is Ok <==> number_object(text@) is Some,
        members matches Ok(found) ==> number_object(text@) == Some(number_members(found@)),
{
    serde_json::from_str::<std::collections::BTreeMap<String, u8>>(text)
        .map(|object| object.into_iter().collect())
}

/// `serde_json::from_str` with a `BTreeMap<String, String>` as its target,
/// the map's entries handed out in the map's order.
///
/// Believed of it: the outcome depends on the characters of `text` alone, so
/// it is `text_object` of them.
#[verifier::external_body]
pub(crate) fn parse_text_object(text: &str) -> (members: Result<
    Vec<(String, String)>,
    serde_json::Error,
>)
    ensures
        members is Ok <==> text_object(text@) is Some,
        members matches Ok(found) ==> text_object(text@) == Some(text_members(found@)),
{
    serde_json::from_str::<std::collections::BTreeMap<String, String>>(text)
        .map(|object| object.into_iter().collect())
}

/// What a `serde_json::Error` says of itself: its `to_string`. Nothing is
/// claimed of the text.
#[verifier::external_body]
pub(crate) fn describe(error: &serde_json::Error) -> (report: String) {
    error.to_string()
}

/// The JSON string literal for `text`; an encoder's refusal becomes an
/// `Encode` error that holds its report.
pub fn literal(text: &str) -> (json: Result<String, GameError>)
    ensures
        json is Ok <==> quoted(text@) is Some,
        json matches Ok(found) ==> quoted(text@) == Some(found@),
        json matches Err(error) ==> error is Encode,
{
    match quote(text) {
        Ok(found) => Ok(found),
        Err(error) => Err(GameError::Encode(describe(&error))),
    }
}

/// The literals of `texts`, with a comma between each two.
pub open spec fn joined(texts: Seq<Seq<char>>) -> Option<Seq<char>>
    decreases texts.len(),
{
    if texts.len() == 0 {
        Some(Seq::empty())
    } else {
        match (joined(texts.drop_last()), quoted(texts.last())) {
            (Some(front), Some(item)) => Some(
                if texts.len() == 1 {
                    item
                } else {
                    front + ","@ + item
                },
            ),
            _ => None,
        }
    }
}

/// The JSON array of the literals of `texts`, where each has a literal.
pub open spec fn quoted_list(texts: Seq<Seq<char>>) -> Option<Seq<char>> {
    match joined(texts) {
        Some(items) => Some("["@ + items + "]"@),
        None => None,
    }
}

/// A list has no literal once one of its beginnings has none.
pub proof fn lemma_joined_needs_each_start(texts: Seq<Seq<char>>, count: int)
    requires
        0 <= count <= texts.len(),
        joined(texts.take(count)) is None,
    ensures
        joined(texts) is None,
    decreases texts.len(),
{
    if count == texts.len() {
        assert(texts.take(count) =~= texts);
    } else {
        assert(texts.drop_last().take(count) =~= texts.take(count));
        lemma_joined_needs_each_start(texts.drop_last(), count);
    }
}

/// The JSON array of the string literals of `texts`, in their order and
/// without spaces.
pub fn literal_list(texts: &Vec<String>) -> (json: Result<String, GameError>)
    ensures
        json is Ok <==> quoted_list(texts_view(texts@)) is Some,
        json matches Ok(found) ==> quoted_list(texts_view(texts@)) == Some(found@),
        json matches Err(error) ==> error is Encode,
{
    let ghost all = texts_view(texts@);
    let mut items = String::new();
    let mut i: usize = 0;
    while i < texts.len()
        invariant
            i <= texts.len(),
            all == texts_view(texts@),
            joined(all.take(i as int)) == Some(items@),
        decreases texts.len() - i,
    {
        proof {
            assert(all.take(i + 1).drop_last() =~= all.take(i as int));
            assert(all.take(i + 1).last() == texts@[i as int]@);
        }
        match literal(texts[i].as_str()) {
            Ok(item) => {
                if i > 0 {
                    items.append(",");
                }
                items.append(item.as_str());
            },
            Err(error) => {
                proof {
                    lemma_joined_needs_each_start(all, i + 1);
                }
                return Err(error);
            },
        }
        i = i + 1;
    }
    assert(all.take(i as int) =~= all);
    let mut found = "[".to_owned();
    found.append(items.as_str());
    found.append("]");
    Ok(found)
}

/// The numeral of one decimal digit.
pub open spec fn digit(value: int) -> Seq<char> {
    if value == 0 {
        "0"@
    } else if value == 1 {
        "1"@
    } else if value == 2 {
        "2"@
    } else if value == 3 {
        "3"@
    } else if value == 4 {
        "4"@
    } else if value == 5 {
        "5"@
    } else if value == 6 {
        "6"@
    } else if value == 7 {
        "7"@
    } else if value == 8 {
        "8"@
    } else {
        "9"@
    }
}

/// The decimal numeral of `value`, without leading zeros.
pub open spec fn decimal(value: nat) -> Seq<char>
    decreases value,
{
    if value < 10 {
        digit(value as int)
    } else {
        decimal(value / 10) + digit((value % 10) as int)
    }
}

fn digit_text(value: u8) -> (text: &'static str)
    requires
        value < 10,
    ensures
        text@ == digit(value as int),
{
    if value == 0 {
        "0"
    } else if value == 1 {
        "1"
    } else if value == 2 {
        "2"
    } else if value == 3 {
        "3"
    } else if value == 4 {
        "4"
    } else if value == 5 {
        "5"
    } else if value == 6 {
        "6"
    } else if value == 7 {
        "7"
    } else if value == 8 {
        "8"
    } else {
        "9"
    }
}

/// The JSON number for `value`: its decimal numeral.
pub fn number(value: u8) -> (json: String)
    ensures
        json@ == decimal(value as nat),
{
    let mut json = String::new();
    if value >= 100 {
        json.append(digit_text(value / 100));
    }
    if value >= 10 {
        json.append(digit_text((value / 10) % 10));
    }
    json.append(digit_text(value % 10));
    proof {
        reveal_with_fuel(decimal, 3);
        assert(json@ =~= decimal(value as nat));
    }
    json
}

/// The JSON word for a truth value.
pub open spec fn truth(value: bool) -> Seq<char> {
    if value {
        "true"@
    } else {
        "false"@
    }
}

/// The JSON word for `value`: `true` or `false`.
pub fn flag(value: bool) -> (json: &'static str)
    ensures
        json@ == truth(value),
{
    if value {
        "true"
    } else {
        "false"
    }
}

} // verus!
