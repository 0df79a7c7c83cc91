//! What the library takes from other crates: identifiers, forms and JSON. Each function here
//! only makes the call; its contract is what the library relies on.
use vstd::arithmetic::power::pow;
use vstd::prelude::*;
use vstd::utf8::encode_utf8;

verus! {

/// A JSON document, carried through unread.
#[verifier::external_type_specification]
#[verifier::external_body]
pub struct ExJsonValue(serde_json::Value);

/// Why a form could not be written.
#[verifier::external_type_specification]
#[verifier::external_body]
pub struct ExFormError(serde_html_form::ser::Error);

/// Writes a uuid with the `Display` of `uuid::Uuid`: lower-case and hyphenated.
#[verifier::external_body]
pub(crate) fn write_uuid(id: u128) -> (r: String)
    ensures
        r@ == crate::uuids::uuid_text(id),
{
    uuid::Uuid::from_u128(id).to_string()
}

/// Reads a uuid with `uuid::Uuid::parse_str`, which takes its hyphenated text, bare, in braces or
/// as a URN, or its digits alone, in either case, and nothing else.
#[verifier::external_body]
pub(crate) fn read_uuid(text: &str) -> (r: Option<u128>)
    ensures
        match r {
            Some(id) => crate::uuids::spells(text@, id),
            None => forall|id: u128| !crate::uuids::spells(text@, id),
        },
{
    uuid::Uuid::parse_str(text).ok().map(|id| id.as_u128())
}

/// Draws a random uuid with `uuid::Uuid::new_v4`: whatever comes, its version is 4 and its
/// variant bits are `10`.
#[verifier::external_body]
pub(crate) fn fresh_uuid() -> (r: u128)
    ensures
        r as int / pow(2, 76) % 16 == 4,
        r as int / pow(2, 62) % 4 == 2,
{
    uuid::Uuid::new_v4().as_u128()
}

/// What `gts::GtsInstanceId::try_new` says against a text, or `None` where it takes it. The
/// prefix that every id starts with is fixed when that crate is compiled.
pub uninterp spec fn gts_instance_refusal(text: Seq<char>) -> Option<Seq<char>>;

/// What `gts::GtsTypeId::try_new` says against a text, or `None` where it takes it. The prefix
/// that every id starts with is fixed when that crate is compiled.
pub uninterp spec fn gts_type_refusal(text: Seq<char>) -> Option<Seq<char>>;

/// Validates an instance id with `gts::GtsInstanceId::try_new`, which keeps the text as it is
/// spelled and takes none that ends in `~`. A refusal is the text of the error.
#[verifier::external_body]
pub(crate) fn check_gts_instance(text: &str) -> (r: Result<String, String>)
    ensures
        match r {
            Ok(id) => {
                &&& gts_instance_refusal(text@) is None
                &&& id@ == text@
                &&& id@.len() > 0
                &&& id@.last() != '~'
            },
            Err(why) => gts_instance_refusal(text@) == Some(why@),
        },
{
    gts::GtsInstanceId::try_new(text).map(|id| id.into_string()).map_err(|e| e.to_string())
}

/// Validates a type id with `gts::GtsTypeId::try_new`, which keeps the text as it is spelled
/// and takes only texts that end in `~`. A refusal is the text of the error.
#[verifier::external_body]
pub(crate) fn check_gts_type(text: &str) -> (r: Result<String, String>)
    ensures
        match r {
            Ok(id) => {
                &&& gts_type_refusal(text@) is None
                &&& id@ == text@
                &&& id@.len() > 0
                &&& id@.last() == '~'
            },
            Err(why) => gts_type_refusal(text@) == Some(why@),
        },
{
    gts::GtsTypeId::try_new(text).map(|id| id.into_string()).map_err(|e| e.to_string())
}

/// The bytes that a form leaves as they are.
pub open spec fn form_plain(b: u8) -> bool {
    ||| 0x30 <= b <= 0x39  // 0-9
    ||| 0x41 <= b <= 0x5a  // A-Z
    ||| 0x61 <= b <= 0x7a  // a-z
    ||| b == 0x2a  // *
    ||| b == 0x2d  // -
    ||| b == 0x2e  // .
    ||| b == 0x5f  // _
}

/// The upper-case hexadecimal digit for `d`.
pub open spec fn upper_hex_digit(d: int) -> char
    recommends
        0 <= d < 16,
{
    if d < 10 {
        ('0' as int + d) as char
    } else {
        ('A' as int + (d - 10)) as char
    }
}

/// One byte of a name or value in a form.
pub open spec fn form_byte(b: u8) -> Seq<char> {
    if form_plain(b) {
        seq![b as char]
    } else if b == 0x20 {
        seq!['+']
    } else {
        seq!['%', upper_hex_digit(b as int / 16), upper_hex_digit(b as int % 16)]
    }
}

/// Bytes in a form, one after the other.
pub open spec fn form_bytes(bytes: Seq<u8>) -> Seq<char>
    decreases bytes.len(),
{
    if bytes.len() == 0 {
        Seq::empty()
    } else {
        form_bytes(bytes.drop_last()) + form_byte(bytes.last())
    }
}

/// One name and its value in a form.
pub open spec fn form_pair(pair: (Seq<char>, Seq<char>)) -> Seq<char> {
    form_bytes(encode_utf8(pair.0)).push('=') + form_bytes(encode_utf8(pair.1))
}

/// Names and values as `application/x-www-form-urlencoded` text.
pub open spec fn form_text(pairs: Seq<(Seq<char>, Seq<char>)>) -> Seq<char>
    decreases pairs.len(),
{
    if pairs.len() == 0 {
        Seq::empty()
    } else if pairs.len() == 1 {
        form_pair(pairs[0])
    } else {
        form_text(pairs.drop_last()).push('&') + form_pair(pairs.last())
    }
}

/// The texts of a list of pairs.
pub open spec fn pair_texts(pairs: Seq<(String, String)>) -> Seq<(Seq<char>, Seq<char>)> {
    pairs.map_values(|p: (String, String)| (p.0@, p.1@))
}

/// Writes pairs with `serde_html_form::to_string`, which takes every list of pairs of texts
/// and writes them in order as `application/x-www-form-urlencoded`.
#[verifier::external_body]
pub(crate) fn write_form(
    pairs: &Vec<(String, String)>,
) -> (r: Result<String, serde_html_form::ser::Error>)
    ensures
        r is Ok,
        r->Ok_0@ == form_text(pair_texts(pairs@)),
{
    serde_html_form::to_string(pairs)
}

/// What `serde_json::from_str` reads in a text: a document, or the text of its error.
pub uninterp spec fn json_reading(text: Seq<char>) -> Result<serde_json::Value, Seq<char>>;

/// Reads a JSON document with `serde_json::from_str`. A refusal is the text of the error.
#[verifier::external_body]
pub(crate) fn read_json(text: &str) -> (r: Result<serde_json::Value, String>)
    ensures
        match r {
            Ok(value) => json_reading(text@) == Ok::<_, Seq<char>>(value),
            Err(why) => json_reading(text@) == Err::<serde_json::Value, _>(why@),
        },
{
    serde_json::from_str(text).map_err(|e| e.to_string())
}

/// A form is empty exactly where there is nothing to write.
pub proof fn law_form_is_empty_only_without_pairs(pairs: Seq<(Seq<char>, Seq<char>)>)
    ensures
        form_text(pairs).len() == 0 <==> pairs.len() == 0,
{
}

/// The texts of pairs are those of each pair, in order.
pub proof fn law_pairs_keep_their_texts(pairs: Seq<(String, String)>)
    ensures
        pair_texts(pairs).len() == pairs.len(),
        forall|i: int|
            0 <= i < pairs.len() ==> {
                &&& (#[trigger] pair_texts(pairs)[i]).0 == pairs[i].0@
                &&& pair_texts(pairs)[i].1 == pairs[i].1@
            },
{
}

} // verus!
