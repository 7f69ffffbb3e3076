//! Declarations of the outside items that the library calls, each with the
//! contract that the library relies on.
use vstd::prelude::*;
use vstd::string::*;
use crate::text::hex_digits;

verus! {

// ---------------------------------------------------------------------------
// heapless
// ---------------------------------------------------------------------------

/// The fixed-capacity byte vector of `heapless`, used as the buffer that
/// encoded message parameters are written into.
#[verifier::external_type_specification]
#[verifier::external_body]
#[verifier::reject_recursive_types(T)]
pub struct ExHeaplessVec<T, const N: usize>(heapless::Vec<T, N>);

/// The bytes held by a parameter buffer, in order.
pub uninterp spec fn buffer_bytes(v: heapless::Vec<u8, 386>) -> Seq<u8>;

/// `heapless::Vec::extend_from_slice`. As its source shows: when the bytes do
/// not fit in the remaining capacity (386), nothing is written and it fails;
/// otherwise all of them are appended in order and it succeeds.
#[verifier::external_body]
pub(crate) fn buffer_extend(v: &mut heapless::Vec<u8, 386>, bytes: &[u8]) -> (ok: bool)
    ensures
        buffer_bytes(*old(v)).len() + bytes@.len() > 386 ==> !ok && buffer_bytes(*final(v))
            == buffer_bytes(*old(v)),
        buffer_bytes(*old(v)).len() + bytes@.len() <= 386 ==> ok && buffer_bytes(*final(v))
            == buffer_bytes(*old(v)) + bytes@,
{
    v.extend_from_slice(bytes).is_ok()
}


// ---------------------------------------------------------------------------
// drogue-client: status conditions of a device
// ---------------------------------------------------------------------------

/// One status condition of a device; it is only carried inside `Conditions`.
#[verifier::external_type_specification]
#[verifier::external_body]
pub struct ExCondition(drogue_client::core::v1::Condition);

/// The list of status conditions of a device in the registry.
#[verifier::external_type_specification]
#[verifier::external_body]
pub struct ExConditions(drogue_client::core::v1::Conditions);

/// The conditions held by a `Conditions` value, in order, each as
/// (type, status text, reason, message). The transition time of each
/// condition is not part of it.
pub uninterp spec fn condition_entries(c: drogue_client::core::v1::Conditions) -> Seq<
    (Seq<char>, Seq<char>, Option<Seq<char>>, Option<Seq<char>>),
>;

/// The text that `Conditions` stores for a status.
pub open spec fn status_text(status: Option<bool>) -> Seq<char> {
    match status {
        Some(true) => "True"@,
        Some(false) => "False"@,
        None => "Unknown"@,
    }
}

/// The view of an optional string.
pub open spec fn opt_text(s: Option<String>) -> Option<Seq<char>> {
    match s {
        Some(t) => Some(t@),
        None => None,
    }
}

/// The conditions after `Conditions::update` of type `t`: the first condition
/// of that type takes the new status, reason and message; when there is none,
/// a new condition is appended.
pub open spec fn updated_conditions(
    es: Seq<(Seq<char>, Seq<char>, Option<Seq<char>>, Option<Seq<char>>)>,
    t: Seq<char>,
    status: Seq<char>,
    reason: Option<Seq<char>>,
    message: Option<Seq<char>>,
) -> Seq<(Seq<char>, Seq<char>, Option<Seq<char>>, Option<Seq<char>>)>
    decreases es.len(),
{
    if es.len() == 0 {
        seq![(t, status, reason, message)]
    } else if es[0].0 == t {
        es.update(0, (t, status, reason, message))
    } else {
        seq![es[0]] + updated_conditions(es.drop_first(), t, status, reason, message)
    }
}

/// `Conditions::default`: no conditions.
#[verifier::external_body]
pub(crate) fn conditions_default() -> (c: drogue_client::core::v1::Conditions)
    ensures
        condition_entries(c).len() == 0,
{
    drogue_client::core::v1::Conditions::default()
}

/// `Conditions::update`, as its source shows: the first condition of the
/// given type takes the status text, reason and message (and, when the
/// status text changes, the current time as its transition time); when no
/// condition has that type, one is appended. The transition times, which
/// depend on the clock, are not stated.
#[verifier::external_body]
pub(crate) fn conditions_update(
    c: &mut drogue_client::core::v1::Conditions,
    kind: &str,
    status: Option<bool>,
    reason: Option<String>,
    message: Option<String>,
)
    ensures
        condition_entries(*final(c)) == updated_conditions(
            condition_entries(*old(c)),
            kind@,
            status_text(status),
            opt_text(reason),
            opt_text(message),
        ),
{
    c.update(kind, drogue_client::core::v1::ConditionStatus { status, reason, message })
}


// ---------------------------------------------------------------------------
// cloudevents
// ---------------------------------------------------------------------------

/// The attributes of a list of (name, text value) pairs, by name: the text
/// of a text attribute, `None` for another kind of value. Later pairs win.
pub open spec fn attribute_map(attrs: Seq<(String, Option<String>)>) -> Map<
    Seq<char>,
    Option<Seq<char>>,
>
    decreases attrs.len(),
{
    if attrs.len() == 0 {
        Map::empty()
    } else {
        attribute_map(attrs.drop_last()).insert(attrs.last().0@, opt_text(attrs.last().1))
    }
}

/// Whether no two pairs of the list carry the same name.
pub open spec fn names_unique(attrs: Seq<(String, Option<String>)>) -> bool {
    forall|i: int, j: int|
        0 <= i < j < attrs.len() ==> #[trigger] attrs[i].0@ != #[trigger] attrs[j].0@
}

/// The cloud event that `serde_json::from_slice::<cloudevents::Event>` reads
/// from a payload, or `None` when it refuses it: its attributes by name (the
/// text of each text attribute, `None` for other values) and the JSON text
/// of its data when the data is JSON.
pub uninterp spec fn cloud_event(payload: Seq<u8>) -> Option<
    (Map<Seq<char>, Option<Seq<char>>>, Option<Seq<char>>),
>;

/// `serde_json::from_slice::<cloudevents::Event>`, with the event taken as
/// the list of its attributes (`Event::iter`: the context attributes, then
/// the extensions) and the JSON text of its data. As the source shows, the
/// names are unique: the context attributes are removed from the document
/// before the rest becomes the extensions. Their order, which follows a hash
/// map, is not stated.
#[verifier::external_body]
pub(crate) fn read_cloud_event(payload: &[u8]) -> (r: Option<(Vec<(String, Option<String>)>, Option<String>)>)
    ensures
        r is Some == cloud_event(payload@) is Some,
        r is Some ==> names_unique(r.unwrap().0@) && attribute_map(r.unwrap().0@)
            == cloud_event(payload@).unwrap().0 && opt_text(r.unwrap().1) == cloud_event(
            payload@,
        ).unwrap().1,
{
    let e: cloudevents::Event = serde_json::from_slice(payload).ok()?;
    let mut attrs = Vec::new();
    for (name, value) in e.iter() {
        let text = match value {
            cloudevents::event::AttributeValue::String(t) => Some(t.to_string()),
            _ => None,
        };
        attrs.push((name.to_string(), text));
    }
    let data = match e.data() {
        Some(cloudevents::Data::Json(v)) => Some(v.to_string()),
        _ => None,
    };
    Some((attrs, data))
}

// ---------------------------------------------------------------------------
// uuid
// ---------------------------------------------------------------------------

/// The 128-bit value of the UUID that `uuid::Uuid::parse_str` reads from a
/// text, or `None` when it refuses the text.
pub uninterp spec fn parsed_uuid(s: Seq<char>) -> Option<u128>;

/// `uuid::Uuid::parse_str`, with the UUID taken as its 128-bit value. Which
/// texts it accepts (plain, hyphenated, braced and URN forms of 32
/// hexadecimal digits) is left to its name.
#[verifier::external_body]
pub(crate) fn parse_uuid(s: &str) -> (u: Option<u128>)
    ensures
        u == parsed_uuid(s@),
{
    match uuid::Uuid::parse_str(s) {
        Ok(id) => Some(id.as_u128()),
        Err(_) => None,
    }
}

/// The simple text form of a UUID given by its 128-bit value:
/// `uuid::Uuid::from_u128(..).as_simple().to_string()`. As the source shows,
/// `from_u128` lays the value out in big-endian bytes and the simple form
/// writes each byte as two lower-case hexadecimal digits, so the text is the
/// 32 lower-case hexadecimal digits of the value.
#[verifier::external_body]
pub(crate) fn uuid_simple_text(u: u128) -> (t: String)
    ensures
        t@ == hex_digits(u as nat, 32),
{
    uuid::Uuid::from_u128(u).as_simple().to_string()
}

// ---------------------------------------------------------------------------
// url
// ---------------------------------------------------------------------------

/// The serialization of the URL that `url::Url::parse` reads from a text, or
/// `None` when it refuses the text.
pub uninterp spec fn parsed_url(s: Seq<char>) -> Option<Seq<char>>;

/// `url::Url::parse`, with the URL taken as its serialization
/// (`Url::as_str`). It refuses a text by returning an error, never by
/// panicking. Which texts it accepts and how it normalises them is left to
/// the name.
#[verifier::external_body]
pub(crate) fn parse_url(s: &str) -> (r: Option<String>)
    ensures
        r is Some == parsed_url(s@) is Some,
        r is Some ==> r.unwrap()@ == parsed_url(s@).unwrap(),
{
    match url::Url::parse(s) {
        Ok(u) => Some(u.as_str().to_string()),
        Err(_) => None,
    }
}

/// The query pairs of the URL that `url::Url::parse` reads from a text, in
/// order and percent-decoded (`Url::query_pairs`), or `None` when it refuses
/// the text.
pub uninterp spec fn url_query_pairs(s: Seq<char>) -> Option<Seq<(Seq<char>, Seq<char>)>>;

/// The views of a sequence of text pairs.
pub open spec fn pair_texts(v: Seq<(String, String)>) -> Seq<(Seq<char>, Seq<char>)> {
    v.map_values(|p: (String, String)| (p.0@, p.1@))
}

/// `url::Url::parse` followed by `Url::query_pairs().into_owned()`: the
/// decoded query pairs of the URL, in order. It refuses a text by returning
/// an error, never by panicking; which texts it accepts and how it decodes
/// them is left to the name.
#[verifier::external_body]
pub(crate) fn query_pairs(s: &str) -> (r: Option<Vec<(String, String)>>)
    ensures
        r is Some == url_query_pairs(s@) is Some,
        r is Some ==> pair_texts(r.unwrap()@) == url_query_pairs(s@).unwrap(),
{
    match url::Url::parse(s) {
        Ok(u) => Some(u.query_pairs().into_owned().collect()),
        Err(_) => None,
    }
}

// ---------------------------------------------------------------------------
// hex
// ---------------------------------------------------------------------------

/// The value of a hexadecimal digit (either case), or `None` for any other
/// byte.
pub open spec fn hex_value(b: u8) -> Option<u8> {
    if 48 <= b && b <= 57 {
        Some((b - 48) as u8)
    } else if 65 <= b && b <= 70 {
        Some((b - 55) as u8)
    } else if 97 <= b && b <= 102 {
        Some((b - 87) as u8)
    } else {
        None
    }
}

/// The bytes that a text of hexadecimal digit pairs stands for, high digit
/// first; `None` for an odd length or a byte that is no hexadecimal digit.
pub open spec fn hex_decoded(text: Seq<u8>) -> Option<Seq<u8>> {
    if text.len() % 2 != 0 || exists|i: int| 0 <= i < text.len() && hex_value(text[i]) is None {
        None
    } else {
        Some(
            Seq::new(
                text.len() / 2,
                |i: int|
                    (hex_value(text[2 * i]).unwrap() * 16 + hex_value(text[2 * i + 1]).unwrap()) as u8,
            ),
        )
    }
}

/// `hex::decode` of the UTF-8 bytes of a text. As its source shows, it
/// succeeds exactly on an even number of hexadecimal digits and gives the
/// byte of each pair.
#[verifier::external_body]
pub(crate) fn hex_decode(s: &str) -> (r: Option<Vec<u8>>)
    ensures
        r is Some == hex_decoded(s.spec_bytes()) is Some,
        r is Some ==> r.unwrap()@ == hex_decoded(s.spec_bytes()).unwrap(),
{
    hex::decode(s).ok()
}

/// `hex::decode_to_slice` of the UTF-8 bytes of a text into 16 bytes. As its
/// source shows, it succeeds exactly on 32 hexadecimal digits and gives the
/// byte of each pair.
#[verifier::external_body]
pub(crate) fn hex_decode_16(s: &str) -> (r: Option<[u8; 16]>)
    ensures
        r is Some == (hex_decoded(s.spec_bytes()) is Some && hex_decoded(
            s.spec_bytes(),
        ).unwrap().len() == 16),
        r is Some ==> r.unwrap()@ == hex_decoded(s.spec_bytes()).unwrap(),
{
    let mut data = [0u8; 16];
    match hex::decode_to_slice(s, &mut data) {
        Ok(()) => Some(data),
        Err(_) => None,
    }
}

// ---------------------------------------------------------------------------
// std: String
// ---------------------------------------------------------------------------

/// `String::push`: appends one character at the end.
#[verifier::external_body]
pub(crate) fn push_char(s: &mut String, c: char)
    ensures
        final(s)@ == old(s)@.push(c),
{
    s.push(c)
}

} // verus!
