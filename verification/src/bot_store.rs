use vstd::prelude::*;
use vstd::string::StringSliceAdditionalSpecFns;

verus! {

/// The parameters of a query for the versions of a bot, read from the
/// store's time index, newest first.
#[derive(Clone, Debug, PartialEq, Eq)]
pub struct BotQuery {
    pub index_name: String,
    pub key_condition_expression: String,
    pub expression_attribute_names: Vec<(String, String)>,
    pub expression_attribute_values: Vec<(String, String)>,
    pub limit: i64,
    pub select: String,
}

/// How many versions one page of a listing holds.
pub const VERSIONS_PAGE_SIZE: i64 = 10;

/// The query for the versions stored under `hash`, at most `limit` of them:
/// the items whose hash key is `hash` and whose time range key starts with
/// `bot#`, with all their attributes.
pub open spec fn is_bot_query(q: BotQuery, hash: Seq<char>, limit: i64) -> bool {
    &&& q.index_name@ == "TimeIndex"@
    &&& q.key_condition_expression@ == "#hashKey = :hashVal AND begins_with(#rangeKey, :rangePrefix)"@
    &&& q.expression_attribute_names@.len() == 2
    &&& q.expression_attribute_names@[0].0@ == "#hashKey"@
    &&& q.expression_attribute_names@[0].1@ == "hash"@
    &&& q.expression_attribute_names@[1].0@ == "#rangeKey"@
    &&& q.expression_attribute_names@[1].1@ == "range_time"@
    &&& q.expression_attribute_values@.len() == 2
    &&& q.expression_attribute_values@[0].0@ == ":hashVal"@
    &&& q.expression_attribute_values@[0].1@ == hash
    &&& q.expression_attribute_values@[1].0@ == ":rangePrefix"@
    &&& q.expression_attribute_values@[1].1@ == "bot#"@
    &&& q.limit == limit
    &&& q.select@ == "ALL_ATTRIBUTES"@
}

fn bot_query(hash: &str, limit: i64) -> (q: BotQuery)
    ensures
        is_bot_query(q, hash@, limit),
{
    let names = vec![
        ("#hashKey".to_owned(), "hash".to_owned()),
        ("#rangeKey".to_owned(), "range_time".to_owned()),
    ];
    let values = vec![
        (":hashVal".to_owned(), hash.to_owned()),
        (":rangePrefix".to_owned(), "bot#".to_owned()),
    ];
    BotQuery {
        index_name: "TimeIndex".to_owned(),
        key_condition_expression: "#hashKey = :hashVal AND begins_with(#rangeKey, :rangePrefix)".to_owned(),
        expression_attribute_names: names,
        expression_attribute_values: values,
        limit,
        select: "ALL_ATTRIBUTES".to_owned(),
    }
}

/// The query for one page of the versions of the bot stored under `hash`.
pub fn bot_versions_query(hash: &str) -> (q: BotQuery)
    ensures
        is_bot_query(q, hash@, VERSIONS_PAGE_SIZE),
{
    bot_query(hash, VERSIONS_PAGE_SIZE)
}

/// The query for the latest version of the bot stored under `hash`.
pub fn last_bot_version_query(hash: &str) -> (q: BotQuery)
    ensures
        is_bot_query(q, hash@, 1),
{
    bot_query(hash, 1)
}

/// The items a query returned; none where it returned no list.
pub fn all_items<T>(items: Option<Vec<T>>) -> (r: Vec<T>)
    ensures
        items matches Some(v) ==> r@ == v@,
        items is None ==> r@.len() == 0,
{
    match items {
        Some(v) => v,
        None => Vec::new(),
    }
}

/// The first item a query returned, if it returned any.
pub fn first_item<T>(items: Option<Vec<T>>) -> (r: Option<T>)
    ensures
        r is Some <==> (items matches Some(v) && v@.len() > 0),
        r matches Some(x) ==> (items matches Some(v) && x == v@[0]),
{
    match items {
        Some(mut v) => {
            if v.len() == 0 {
                None
            } else {
                Some(v.remove(0))
            }
        },
        None => None,
    }
}

#[verifier::external_type_specification]
#[verifier::external_body]
pub struct ExDecodeError(base64::DecodeError);

/// The bytes that the standard base64 alphabet, with padding, decodes
/// `input` to; `None` where `input` is not such an encoding.
pub uninterp spec fn base64_decoding(input: Seq<u8>) -> Option<Seq<u8>>;

/// `base64::decode` (standard alphabet, padded): its result is the named
/// decoding of the input, an error exactly where that decoding is absent.
/// It panics where the input's length plus 3 overflows, which `requires`
/// leaves out.
#[verifier::external_body]
fn base64_decode(input: &[u8]) -> (r: Result<Vec<u8>, base64::DecodeError>)
    requires
        input@.len() + 3 <= usize::MAX,
    ensures
        r is Ok <==> base64_decoding(input@) is Some,
        r matches Ok(v) ==> base64_decoding(input@) == Some(v@),
{
    base64::decode(input)
}

/// Why a stored bot could not be read.
#[derive(PartialEq, Eq, Structural, Clone, Copy, Debug)]
pub enum BotDecodeError {
    InvalidBase64,
}

/// The serialized bot held, base64-encoded, in a stored item.
pub fn decode_bot(encoded: &str) -> (r: Result<Vec<u8>, BotDecodeError>)
    requires
        encoded.spec_bytes().len() + 3 <= usize::MAX,
    ensures
        r is Ok <==> base64_decoding(encoded.spec_bytes()) is Some,
        r matches Ok(v) ==> base64_decoding(encoded.spec_bytes()) == Some(v@),
        r matches Err(e) ==> e == BotDecodeError::InvalidBase64,
{
    match base64_decode(encoded.as_bytes()) {
        Ok(bytes) => Ok(bytes),
        Err(_) => Err(BotDecodeError::InvalidBase64),
    }
}

} // verus!
