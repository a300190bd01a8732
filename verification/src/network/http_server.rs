//! The local REST API: device information, the data points, and writing one
//! data point.
//!
//! - `GET /api/info`: product name, firmware version and address;
//! - `GET /api/dp`: every data point, see [`crate::dp::codec::encode_snapshot`];
//! - `POST /api/dp/{id}` with body `{"value": ...}`: writes data point `id`;
//! - `POST /api/restart`: answers, then restarts.

use vstd::prelude::*;
use crate::dp::codec::{CodecError, decode_dp_value, decode_outcome, encodes, lemma_codec_round_trip, value_tag};
use crate::dp::manager::{DpManager, find_definition, set_outcome};
use crate::dp::types::{DpDefinition, DpError, DpType, DpValueView, default_value, value_fits};
use crate::json::{JsonValue, is_json_string};
use crate::text::{decimal_value, digit_value, str_equals};
use super::{dotted, ip_to_string};

verus! {

/// TCP port of the HTTP server.
pub const HTTP_PORT: u16 = 80;

/// Stack size of the HTTP server task (bytes).
pub const HTTP_STACK_SIZE: usize = 8192;

/// Delay between answering a restart request and restarting (ms).
pub const RESTART_DELAY_MS: u64 = 500;

/// The reply of an action that succeeded.
pub open spec fn reply_ok() -> Seq<char> {
    "{\"ok\":true}"@
}

/// `{"ok":true}`: the reply of an action that succeeded.
pub fn ok_reply() -> (res: String)
    ensures
        res@ == reply_ok(),
{
    String::from_str("{\"ok\":true}")
}

/// The body of `GET /api/info`: `{"ip": ..., "product_name": ..., "version": ...}`.
pub fn info_body(product_name: &str, version: &str, ip: [u8; 4]) -> (res: JsonValue)
    ensures
        res matches JsonValue::Object(members) && {
            &&& members@.len() == 3
            &&& members@[0].0@ == "ip"@ && is_json_string(members@[0].1, dotted(ip@))
            &&& members@[1].0@ == "product_name"@ && is_json_string(members@[1].1, product_name@)
            &&& members@[2].0@ == "version"@ && is_json_string(members@[2].1, version@)
        },
{
    let mut members: Vec<(String, JsonValue)> = Vec::new();
    members.push((String::from_str("ip"), JsonValue::String(ip_to_string(ip))));
    members.push((String::from_str("product_name"), JsonValue::String(String::from_str(product_name))));
    members.push((String::from_str("version"), JsonValue::String(String::from_str(version))));
    JsonValue::Object(members)
}

/// Why a write through the API was refused.
#[derive(Debug, PartialEq)]
pub enum ApiError {
    /// The path does not name a data point: not a decimal number up to 255.
    BadId,
    /// The body is not an object with a `"value"` member.
    MissingValue,
    /// The value is not of the data point's type.
    BadValue(CodecError),
    /// The manager refused the write.
    Rejected(DpError),
}

/// The data-point identifier written in decimal by `s`, if it is one.
pub open spec fn parse_dp_id(s: Seq<char>) -> Option<u8> {
    if s.len() > 0 && (forall|i: int| 0 <= i < s.len() ==> '0' <= #[trigger] s[i] <= '9') && decimal_value(s)
        <= 255 {
        Some(decimal_value(s) as u8)
    } else {
        None
    }
}

/// Reads a data-point identifier written in decimal.
pub fn parse_id(s: &str) -> (res: Option<u8>)
    ensures
        res == parse_dp_id(s@),
{
    let n = s.unicode_len();
    if n == 0 {
        return None;
    }
    let mut acc: u32 = 0;
    let mut i: usize = 0;
    while i < n
        invariant
            n == s@.len(),
            0 <= i <= n,
            forall|j: int| 0 <= j < i ==> '0' <= #[trigger] s@[j] <= '9',
            acc == (if decimal_value(s@.take(i as int)) < 256 {
                decimal_value(s@.take(i as int))
            } else {
                256
            }),
            decimal_value(s@.take(i as int)) >= 0,
        decreases n - i,
    {
        let c = s.get_char(i);
        if c < '0' || c > '9' {
            return None;
        }
        let d = (c as u32) - ('0' as u32);
        assert(s@.take(i + 1).drop_last() =~= s@.take(i as int));
        assert(d == digit_value(c));
        let next = acc * 10 + d;
        acc = if next < 256 { next } else { 256 };
        i = i + 1;
    }
    assert(s@.take(n as int) =~= s@);
    if acc <= 255 {
        Some(acc as u8)
    } else {
        None
    }
}

/// The member of `members` with key `key` that comes first.
pub open spec fn first_member(members: Seq<(String, JsonValue)>, key: Seq<char>) -> Option<JsonValue>
    decreases members.len(),
{
    if members.len() == 0 {
        None
    } else if members[0].0@ == key {
        Some(members[0].1)
    } else {
        first_member(members.drop_first(), key)
    }
}

/// The `"value"` member of a request body, if the body is an object with one.
pub open spec fn body_value(body: JsonValue) -> Option<JsonValue> {
    match body {
        JsonValue::Object(members) => first_member(members@, "value"@),
        _ => None,
    }
}

/// The name the codec uses for a data type.
pub open spec fn type_tag(t: DpType) -> Seq<char> {
    match t {
        DpType::Bool => "bool"@,
        DpType::Int { .. } => "int"@,
        DpType::Enum(_) => "enum"@,
        DpType::StringType { .. } => "string"@,
    }
}

fn type_tag_of(t: &DpType) -> (res: &'static str)
    ensures
        res@ == type_tag(*t),
{
    match t {
        DpType::Bool => "bool",
        DpType::Int { .. } => "int",
        DpType::Enum(_) => "enum",
        DpType::StringType { .. } => "string",
    }
}

/// The `"value"` member of a request body.
fn value_member(body: &JsonValue) -> (res: Option<&JsonValue>)
    ensures
        match res {
            Some(v) => body_value(*body) == Some(*v),
            None => body_value(*body) is None,
        },
{
    match body {
        JsonValue::Object(members) => {
            let n = members.len();
            let mut i: usize = 0;
            assert(members@.skip(0) =~= members@);
            assert(body_value(*body) == first_member(members@, "value"@));
            while i < n
                invariant
                    body_value(*body) == first_member(members@, "value"@),
                    n == members@.len(),
                    0 <= i <= n,
                    first_member(members@, "value"@) == first_member(members@.skip(i as int), "value"@),
                decreases n - i,
            {
                assert(members@.skip(i as int)[0] == members@[i as int]);
                if str_equals(members[i].0.as_str(), "value") {
                    return Some(&members[i].1);
                }
                assert(members@.skip(i as int).drop_first() =~= members@.skip(i + 1));
                i = i + 1;
            }
            None
        },
        _ => None,
    }
}

/// What `POST /api/dp/{id_text}` with `body` does to data points `state`
/// defined by `defs`: the new state, or why the write is refused.
pub open spec fn dp_write_outcome(
    defs: Seq<DpDefinition>,
    state: Map<u8, DpValueView>,
    id_text: Seq<char>,
    body: JsonValue,
) -> Result<Map<u8, DpValueView>, ApiError> {
    match parse_dp_id(id_text) {
        None => Err(ApiError::BadId),
        Some(id) => match find_definition(defs, id) {
            None => Err(ApiError::Rejected(DpError::NotFound { id })),
            Some(def) => match body_value(body) {
                None => Err(ApiError::MissingValue),
                Some(raw) => match decode_outcome(raw, type_tag(def.dp_type)) {
                    Err(e) => Err(ApiError::BadValue(e)),
                    Ok(value) => match set_outcome(defs, state, id, value) {
                        Ok(after) => Ok(after),
                        Err(e) => Err(ApiError::Rejected(e)),
                    },
                },
            },
        },
    }
}

/// The codec name of a data type is that of the values that fit it: of its
/// default value, and of every value a data point of that type accepts.
pub proof fn lemma_type_tag_names_fitting_values(def: DpDefinition, v: DpValueView)
    ensures
        type_tag(def.dp_type) == value_tag(default_value(def.dp_type)),
        value_fits(def, v) ==> type_tag(def.dp_type) == value_tag(v),
{
}

/// Posting the JSON form of any value that fits a writable data point, to
/// that data point's address, is accepted and stores exactly that value.
pub proof fn lemma_posted_fitting_value_is_stored(
    defs: Seq<DpDefinition>,
    state: Map<u8, DpValueView>,
    id_text: Seq<char>,
    id: u8,
    body: JsonValue,
    raw: JsonValue,
    v: DpValueView,
)
    requires
        parse_dp_id(id_text) == Some(id),
        find_definition(defs, id) matches Some(def) && def.writable && value_fits(def, v),
        body_value(body) == Some(raw),
        encodes(raw, v),
    ensures
        dp_write_outcome(defs, state, id_text, body) == Ok::<Map<u8, DpValueView>, ApiError>(state.insert(id, v)),
{
    let def = find_definition(defs, id)->Some_0;
    lemma_type_tag_names_fitting_values(def, v);
    lemma_codec_round_trip(raw, v);
}

/// Handles `POST /api/dp/{id_text}` with `body` `{"value": ...}`: decodes
/// the value by the type of the data point and writes it.
pub fn handle_dp_write(manager: &mut DpManager, id_text: &str, body: &JsonValue) -> (res: Result<(), ApiError>)
    ensures
        final(manager).defs() == old(manager).defs(),
        old(manager).wf() ==> final(manager).wf(),
        final(manager).listener_count() == old(manager).listener_count(),
        match dp_write_outcome(old(manager).defs(), old(manager)@, id_text@, *body) {
            Ok(after) => res is Ok && final(manager)@ == after,
            Err(e) => res == Err::<(), ApiError>(e) && final(manager)@ == old(manager)@,
        },
{
    let id = match parse_id(id_text) {
        Some(id) => id,
        None => return Err(ApiError::BadId),
    };
    let defs = manager.definitions();
    let mut k: usize = 0;
    let n = defs.len();
    assert(defs@.skip(0) =~= defs@);
    while k < n
        invariant
            n == defs@.len(),
            0 <= k <= n,
            find_definition(defs@, id) == find_definition(defs@.skip(k as int), id),
        ensures
            0 <= k <= n,
            k < n ==> find_definition(defs@, id) == Some(defs@[k as int]),
            k >= n ==> find_definition(defs@, id) is None,
        decreases n - k,
    {
        assert(defs@.skip(k as int)[0] == defs@[k as int]);
        if defs[k].id == id {
            break;
        }
        assert(defs@.skip(k as int).drop_first() =~= defs@.skip(k + 1));
        k = k + 1;
    }
    if k >= n {
        return Err(ApiError::Rejected(DpError::NotFound { id }));
    }
    let tag = type_tag_of(&defs[k].dp_type);
    let raw = match value_member(body) {
        Some(raw) => raw,
        None => return Err(ApiError::MissingValue),
    };
    let value = match decode_dp_value(raw, tag) {
        Ok(v) => v,
        Err(e) => return Err(ApiError::BadValue(e)),
    };
    match manager.set(id, value) {
        Ok(()) => Ok(()),
        Err(e) => Err(ApiError::Rejected(e)),
    }
}

} // verus!
