//! Encoding data-point values to JSON and decoding them back, for the HTTP API.

use vstd::prelude::*;
use crate::json::{JsonNumber, JsonValue, json_as_bool, json_as_i64, json_as_u64, json_int};
use crate::text::{decimal, decimal_value, lemma_decimal_value, lemma_decimal_injective, str_equals, u8_to_decimal};
use super::types::{DpValue, DpValueView};

verus! {

/// Why a JSON value could not be decoded as a data-point value.
#[derive(Debug, PartialEq)]
pub enum CodecError {
    /// The tag asked for a boolean and the value is not one.
    ExpectedBool,
    /// The tag asked for an integer and the value is not one within `i64`.
    ExpectedInt,
    /// The tag asked for an enum index and the value is not an integer within `u64`.
    ExpectedEnum,
    /// The tag asked for a string and the value is not one.
    ExpectedString,
    /// The tag is none of `"bool"`, `"int"`, `"enum"`, `"string"`.
    InvalidTag,
}

/// `json` is the JSON form of the data-point value `v`.
pub open spec fn encodes(json: JsonValue, v: DpValueView) -> bool {
    match v {
        DpValueView::Bool(b) => json == JsonValue::Bool(b),
        DpValueView::Int(x) => json == JsonValue::Number(json_int(x as int)),
        DpValueView::Enum(i) => json == JsonValue::Number(JsonNumber::PosInt(i as u64)),
        DpValueView::Str(s) => json matches JsonValue::String(t) && t@ == s,
    }
}

/// The JSON form of a data-point value.
pub fn encode_dp_value(value: &DpValue) -> (res: JsonValue)
    ensures
        encodes(res, value@),
{
    match value {
        DpValue::Bool(v) => JsonValue::Bool(*v),
        DpValue::Int(v) => JsonValue::from_i32(*v),
        DpValue::Enum(v) => JsonValue::Number(JsonNumber::PosInt(*v as u64)),
        DpValue::Str(v) => JsonValue::String(v.clone()),
    }
}

/// What decoding `raw` as a value of the kind named by `tag` gives. An
/// integer is cut to its low 32 bits, an enum index to its low 8 bits.
pub open spec fn decode_outcome(raw: JsonValue, tag: Seq<char>) -> Result<DpValueView, CodecError> {
    if tag == "bool"@ {
        match json_as_bool(raw) {
            Some(b) => Ok(DpValueView::Bool(b)),
            None => Err(CodecError::ExpectedBool),
        }
    } else if tag == "int"@ {
        match json_as_i64(raw) {
            Some(v) => Ok(DpValueView::Int(v as i32)),
            None => Err(CodecError::ExpectedInt),
        }
    } else if tag == "enum"@ {
        match json_as_u64(raw) {
            Some(v) => Ok(DpValueView::Enum(v as u8)),
            None => Err(CodecError::ExpectedEnum),
        }
    } else if tag == "string"@ {
        match raw {
            JsonValue::String(s) => Ok(DpValueView::Str(s@)),
            _ => Err(CodecError::ExpectedString),
        }
    } else {
        Err(CodecError::InvalidTag)
    }
}

/// Decodes `raw` as a value of the kind named by `tag`: one of `"bool"`,
/// `"int"`, `"enum"`, `"string"`.
pub fn decode_dp_value(raw: &JsonValue, tag: &str) -> (res: Result<DpValue, CodecError>)
    ensures
        match decode_outcome(*raw, tag@) {
            Ok(v) => res matches Ok(d) && d@ == v,
            Err(e) => res == Err::<DpValue, CodecError>(e),
        },
{
    if str_equals(tag, "bool") {
        match raw.as_bool() {
            Some(v) => Ok(DpValue::Bool(v)),
            None => Err(CodecError::ExpectedBool),
        }
    } else if str_equals(tag, "int") {
        match raw.as_i64() {
            Some(v) => Ok(DpValue::Int(v as i32)),
            None => Err(CodecError::ExpectedInt),
        }
    } else if str_equals(tag, "enum") {
        match raw.as_u64() {
            Some(v) => Ok(DpValue::Enum(v as u8)),
            None => Err(CodecError::ExpectedEnum),
        }
    } else if str_equals(tag, "string") {
        match raw.as_str() {
            Some(v) => Ok(DpValue::Str(String::from_str(v))),
            None => Err(CodecError::ExpectedString),
        }
    } else {
        Err(CodecError::InvalidTag)
    }
}

/// The codec tag of the kind of `v`.
pub open spec fn value_tag(v: DpValueView) -> Seq<char> {
    match v {
        DpValueView::Bool(_) => "bool"@,
        DpValueView::Int(_) => "int"@,
        DpValueView::Enum(_) => "enum"@,
        DpValueView::Str(_) => "string"@,
    }
}

/// Decoding the JSON form of a value, with the tag of its kind, gives the
/// value back.
pub proof fn lemma_codec_round_trip(json: JsonValue, v: DpValueView)
    requires
        encodes(json, v),
    ensures
        decode_outcome(json, value_tag(v)) == Ok::<DpValueView, CodecError>(v),
{
    reveal_strlit("bool");
    reveal_strlit("int");
    reveal_strlit("enum");
    reveal_strlit("string");
    assert("int"@.len() != "bool"@.len());
    assert("enum"@[0] != "bool"@[0] && "enum"@.len() != "int"@.len());
    assert("string"@.len() != "bool"@.len() && "string"@.len() != "int"@.len());
    match v {
        DpValueView::Int(x) => {
            assert((x as i64) as i32 == x);
            if x >= 0 {
                assert(((x as u64) as i64) as i32 == x) by (bit_vector)
                    requires
                        x >= 0;
            }
        },
        DpValueView::Enum(i) => {
            assert((i as u64) as u8 == i);
        },
        _ => {},
    }
}

/// The value each data point has after the pairs of `snapshot` are taken in
/// order, a later pair for the same data point replacing an earlier one.
pub open spec fn snapshot_map(snapshot: Seq<(u8, DpValue)>) -> Map<u8, DpValueView>
    decreases snapshot.len(),
{
    if snapshot.len() == 0 {
        Map::empty()
    } else {
        snapshot_map(snapshot.drop_last()).insert(snapshot.last().0, snapshot.last().1@)
    }
}

/// `members` is the JSON object that holds, under the decimal text of each
/// data point of `m`, the JSON form of its value, and nothing else.
pub open spec fn object_of(members: Seq<(String, JsonValue)>, m: Map<u8, DpValueView>) -> bool {
    &&& forall|i: int, j: int| 0 <= i < j < members.len() ==> members[i].0@ != members[j].0@
    &&& forall|i: int|
        0 <= i < members.len() ==> {
            let id = decimal_value(#[trigger] members[i].0@);
            &&& 0 <= id < 256
            &&& members[i].0@ == decimal(id as u8)
            &&& m.contains_key(id as u8)
            &&& encodes(members[i].1, m[id as u8])
        }
    &&& forall|id: u8|
        m.contains_key(id) ==> exists|i: int|
            0 <= i < members.len() && #[trigger] members[i].0@ == decimal(id)
}

/// The JSON object `{ "<id>": value, ... }` of a list of data points.
pub fn encode_snapshot(snapshot: &[(u8, DpValue)]) -> (res: JsonValue)
    ensures
        res matches JsonValue::Object(members) && object_of(members@, snapshot_map(snapshot@)),
{
    let mut members: Vec<(String, JsonValue)> = Vec::new();
    let ghost mut ids: Seq<u8> = Seq::empty();
    let n = snapshot.len();
    let mut k: usize = 0;
    while k < n
        invariant
            n == snapshot@.len(),
            0 <= k <= n,
            members@.len() == ids.len(),
            forall|i: int, j: int| 0 <= i < j < ids.len() ==> ids[i] != ids[j],
            forall|i: int|
                0 <= i < ids.len() ==> {
                    let m = snapshot_map(snapshot@.take(k as int));
                    &&& m.contains_key(#[trigger] ids[i])
                    &&& members@[i].0@ == decimal(ids[i])
                    &&& encodes(members@[i].1, m[ids[i]])
                },
            forall|id: u8|
                #[trigger] snapshot_map(snapshot@.take(k as int)).contains_key(id) ==> ids.contains(id),
        decreases n - k,
    {
        let ghost before = snapshot_map(snapshot@.take(k as int));
        let ghost after = snapshot_map(snapshot@.take(k + 1));
        assert(snapshot@.take(k + 1).drop_last() =~= snapshot@.take(k as int));
        let (id, value) = &snapshot[k];
        assert(after == before.insert(*id, value@));
        let key = u8_to_decimal(*id);
        let encoded = encode_dp_value(value);
        let ghost ids_before = ids;
        let mut pos: usize = 0;
        while pos < members.len()
            invariant
                0 <= pos <= members@.len(),
                forall|j: int| 0 <= j < pos ==> members@[j].0@ != key@,
            ensures
                0 <= pos <= members@.len(),
                forall|j: int| 0 <= j < pos ==> members@[j].0@ != key@,
                pos < members@.len() ==> members@[pos as int].0@ == key@,
            decreases members@.len() - pos,
        {
            if members[pos].0 == key {
                break;
            }
            pos = pos + 1;
        }
        if pos < members.len() {
            proof {
                lemma_decimal_injective(ids[pos as int], *id);
            }
            members.set(pos, (key, encoded));
        } else {
            proof {
                if ids.contains(*id) {
                    let w = choose|i: int| 0 <= i < ids.len() && ids[i] == *id;
                    assert(members@[w].0@ == key@);
                }
                ids = ids.push(*id);
            }
            members.push((key, encoded));
        }
        assert forall|x: u8| after.contains_key(x) implies ids.contains(x) by {
            if x != *id {
                assert(before.contains_key(x));
                let w = choose|i: int| 0 <= i < ids_before.len() && ids_before[i] == x;
                assert(ids[w] == x);
            } else {
                assert(ids.contains(*id)) by {
                    if pos < members@.len() {
                        assert(ids[pos as int] == *id);
                    } else {
                        assert(ids[ids.len() - 1] == *id);
                    }
                }
            }
        }
        k = k + 1;
    }
    assert(snapshot@.take(n as int) =~= snapshot@);
    let ghost m = snapshot_map(snapshot@);
    assert(snapshot_map(snapshot@.take(k as int)) == m);
    assert forall|i: int, j: int| 0 <= i < j < members@.len() implies members@[i].0@ != members@[j].0@ by {
        if members@[i].0@ == members@[j].0@ {
            lemma_decimal_injective(ids[i], ids[j]);
        }
    }
    assert forall|i: int| 0 <= i < members@.len() implies {
        let id = decimal_value(#[trigger] members@[i].0@);
        &&& 0 <= id < 256
        &&& members@[i].0@ == decimal(id as u8)
        &&& m.contains_key(id as u8)
        &&& encodes(members@[i].1, m[id as u8])
    } by {
        lemma_decimal_value(ids[i]);
    }
    assert forall|id: u8| m.contains_key(id) implies exists|i: int|
        0 <= i < members@.len() && #[trigger] members@[i].0@ == decimal(id) by {
        assert(snapshot_map(snapshot@.take(k as int)).contains_key(id));
        assert(ids.contains(id));
        let w = choose|i: int| 0 <= i < ids.len() && ids[i] == id;
        assert(members@[w].0@ == decimal(id));
    }
    JsonValue::Object(members)
}

} // verus!
