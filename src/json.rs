//! JSON values as the library holds them.
use vstd::prelude::*;

verus! {

/// A JSON number: a non-negative integer, a negative integer, or the text of
/// a number with a fraction or an exponent.
#[derive(Debug, Clone)]
pub enum JsonNumber {
    Unsigned(u64),
    Signed(i64),
    Decimal(String),
}

/// A JSON value. An object holds its keys and its values as two lists of
/// one length, in member order; where the lengths differ, the members are the
/// pairs up to the shorter one.
#[derive(Debug)]
pub enum Json {
    Null,
    Bool(bool),
    Number(JsonNumber),
    Str(String),
    Array(Vec<Json>),
    Object(Vec<String>, Vec<Json>),
}

/// The number of members of an object with these keys and values.
pub open spec fn object_len(keys: Seq<String>, values: Seq<Json>) -> nat {
    if keys.len() <= values.len() {
        keys.len()
    } else {
        values.len()
    }
}

/// The value of the member `key` among the first `n` members; where a key
/// occurs twice, the later member counts.
pub open spec fn member_upto(keys: Seq<String>, values: Seq<Json>, key: Seq<char>, n: nat) -> Option<Json>
    decreases n,
{
    if n == 0 {
        None
    } else if keys[n - 1]@ == key {
        Some(values[n - 1])
    } else {
        member_upto(keys, values, key, (n - 1) as nat)
    }
}

/// The value of the member `key` of an object.
pub open spec fn member(keys: Seq<String>, values: Seq<Json>, key: Seq<char>) -> Option<Json> {
    member_upto(keys, values, key, object_len(keys, values))
}

/// The length of the array under `key` of an object, and 0 where there is none.
pub open spec fn array_member_len(j: Json, key: Seq<char>) -> nat {
    match j {
        Json::Object(keys, values) => match member(keys@, values@, key) {
            Some(Json::Array(a)) => a@.len(),
            _ => 0,
        },
        _ => 0,
    }
}

/// The number of members of an object.
pub fn object_length(keys: &Vec<String>, values: &Vec<Json>) -> (r: usize)
    ensures
        r == object_len(keys@, values@),
{
    if keys.len() <= values.len() {
        keys.len()
    } else {
        values.len()
    }
}

/// The value of a member of an object.
pub fn get_member<'a>(keys: &Vec<String>, values: &'a Vec<Json>, key: &str) -> (r: Option<&'a Json>)
    ensures
        match r {
            Some(v) => member(keys@, values@, key@) == Some(*v),
            None => member(keys@, values@, key@) is None,
        },
{
    let key_owned = key.to_string();
    let n = object_length(keys, values);
    let mut i: usize = n;
    while i > 0
        invariant
            0 <= i <= n,
            n == object_len(keys@, values@),
            n <= keys@.len(),
            n <= values@.len(),
            key_owned@ == key@,
            member(keys@, values@, key@) == member_upto(keys@, values@, key@, i as nat),
        decreases i,
    {
        if keys[i - 1] == key_owned {
            return Some(&values[i - 1]);
        }
        i = i - 1;
    }
    None
}

/// The length of the array under `key` of an object, and 0 where there is none.
pub fn array_member_length(j: &Json, key: &str) -> (r: usize)
    ensures
        r == array_member_len(*j, key@),
{
    match j {
        Json::Object(keys, values) => match get_member(keys, values, key) {
            Some(Json::Array(a)) => a.len(),
            _ => 0,
        },
        _ => 0,
    }
}

} // verus!
