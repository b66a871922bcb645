//! JSON values. The values are those of `serde_json`; this module names what a
//! value holds, what it is made of and how it is rendered, and gives the few
//! operations that the control plane needs.

use serde_json::Value;
use vstd::prelude::*;
use vstd::string::*;

verus! {

#[verifier::external_type_specification]
#[verifier::external_body]
pub struct ExValue(serde_json::Value);

/// The fields of an object by key; `None` for any other value.
pub uninterp spec fn value_fields(v: Value) -> Option<Map<Seq<char>, Value>>;

/// The text of a string; `None` for any other value.
pub uninterp spec fn value_str(v: Value) -> Option<Seq<char>>;

/// The number of an unsigned integer; `None` for any other value.
pub uninterp spec fn value_u64(v: Value) -> Option<u64>;

/// The truth value of a boolean; `None` for any other value.
pub uninterp spec fn value_bool(v: Value) -> Option<bool>;

/// The compact rendering of a value.
pub uninterp spec fn value_text(v: Value) -> Seq<char>;

/// The string value of a text.
pub uninterp spec fn text_value(s: Seq<char>) -> Value;

/// The number value of an unsigned integer.
pub uninterp spec fn number_value(n: u64) -> Value;

/// The array of the given values.
pub uninterp spec fn array_value(items: Seq<Value>) -> Value;

/// The object with the given fields.
pub uninterp spec fn object_value(fields: Map<Seq<char>, Value>) -> Value;

/// The value that some bytes of JSON hold; none if they are no JSON.
pub uninterp spec fn bytes_value(bytes: Seq<u8>) -> Option<Value>;

/// Calls `serde_json::from_slice`: the value that the bytes hold, or none where
/// it reports an error, named by [`bytes_value`].
#[verifier::external_body]
pub(crate) fn parse_bytes(bytes: &[u8]) -> (r: Option<Value>)
    ensures
        r == bytes_value(bytes@),
{
    serde_json::from_slice(bytes).ok()
}

/// Calls `serde_json::Value::is_object`: whether the value is an object.
#[verifier::external_body]
pub(crate) fn is_object(v: &Value) -> (r: bool)
    ensures
        r == (value_fields(*v) is Some),
{
    v.is_object()
}

/// Calls `serde_json::Value::get` with a string key: the field of that key,
/// `None` if there is none or if the value is no object.
#[verifier::external_body]
pub(crate) fn get_field<'a>(v: &'a Value, key: &str) -> (r: Option<&'a Value>)
    ensures
        match r {
            Some(f) => value_fields(*v) is Some && value_fields(*v)->0.contains_key(key@)
                && value_fields(*v)->0[key@] == *f,
            None => value_fields(*v) is Some ==> !value_fields(*v)->0.contains_key(key@),
        },
{
    v.get(key)
}

/// Calls `serde_json::Value::as_str`: the text, if the value is a string.
#[verifier::external_body]
pub(crate) fn as_text<'a>(v: &'a Value) -> (r: Option<&'a str>)
    ensures
        match r {
            Some(s) => value_str(*v) == Some(s@),
            None => value_str(*v) is None,
        },
{
    v.as_str()
}

/// Calls `serde_json::Value::as_u64`: the number, if the value is an unsigned
/// integer.
#[verifier::external_body]
pub(crate) fn as_number(v: &Value) -> (r: Option<u64>)
    ensures
        r == value_u64(*v),
{
    v.as_u64()
}

/// Calls `serde_json::Value::as_bool`: the truth value, if the value is a
/// boolean.
#[verifier::external_body]
pub(crate) fn as_flag(v: &Value) -> (r: Option<bool>)
    ensures
        r == value_bool(*v),
{
    v.as_bool()
}

/// Calls `<serde_json::Value as std::string::ToString>::to_string`: the compact
/// rendering, named by [`value_text`].
#[verifier::external_body]
pub(crate) fn render(v: &Value) -> (r: String)
    ensures
        r@ == value_text(*v),
{
    v.to_string()
}

/// Makes a `serde_json::Value::String`, which holds the text.
#[verifier::external_body]
pub(crate) fn text_of_value(s: &str) -> (r: Value)
    ensures
        r == text_value(s@),
        value_str(r) == Some(s@),
        value_fields(r) is None,
{
    serde_json::Value::String(s.to_owned())
}

/// Calls `<serde_json::Value as From<u64>>::from`: a number that reads back as
/// the same unsigned integer.
#[verifier::external_body]
pub(crate) fn number_of_value(n: u64) -> (r: Value)
    ensures
        r == number_value(n),
        value_u64(r) == Some(n),
        value_fields(r) is None,
{
    serde_json::Value::from(n)
}

/// Makes a `serde_json::Value::Array` of the given values, in order.
#[verifier::external_body]
pub(crate) fn array_of_values(items: Vec<Value>) -> (r: Value)
    ensures
        r == array_value(items@),
        value_fields(r) is None,
{
    serde_json::Value::Array(items)
}

/// No two entries of a list of keys and values have the same key.
pub open spec fn keys_differ(fields: Seq<(String, Value)>) -> bool {
    forall|i: int, j: int|
        0 <= i < j < fields.len() ==> (#[trigger] fields[i]).0@ != (#[trigger] fields[j]).0@
}

/// The fields that a list of keys and values gives, when its keys differ.
pub open spec fn fields_of(fields: Seq<(String, Value)>) -> Map<Seq<char>, Value>
    decreases fields.len(),
{
    if fields.len() == 0 {
        Map::empty()
    } else {
        fields_of(fields.drop_last()).insert(fields.last().0@, fields.last().1)
    }
}

/// Makes a `serde_json::Value::Object` from `serde_json::Map::from_iter`: the
/// object that has exactly the given fields. Which of two entries with the same
/// key would stay is not documented, so the keys have to differ.
#[verifier::external_body]
pub(crate) fn object_of_fields(fields: Vec<(String, Value)>) -> (r: Value)
    requires
        keys_differ(fields@),
    ensures
        r == object_value(fields_of(fields@)),
        value_fields(r) == Some(fields_of(fields@)),
{
    serde_json::Value::Object(serde_json::Map::from_iter(fields))
}

/// An object with one field.
pub(crate) fn object1(k: &str, v: Value) -> (r: Value)
    ensures
        r == object_value(map![k@ => v]),
        value_fields(r) == Some(map![k@ => v]),
{
    let mut fields: Vec<(String, Value)> = Vec::new();
    fields.push((k.to_owned(), v));
    proof {
        reveal_with_fuel(fields_of, 2);
        assert(fields@.drop_last() =~= Seq::<(String, Value)>::empty());
        assert(fields_of(fields@) =~= map![k@ => v]);
    }
    object_of_fields(fields)
}

/// An object with two fields.
pub(crate) fn object2(k1: &str, v1: Value, k2: &str, v2: Value) -> (r: Value)
    requires
        k1@ != k2@,
    ensures
        r == object_value(map![k1@ => v1, k2@ => v2]),
        value_fields(r) == Some(map![k1@ => v1, k2@ => v2]),
{
    let mut fields: Vec<(String, Value)> = Vec::new();
    fields.push((k1.to_owned(), v1));
    let ghost one = fields@;
    fields.push((k2.to_owned(), v2));
    proof {
        reveal_with_fuel(fields_of, 3);
        assert(one.drop_last() =~= Seq::<(String, Value)>::empty());
        assert(fields@.drop_last() =~= one);
        assert(fields_of(fields@) =~= map![k1@ => v1, k2@ => v2]);
    }
    object_of_fields(fields)
}

/// An object with three fields.
pub(crate) fn object3(k1: &str, v1: Value, k2: &str, v2: Value, k3: &str, v3: Value) -> (r: Value)
    requires
        k1@ != k2@,
        k1@ != k3@,
        k2@ != k3@,
    ensures
        r == object_value(map![k1@ => v1, k2@ => v2, k3@ => v3]),
        value_fields(r) == Some(map![k1@ => v1, k2@ => v2, k3@ => v3]),
{
    let mut fields: Vec<(String, Value)> = Vec::new();
    fields.push((k1.to_owned(), v1));
    let ghost one = fields@;
    fields.push((k2.to_owned(), v2));
    let ghost two = fields@;
    fields.push((k3.to_owned(), v3));
    proof {
        reveal_with_fuel(fields_of, 4);
        assert(one.drop_last() =~= Seq::<(String, Value)>::empty());
        assert(two.drop_last() =~= one);
        assert(fields@.drop_last() =~= two);
        assert(fields_of(fields@) =~= map![k1@ => v1, k2@ => v2, k3@ => v3]);
    }
    object_of_fields(fields)
}

/// An object with four fields.
pub(crate) fn object4(
    k1: &str,
    v1: Value,
    k2: &str,
    v2: Value,
    k3: &str,
    v3: Value,
    k4: &str,
    v4: Value,
) -> (r: Value)
    requires
        k1@ != k2@,
        k1@ != k3@,
        k1@ != k4@,
        k2@ != k3@,
        k2@ != k4@,
        k3@ != k4@,
    ensures
        r == object_value(map![k1@ => v1, k2@ => v2, k3@ => v3, k4@ => v4]),
        value_fields(r) == Some(map![k1@ => v1, k2@ => v2, k3@ => v3, k4@ => v4]),
{
    let mut fields: Vec<(String, Value)> = Vec::new();
    fields.push((k1.to_owned(), v1));
    let ghost one = fields@;
    fields.push((k2.to_owned(), v2));
    let ghost two = fields@;
    fields.push((k3.to_owned(), v3));
    let ghost three = fields@;
    fields.push((k4.to_owned(), v4));
    proof {
        reveal_with_fuel(fields_of, 5);
        assert(one.drop_last() =~= Seq::<(String, Value)>::empty());
        assert(two.drop_last() =~= one);
        assert(three.drop_last() =~= two);
        assert(fields@.drop_last() =~= three);
        assert(fields_of(fields@) =~= map![k1@ => v1, k2@ => v2, k3@ => v3, k4@ => v4]);
    }
    object_of_fields(fields)
}

/// The array of the string values of some texts.
pub open spec fn text_array(items: Seq<Seq<char>>) -> Value {
    array_value(items.map_values(|s: Seq<char>| text_value(s)))
}

/// The array of the string values of some texts.
pub(crate) fn texts_value(items: &Vec<String>) -> (r: Value)
    ensures
        r == text_array(items@.map_values(|s: String| s@)),
        forall|j: int|
            0 <= j < items@.len() ==> value_str(text_value((#[trigger] items@[j])@)) == Some(
                items@[j]@,
            ),
{
    let ghost texts = items@.map_values(|s: String| s@);
    let mut out: Vec<Value> = Vec::new();
    let mut i: usize = 0;
    while i < items.len()
        invariant
            i <= items.len(),
            texts == items@.map_values(|s: String| s@),
            out.len() == i,
            forall|j: int| 0 <= j < i ==> out@[j] == text_value(texts[j]),
            forall|j: int|
                0 <= j < i ==> value_str(text_value((#[trigger] items@[j])@)) == Some(items@[j]@),
        decreases items.len() - i,
    {
        out.push(text_of_value(items[i].as_str()));
        i += 1;
    }
    assert(out@ =~= texts.map_values(|s: Seq<char>| text_value(s)));
    array_of_values(out)
}

}
