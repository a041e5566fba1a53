//! JSON values as the protocol code reads and builds them.
//!
//! `JsonValue` holds what a decoded JSON-RPC message holds: numbers keep the
//! three representations of a JSON number decoder (non-negative integer,
//! negative integer, and a float kept as its decimal text), and objects keep
//! their members in order. `Json` is its mathematical model.

use vstd::prelude::*;
use crate::text::same_text;
use serde_json::Value;

verus! {

broadcast use vstd::std_specs::vec::axiom_vec_index_decreases;

/// Model of a JSON number.
pub enum Num {
    PosInt(u64),
    NegInt(i64),
    Float(Seq<char>),
}

/// Model of a JSON value.
pub enum Json {
    Null,
    Bool(bool),
    Number(Num),
    Str(Seq<char>),
    Array(Seq<Json>),
    Object(Seq<(Seq<char>, Json)>),
}

/// A JSON number: a non-negative integer, a negative integer, or a float
/// given by its decimal text.
#[derive(Debug)]
pub enum JsonNumber {
    PosInt(u64),
    NegInt(i64),
    Float(String),
}

/// A JSON value.
#[derive(Debug)]
pub enum JsonValue {
    Null,
    Bool(bool),
    Number(JsonNumber),
    String(String),
    Array(Vec<JsonValue>),
    Object(Vec<(String, JsonValue)>),
}

impl View for JsonNumber {
    type V = Num;

    open spec fn view(&self) -> Num {
        match self {
            JsonNumber::PosInt(u) => Num::PosInt(*u),
            JsonNumber::NegInt(i) => Num::NegInt(*i),
            JsonNumber::Float(s) => Num::Float(s@),
        }
    }
}

/// The model of a value.
pub open spec fn json_model(v: JsonValue) -> Json
    decreases v,
{
    match v {
        JsonValue::Null => Json::Null,
        JsonValue::Bool(b) => Json::Bool(b),
        JsonValue::Number(n) => Json::Number(n@),
        JsonValue::String(s) => Json::Str(s@),
        JsonValue::Array(items) => Json::Array(
            Seq::new(
                items@.len(),
                |i: int|
                    if 0 <= i < items.len() {
                        json_model(items[i])
                    } else {
                        Json::Null
                    },
            ),
        ),
        JsonValue::Object(entries) => Json::Object(
            Seq::new(
                entries@.len(),
                |i: int|
                    if 0 <= i < entries.len() {
                        (entries[i].0@, json_model(entries[i].1))
                    } else {
                        (Seq::empty(), Json::Null)
                    },
            ),
        ),
    }
}

impl View for JsonValue {
    type V = Json;

    open spec fn view(&self) -> Json {
        json_model(*self)
    }
}

/// The models of a sequence of values.
pub open spec fn items_view(items: Seq<JsonValue>) -> Seq<Json> {
    Seq::new(items.len(), |i: int| items[i]@)
}

/// The models of a sequence of object members.
pub open spec fn entries_view(entries: Seq<(String, JsonValue)>) -> Seq<(Seq<char>, Json)> {
    Seq::new(entries.len(), |i: int| (entries[i].0@, entries[i].1@))
}

/// The model of an optional borrowed value.
pub open spec fn opt_view(o: Option<&JsonValue>) -> Option<Json> {
    match o {
        Some(v) => Some(v@),
        None => None,
    }
}

/// The model of an optional owned value.
pub open spec fn opt_owned_view(o: Option<JsonValue>) -> Option<Json> {
    match o {
        Some(v) => Some(v@),
        None => None,
    }
}

/// The value of the first member named `key`.
pub open spec fn lookup(entries: Seq<(Seq<char>, Json)>, key: Seq<char>) -> Option<Json>
    decreases entries.len(),
{
    if entries.len() == 0 {
        None
    } else if entries[0].0 == key {
        Some(entries[0].1)
    } else {
        lookup(entries.drop_first(), key)
    }
}

impl Json {
    /// The member `key` of an object; `None` for a missing member or a value
    /// that is not an object.
    pub open spec fn get(self, key: Seq<char>) -> Option<Json> {
        match self {
            Json::Object(entries) => lookup(entries, key),
            _ => None,
        }
    }

    /// The text of a JSON string.
    pub open spec fn as_str(self) -> Option<Seq<char>> {
        match self {
            Json::Str(s) => Some(s),
            _ => None,
        }
    }
}

/// `get(a)`, or `get(b)` when there is no member `a` (the member `a` wins even
/// when it is not of the kind the caller wants).
pub open spec fn get_either(v: Json, a: Seq<char>, b: Seq<char>) -> Option<Json> {
    match v.get(a) {
        Some(x) => Some(x),
        None => v.get(b),
    }
}

/// The text of an optional value, if it is a string.
pub open spec fn str_of(o: Option<Json>) -> Option<Seq<char>> {
    match o {
        Some(x) => x.as_str(),
        None => None,
    }
}

/// The value of a decimal digit.
pub open spec fn digit_value(c: char) -> int {
    (c as u32) - ('0' as u32)
}

pub open spec fn is_digit(c: char) -> bool {
    '0' <= c <= '9'
}

/// The number written by a sequence of decimal digits.
pub open spec fn decimal_value(digits: Seq<char>) -> nat
    decreases digits.len(),
{
    if digits.len() == 0 {
        0
    } else {
        (10 * decimal_value(digits.drop_last()) + digit_value(digits.last())) as nat
    }
}

/// The digits of an unsigned decimal numeral: the text after an optional `+`.
pub open spec fn unsigned_digits(s: Seq<char>) -> Seq<char> {
    if s.len() > 0 && s[0] == '+' {
        s.drop_first()
    } else {
        s
    }
}

/// Every character of `d` is a decimal digit.
pub open spec fn all_digits(d: Seq<char>) -> bool {
    forall|i: int| 0 <= i < d.len() ==> is_digit(#[trigger] d[i])
}

/// What `u64::from_str` accepts: an optional `+`, then one or more decimal
/// digits whose value fits in a `u64`.
pub open spec fn parse_u64_spec(s: Seq<char>) -> Option<u64> {
    let digits = unsigned_digits(s);
    if digits.len() > 0 && all_digits(digits) && decimal_value(digits) <= u64::MAX {
        Some(decimal_value(digits) as u64)
    } else {
        None
    }
}

/// The decimal numeral of `n`, without leading zeros (what `to_string`
/// writes for an unsigned integer).
pub open spec fn decimal_text(n: nat) -> Seq<char>
    decreases n,
{
    if n < 10 {
        seq![((n + 48) as u8) as char]
    } else {
        decimal_text(n / 10).push((((n % 10) + 48) as u8) as char)
    }
}

/// The decimal numeral of a number reads back as that number.
pub proof fn lemma_decimal_text_value(n: nat)
    ensures
        decimal_text(n).len() > 0,
        all_digits(decimal_text(n)),
        decimal_value(decimal_text(n)) == n,
        decimal_text(n)[0] != '+',
    decreases n,
{
    let t = decimal_text(n);
    if n < 10 {
        let c = ((n + 48) as u8) as char;
        assert(c as u32 == n + 48);
        assert(t.drop_last() =~= Seq::<char>::empty());
        assert(decimal_value(t.drop_last()) == 0);
        assert(digit_value(t.last()) == n);
        assert(is_digit(t[0]));
    } else {
        lemma_decimal_text_value(n / 10);
        let p = decimal_text(n / 10);
        let c = (((n % 10) + 48) as u8) as char;
        assert(c as u32 == (n % 10) + 48);
        assert(t.drop_last() =~= p);
        assert(t.last() == c);
        assert forall|i: int| 0 <= i < t.len() implies is_digit(#[trigger] t[i]) by {
            if i < p.len() {
                assert(t[i] == p[i]);
            }
        }
        assert(n == 10 * (n / 10) + n % 10);
        assert(digit_value(t.last()) == n % 10);
        assert(decimal_value(t) == 10 * decimal_value(p) + digit_value(t.last()));
        assert(t[0] == p[0]);
    }
}

/// The request id a JSON-RPC `id` member stands for: a non-negative integer
/// as it is, a negative integer reinterpreted in two's complement, a string
/// holding a decimal `u64`; anything else stands for no id.
pub open spec fn id_of(v: Json) -> Option<u64> {
    match v {
        Json::Number(Num::PosInt(u)) => Some(u),
        Json::Number(Num::NegInt(i)) => Some((i + 0x1_0000_0000_0000_0000) as u64),
        Json::Str(s) => parse_u64_spec(s),
        _ => None,
    }
}

pub proof fn lemma_decimal_prefix_le(digits: Seq<char>, i: int)
    requires
        0 <= i <= digits.len(),
        all_digits(digits),
    ensures
        decimal_value(digits.take(i)) <= decimal_value(digits),
    decreases digits.len() - i,
{
    if i < digits.len() {
        let d = digits.drop_last();
        assert forall|k: int| 0 <= k < d.len() implies is_digit(#[trigger] d[k]) by {
            assert(d[k] == digits[k]);
        }
        if i <= d.len() {
            lemma_decimal_prefix_le(d, i);
            assert(d.take(i) =~= digits.take(i));
        }
        assert(digit_value(digits.last()) >= 0);
    } else {
        assert(digits.take(i) =~= digits);
    }
}

/// The model of an object built from `entries`.
pub proof fn lemma_object_view(entries: Vec<(String, JsonValue)>)
    ensures
        JsonValue::Object(entries)@ == Json::Object(entries_view(entries@)),
{
    let v = JsonValue::Object(entries);
    assert(v@ is Object);
    assert forall|i: int| 0 <= i < entries@.len() implies v@->Object_0[i] == entries_view(
        entries@,
    )[i] by {}
    assert(v@->Object_0 =~= entries_view(entries@));
}

/// The model of an array built from `items`.
pub proof fn lemma_array_view(items: Vec<JsonValue>)
    ensures
        JsonValue::Array(items)@ == Json::Array(items_view(items@)),
{
    let v = JsonValue::Array(items);
    assert(v@ is Array);
    assert forall|i: int| 0 <= i < items@.len() implies v@->Array_0[i] == items_view(items@)[i] by {}
    assert(v@->Array_0 =~= items_view(items@));
}

/// `lookup` over `entries` once the members before `i` are known not to be `key`.
pub proof fn lemma_lookup_skip(entries: Seq<(Seq<char>, Json)>, key: Seq<char>, i: int)
    requires
        0 <= i <= entries.len(),
        forall|k: int| 0 <= k < i ==> entries[k].0 != key,
    ensures
        lookup(entries, key) == lookup(entries.skip(i), key),
    decreases i,
{
    if i > 0 {
        lemma_lookup_skip(entries.drop_first(), key, i - 1);
        assert(entries.drop_first().skip(i - 1) =~= entries.skip(i));
    } else {
        assert(entries.skip(0) =~= entries);
    }
}

impl JsonValue {
    /// A copy of the value.
    pub fn duplicate(&self) -> (r: JsonValue)
        ensures
            r@ == self@,
        decreases self,
    {
        match self {
            JsonValue::Null => JsonValue::Null,
            JsonValue::Bool(b) => JsonValue::Bool(*b),
            JsonValue::Number(n) => JsonValue::Number(
                match n {
                    JsonNumber::PosInt(u) => JsonNumber::PosInt(*u),
                    JsonNumber::NegInt(i) => JsonNumber::NegInt(*i),
                    JsonNumber::Float(s) => JsonNumber::Float(s.clone()),
                },
            ),
            JsonValue::String(s) => JsonValue::String(s.clone()),
            JsonValue::Array(items) => {
                let mut out: Vec<JsonValue> = Vec::new();
                let mut i: usize = 0;
                while i < items.len()
                    invariant
                        *self == JsonValue::Array(*items),
                        i <= items@.len(),
                        out@.len() == i,
                        forall|j: int| 0 <= j < i ==> out@[j]@ == items@[j]@,
                    decreases items@.len() - i,
                {
                    proof {
                        assert(decreases_to!(*self => self->Array_0));
                        assert(decreases_to!(self->Array_0 => self->Array_0[i as int]));
                    }
                    let c = items[i].duplicate();
                    out.push(c);
                    i = i + 1;
                }
                proof {
                    lemma_array_view(out);
                    lemma_array_view(*items);
                    assert(items_view(out@) =~= items_view(items@));
                }
                JsonValue::Array(out)
            },
            JsonValue::Object(entries) => {
                let mut out: Vec<(String, JsonValue)> = Vec::new();
                let mut i: usize = 0;
                while i < entries.len()
                    invariant
                        *self == JsonValue::Object(*entries),
                        i <= entries@.len(),
                        out@.len() == i,
                        forall|j: int|
                            0 <= j < i ==> out@[j].0@ == entries@[j].0@ && out@[j].1@
                                == entries@[j].1@,
                    decreases entries@.len() - i,
                {
                    proof {
                        assert(decreases_to!(*self => self->Object_0));
                        assert(decreases_to!(self->Object_0 => self->Object_0[i as int]));
                        assert(decreases_to!(self->Object_0[i as int] => self->Object_0[i as int].1));
                    }
                    let k = entries[i].0.clone();
                    let c = entries[i].1.duplicate();
                    out.push((k, c));
                    i = i + 1;
                }
                proof {
                    lemma_object_view(out);
                    lemma_object_view(*entries);
                    assert(entries_view(out@) =~= entries_view(entries@));
                }
                JsonValue::Object(out)
            },
        }
    }

    /// The member `key` of an object (`serde_json::Value::get` with a string key).
    pub fn get(&self, key: &str) -> (r: Option<&JsonValue>)
        ensures
            opt_view(r) == self@.get(key@),
    {
        match self {
            JsonValue::Object(entries) => {
                let ghost es = entries_view(entries@);
                proof {
                    lemma_object_view(*entries);
                }
                let mut i: usize = 0;
                while i < entries.len()
                    invariant
                        es == entries_view(entries@),
                        self@.get(key@) == lookup(es, key@),
                        i <= entries@.len(),
                        forall|k: int| 0 <= k < i ==> es[k].0 != key@,
                    decreases entries@.len() - i,
                {
                    if same_text(entries[i].0.as_str(), key) {
                        proof {
                            lemma_lookup_skip(es, key@, i as int);
                            assert(es[i as int].0 == entries@[i as int].0@);
                            assert(es[i as int].1 == entries@[i as int].1@);
                            assert(es.skip(i as int)[0] == es[i as int]);
                            assert(lookup(es.skip(i as int), key@) == Some(es[i as int].1));
                        }
                        return Some(&entries[i].1);
                    }
                    i = i + 1;
                }
                proof {
                    lemma_lookup_skip(es, key@, i as int);
                }
                None
            },
            _ => None,
        }
    }

    /// The text of a JSON string (`serde_json::Value::as_str`).
    pub fn as_str(&self) -> (r: Option<&str>)
        ensures
            match r {
                Some(s) => self@.as_str() == Some(s@),
                None => self@.as_str() is None,
            },
    {
        match self {
            JsonValue::String(s) => Some(s.as_str()),
            _ => None,
        }
    }

    /// The member `key` as text, when it is present and a string.
    pub fn get_str(&self, key: &str) -> (r: Option<&str>)
        ensures
            match r {
                Some(s) => str_of(self@.get(key@)) == Some(s@),
                None => str_of(self@.get(key@)) is None,
            },
    {
        match self.get(key) {
            Some(v) => v.as_str(),
            None => None,
        }
    }

    /// The member `a`, or the member `b` when there is no member `a`.
    pub fn get_either(&self, a: &str, b: &str) -> (r: Option<&JsonValue>)
        ensures
            opt_view(r) == get_either(self@, a@, b@),
    {
        match self.get(a) {
            Some(v) => Some(v),
            None => self.get(b),
        }
    }
}

/// `u64::from_str`: an optional `+` and decimal digits, without overflow.
pub fn parse_u64(s: &str) -> (r: Option<u64>)
    ensures
        r == parse_u64_spec(s@),
{
    let cs = crate::text::chars_of(s);
    let start: usize = if cs.len() > 0 && cs[0] == '+' {
        1
    } else {
        0
    };
    let ghost digits = unsigned_digits(s@);
    assert(digits =~= cs@.skip(start as int));
    if start >= cs.len() {
        return None;
    }
    let mut value: u64 = 0;
    let mut i: usize = start;
    while i < cs.len()
        invariant
            cs@ == s@,
            start <= i <= cs@.len(),
            digits == cs@.skip(start as int),
            digits == unsigned_digits(s@),
            forall|k: int| start <= k < i ==> is_digit(cs@[k]),
            value == decimal_value(digits.take(i - start)),
        decreases cs@.len() - i,
    {
        let c = cs[i];
        if !('0' <= c && c <= '9') {
            assert(digits[i - start] == c);
            assert(!is_digit(digits[i - start]));
            assert(!all_digits(digits));
            assert(parse_u64_spec(s@) is None);
            return None;
        }
        let d = (c as u32 - '0' as u32) as u64;
        proof {
            assert(digits.take(i - start + 1).drop_last() =~= digits.take(i - start));
            assert(digits.take(i - start + 1).last() == c);
        }
        let next = match value.checked_mul(10) {
            Some(m) => m.checked_add(d),
            None => None,
        };
        match next {
            Some(nv) => {
                value = nv;
            },
            None => {
                proof {
                    assert(decimal_value(digits.take(i - start + 1)) > u64::MAX);
                    if all_digits(digits) {
                        lemma_decimal_prefix_le(digits, i - start + 1);
                    }
                }
                return None;
            },
        }
        i = i + 1;
    }
    proof {
        assert(digits.take(i - start) =~= digits);
        assert forall|k: int| 0 <= k < digits.len() implies is_digit(#[trigger] digits[k]) by {
            assert(digits[k] == cs@[start + k]);
        }
        assert(all_digits(digits));
    }
    Some(value)
}

/// The request id that a JSON-RPC `id` member stands for.
pub fn json_id_as_u64(v: &JsonValue) -> (r: Option<u64>)
    ensures
        r == id_of(v@),
{
    match v {
        JsonValue::Number(JsonNumber::PosInt(u)) => Some(*u),
        JsonValue::Number(JsonNumber::NegInt(i)) => {
            let x = *i;
            let r = x as u64;
            proof {
                if x < 0 {
                    assert(r == (x + 0x1_0000_0000_0000_0000) as u64) by (bit_vector)
                        requires
                            r == x as u64,
                            x < 0,
                    ;
                } else {
                    assert(r == (x + 0x1_0000_0000_0000_0000) as u64) by (bit_vector)
                        requires
                            r == x as u64,
                            x >= 0,
                    ;
                }
            }
            Some(r)
        },
        JsonValue::Number(JsonNumber::Float(_)) => None,
        JsonValue::String(s) => parse_u64(s.as_str()),
        _ => None,
    }
}

/// `serde_json::Value`, the value that `serde_json` decodes and writes.
#[verifier::external_type_specification]
#[verifier::external_body]
pub struct ExSerdeValue(serde_json::Value);

/// `parsed` with its texts and values taken as models.
pub open spec fn parsed_view(parsed: Result<JsonValue, String>) -> Result<Json, Seq<char>> {
    match parsed {
        Ok(v) => Ok(v@),
        Err(d) => Err(d@),
    }
}

/// What `serde_json::from_str` makes of `line`: the value it decodes, or the
/// text of its error.
pub uninterp spec fn json_parse(line: Seq<char>) -> Result<Json, Seq<char>>;

/// The JSON text that `serde_json` writes for the value whose model is `v`.
pub uninterp spec fn json_rendered(v: Json) -> Seq<char>;

/// `serde_json::Value` taken over one for one, variant by variant. Used only
/// by `parse_json_line`, whose contract covers it.
#[verifier::external_body]
fn from_serde_value(v: Value) -> JsonValue {
    match v {
        Value::Null => JsonValue::Null,
        Value::Bool(b) => JsonValue::Bool(b),
        Value::Number(n) => JsonValue::Number(match (n.as_u64(), n.as_i64()) {
            (Some(u), _) => JsonNumber::PosInt(u),
            (None, Some(i)) => JsonNumber::NegInt(i),
            (None, None) => JsonNumber::Float(n.to_string()),
        }),
        Value::String(t) => JsonValue::String(t),
        Value::Array(items) => JsonValue::Array(items.into_iter().map(from_serde_value).collect()),
        Value::Object(m) => JsonValue::Object(m.into_iter().map(|(k, x)| (k, from_serde_value(x))).collect()),
    }
}

/// A `JsonValue` as a `serde_json::Value`, one for one, variant by variant.
/// Used only by `render_json`, whose contract covers it.
#[verifier::external_body]
fn to_serde_value(v: &JsonValue) -> Value {
    match v {
        JsonValue::Null => Value::Null,
        JsonValue::Bool(b) => Value::Bool(*b),
        JsonValue::Number(JsonNumber::PosInt(u)) => Value::from(*u),
        JsonValue::Number(JsonNumber::NegInt(i)) => Value::from(*i),
        JsonValue::Number(JsonNumber::Float(t)) => t.parse::<serde_json::Number>().map(Value::Number).unwrap_or(Value::Null),
        JsonValue::String(t) => Value::String(t.clone()),
        JsonValue::Array(items) => Value::Array(items.iter().map(to_serde_value).collect()),
        JsonValue::Object(m) => Value::Object(m.iter().map(|(k, x)| (k.clone(), to_serde_value(x))).collect()),
    }
}

/// `serde_json::from_str` of `line` into a `serde_json::Value`, taken over
/// as a `JsonValue`; a failure gives the text of the error. The result is
/// named, not stated: it is a function of the line alone.
#[verifier::external_body]
pub(crate) fn parse_json_line(line: &str) -> (r: Result<JsonValue, String>)
    ensures
        parsed_view(r) == json_parse(line@),
{
    match serde_json::from_str::<serde_json::Value>(line) {
        Ok(v) => Ok(from_serde_value(v)),
        Err(e) => Err(e.to_string()),
    }
}

/// The JSON text of `v`, as `serde_json` writes a `serde_json::Value`
/// (compact, as its `Display`). The result is named, not stated: it is a
/// function of the value alone.
#[verifier::external_body]
pub(crate) fn render_json(v: &JsonValue) -> (r: String)
    ensures
        r@ == json_rendered(v@),
{
    to_serde_value(v).to_string()
}

} // verus!
