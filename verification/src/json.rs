//! JSON values as the registry's tools read and write them, with a mathematical
//! model and the compact JSON text of a value.

use vstd::prelude::*;
use crate::text::eq_str;

verus! {

/// A JSON value. An object lists its entries in the order its map yields them
/// (for `serde_json`'s default map, ascending key order); a number holds its JSON
/// text (`42`, `-7`, `2.5`), as `serde_json` prints it.
#[derive(Debug, PartialEq)]
pub enum JsonValue {
    Null,
    Bool(bool),
    Number(String),
    String(String),
    Array(Vec<JsonValue>),
    Object(Vec<(String, JsonValue)>),
}

/// The mathematical model of a [`JsonValue`]: strings become `Seq<char>`.
pub enum JsonModel {
    Null,
    Bool(bool),
    Number(Seq<char>),
    Str(Seq<char>),
    Array(Seq<JsonModel>),
    Object(Seq<(Seq<char>, JsonModel)>),
}

pub open spec fn model_of(v: JsonValue) -> JsonModel
    decreases v,
{
    match v {
        JsonValue::Null => JsonModel::Null,
        JsonValue::Bool(b) => JsonModel::Bool(b),
        JsonValue::Number(t) => JsonModel::Number(t@),
        JsonValue::String(s) => JsonModel::Str(s@),
        JsonValue::Array(items) => JsonModel::Array(models_of(items@)),
        JsonValue::Object(entries) => JsonModel::Object(entry_models_of(entries@)),
    }
}

pub open spec fn models_of(items: Seq<JsonValue>) -> Seq<JsonModel>
    decreases items,
{
    if items.len() == 0 {
        Seq::empty()
    } else {
        models_of(items.drop_last()).push(model_of(items.last()))
    }
}

pub open spec fn entry_models_of(entries: Seq<(String, JsonValue)>) -> Seq<(Seq<char>, JsonModel)>
    decreases entries,
{
    if entries.len() == 0 {
        Seq::empty()
    } else {
        entry_models_of(entries.drop_last()).push(
            (entries.last().0@, model_of(entries.last().1)),
        )
    }
}

impl View for JsonValue {
    type V = JsonModel;

    open spec fn view(&self) -> JsonModel {
        model_of(*self)
    }
}

/// A decimal digit.
pub open spec fn is_digit(c: char) -> bool {
    '0' <= c && c <= '9'
}

/// Every character of `s` is a decimal digit.
pub open spec fn all_digits(s: Seq<char>) -> bool {
    forall|i: int| 0 <= i < s.len() ==> is_digit(#[trigger] s[i])
}

/// The integer part of a JSON number: `0`, or a nonzero digit and more digits.
pub open spec fn is_int_part(s: Seq<char>) -> bool {
    s == seq!['0'] || (s.len() > 0 && s[0] != '0' && all_digits(s))
}

/// The fraction of a JSON number: nothing, or `.` and at least one digit.
pub open spec fn is_fraction(s: Seq<char>) -> bool {
    s.len() == 0 || (s.len() > 1 && s[0] == '.' && all_digits(s.drop_first()))
}

/// The digits of an exponent, with an optional sign before them.
pub open spec fn is_exponent_digits(s: Seq<char>) -> bool {
    (s.len() > 0 && all_digits(s)) || (s.len() > 1 && (s[0] == '+' || s[0] == '-') && all_digits(
        s.drop_first(),
    ))
}

/// The exponent of a JSON number: nothing, or `e` or `E` and signed digits.
pub open spec fn is_exponent(s: Seq<char>) -> bool {
    s.len() == 0 || (s.len() > 1 && (s[0] == 'e' || s[0] == 'E') && is_exponent_digits(s.drop_first()))
}

/// JSON number text: an optional minus, the integer part, the fraction and the
/// exponent, as JSON writes numbers.
pub open spec fn is_number_text(t: Seq<char>) -> bool {
    exists|sign: Seq<char>, ip: Seq<char>, frac: Seq<char>, exp: Seq<char>|
        (sign == Seq::<char>::empty() || sign == seq!['-']) && is_int_part(ip) && is_fraction(frac)
            && is_exponent(exp) && t == sign + ip + frac + exp
}

/// A well-formed value: every number in it, at any depth, holds JSON number text.
pub open spec fn wf_json(m: JsonModel) -> bool
    decreases m,
{
    match m {
        JsonModel::Number(t) => is_number_text(t),
        JsonModel::Array(items) => forall|i: int| 0 <= i < items.len() ==> wf_json(#[trigger] items[i]),
        JsonModel::Object(entries) => forall|i: int|
            0 <= i < entries.len() ==> wf_json(#[trigger] entries[i].1),
        _ => true,
    }
}

/// A character that JSON number text may hold.
pub open spec fn is_number_char(c: char) -> bool {
    is_digit(c) || c == '-' || c == '+' || c == '.' || c == 'e' || c == 'E'
}

proof fn lemma_number_chars_concat(a: Seq<char>, b: Seq<char>)
    requires
        forall|i: int| 0 <= i < a.len() ==> is_number_char(#[trigger] a[i]),
        forall|i: int| 0 <= i < b.len() ==> is_number_char(#[trigger] b[i]),
    ensures
        forall|i: int| 0 <= i < (a + b).len() ==> is_number_char(#[trigger] (a + b)[i]),
{
    assert forall|i: int| 0 <= i < (a + b).len() implies is_number_char(#[trigger] (a + b)[i]) by {
        if i < a.len() {
            assert((a + b)[i] == a[i]);
        } else {
            assert((a + b)[i] == b[i - a.len()]);
        }
    }
}

proof fn lemma_tail_number_chars(s: Seq<char>)
    requires
        s.len() > 0,
        is_number_char(s[0]),
        forall|i: int| 0 <= i < s.drop_first().len() ==> is_number_char(#[trigger] s.drop_first()[i]),
    ensures
        forall|i: int| 0 <= i < s.len() ==> is_number_char(#[trigger] s[i]),
{
    assert forall|i: int| 0 <= i < s.len() implies is_number_char(#[trigger] s[i]) by {
        if i > 0 {
            assert(s[i] == s.drop_first()[i - 1]);
        }
    }
}

/// JSON number text holds only digits, signs, `.`, `e` and `E`.
pub proof fn lemma_number_text_chars(t: Seq<char>)
    requires
        is_number_text(t),
    ensures
        forall|i: int| 0 <= i < t.len() ==> is_number_char(#[trigger] t[i]),
{
    let (sign, ip, frac, exp) = choose|sign: Seq<char>, ip: Seq<char>, frac: Seq<char>, exp: Seq<char>|
        (sign == Seq::<char>::empty() || sign == seq!['-']) && is_int_part(ip) && is_fraction(frac)
            && is_exponent(exp) && t == sign + ip + frac + exp;
    assert forall|i: int| 0 <= i < sign.len() implies is_number_char(#[trigger] sign[i]) by {}
    assert forall|i: int| 0 <= i < ip.len() implies is_number_char(#[trigger] ip[i]) by {
        if ip != seq!['0'] {
            assert(is_digit(ip[i]));
        }
    }
    if frac.len() > 0 {
        assert forall|i: int| 0 <= i < frac.drop_first().len() implies is_number_char(
            #[trigger] frac.drop_first()[i],
        ) by {
            assert(is_digit(frac.drop_first()[i]));
        }
        lemma_tail_number_chars(frac);
    }
    if exp.len() > 0 {
        let d = exp.drop_first();
        if d.len() > 0 && all_digits(d) {
            assert forall|i: int| 0 <= i < d.len() implies is_number_char(#[trigger] d[i]) by {
                assert(is_digit(d[i]));
            }
        } else {
            assert forall|i: int| 0 <= i < d.drop_first().len() implies is_number_char(
                #[trigger] d.drop_first()[i],
            ) by {
                assert(is_digit(d.drop_first()[i]));
            }
            lemma_tail_number_chars(d);
        }
        lemma_tail_number_chars(exp);
    }
    lemma_number_chars_concat(sign, ip);
    lemma_number_chars_concat(sign + ip, frac);
    lemma_number_chars_concat(sign + ip + frac, exp);
}

/// The model of a sequence of values is the sequence of their models.
pub proof fn lemma_models_of(items: Seq<JsonValue>)
    ensures
        models_of(items).len() == items.len(),
        forall|i: int| 0 <= i < items.len() ==> #[trigger] models_of(items)[i] == model_of(items[i]),
    decreases items.len(),
{
    if items.len() > 0 {
        lemma_models_of(items.drop_last());
    }
}

/// The model of a sequence of entries pairs each key's characters with its value's model.
pub proof fn lemma_entry_models_of(entries: Seq<(String, JsonValue)>)
    ensures
        entry_models_of(entries).len() == entries.len(),
        forall|i: int|
            0 <= i < entries.len() ==> #[trigger] entry_models_of(entries)[i] == (
                entries[i].0@,
                model_of(entries[i].1),
            ),
    decreases entries.len(),
{
    if entries.len() > 0 {
        lemma_entry_models_of(entries.drop_last());
    }
}

/// The value of the first entry whose key is `key`, if any.
pub open spec fn lookup(entries: Seq<(Seq<char>, JsonModel)>, key: Seq<char>) -> Option<JsonModel>
    decreases entries.len(),
{
    if entries.len() == 0 {
        None
    } else if entries[0].0 == key {
        Some(entries[0].1)
    } else {
        lookup(entries.drop_first(), key)
    }
}

/// The value `lookup` finds lies inside the entries it was looked up in.
pub proof fn lemma_lookup_decreases(entries: Seq<(Seq<char>, JsonModel)>, key: Seq<char>)
    ensures
        lookup(entries, key) matches Some(v) ==> decreases_to!(entries => v),
    decreases entries.len(),
{
    if entries.len() > 0 {
        if entries[0].0 == key {
            assert(decreases_to!(entries => entries[0]));
            assert(decreases_to!(entries[0] => entries[0].1));
        } else {
            let rest = entries.subrange(1, entries.len() as int);
            assert(rest =~= entries.drop_first());
            lemma_lookup_decreases(rest, key);
            assert(decreases_to!(entries => entries.subrange(1, entries.len() as int)));
        }
    }
}

/// The string held under `key`, if the value is an object with a string there.
pub open spec fn model_str_at(m: JsonModel, key: Seq<char>) -> Option<Seq<char>> {
    match model_get(m, key) {
        Some(JsonModel::Str(s)) => Some(s),
        _ => None,
    }
}

/// What indexing a value by a key gives: the entry's value for an object, nothing otherwise.
pub open spec fn model_get(m: JsonModel, key: Seq<char>) -> Option<JsonModel> {
    match m {
        JsonModel::Object(entries) => lookup(entries, key),
        _ => None,
    }
}

/// The items of an array, if `m` is one.
pub open spec fn model_array(m: JsonModel) -> Option<Seq<JsonModel>> {
    match m {
        JsonModel::Array(items) => Some(items),
        _ => None,
    }
}

#[verifier::external_type_specification]
#[verifier::external_body]
pub struct ExSerdeJsonValue(serde_json::Value);

/// The compact JSON text of a value, as `serde_json::to_string` writes it.
pub uninterp spec fn compact_json_text(m: JsonModel) -> Seq<char>;

/// Builds the `serde_json::Value` that a value stands for, one variant for one:
/// a number's text is parsed back into a `serde_json::Number` (a text that is no
/// JSON number is kept as a string). Nothing is promised of the result.
#[verifier::external_body]
pub(crate) fn to_serde_value(v: &JsonValue) -> serde_json::Value {
    match v {
        JsonValue::Null => serde_json::Value::Null,
        JsonValue::Bool(b) => serde_json::Value::Bool(*b),
        JsonValue::Number(t) => match t.parse::<serde_json::Number>() {
            Ok(n) => serde_json::Value::Number(n),
            Err(_) => serde_json::Value::String(t.clone()),
        },
        JsonValue::String(s) => serde_json::Value::String(s.clone()),
        JsonValue::Array(items) => serde_json::Value::Array(items.iter().map(to_serde_value).collect()),
        JsonValue::Object(es) => serde_json::Value::Object(es.iter().map(|(k, x)| (k.clone(), to_serde_value(x))).collect()),
    }
}

/// Calls `serde_json::to_string` on the value; the text is named by
/// `compact_json_text`. Writing a `serde_json::Value` into memory does not fail
/// (its map keys are strings), so the error arm, which gives the empty string, is
/// not reached.
#[verifier::external_body]
pub(crate) fn compact_json(v: &JsonValue) -> (r: String)
    ensures
        r@ == compact_json_text(v@),
{
    match serde_json::to_string(&to_serde_value(v)) {
        Ok(text) => text,
        Err(_) => String::new(),
    }
}

impl JsonValue {
    /// Indexes an object by key (the first entry with that key); any other value gives `None`.
    pub fn get(&self, key: &str) -> (r: Option<&JsonValue>)
        ensures
            r is None <==> model_get(self@, key@) is None,
            r matches Some(x) ==> model_get(self@, key@) == Some(x@),
            r matches Some(x) ==> decreases_to!(*self => *x),
    {
        match self {
            JsonValue::Object(entries) => {
                proof {
                    lemma_entry_models_of(entries@);
                }
                let ghost es = entry_models_of(entries@);
                assert(es.subrange(0, es.len() as int) =~= es);
                let mut i: usize = 0;
                while i < entries.len()
                    invariant
                        *self == JsonValue::Object(*entries),
                        self@ == JsonModel::Object(es),
                        es == entry_models_of(entries@),
                        es.len() == entries.len(),
                        forall|k: int|
                            0 <= k < entries.len() ==> #[trigger] es[k] == (
                                entries@[k].0@,
                                model_of(entries@[k].1),
                            ),
                        i <= entries.len(),
                        lookup(es, key@) == lookup(es.subrange(i as int, es.len() as int), key@),
                    decreases entries.len() - i,
                {
                    let ghost rest = es.subrange(i as int, es.len() as int);
                    assert(rest[0] == es[i as int]);
                    if eq_str(entries[i].0.as_str(), key) {
                        proof {
                            let ghost a = (*self)->Object_0;
                            assert(decreases_to!(*self => (*self)->Object_0));
                            assert(decreases_to!(a => a@));
                            assert(decreases_to!(a@ => a@[i as int]));
                            assert(decreases_to!(a@[i as int] => a@[i as int].1));
                        }
                        return Some(&entries[i].1);
                    }
                    assert(rest.drop_first() =~= es.subrange(i + 1, es.len() as int));
                    i = i + 1;
                }
                None
            },
            _ => None,
        }
    }

    /// The items of an array, if this is one.
    pub fn as_array(&self) -> (r: Option<&Vec<JsonValue>>)
        ensures
            r is None <==> model_array(self@) is None,
            r matches Some(items) ==> model_array(self@) == Some(models_of(items@)),
            r matches Some(items) ==> forall|k: int|
                0 <= k < items.len() ==> decreases_to!(*self => #[trigger] items@[k]),
    {
        match self {
            JsonValue::Array(items) => {
                proof {
                    let ghost a = (*self)->Array_0;
                    assert(decreases_to!(*self => (*self)->Array_0));
                    assert(decreases_to!(a => a@));
                    assert forall|k: int| 0 <= k < items.len() implies decreases_to!(*self => #[trigger] items@[k]) by {
                        assert(decreases_to!(a@ => a@[k]));
                    }
                }
                Some(items)
            },
            _ => None,
        }
    }

    /// The string under `key`, if this is an object holding a string there.
    pub fn str_at(&self, key: &str) -> (r: Option<&String>)
        ensures
            r is None <==> model_str_at(self@, key@) is None,
            r matches Some(s) ==> model_str_at(self@, key@) == Some(s@),
    {
        match self.get(key) {
            Some(JsonValue::String(s)) => Some(s),
            _ => None,
        }
    }

    /// A copy of this value, equal to it in the model.
    pub fn deep_clone(&self) -> (r: JsonValue)
        ensures
            r@ == self@,
        decreases self,
    {
        match self {
            JsonValue::Null => JsonValue::Null,
            JsonValue::Bool(b) => JsonValue::Bool(*b),
            JsonValue::Number(t) => JsonValue::Number(t.clone()),
            JsonValue::String(s) => JsonValue::String(s.clone()),
            JsonValue::Array(items) => {
                let mut out: Vec<JsonValue> = Vec::new();
                let mut i: usize = 0;
                while i < items.len()
                    invariant
                        *self == JsonValue::Array(*items),
                        i <= items.len(),
                        out.len() == i,
                        forall|k: int| 0 <= k < i ==> (#[trigger] out@[k])@ == items@[k]@,
                    decreases items.len() - i,
                {
                    proof {
                        let ghost a = (*self)->Array_0;
                        assert(decreases_to!(*self => (*self)->Array_0));
                        assert(decreases_to!(a => a@));
                        assert(decreases_to!(a@ => a@[i as int]));
                    }
                    out.push(items[i].deep_clone());
                    i = i + 1;
                }
                proof {
                    lemma_models_of(items@);
                    lemma_models_of(out@);
                    assert(models_of(out@) =~= models_of(items@));
                }
                JsonValue::Array(out)
            },
            JsonValue::Object(entries) => {
                let mut out: Vec<(String, JsonValue)> = Vec::new();
                let mut i: usize = 0;
                while i < entries.len()
                    invariant
                        *self == JsonValue::Object(*entries),
                        i <= entries.len(),
                        out.len() == i,
                        forall|k: int| 0 <= k < i ==> (#[trigger] out@[k]).0@ == entries@[k].0@,
                        forall|k: int| 0 <= k < i ==> (#[trigger] out@[k]).1@ == entries@[k].1@,
                    decreases entries.len() - i,
                {
                    proof {
                        let ghost a = (*self)->Object_0;
                        assert(decreases_to!(*self => (*self)->Object_0));
                        assert(decreases_to!(a => a@));
                        assert(decreases_to!(a@ => a@[i as int]));
                        assert(decreases_to!(a@[i as int] => a@[i as int].1));
                    }
                    let v = entries[i].1.deep_clone();
                    out.push((entries[i].0.clone(), v));
                    i = i + 1;
                }
                proof {
                    lemma_entry_models_of(entries@);
                    lemma_entry_models_of(out@);
                    assert(entry_models_of(out@) =~= entry_models_of(entries@));
                }
                JsonValue::Object(out)
            },
        }
    }
}

} // verus!
