//! Redaction of sensitive entries in JSON values before they are logged: an
//! entry whose key is sensitive has its value replaced by `"[REDACTED]"`, and every
//! other value is searched in turn.

use vstd::prelude::*;
use crate::json::{
    JsonModel, JsonValue, entry_models_of, lemma_entry_models_of, lemma_models_of, model_of,
    models_of,
};
use crate::text::{ascii_lower, ascii_lower_char, contains_str, has_substring, lowercase_ascii};

verus! {

/// Which list of key fragments makes a key sensitive.
#[derive(Debug, Clone, Copy, PartialEq, Eq, Structural)]
pub enum SensitiveKeys {
    /// Passwords, secrets, tokens, API and private keys, authorization, cookies,
    /// JWTs, sessions, credit cards, SSNs and access keys.
    Standard,
    /// The standard list, and wallet mnemonics and seed phrases.
    WithWalletSecrets,
}

/// A key is sensitive under the standard list when its ASCII lowercase form
/// contains one of the fragments.
pub open spec fn standard_sensitive(key: Seq<char>) -> bool {
    let l = ascii_lower(key);
    has_substring(l, "password"@) || has_substring(l, "secret"@) || has_substring(l, "token"@)
        || has_substring(l, "api_key"@) || has_substring(l, "private_key"@) || has_substring(
        l,
        "authorization"@,
    ) || has_substring(l, "cookie"@) || has_substring(l, "jwt"@) || has_substring(l, "session"@)
        || has_substring(l, "credit_card"@) || has_substring(l, "ssn"@) || has_substring(
        l,
        "access_key"@,
    )
}

/// The standard list, and `mnemonic` and `seed_phrase`.
pub open spec fn wallet_sensitive(key: Seq<char>) -> bool {
    let l = ascii_lower(key);
    standard_sensitive(key) || has_substring(l, "mnemonic"@) || has_substring(l, "seed_phrase"@)
}

/// Is `key` sensitive under `keys`?
pub open spec fn sensitive_under(keys: SensitiveKeys, key: Seq<char>) -> bool {
    match keys {
        SensitiveKeys::Standard => standard_sensitive(key),
        SensitiveKeys::WithWalletSecrets => wallet_sensitive(key),
    }
}

/// The text that replaces a sensitive value.
pub open spec fn redacted_marker() -> Seq<char> {
    "[REDACTED]"@
}

/// A value with every sensitive entry's value replaced by the marker, at any depth.
pub open spec fn redacted(m: JsonModel, keys: SensitiveKeys) -> JsonModel
    decreases m,
{
    match m {
        JsonModel::Object(es) => JsonModel::Object(redacted_entries(es, keys)),
        JsonModel::Array(items) => JsonModel::Array(redacted_items(items, keys)),
        _ => m,
    }
}

pub open spec fn redacted_items(items: Seq<JsonModel>, keys: SensitiveKeys) -> Seq<JsonModel>
    decreases items,
{
    if items.len() == 0 {
        Seq::empty()
    } else {
        redacted_items(items.drop_last(), keys).push(redacted(items.last(), keys))
    }
}

pub open spec fn redacted_entries(es: Seq<(Seq<char>, JsonModel)>, keys: SensitiveKeys) -> Seq<
    (Seq<char>, JsonModel),
>
    decreases es,
{
    if es.len() == 0 {
        Seq::empty()
    } else {
        let e = es.last();
        redacted_entries(es.drop_last(), keys).push(
            if sensitive_under(keys, e.0) {
                (e.0, JsonModel::Str(redacted_marker()))
            } else {
                (e.0, redacted(e.1, keys))
            },
        )
    }
}

/// Redacting a sequence of values redacts each of them.
pub proof fn lemma_redacted_items(items: Seq<JsonModel>, keys: SensitiveKeys)
    ensures
        redacted_items(items, keys).len() == items.len(),
        forall|i: int|
            0 <= i < items.len() ==> #[trigger] redacted_items(items, keys)[i] == redacted(
                items[i],
                keys,
            ),
    decreases items.len(),
{
    if items.len() > 0 {
        lemma_redacted_items(items.drop_last(), keys);
    }
}

/// Redacting entries keeps each key and redacts each value or replaces it.
pub proof fn lemma_redacted_entries(es: Seq<(Seq<char>, JsonModel)>, keys: SensitiveKeys)
    ensures
        redacted_entries(es, keys).len() == es.len(),
        forall|i: int|
            0 <= i < es.len() ==> #[trigger] redacted_entries(es, keys)[i] == if sensitive_under(
                keys,
                es[i].0,
            ) {
                (es[i].0, JsonModel::Str(redacted_marker()))
            } else {
                (es[i].0, redacted(es[i].1, keys))
            },
    decreases es.len(),
{
    if es.len() > 0 {
        lemma_redacted_entries(es.drop_last(), keys);
    }
}

/// Lowercasing twice is lowercasing once.
pub proof fn lemma_ascii_lower_idempotent(s: Seq<char>)
    ensures
        ascii_lower(ascii_lower(s)) == ascii_lower(s),
{
    assert forall|i: int| 0 <= i < s.len() implies #[trigger] ascii_lower_char(ascii_lower_char(s[i]))
        == ascii_lower_char(s[i]) by {
        let c = s[i];
        if 'A' <= c && c <= 'Z' {
            let d = ((c as u32) + 32) as char;
            assert(d as u32 == (c as u32) + 32);
            assert(!('A' <= d && d <= 'Z'));
        }
    }
    assert(ascii_lower(ascii_lower(s)) =~= ascii_lower(s));
}

/// Whether a key is sensitive does not depend on the case of its ASCII letters:
/// a key and its ASCII lowercase form are sensitive alike.
pub proof fn law_sensitivity_ignores_ascii_case(keys: SensitiveKeys, key: Seq<char>)
    ensures
        sensitive_under(keys, ascii_lower(key)) == sensitive_under(keys, key),
{
    lemma_ascii_lower_idempotent(key);
}

/// Every key sensitive under the standard list is sensitive under the wallet list too.
pub proof fn law_wallet_list_extends_standard(key: Seq<char>)
    ensures
        sensitive_under(SensitiveKeys::Standard, key) ==> sensitive_under(
            SensitiveKeys::WithWalletSecrets,
            key,
        ),
{
}

/// A key whose ASCII lowercase form contains one of `password`, `secret`, `token`,
/// `api_key`, `private_key`, `authorization`, `cookie`, `jwt`, `session`,
/// `credit_card`, `ssn` or `access_key` is sensitive under both lists.
pub proof fn law_standard_fragment_makes_key_sensitive(key: Seq<char>, fragment: Seq<char>)
    requires
        fragment == "password"@ || fragment == "secret"@ || fragment == "token"@ || fragment
            == "api_key"@ || fragment == "private_key"@ || fragment == "authorization"@ || fragment
            == "cookie"@ || fragment == "jwt"@ || fragment == "session"@ || fragment == "credit_card"@
            || fragment == "ssn"@ || fragment == "access_key"@,
        has_substring(ascii_lower(key), fragment),
    ensures
        sensitive_under(SensitiveKeys::Standard, key),
        sensitive_under(SensitiveKeys::WithWalletSecrets, key),
{
}

/// A key whose ASCII lowercase form contains `mnemonic` or `seed_phrase` is
/// sensitive under the wallet list.
pub proof fn law_wallet_fragment_makes_key_sensitive(key: Seq<char>, fragment: Seq<char>)
    requires
        fragment == "mnemonic"@ || fragment == "seed_phrase"@,
        has_substring(ascii_lower(key), fragment),
    ensures
        sensitive_under(SensitiveKeys::WithWalletSecrets, key),
{
}

/// A key whose ASCII lowercase form contains none of the standard fragments is
/// not sensitive under the standard list, and, containing neither `mnemonic` nor
/// `seed_phrase` either, not under the wallet list.
pub proof fn law_unlisted_key_is_not_sensitive(key: Seq<char>)
    requires
        !has_substring(ascii_lower(key), "password"@),
        !has_substring(ascii_lower(key), "secret"@),
        !has_substring(ascii_lower(key), "token"@),
        !has_substring(ascii_lower(key), "api_key"@),
        !has_substring(ascii_lower(key), "private_key"@),
        !has_substring(ascii_lower(key), "authorization"@),
        !has_substring(ascii_lower(key), "cookie"@),
        !has_substring(ascii_lower(key), "jwt"@),
        !has_substring(ascii_lower(key), "session"@),
        !has_substring(ascii_lower(key), "credit_card"@),
        !has_substring(ascii_lower(key), "ssn"@),
        !has_substring(ascii_lower(key), "access_key"@),
    ensures
        !sensitive_under(SensitiveKeys::Standard, key),
        !has_substring(ascii_lower(key), "mnemonic"@) && !has_substring(ascii_lower(key), "seed_phrase"@)
            ==> !sensitive_under(SensitiveKeys::WithWalletSecrets, key),
{
}

/// Nothing sensitive shows: at every depth, an entry with a sensitive key holds the marker.
pub open spec fn fully_redacted(m: JsonModel, keys: SensitiveKeys) -> bool
    decreases m,
{
    match m {
        JsonModel::Object(es) => entries_fully_redacted(es, keys),
        JsonModel::Array(items) => items_fully_redacted(items, keys),
        _ => true,
    }
}

pub open spec fn items_fully_redacted(items: Seq<JsonModel>, keys: SensitiveKeys) -> bool
    decreases items,
{
    if items.len() == 0 {
        true
    } else {
        items_fully_redacted(items.drop_last(), keys) && fully_redacted(items.last(), keys)
    }
}

pub open spec fn entries_fully_redacted(es: Seq<(Seq<char>, JsonModel)>, keys: SensitiveKeys) -> bool
    decreases es,
{
    if es.len() == 0 {
        true
    } else {
        let e = es.last();
        entries_fully_redacted(es.drop_last(), keys) && if sensitive_under(keys, e.0) {
            e.1 == JsonModel::Str(redacted_marker())
        } else {
            fully_redacted(e.1, keys)
        }
    }
}

/// Redaction hides everything sensitive: in a redacted value, at every depth, each
/// entry with a sensitive key holds `"[REDACTED]"`.
pub proof fn law_redaction_hides_sensitive_values(m: JsonModel, keys: SensitiveKeys)
    ensures
        fully_redacted(redacted(m, keys), keys),
    decreases m,
{
    match m {
        JsonModel::Object(es) => lemma_entries_hidden(es, keys),
        JsonModel::Array(items) => lemma_items_hidden(items, keys),
        _ => {},
    }
}

proof fn lemma_items_hidden(items: Seq<JsonModel>, keys: SensitiveKeys)
    ensures
        items_fully_redacted(redacted_items(items, keys), keys),
    decreases items,
{
    if items.len() > 0 {
        lemma_items_hidden(items.drop_last(), keys);
        law_redaction_hides_sensitive_values(items.last(), keys);
        let r = redacted_items(items, keys);
        assert(r.drop_last() =~= redacted_items(items.drop_last(), keys));
    }
}

proof fn lemma_entries_hidden(es: Seq<(Seq<char>, JsonModel)>, keys: SensitiveKeys)
    ensures
        entries_fully_redacted(redacted_entries(es, keys), keys),
    decreases es,
{
    if es.len() > 0 {
        lemma_entries_hidden(es.drop_last(), keys);
        assert(decreases_to!(es => es.last()));
        law_redaction_hides_sensitive_values(es.last().1, keys);
        let r = redacted_entries(es, keys);
        assert(r.drop_last() =~= redacted_entries(es.drop_last(), keys));
    }
}

/// Redacting twice gives what redacting once gives.
pub proof fn law_redaction_idempotent(m: JsonModel, keys: SensitiveKeys)
    ensures
        redacted(redacted(m, keys), keys) == redacted(m, keys),
    decreases m,
{
    match m {
        JsonModel::Object(es) => lemma_entries_idempotent(es, keys),
        JsonModel::Array(items) => lemma_items_idempotent(items, keys),
        _ => {},
    }
}

proof fn lemma_items_idempotent(items: Seq<JsonModel>, keys: SensitiveKeys)
    ensures
        redacted_items(redacted_items(items, keys), keys) == redacted_items(items, keys),
    decreases items,
{
    if items.len() > 0 {
        lemma_items_idempotent(items.drop_last(), keys);
        law_redaction_idempotent(items.last(), keys);
        let r = redacted_items(items, keys);
        assert(r.drop_last() =~= redacted_items(items.drop_last(), keys));
        assert(redacted_items(r, keys) =~= r);
    }
}

proof fn lemma_entries_idempotent(es: Seq<(Seq<char>, JsonModel)>, keys: SensitiveKeys)
    ensures
        redacted_entries(redacted_entries(es, keys), keys) == redacted_entries(es, keys),
    decreases es,
{
    if es.len() > 0 {
        lemma_entries_idempotent(es.drop_last(), keys);
        assert(decreases_to!(es => es.last()));
        law_redaction_idempotent(es.last().1, keys);
        let r = redacted_entries(es, keys);
        assert(r.drop_last() =~= redacted_entries(es.drop_last(), keys));
        assert(redacted_entries(r, keys) =~= r);
    }
}

/// Redaction keeps the shape: an object keeps its keys in order and an array its
/// length; values that are neither objects nor arrays are kept.
pub proof fn law_redaction_keeps_shape(m: JsonModel, keys: SensitiveKeys)
    ensures
        match m {
            JsonModel::Object(es) => redacted(m, keys) is Object && redacted(m, keys)->Object_0.len()
                == es.len() && forall|i: int|
                0 <= i < es.len() ==> (#[trigger] redacted(m, keys)->Object_0[i]).0 == es[i].0,
            JsonModel::Array(items) => redacted(m, keys) is Array && redacted(m, keys)->Array_0.len()
                == items.len(),
            _ => redacted(m, keys) == m,
        },
{
    match m {
        JsonModel::Object(es) => lemma_redacted_entries(es, keys),
        JsonModel::Array(items) => lemma_redacted_items(items, keys),
        _ => {},
    }
}

/// Is `key` sensitive under `keys`?
pub fn key_is_sensitive(keys: SensitiveKeys, key: &str) -> (r: bool)
    ensures
        r == sensitive_under(keys, key@),
{
    let l = lowercase_ascii(key);
    let l = l.as_str();
    let standard = contains_str(l, "password") || contains_str(l, "secret") || contains_str(
        l,
        "token",
    ) || contains_str(l, "api_key") || contains_str(l, "private_key") || contains_str(
        l,
        "authorization",
    ) || contains_str(l, "cookie") || contains_str(l, "jwt") || contains_str(l, "session")
        || contains_str(l, "credit_card") || contains_str(l, "ssn") || contains_str(l, "access_key");
    match keys {
        SensitiveKeys::Standard => standard,
        SensitiveKeys::WithWalletSecrets => standard || contains_str(l, "mnemonic") || contains_str(
            l,
            "seed_phrase",
        ),
    }
}

/// A redacted copy of `value`; `value` itself is left as it is.
pub fn sanitized_copy(value: &JsonValue, keys: SensitiveKeys) -> (r: JsonValue)
    ensures
        r@ == redacted(value@, keys),
    decreases value,
{
    match value {
        JsonValue::Object(entries) => {
            let mut out: Vec<(String, JsonValue)> = Vec::new();
            let mut i: usize = 0;
            while i < entries.len()
                invariant
                    *value == JsonValue::Object(*entries),
                    i <= entries.len(),
                    out.len() == i,
                    forall|k: int| 0 <= k < i ==> (#[trigger] out@[k]).0@ == entries@[k].0@,
                    forall|k: int|
                        0 <= k < i ==> (#[trigger] out@[k]).1@ == if sensitive_under(
                            keys,
                            entries@[k].0@,
                        ) {
                            JsonModel::Str(redacted_marker())
                        } else {
                            redacted(entries@[k].1@, keys)
                        },
                decreases entries.len() - i,
            {
                proof {
                    let ghost a = (*value)->Object_0;
                    assert(decreases_to!(*value => (*value)->Object_0));
                    assert(decreases_to!(a => a@));
                    assert(decreases_to!(a@ => a@[i as int]));
                    assert(decreases_to!(a@[i as int] => a@[i as int].1));
                }
                let key = entries[i].0.clone();
                if key_is_sensitive(keys, key.as_str()) {
                    out.push((key, JsonValue::String(String::from_str("[REDACTED]"))));
                } else {
                    let v = sanitized_copy(&entries[i].1, keys);
                    out.push((key, v));
                }
                i = i + 1;
            }
            proof {
                lemma_entry_models_of(entries@);
                lemma_entry_models_of(out@);
                lemma_redacted_entries(entry_models_of(entries@), keys);
                assert(entry_models_of(out@) =~= redacted_entries(entry_models_of(entries@), keys));
            }
            JsonValue::Object(out)
        },
        JsonValue::Array(items) => {
            let mut out: Vec<JsonValue> = Vec::new();
            let mut i: usize = 0;
            while i < items.len()
                invariant
                    *value == JsonValue::Array(*items),
                    i <= items.len(),
                    out.len() == i,
                    forall|k: int| 0 <= k < i ==> (#[trigger] out@[k])@ == redacted(items@[k]@, keys),
                decreases items.len() - i,
            {
                proof {
                    let ghost a = (*value)->Array_0;
                    assert(decreases_to!(*value => (*value)->Array_0));
                    assert(decreases_to!(a => a@));
                    assert(decreases_to!(a@ => a@[i as int]));
                }
                out.push(sanitized_copy(&items[i], keys));
                i = i + 1;
            }
            proof {
                lemma_models_of(items@);
                lemma_models_of(out@);
                lemma_redacted_items(models_of(items@), keys);
                assert(models_of(out@) =~= redacted_items(models_of(items@), keys));
            }
            JsonValue::Array(out)
        },
        other => other.deep_clone(),
    }
}

/// Redacts `value` in place: afterwards it is what `sanitized_copy` would give for it.
pub fn redact_in_place(value: &mut JsonValue, keys: SensitiveKeys)
    ensures
        final(value)@ == redacted(old(value)@, keys),
    decreases *old(value),
{
    match value {
        JsonValue::Object(entries) => {
            let ghost orig = entries@;
            let mut i: usize = 0;
            while i < entries.len()
                invariant
                    *old(value) is Object,
                    (*old(value))->Object_0@ == orig,
                    i <= entries.len(),
                    entries.len() == orig.len(),
                    forall|k: int| 0 <= k < entries.len() ==> (#[trigger] entries@[k]).0 == orig[k].0,
                    forall|k: int| i <= k < entries.len() ==> (#[trigger] entries@[k]).1 == orig[k].1,
                    forall|k: int|
                        0 <= k < i ==> (#[trigger] entries@[k]).1@ == if sensitive_under(
                            keys,
                            orig[k].0@,
                        ) {
                            JsonModel::Str(redacted_marker())
                        } else {
                            redacted(orig[k].1@, keys)
                        },
                decreases entries.len() - i,
            {
                if key_is_sensitive(keys, entries[i].0.as_str()) {
                    entries[i].1 = JsonValue::String(String::from_str("[REDACTED]"));
                } else {
                    proof {
                        let ghost a = (*old(value))->Object_0;
                        assert(decreases_to!(*old(value) => (*old(value))->Object_0));
                        assert(decreases_to!(a => a@));
                        assert(decreases_to!(a@ => a@[i as int]));
                        assert(decreases_to!(a@[i as int] => a@[i as int].1));
                    }
                    redact_in_place(&mut entries[i].1, keys);
                }
                i = i + 1;
            }
            proof {
                lemma_entry_models_of(orig);
                lemma_entry_models_of(entries@);
                lemma_redacted_entries(entry_models_of(orig), keys);
                assert(entry_models_of(entries@) =~= redacted_entries(entry_models_of(orig), keys));
            }
        },
        JsonValue::Array(items) => {
            let ghost orig = items@;
            let mut i: usize = 0;
            while i < items.len()
                invariant
                    *old(value) is Array,
                    (*old(value))->Array_0@ == orig,
                    i <= items.len(),
                    items.len() == orig.len(),
                    forall|k: int| i <= k < items.len() ==> #[trigger] items@[k] == orig[k],
                    forall|k: int| 0 <= k < i ==> (#[trigger] items@[k])@ == redacted(orig[k]@, keys),
                decreases items.len() - i,
            {
                proof {
                    let ghost a = (*old(value))->Array_0;
                    assert(decreases_to!(*old(value) => (*old(value))->Array_0));
                    assert(decreases_to!(a => a@));
                    assert(decreases_to!(a@ => a@[i as int]));
                }
                redact_in_place(&mut items[i], keys);
                i = i + 1;
            }
            proof {
                lemma_models_of(orig);
                lemma_models_of(items@);
                lemma_redacted_items(models_of(orig), keys);
                assert(models_of(items@) =~= redacted_items(models_of(orig), keys));
            }
        },
        _ => {},
    }
}

} // verus!
