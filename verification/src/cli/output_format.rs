//! Output formats of the command-line tool: naming and parsing a format, choosing
//! one from a file name, and rendering a JSON value as pretty JSON, as YAML, or (an
//! array of objects) as CSV.

use vstd::prelude::*;
use crate::json::{
    JsonModel, JsonValue, compact_json, compact_json_text, entry_models_of, lemma_entry_models_of,
    lemma_models_of, lemma_number_text_chars, lookup, model_of, models_of, to_serde_value, wf_json,
};
use crate::text::{
    ascii_lower, doubled_quotes, ends_with_str, eq_str, is_ascii, joined, lemma_joined_step,
    lowercase, push_char, push_doubled_quotes, to_lowercase,
};

verus! {

/// Supported output formats for CLI commands.
#[derive(Debug, Clone, Copy, PartialEq, Eq, Structural)]
pub enum OutputFormat {
    /// Human-readable table format (the default).
    Table,
    /// Machine-readable JSON.
    Json,
    /// Machine-readable CSV.
    Csv,
    /// Machine-readable YAML.
    Yaml,
}

/// The name a format is shown by.
pub open spec fn format_name(f: OutputFormat) -> Seq<char> {
    match f {
        OutputFormat::Table => "table"@,
        OutputFormat::Json => "json"@,
        OutputFormat::Csv => "csv"@,
        OutputFormat::Yaml => "yaml"@,
    }
}

/// The format a lowercased name stands for.
pub open spec fn format_for_name(lowered: Seq<char>) -> Option<OutputFormat> {
    if lowered == "table"@ || lowered == "text"@ {
        Some(OutputFormat::Table)
    } else if lowered == "json"@ {
        Some(OutputFormat::Json)
    } else if lowered == "csv"@ {
        Some(OutputFormat::Csv)
    } else if lowered == "yaml"@ || lowered == "yml"@ {
        Some(OutputFormat::Yaml)
    } else {
        None
    }
}

/// The message for a name that is no format.
pub open spec fn invalid_format_message(name: Seq<char>) -> Seq<char> {
    "Invalid output format '"@ + name + "'. Supported formats: table, json, csv, yaml"@
}

/// Parsing a format name: its lowercase form must be one of the names.
pub open spec fn parse_format(name: Seq<char>) -> Result<OutputFormat, Seq<char>> {
    match format_for_name(lowercase(name)) {
        Some(f) => Ok(f),
        None => Err(invalid_format_message(name)),
    }
}

/// The format a lowercased file name's extension stands for.
pub open spec fn format_for_path(lowered: Seq<char>) -> Option<OutputFormat> {
    if ".json"@.is_suffix_of(lowered) {
        Some(OutputFormat::Json)
    } else if ".csv"@.is_suffix_of(lowered) {
        Some(OutputFormat::Csv)
    } else if ".yaml"@.is_suffix_of(lowered) || ".yml"@.is_suffix_of(lowered) {
        Some(OutputFormat::Yaml)
    } else if ".txt"@.is_suffix_of(lowered) || ".table"@.is_suffix_of(lowered) {
        Some(OutputFormat::Table)
    } else {
        None
    }
}

/// The result of a format parse, read as the spec's `Result`.
pub open spec fn parsed_as(r: Result<OutputFormat, String>, expected: Result<OutputFormat, Seq<char>>) -> bool {
    match r {
        Ok(f) => expected == Ok::<OutputFormat, Seq<char>>(f),
        Err(e) => expected == Err::<OutputFormat, Seq<char>>(e@),
    }
}

impl OutputFormat {
    /// The format's name: `table`, `json`, `csv` or `yaml`.
    pub fn as_str(&self) -> (r: &'static str)
        ensures
            r@ == format_name(*self),
    {
        match self {
            OutputFormat::Table => "table",
            OutputFormat::Json => "json",
            OutputFormat::Csv => "csv",
            OutputFormat::Yaml => "yaml",
        }
    }

    /// The format's name as an owned string (how the format is displayed).
    pub fn to_string(&self) -> (r: String)
        ensures
            r@ == format_name(*self),
    {
        String::from_str(self.as_str())
    }

    /// Parses a format name, ignoring case; `text` names the table format and `yml` YAML.
    pub fn parse_name(name: &str) -> (r: Result<OutputFormat, String>)
        ensures
            parsed_as(r, parse_format(name@)),
    {
        let lowered = to_lowercase(name);
        match format_from_lowercase(lowered.as_str()) {
            Some(f) => Ok(f),
            None => {
                let mut msg = String::from_str("Invalid output format '");
                msg.append(name);
                msg.append("'. Supported formats: table, json, csv, yaml");
                Err(msg)
            },
        }
    }
}

impl Default for OutputFormat {
    fn default() -> (r: Self)
        ensures
            r == OutputFormat::Table,
    {
        OutputFormat::Table
    }
}

impl std::str::FromStr for OutputFormat {
    type Err = String;

    fn from_str(s: &str) -> (r: Result<Self, Self::Err>)
        ensures
            parsed_as(r, parse_format(s@)),
    {
        OutputFormat::parse_name(s)
    }
}

/// The format an already lowercased name stands for.
pub fn format_from_lowercase(lowered: &str) -> (r: Option<OutputFormat>)
    ensures
        r == format_for_name(lowered@),
{
    if eq_str(lowered, "table") || eq_str(lowered, "text") {
        Some(OutputFormat::Table)
    } else if eq_str(lowered, "json") {
        Some(OutputFormat::Json)
    } else if eq_str(lowered, "csv") {
        Some(OutputFormat::Csv)
    } else if eq_str(lowered, "yaml") || eq_str(lowered, "yml") {
        Some(OutputFormat::Yaml)
    } else {
        None
    }
}

/// The format an already lowercased file name's extension stands for.
pub fn format_from_lowercase_path(lowered: &str) -> (r: Option<OutputFormat>)
    ensures
        r == format_for_path(lowered@),
{
    if ends_with_str(lowered, ".json") {
        Some(OutputFormat::Json)
    } else if ends_with_str(lowered, ".csv") {
        Some(OutputFormat::Csv)
    } else if ends_with_str(lowered, ".yaml") || ends_with_str(lowered, ".yml") {
        Some(OutputFormat::Yaml)
    } else if ends_with_str(lowered, ".txt") || ends_with_str(lowered, ".table") {
        Some(OutputFormat::Table)
    } else {
        None
    }
}

/// Infers the output format from a file name's extension, ignoring case.
pub fn infer_format_from_extension(path: &str) -> (r: Option<OutputFormat>)
    ensures
        r == format_for_path(lowercase(path@)),
{
    let lowered = to_lowercase(path);
    format_from_lowercase_path(lowered.as_str())
}

/// Checks that a format name is supported, giving the format.
pub fn validate_format(format: &str) -> (r: Result<OutputFormat, String>)
    ensures
        parsed_as(r, parse_format(format@)),
{
    OutputFormat::parse_name(format)
}

/// A format's displayed name is recognized as that format: parsing what a format
/// is displayed as gives the format back, once the name is lowercased.
pub proof fn law_format_name_round_trip(f: OutputFormat)
    ensures
        format_for_name(format_name(f)) == Some(f),
{
    reveal_strlit("table");
    reveal_strlit("text");
    reveal_strlit("json");
    reveal_strlit("csv");
    reveal_strlit("yaml");
    reveal_strlit("yml");
    assert("json"@[0] != "text"@[0]);
    assert("yaml"@[0] != "text"@[0] && "yaml"@[0] != "json"@[0]);
    assert("csv"@[0] != "yml"@[0]);
}

/// Format names are read in any ASCII case: a name whose ASCII lowercase form is
/// a format's displayed name parses as that format (`JSON`, `Csv`, `yaml`).
pub proof fn law_format_name_parses_in_any_ascii_case(f: OutputFormat, name: Seq<char>)
    requires
        is_ascii(name),
        ascii_lower(name) == format_name(f),
    ensures
        parse_format(name) == Ok::<OutputFormat, Seq<char>>(f),
{
    law_format_name_round_trip(f);
}

/// What a format is displayed as parses back to that format.
pub proof fn law_displayed_name_parses(f: OutputFormat)
    ensures
        parse_format(format_name(f)) == Ok::<OutputFormat, Seq<char>>(f),
{
    reveal_strlit("table");
    reveal_strlit("json");
    reveal_strlit("csv");
    reveal_strlit("yaml");
    let n = format_name(f);
    assert(is_ascii(n));
    assert(ascii_lower(n) =~= n);
    law_format_name_parses_in_any_ascii_case(f, n);
}

/// A file whose lowercased name ends in `.<name>` for a format's displayed name is
/// inferred to be in that format.
pub proof fn law_extension_of_format_name(f: OutputFormat, stem: Seq<char>)
    ensures
        format_for_path(stem + seq!['.'] + format_name(f)) == Some(f),
{
    reveal_strlit("table");
    reveal_strlit("json");
    reveal_strlit("csv");
    reveal_strlit("yaml");
    reveal_strlit(".json");
    reveal_strlit(".csv");
    reveal_strlit(".yaml");
    reveal_strlit(".yml");
    reveal_strlit(".txt");
    reveal_strlit(".table");
    let p = stem + seq!['.'] + format_name(f);
    let suffix = seq!['.'] + format_name(f);
    assert(p.subrange(p.len() - suffix.len(), p.len() as int) =~= suffix);
    assert(suffix.is_suffix_of(p));
    match f {
        OutputFormat::Json => {},
        OutputFormat::Csv => {
            assert(!".json"@.is_suffix_of(p)) by {
                if ".json"@.is_suffix_of(p) {
                    assert(p[p.len() - 2] == 's');
                    assert(".json"@[3] == 'o');
                    assert(p.subrange(p.len() - 5, p.len() as int)[3] == p[p.len() - 2]);
                }
            }
        },
        OutputFormat::Yaml => {
            assert(!".json"@.is_suffix_of(p)) by {
                if ".json"@.is_suffix_of(p) {
                    assert(p.subrange(p.len() - 5, p.len() as int)[4] == p[p.len() - 1]);
                }
            }
            assert(!".csv"@.is_suffix_of(p)) by {
                if ".csv"@.is_suffix_of(p) {
                    assert(p.subrange(p.len() - 4, p.len() as int)[3] == p[p.len() - 1]);
                }
            }
        },
        OutputFormat::Table => {
            assert(!".json"@.is_suffix_of(p)) by {
                if ".json"@.is_suffix_of(p) {
                    assert(p.subrange(p.len() - 5, p.len() as int)[4] == p[p.len() - 1]);
                }
            }
            assert(!".csv"@.is_suffix_of(p)) by {
                if ".csv"@.is_suffix_of(p) {
                    assert(p.subrange(p.len() - 4, p.len() as int)[3] == p[p.len() - 1]);
                }
            }
            assert(!".yaml"@.is_suffix_of(p)) by {
                if ".yaml"@.is_suffix_of(p) {
                    assert(p.subrange(p.len() - 5, p.len() as int)[4] == p[p.len() - 1]);
                }
            }
            assert(!".yml"@.is_suffix_of(p)) by {
                if ".yml"@.is_suffix_of(p) {
                    assert(p.subrange(p.len() - 4, p.len() as int)[3] == p[p.len() - 1]);
                }
            }
        },
    }
}

// ---------------------------------------------------------------------------
// JSON and YAML
// ---------------------------------------------------------------------------

/// The pretty-printed JSON text of a value, as `serde_json::to_string_pretty` writes it.
pub uninterp spec fn pretty_json_text(m: JsonModel) -> Seq<char>;

/// The YAML text of a value, as `serde_yaml::to_string` writes it.
pub uninterp spec fn yaml_text(m: JsonModel) -> Seq<char>;

/// Renders a value as pretty-printed JSON, by `serde_json::to_string_pretty`; the
/// text is named by `pretty_json_text`. Serializing a `serde_json::Value` does not
/// fail (its map keys are strings, and its `Serialize` reports no error of its
/// own), so the result is always `Ok`; the error arm keeps the message format.
#[verifier::external_body]
pub fn render_json(data: &JsonValue) -> (r: Result<String, String>)
    ensures
        r is Ok,
        r matches Ok(t) ==> t@ == pretty_json_text(data@),
{
    match serde_json::to_string_pretty(&to_serde_value(data)) {
        Ok(text) => Ok(text),
        Err(e) => Err(format!("Failed to serialize JSON: {}", e)),
    }
}

/// Renders a value as YAML, by `serde_yaml::to_string`; the text is named by
/// `yaml_text`. `serde_yaml` fails only on bytes, nested enums and output that is
/// not UTF-8, none of which a `serde_json::Value` produces, so the result is
/// always `Ok`; the error arm keeps the message format.
#[verifier::external_body]
pub fn render_yaml(data: &JsonValue) -> (r: Result<String, String>)
    ensures
        r is Ok,
        r matches Ok(t) ==> t@ == yaml_text(data@),
{
    match serde_yaml::to_string(&to_serde_value(data)) {
        Ok(text) => Ok(text),
        Err(e) => Err(format!("Failed to serialize YAML: {}", e)),
    }
}

// ---------------------------------------------------------------------------
// CSV
// ---------------------------------------------------------------------------

/// How an array item is written inside a CSV field: a string bare, any other
/// value as its compact JSON text.
pub open spec fn array_item_text(m: JsonModel) -> Seq<char> {
    match m {
        JsonModel::Str(s) => s,
        _ => compact_json_text(m),
    }
}

/// `s` as one quoted CSV field: wrapped in quotes, each quote inside doubled.
pub open spec fn quoted_field(s: Seq<char>) -> Seq<char> {
    seq!['"'] + doubled_quotes(s) + seq!['"']
}

/// The CSV field for one value: null is empty, a boolean or a number is its bare
/// text, a string is quoted, an array is its items joined by `|` and quoted, an
/// object is its compact JSON text quoted.
pub open spec fn csv_field(m: JsonModel) -> Seq<char> {
    match m {
        JsonModel::Null => Seq::empty(),
        JsonModel::Bool(b) => if b {
            "true"@
        } else {
            "false"@
        },
        JsonModel::Number(t) => t,
        JsonModel::Str(s) => quoted_field(s),
        JsonModel::Array(items) => quoted_field(
            joined(items.map_values(|x: JsonModel| array_item_text(x)), seq!['|']),
        ),
        JsonModel::Object(_) => quoted_field(compact_json_text(m)),
    }
}

/// The value under `key`, or null when there is none.
pub open spec fn lookup_or_null(entries: Seq<(Seq<char>, JsonModel)>, key: Seq<char>) -> JsonModel {
    match lookup(entries, key) {
        Some(m) => m,
        None => JsonModel::Null,
    }
}

/// One CSV row: the fields of an object's values under the headers, comma-separated.
pub open spec fn csv_row(entries: Seq<(Seq<char>, JsonModel)>, headers: Seq<Seq<char>>) -> Seq<char> {
    joined(headers.map_values(|h: Seq<char>| csv_field(lookup_or_null(entries, h))), seq![','])
}

/// The rows of all items, each ended by a newline.
pub open spec fn csv_rows(items: Seq<JsonModel>, headers: Seq<Seq<char>>) -> Seq<char>
    decreases items.len(),
{
    if items.len() == 0 {
        Seq::empty()
    } else {
        csv_rows(items.drop_last(), headers) + csv_row(items.last()->Object_0, headers) + seq!['\n']
    }
}

/// The keys of an object's entries, in order.
pub open spec fn keys_of(entries: Seq<(Seq<char>, JsonModel)>) -> Seq<Seq<char>> {
    entries.map_values(|e: (Seq<char>, JsonModel)| e.0)
}

/// The CSV text of a value: defined for an array of objects only. The headers are
/// the keys of the first object; an empty array gives the empty text.
pub open spec fn csv_text(m: JsonModel) -> Option<Seq<char>> {
    match m {
        JsonModel::Array(items) => if items.len() == 0 {
            Some(Seq::empty())
        } else if forall|i: int| 0 <= i < items.len() ==> (#[trigger] items[i]) is Object {
            let headers = keys_of(items[0]->Object_0);
            Some(joined(headers, seq![',']) + seq!['\n'] + csv_rows(items, headers))
        } else {
            None
        },
        _ => None,
    }
}

/// The message for data that is no array of objects.
pub open spec fn csv_shape_message() -> Seq<char> {
    "CSV format requires an array of objects"@
}

/// One well-formed CSV field: text with no comma, quote or newline, or some text
/// wrapped in quotes with each quote inside it doubled.
pub open spec fn is_csv_field(s: Seq<char>) -> bool {
    (!s.contains(',') && !s.contains('"') && !s.contains('\n')) || exists|q: Seq<char>| s == quoted_field(q)
}

/// The field written for a well-formed value is one well-formed CSV field, so a
/// value never spills into the next column or row.
pub proof fn law_csv_field_is_one_field(m: JsonModel)
    requires
        wf_json(m),
    ensures
        is_csv_field(csv_field(m)),
{
    match m {
        JsonModel::Null => {
            assert(!Seq::<char>::empty().contains(','));
            assert(!Seq::<char>::empty().contains('"'));
            assert(!Seq::<char>::empty().contains('\n'));
        },
        JsonModel::Bool(b) => {
            reveal_strlit("true");
            reveal_strlit("false");
            let f = csv_field(m);
            assert(forall|i: int| 0 <= i < f.len() ==> 'a' <= #[trigger] f[i] && f[i] <= 'z');
        },
        JsonModel::Number(t) => {
            lemma_number_text_chars(t);
        },
        JsonModel::Str(s) => {
            assert(csv_field(m) == quoted_field(s));
        },
        JsonModel::Array(items) => {
            let q = joined(items.map_values(|x: JsonModel| array_item_text(x)), seq!['|']);
            assert(csv_field(m) == quoted_field(q));
        },
        JsonModel::Object(_) => {
            assert(csv_field(m) == quoted_field(compact_json_text(m)));
        },
    }
}

/// Escapes a JSON value for one CSV field.
pub fn csv_escape_value(value: &JsonValue) -> (r: String)
    ensures
        r@ == csv_field(value@),
        wf_json(value@) ==> is_csv_field(r@),
{
    proof {
        if wf_json(value@) {
            law_csv_field_is_one_field(value@);
        }
    }
    match value {
        JsonValue::Null => String::new(),
        JsonValue::Bool(b) => if *b {
            String::from_str("true")
        } else {
            String::from_str("false")
        },
        JsonValue::Number(t) => t.clone(),
        JsonValue::String(s) => {
            let mut out = String::new();
            push_char(&mut out, '"');
            push_doubled_quotes(&mut out, s.as_str());
            push_char(&mut out, '"');
            assert(out@ =~= quoted_field(s@));
            out
        },
        JsonValue::Array(items) => {
            proof {
                lemma_models_of(items@);
            }
            let ghost ms = models_of(items@);
            let ghost texts = ms.map_values(|x: JsonModel| array_item_text(x));
            let mut inner = String::new();
            let mut i: usize = 0;
            while i < items.len()
                invariant
                    ms == models_of(items@),
                    ms.len() == items.len(),
                    forall|k: int| 0 <= k < items.len() ==> #[trigger] ms[k] == model_of(items@[k]),
                    texts == ms.map_values(|x: JsonModel| array_item_text(x)),
                    i <= items.len(),
                    inner@ == joined(texts.subrange(0, i as int), seq!['|']),
                decreases items.len() - i,
            {
                proof {
                    lemma_joined_step(texts, i as int, seq!['|']);
                }
                if i > 0 {
                    push_char(&mut inner, '|');
                }
                match &items[i] {
                    JsonValue::String(s) => inner.append(s.as_str()),
                    other => {
                        let text = compact_json(other);
                        inner.append(text.as_str());
                    },
                }
                i = i + 1;
                assert(inner@ =~= joined(texts.subrange(0, i as int), seq!['|']));
            }
            assert(texts.subrange(0, texts.len() as int) =~= texts);
            let mut out = String::new();
            push_char(&mut out, '"');
            push_doubled_quotes(&mut out, inner.as_str());
            push_char(&mut out, '"');
            assert(out@ =~= quoted_field(inner@));
            out
        },
        JsonValue::Object(_) => {
            let text = compact_json(value);
            let mut out = String::new();
            push_char(&mut out, '"');
            push_doubled_quotes(&mut out, text.as_str());
            push_char(&mut out, '"');
            assert(out@ =~= quoted_field(compact_json_text(value@)));
            out
        },
    }
}

/// Writes one row: the escaped values of `item` under each header, comma-separated.
fn write_csv_row(item: &JsonValue, headers: &Vec<String>, out: &mut String)
    requires
        item@ is Object,
    ensures
        final(out)@ == old(out)@ + csv_row(
            item@->Object_0,
            headers@.map_values(|h: String| h@),
        ),
{
    let ghost hs = headers@.map_values(|h: String| h@);
    let ghost es = item@->Object_0;
    let ghost fields = hs.map_values(|h: Seq<char>| csv_field(lookup_or_null(es, h)));
    let ghost start = out@;
    let mut j: usize = 0;
    while j < headers.len()
        invariant
            item@ is Object,
            es == item@->Object_0,
            hs == headers@.map_values(|h: String| h@),
            fields == hs.map_values(|h: Seq<char>| csv_field(lookup_or_null(es, h))),
            j <= headers.len(),
            out@ == start + joined(fields.subrange(0, j as int), seq![',']),
        decreases headers.len() - j,
    {
        proof {
            lemma_joined_step(fields, j as int, seq![',']);
        }
        if j > 0 {
            push_char(out, ',');
        }
        let ghost before = out@;
        match item.get(headers[j].as_str()) {
            Some(v) => {
                let field = csv_escape_value(v);
                out.append(field.as_str());
            },
            None => {},
        }
        assert(fields[j as int] == csv_field(lookup_or_null(es, headers@[j as int]@)));
        j = j + 1;
        assert(out@ =~= start + joined(fields.subrange(0, j as int), seq![',']));
    }
    assert(fields.subrange(0, fields.len() as int) =~= fields);
}

/// Renders a JSON array of objects as CSV: a header line of the first object's keys,
/// then one line per object with its values under those keys.
pub fn render_csv(data: &JsonValue) -> (r: Result<String, String>)
    ensures
        match csv_text(data@) {
            Some(t) => r is Ok && r->Ok_0@ == t,
            None => r is Err && r->Err_0@ == csv_shape_message(),
        },
{
    let items = match data.as_array() {
        Some(items) => items,
        None => {
            return Err(String::from_str("CSV format requires an array of objects"));
        },
    };
    proof {
        lemma_models_of(items@);
    }
    let ghost ms = models_of(items@);
    if items.len() == 0 {
        return Ok(String::new());
    }
    let first = match &items[0] {
        JsonValue::Object(entries) => entries,
        _ => {
            return Err(String::from_str("CSV format requires an array of objects"));
        },
    };
    proof {
        lemma_entry_models_of(first@);
    }
    let ghost em = entry_models_of(first@);
    let mut headers: Vec<String> = Vec::new();
    let mut k: usize = 0;
    while k < first.len()
        invariant
            k <= first.len(),
            em == entry_models_of(first@),
            em.len() == first.len(),
            forall|x: int|
                0 <= x < first.len() ==> #[trigger] em[x] == (first@[x].0@, model_of(first@[x].1)),
            headers.len() == k,
            forall|x: int| 0 <= x < k ==> (#[trigger] headers@[x])@ == em[x].0,
        decreases first.len() - k,
    {
        headers.push(first[k].0.clone());
        k = k + 1;
    }
    let ghost hs = headers@.map_values(|h: String| h@);
    assert(items@[0] == JsonValue::Object(*first));
    assert(ms[0] == model_of(items@[0]));
    assert(ms[0]->Object_0 == em);
    assert(hs =~= keys_of(ms[0]->Object_0));
    let mut out = String::new();
    let mut j: usize = 0;
    while j < headers.len()
        invariant
            hs == headers@.map_values(|h: String| h@),
            j <= headers.len(),
            out@ == joined(hs.subrange(0, j as int), seq![',']),
        decreases headers.len() - j,
    {
        proof {
            lemma_joined_step(hs, j as int, seq![',']);
        }
        if j > 0 {
            push_char(&mut out, ',');
        }
        out.append(headers[j].as_str());
        j = j + 1;
        assert(out@ =~= joined(hs.subrange(0, j as int), seq![',']));
    }
    assert(hs.subrange(0, hs.len() as int) =~= hs);
    push_char(&mut out, '\n');
    let ghost head = out@;
    let mut i: usize = 0;
    while i < items.len()
        invariant
            data@ == JsonModel::Array(ms),
            items.len() > 0,
            hs == keys_of(ms[0]->Object_0),
            head == joined(hs, seq![',']) + seq!['\n'],
            ms == models_of(items@),
            ms.len() == items.len(),
            forall|x: int| 0 <= x < items.len() ==> #[trigger] ms[x] == model_of(items@[x]),
            hs == headers@.map_values(|h: String| h@),
            i <= items.len(),
            forall|x: int| 0 <= x < i ==> (#[trigger] ms[x]) is Object,
            out@ == head + csv_rows(ms.subrange(0, i as int), hs),
        decreases items.len() - i,
    {
        if !matches!(&items[i], JsonValue::Object(_)) {
            assert(!(ms[i as int] is Object));
            assert(!(forall|x: int| 0 <= x < ms.len() ==> (#[trigger] ms[x]) is Object));
            return Err(String::from_str("CSV format requires an array of objects"));
        }
        write_csv_row(&items[i], &headers, &mut out);
        push_char(&mut out, '\n');
        i = i + 1;
        assert(ms.subrange(0, i as int).drop_last() =~= ms.subrange(0, i - 1));
        assert(out@ =~= head + csv_rows(ms.subrange(0, i as int), hs));
    }
    assert(ms.subrange(0, ms.len() as int) =~= ms);
    Ok(out)
}

} // verus!
