//! Dependency analysis of a contract: the request it makes, how a response is
//! judged, and what is shown of the dependency graph (counts, lists, the tree,
//! the flat rows written as CSV, and the report printed in a machine-readable
//! format).

use vstd::prelude::*;
use crate::json::{
    JsonModel, JsonValue, compact_json, compact_json_text, entry_models_of, lemma_entry_models_of,
    lemma_lookup_decreases, lemma_models_of, lookup, model_get, model_of, model_str_at, models_of,
};
use crate::text::{decimal, joined, push_char, push_decimal, trim_end, trim_end_char};
use crate::cli::output_format::{
    OutputFormat, csv_shape_message, csv_text, keys_of, pretty_json_text, render_csv, render_json,
    render_yaml, yaml_text,
};

verus! {

// ---------------------------------------------------------------------------
// The dependency tree
// ---------------------------------------------------------------------------

/// The number of nodes of a dependency tree: the node itself and, when it is an
/// object whose `children` entry is an array, the nodes under each child.
pub open spec fn tree_nodes(m: JsonModel) -> nat
    decreases m,
{
    match m {
        JsonModel::Object(es) => match lookup(es, "children"@) {
            Some(JsonModel::Array(cs)) => {
                proof {
                    lemma_lookup_decreases(es, "children"@);
                }
                1 + forest_nodes(cs)
            },
            _ => 1,
        },
        _ => 1,
    }
}

/// The number of nodes of a sequence of trees.
pub open spec fn forest_nodes(cs: Seq<JsonModel>) -> nat
    decreases cs,
{
    if cs.len() == 0 {
        0
    } else {
        forest_nodes(cs.drop_last()) + tree_nodes(cs.last())
    }
}

/// The children of a tree node: the `children` array, or none.
pub open spec fn children_of(m: JsonModel) -> Seq<JsonModel> {
    match model_get(m, "children"@) {
        Some(JsonModel::Array(cs)) => cs,
        _ => Seq::empty(),
    }
}

/// A node has one more node than its children have together.
pub proof fn lemma_tree_nodes_unfold(m: JsonModel)
    ensures
        tree_nodes(m) == 1 + forest_nodes(children_of(m)),
{
}

/// A prefix of a forest has no more nodes than the forest.
pub proof fn lemma_forest_prefix(cs: Seq<JsonModel>, i: int)
    requires
        0 <= i <= cs.len(),
    ensures
        forest_nodes(cs.subrange(0, i)) <= forest_nodes(cs),
        i < cs.len() ==> forest_nodes(cs.subrange(0, i + 1)) == forest_nodes(cs.subrange(0, i))
            + tree_nodes(cs[i]),
    decreases cs.len(),
{
    if i < cs.len() {
        assert(cs.subrange(0, i + 1).drop_last() =~= cs.subrange(0, i));
        lemma_forest_prefix(cs.drop_last(), i);
        assert(cs.drop_last().subrange(0, i) =~= cs.subrange(0, i));
        if i + 1 < cs.len() {
            lemma_forest_prefix(cs.drop_last(), i + 1);
            assert(cs.drop_last().subrange(0, i + 1) =~= cs.subrange(0, i + 1));
        } else {
            assert(cs.subrange(0, i + 1) =~= cs);
        }
    } else {
        assert(cs.subrange(0, i) =~= cs);
    }
}

fn count_nodes(node: &JsonValue) -> (r: usize)
    requires
        tree_nodes(node@) <= usize::MAX,
    ensures
        r == tree_nodes(node@),
    decreases node,
{
    proof {
        lemma_tree_nodes_unfold(node@);
    }
    let mut count: usize = 1;
    match node.get("children") {
        Some(ch) => match ch.as_array() {
            Some(children) => {
                proof {
                    lemma_models_of(children@);
                }
                let ghost cs = models_of(children@);
                assert(children_of(node@) == cs);
                let mut i: usize = 0;
                while i < children.len()
                    invariant
                        cs == models_of(children@),
                        cs.len() == children.len(),
                        forall|k: int| 0 <= k < children.len() ==> #[trigger] cs[k] == model_of(children@[k]),
                        forall|k: int|
                            0 <= k < children.len() ==> decreases_to!(*node => #[trigger] children@[k]),
                        tree_nodes(node@) == 1 + forest_nodes(cs),
                        tree_nodes(node@) <= usize::MAX,
                        i <= children.len(),
                        count == 1 + forest_nodes(cs.subrange(0, i as int)),
                    decreases children.len() - i,
                {
                    proof {
                        lemma_forest_prefix(cs, i as int);
                        lemma_forest_prefix(cs, i as int + 1);
                        assert(cs[i as int] == children@[i as int]@);
                    }
                    let c = count_nodes(&children[i]);
                    count = count + c;
                    i = i + 1;
                }
                proof {
                    assert(cs.subrange(0, cs.len() as int) =~= cs);
                }
            },
            None => {},
        },
        None => {},
    }
    count
}

/// Counts all nodes in a dependency tree; no tree counts none.
pub fn count_tree_nodes(node: Option<&JsonValue>) -> (r: usize)
    requires
        node matches Some(n) ==> tree_nodes(n@) <= usize::MAX,
    ensures
        r == match node {
            Some(n) => tree_nodes(n@),
            None => 0,
        },
{
    match node {
        Some(n) => count_nodes(n),
        None => 0,
    }
}

/// `n` copies of two spaces (what `"  ".repeat(n)` gives).
pub open spec fn padding(n: nat) -> Seq<char> {
    Seq::new(2 * n, |i: int| ' ')
}

/// The address shown for a tree node: its `address` string, or `?`.
pub open spec fn node_address(m: JsonModel) -> Seq<char> {
    match model_str_at(m, "address"@) {
        Some(a) => a,
        None => "?"@,
    }
}

/// The lines of a dependency tree as it is printed: the node's address indented by
/// `indent + 2` steps of two spaces, then each child's lines one step deeper.
pub open spec fn tree_lines(m: JsonModel, indent: nat) -> Seq<Seq<char>>
    decreases m,
{
    let line = padding(indent + 2) + node_address(m);
    match m {
        JsonModel::Object(es) => match lookup(es, "children"@) {
            Some(JsonModel::Array(cs)) => {
                proof {
                    lemma_lookup_decreases(es, "children"@);
                }
                seq![line] + forest_lines(cs, indent + 1)
            },
            _ => seq![line],
        },
        _ => seq![line],
    }
}

/// The lines of a sequence of trees, one tree after another.
pub open spec fn forest_lines(cs: Seq<JsonModel>, indent: nat) -> Seq<Seq<char>>
    decreases cs,
{
    if cs.len() == 0 {
        Seq::empty()
    } else {
        forest_lines(cs.drop_last(), indent) + tree_lines(cs.last(), indent)
    }
}

/// The views of a sequence of strings.
pub open spec fn string_views(v: Seq<String>) -> Seq<Seq<char>> {
    v.map_values(|s: String| s@)
}

/// Appends `2 * n` spaces.
fn push_padding(out: &mut String, n: usize)
    ensures
        final(out)@ == old(out)@ + padding(n as nat),
{
    let mut k: usize = 0;
    while k < n
        invariant
            k <= n,
            out@ == old(out)@ + padding(k as nat),
        decreases n - k,
    {
        push_char(out, ' ');
        push_char(out, ' ');
        k = k + 1;
        assert(out@ =~= old(out)@ + padding(k as nat));
    }
}

fn push_tree_lines(node: &JsonValue, indent: usize, lines: &mut Vec<String>)
    requires
        indent + tree_nodes(node@) + 2 <= usize::MAX,
    ensures
        string_views(final(lines)@) == string_views(old(lines)@) + tree_lines(node@, indent as nat),
    decreases node,
{
    proof {
        lemma_tree_nodes_unfold(node@);
    }
    let mut line = String::new();
    push_padding(&mut line, indent + 2);
    match node.str_at("address") {
        Some(a) => line.append(a.as_str()),
        None => line.append("?"),
    }
    assert(line@ == padding((indent + 2) as nat) + node_address(node@));
    let ghost start = string_views(lines@);
    lines.push(line);
    assert(string_views(lines@) =~= start + seq![line@]);
    match node.get("children") {
        Some(ch) => match ch.as_array() {
            Some(children) => {
                proof {
                    lemma_models_of(children@);
                }
                let ghost cs = models_of(children@);
                assert(children_of(node@) == cs);
                assert(tree_lines(node@, indent as nat) == seq![line@] + forest_lines(cs, (indent + 1) as nat));
                let mut i: usize = 0;
                while i < children.len()
                    invariant
                        cs == models_of(children@),
                        cs.len() == children.len(),
                        forall|k: int| 0 <= k < children.len() ==> #[trigger] cs[k] == model_of(children@[k]),
                        forall|k: int|
                            0 <= k < children.len() ==> decreases_to!(*node => #[trigger] children@[k]),
                        tree_nodes(node@) == 1 + forest_nodes(cs),
                        indent + tree_nodes(node@) + 2 <= usize::MAX,
                        i <= children.len(),
                        string_views(lines@) == start + seq![line@] + forest_lines(
                            cs.subrange(0, i as int),
                            (indent + 1) as nat,
                        ),
                    decreases children.len() - i,
                {
                    proof {
                        lemma_forest_prefix(cs, i as int);
                        lemma_forest_prefix(cs, i as int + 1);
                        assert(cs[i as int] == children@[i as int]@);
                        assert(cs.subrange(0, i + 1).drop_last() =~= cs.subrange(0, i as int));
                    }
                    push_tree_lines(&children[i], indent + 1, lines);
                    i = i + 1;
                    assert(string_views(lines@) =~= start + seq![line@] + forest_lines(
                        cs.subrange(0, i as int),
                        (indent + 1) as nat,
                    ));
                }
                proof {
                    assert(cs.subrange(0, cs.len() as int) =~= cs);
                }
            },
            None => {},
        },
        None => {},
    }
}

/// The lines that show a dependency tree: each node's address (or `?`), indented by
/// two spaces per level, starting `indent + 2` levels in.
pub fn tree_lines_of(node: &JsonValue, indent: usize) -> (r: Vec<String>)
    requires
        indent + tree_nodes(node@) + 2 <= usize::MAX,
    ensures
        string_views(r@) == tree_lines(node@, indent as nat),
{
    let mut lines: Vec<String> = Vec::new();
    push_tree_lines(node, indent, &mut lines);
    assert(string_views(lines@) =~= tree_lines(node@, indent as nat));
    lines
}

// ---------------------------------------------------------------------------
// Related contracts and the flat CSV rows
// ---------------------------------------------------------------------------

/// The value under `key`, or null when there is none.
pub open spec fn field_or_null(m: JsonModel, key: Seq<char>) -> JsonModel {
    match model_get(m, key) {
        Some(v) => v,
        None => JsonModel::Null,
    }
}

/// The string under `key`, or `fallback` when there is no string there.
pub open spec fn str_or(m: JsonModel, key: Seq<char>, fallback: Seq<char>) -> Seq<char> {
    match model_str_at(m, key) {
        Some(s) => s,
        None => fallback,
    }
}

/// The items of the array under `key`, or none when there is no array there.
pub open spec fn array_at(m: JsonModel, key: Seq<char>) -> Seq<JsonModel> {
    match model_get(m, key) {
        Some(JsonModel::Array(items)) => items,
        _ => Seq::empty(),
    }
}

/// One flat CSV row for a related contract: its address and name (null when
/// missing) and the relation, keyed in the map's ascending key order.
pub open spec fn flat_row(d: JsonModel, relation: Seq<char>) -> JsonModel {
    JsonModel::Object(
        seq![
            ("address"@, field_or_null(d, "address"@)),
            ("name"@, field_or_null(d, "name"@)),
            ("relation"@, JsonModel::Str(relation)),
        ],
    )
}

/// The flat rows of the contracts listed under `key`.
pub open spec fn flat_rows(m: JsonModel, key: Seq<char>, relation: Seq<char>) -> Seq<JsonModel> {
    array_at(m, key).map_values(|d: JsonModel| flat_row(d, relation))
}

/// The dependency response flattened for CSV: the `dependsOn` contracts, then the
/// `dependents`, each as a row naming its relation.
pub open spec fn flattened(m: JsonModel) -> JsonModel {
    JsonModel::Array(
        flat_rows(m, "dependsOn"@, "depends_on"@) + flat_rows(m, "dependents"@, "depended_by"@),
    )
}

/// A related contract as it is listed: its address (or `?`) and its name (or nothing).
pub open spec fn related_entry(d: JsonModel) -> (Seq<char>, Seq<char>) {
    (str_or(d, "address"@, "?"@), str_or(d, "name"@, Seq::empty()))
}

/// The contracts listed under `key`, as they are shown.
pub open spec fn related(m: JsonModel, key: Seq<char>) -> Seq<(Seq<char>, Seq<char>)> {
    array_at(m, key).map_values(|d: JsonModel| related_entry(d))
}

/// The views of a sequence of string pairs.
pub open spec fn pair_views(v: Seq<(String, String)>) -> Seq<(Seq<char>, Seq<char>)> {
    v.map_values(|p: (String, String)| (p.0@, p.1@))
}

/// The model of a sequence grows by the model of the value pushed.
pub proof fn lemma_models_of_push(items: Seq<JsonValue>, v: JsonValue)
    ensures
        models_of(items.push(v)) == models_of(items).push(v@),
{
    assert(items.push(v).drop_last() =~= items);
}

/// Copies the value under `key`, or gives null.
fn field_or_null_exec(d: &JsonValue, key: &str) -> (r: JsonValue)
    ensures
        r@ == field_or_null(d@, key@),
{
    match d.get(key) {
        Some(v) => v.deep_clone(),
        None => JsonValue::Null,
    }
}

fn flat_row_exec(d: &JsonValue, relation: &str) -> (r: JsonValue)
    ensures
        r@ == flat_row(d@, relation@),
{
    let address = field_or_null_exec(d, "address");
    let name = field_or_null_exec(d, "name");
    let entries = vec![
        (String::from_str("address"), address),
        (String::from_str("name"), name),
        (String::from_str("relation"), JsonValue::String(String::from_str(relation))),
    ];
    proof {
        lemma_entry_models_of(entries@);
        assert(entry_models_of(entries@) =~= flat_row(d@, relation@)->Object_0);
    }
    JsonValue::Object(entries)
}

fn push_flat_rows(value: &JsonValue, key: &str, relation: &str, rows: &mut Vec<JsonValue>)
    ensures
        models_of(final(rows)@) == models_of(old(rows)@) + flat_rows(value@, key@, relation@),
{
    match value.get(key) {
        Some(list) => match list.as_array() {
            Some(items) => {
                proof {
                    lemma_models_of(items@);
                }
                let ghost ds = models_of(items@);
                assert(array_at(value@, key@) == ds);
                let ghost start = models_of(rows@);
                let mut i: usize = 0;
                while i < items.len()
                    invariant
                        ds == models_of(items@),
                        ds.len() == items.len(),
                        forall|k: int| 0 <= k < items.len() ==> #[trigger] ds[k] == model_of(items@[k]),
                        i <= items.len(),
                        models_of(rows@) == start + ds.subrange(0, i as int).map_values(
                            |d: JsonModel| flat_row(d, relation@),
                        ),
                    decreases items.len() - i,
                {
                    let row = flat_row_exec(&items[i], relation);
                    proof {
                        lemma_models_of_push(rows@, row);
                    }
                    rows.push(row);
                    i = i + 1;
                    assert(models_of(rows@) =~= start + ds.subrange(0, i as int).map_values(
                        |d: JsonModel| flat_row(d, relation@),
                    ));
                }
                assert(ds.subrange(0, ds.len() as int) =~= ds);
            },
            None => {
                assert(models_of(rows@) =~= models_of(rows@) + flat_rows(value@, key@, relation@));
            },
        },
        None => {
            assert(models_of(rows@) =~= models_of(rows@) + flat_rows(value@, key@, relation@));
        },
    }
}

/// Flattens the dependency response into an array of uniform objects for CSV.
pub fn flatten_for_csv(value: &JsonValue) -> (r: JsonValue)
    ensures
        r@ == flattened(value@),
{
    let mut rows: Vec<JsonValue> = Vec::new();
    assert(models_of(rows@) =~= Seq::<JsonModel>::empty());
    push_flat_rows(value, "dependsOn", "depends_on", &mut rows);
    push_flat_rows(value, "dependents", "depended_by", &mut rows);
    assert(models_of(rows@) =~= flattened(value@)->Array_0);
    JsonValue::Array(rows)
}

/// The string under `key`, or a copy of `fallback`.
fn str_or_exec(d: &JsonValue, key: &str, fallback: &str) -> (r: String)
    ensures
        r@ == str_or(d@, key@, fallback@),
{
    match d.str_at(key) {
        Some(s) => s.clone(),
        None => String::from_str(fallback),
    }
}

/// The contracts listed under `key` (`dependsOn` or `dependents`), each as its
/// address (`?` when it has none) and its name (empty when it has none).
pub fn related_contracts(value: &JsonValue, key: &str) -> (r: Vec<(String, String)>)
    ensures
        pair_views(r@) == related(value@, key@),
{
    let mut out: Vec<(String, String)> = Vec::new();
    match value.get(key) {
        Some(list) => match list.as_array() {
            Some(items) => {
                proof {
                    lemma_models_of(items@);
                }
                let ghost ds = models_of(items@);
                assert(array_at(value@, key@) == ds);
                let mut i: usize = 0;
                while i < items.len()
                    invariant
                        ds == models_of(items@),
                        ds.len() == items.len(),
                        forall|k: int| 0 <= k < items.len() ==> #[trigger] ds[k] == model_of(items@[k]),
                        i <= items.len(),
                        pair_views(out@) == ds.subrange(0, i as int).map_values(
                            |d: JsonModel| related_entry(d),
                        ),
                    decreases items.len() - i,
                {
                    let address = str_or_exec(&items[i], "address", "?");
                    let name = str_or_exec(&items[i], "name", "");
                    proof {
                        reveal_strlit("");
                    }
                    assert(ds[i as int] == items@[i as int]@);
                    assert((address@, name@) == related_entry(ds[i as int]));
                    let ghost before = pair_views(out@);
                    let ghost e = related_entry(ds[i as int]);
                    out.push((address, name));
                    assert(pair_views(out@) =~= before.push(e));
                    assert(ds.subrange(0, i + 1).map_values(|d: JsonModel| related_entry(d)) =~= ds.subrange(
                        0,
                        i as int,
                    ).map_values(|d: JsonModel| related_entry(d)).push(e));
                    i = i + 1;
                    assert(pair_views(out@) =~= ds.subrange(0, i as int).map_values(
                        |d: JsonModel| related_entry(d),
                    ));
                }
                assert(ds.subrange(0, ds.len() as int) =~= ds);
            },
            None => {},
        },
        None => {},
    }
    assert(pair_views(out@) =~= related(value@, key@));
    out
}

// ---------------------------------------------------------------------------
// Laws
// ---------------------------------------------------------------------------

/// The printed tree has one line per node that `count_tree_nodes` counts.
pub proof fn law_one_line_per_tree_node(m: JsonModel, indent: nat)
    ensures
        tree_lines(m, indent).len() == tree_nodes(m),
    decreases m,
{
    match m {
        JsonModel::Object(es) => match lookup(es, "children"@) {
            Some(JsonModel::Array(cs)) => {
                lemma_lookup_decreases(es, "children"@);
                lemma_forest_lines_count(cs, (indent + 1) as nat);
            },
            _ => {},
        },
        _ => {},
    }
}

proof fn lemma_forest_lines_count(cs: Seq<JsonModel>, indent: nat)
    ensures
        forest_lines(cs, indent).len() == forest_nodes(cs),
    decreases cs,
{
    if cs.len() > 0 {
        lemma_forest_lines_count(cs.drop_last(), indent);
        law_one_line_per_tree_node(cs.last(), indent);
    }
}

/// The CSV rows and the listing show the same contracts: one flat row for each
/// contract listed under `dependsOn` and under `dependents`.
pub proof fn law_flat_rows_match_listing(m: JsonModel)
    ensures
        flattened(m)->Array_0.len() == related(m, "dependsOn"@).len() + related(
            m,
            "dependents"@,
        ).len(),
{
}

/// The flattened response always renders as CSV; when it has rows, the header
/// line is `address,name,relation`.
pub proof fn law_flattened_renders_as_csv(m: JsonModel)
    ensures
        csv_text(flattened(m)) is Some,
        flattened(m)->Array_0.len() > 0 ==> (joined(
            seq!["address"@, "name"@, "relation"@],
            seq![','],
        ) + seq!['\n']).is_prefix_of(csv_text(flattened(m))->Some_0),
{
    let rows = flattened(m)->Array_0;
    let a = flat_rows(m, "dependsOn"@, "depends_on"@);
    let b = flat_rows(m, "dependents"@, "depended_by"@);
    assert(rows == a + b);
    assert forall|i: int| 0 <= i < rows.len() implies (#[trigger] rows[i]) is Object by {
        if i < a.len() {
            assert(rows[i] == a[i]);
        } else {
            assert(rows[i] == b[i - a.len()]);
        }
    }
    if rows.len() > 0 {
        let r0 = rows[0];
        assert(r0 is Object);
        assert(keys_of(r0->Object_0) =~= seq!["address"@, "name"@, "relation"@]) by {
            if a.len() > 0 {
                assert(r0 == a[0]);
            } else {
                assert(r0 == b[0]);
            }
        }
        let head = joined(seq!["address"@, "name"@, "relation"@], seq![',']) + seq!['\n'];
        let text = csv_text(flattened(m))->Some_0;
        assert(head.is_prefix_of(text)) by {
            assert(text.subrange(0, head.len() as int) =~= head);
        }
    }
}

// ---------------------------------------------------------------------------
// What is shown
// ---------------------------------------------------------------------------

/// How the dependency analysis is shown.
#[derive(Debug, Clone, Copy, PartialEq, Eq, Structural)]
pub enum ReportStyle {
    /// The whole response in a machine-readable format (JSON, YAML or CSV).
    MachineReadable,
    /// Only the counts of dependencies, dependents and tree nodes.
    Summary,
    /// The lists of dependencies and dependents, and the tree.
    Table,
}

/// Machine-readable formats dump the response whatever `summary` says; the table
/// format shows the summary when it is asked for, else the full table.
pub open spec fn style_for(format: OutputFormat, summary: bool) -> ReportStyle {
    match format {
        OutputFormat::Table => if summary {
            ReportStyle::Summary
        } else {
            ReportStyle::Table
        },
        _ => ReportStyle::MachineReadable,
    }
}

/// JSON, YAML and CSV always dump the whole response, whatever the summary flag
/// says; only for the table format does the flag choose between the summary and
/// the full table.
pub proof fn law_machine_readable_formats_ignore_summary(format: OutputFormat, summary: bool)
    ensures
        format != OutputFormat::Table ==> style_for(format, summary) == ReportStyle::MachineReadable,
        format == OutputFormat::Table && summary ==> style_for(format, summary) == ReportStyle::Summary,
        format == OutputFormat::Table && !summary ==> style_for(format, summary) == ReportStyle::Table,
        style_for(format, true) == ReportStyle::MachineReadable <==> style_for(format, false)
            == ReportStyle::MachineReadable,
{
}

/// Chooses how the dependency analysis is shown.
pub fn report_style(format: OutputFormat, summary: bool) -> (r: ReportStyle)
    ensures
        r == style_for(format, summary),
{
    match format {
        OutputFormat::Json | OutputFormat::Yaml | OutputFormat::Csv => ReportStyle::MachineReadable,
        OutputFormat::Table => if summary {
            ReportStyle::Summary
        } else {
            ReportStyle::Table
        },
    }
}

/// The view of a report: its text or its error, as sequences of characters.
pub open spec fn report_view(r: Option<Result<String, String>>) -> Option<Result<Seq<char>, Seq<char>>> {
    match r {
        Some(Ok(t)) => Some(Ok(t@)),
        Some(Err(e)) => Some(Err(e@)),
        None => None,
    }
}

/// What is printed for the response in a machine-readable format: the pretty
/// JSON of the response, its YAML, or the CSV of its flat rows, each followed by a
/// newline (or the CSV error); nothing for the table format.
pub open spec fn report_output(format: OutputFormat, m: JsonModel) -> Option<Result<Seq<char>, Seq<char>>> {
    match format {
        OutputFormat::Table => None,
        OutputFormat::Json => Some(Ok(pretty_json_text(m) + "\n"@)),
        OutputFormat::Yaml => Some(Ok(yaml_text(m) + "\n"@)),
        OutputFormat::Csv => Some(
            match csv_text(flattened(m)) {
                Some(t) => Ok(t + "\n"@),
                None => Err(csv_shape_message()),
            },
        ),
    }
}

/// The text printed for the response in a machine-readable format, with its
/// final newline; `None` for the table format, which is shown otherwise.
pub fn machine_readable_report(format: OutputFormat, value: &JsonValue) -> (r: Option<Result<String, String>>)
    ensures
        report_view(r) == report_output(format, value@),
{
    let rendered = match format {
        OutputFormat::Table => {
            return None;
        },
        OutputFormat::Json => render_json(value),
        OutputFormat::Yaml => render_yaml(value),
        OutputFormat::Csv => {
            let flat = flatten_for_csv(value);
            render_csv(&flat)
        },
    };
    match rendered {
        Ok(mut text) => {
            text.append("\n");
            Some(Ok(text))
        },
        Err(e) => Some(Err(e)),
    }
}

// ---------------------------------------------------------------------------
// The request and its response
// ---------------------------------------------------------------------------

/// The dependency endpoint for a contract: the API URL without trailing slashes,
/// then `/api/contracts/<address>/dependencies?depth=<depth>`.
pub open spec fn dependency_url_text(api_url: Seq<char>, address: Seq<char>, depth: nat) -> Seq<char> {
    trim_end(api_url, '/') + "/api/contracts/"@ + address + "/dependencies?depth="@ + decimal(depth)
}

/// Builds the dependency endpoint URL for a contract.
pub fn dependency_url(api_url: &str, address: &str, depth: u32) -> (r: String)
    ensures
        r@ == dependency_url_text(api_url@, address@, depth as nat),
{
    let mut url = trim_end_char(api_url, '/');
    url.append("/api/contracts/");
    url.append(address);
    url.append("/dependencies?depth=");
    push_decimal(&mut url, depth as u64);
    url
}

/// What `reqwest::StatusCode`'s `Display` writes for a status code: the code and
/// its canonical reason phrase.
pub uninterp spec fn status_display(code: u16) -> Seq<char>;

/// Calls `reqwest::StatusCode::from_u16` and then its `Display`; the text is named
/// by `status_display`. `from_u16` accepts exactly the codes `100..=999`.
#[verifier::external_body]
fn status_text(code: u16) -> (r: String)
    requires
        100 <= code <= 999,
    ensures
        r@ == status_display(code),
{
    match reqwest::StatusCode::from_u16(code) {
        Ok(status) => status.to_string(),
        Err(_) => String::new(),
    }
}

/// How a response to the dependency request is judged: 404 means there is no
/// data for the contract, any other status outside `200..=299` is a failure that
/// quotes the status and the response body.
pub open spec fn response_outcome(code: u16, address: Seq<char>, body: JsonModel) -> Result<(), Seq<char>> {
    if code == 404 {
        Err("no dependency data found for "@ + address)
    } else if !(200 <= code <= 299) {
        Err("contract dependency failed ("@ + status_display(code) + "): "@ + compact_json_text(body))
    } else {
        Ok(())
    }
}

/// Judges the status of the dependency response, with the message of the failure.
pub fn check_dependency_response(code: u16, address: &str, body: &JsonValue) -> (r: Result<(), String>)
    requires
        100 <= code <= 999,
    ensures
        match response_outcome(code, address@, body@) {
            Ok(()) => r is Ok,
            Err(msg) => r is Err && r->Err_0@ == msg,
        },
{
    if code == 404 {
        let mut msg = String::from_str("no dependency data found for ");
        msg.append(address);
        return Err(msg);
    }
    if !(200 <= code && code <= 299) {
        let mut msg = String::from_str("contract dependency failed (");
        let st = status_text(code);
        msg.append(st.as_str());
        msg.append("): ");
        let text = compact_json(body);
        msg.append(text.as_str());
        return Err(msg);
    }
    Ok(())
}

} // verus!
