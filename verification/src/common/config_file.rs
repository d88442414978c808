//! Recording an installed debug adapter in the configuration file: its
//! `[adapters.<name>]` table holds the adapter's path and, when there are
//! any, the arguments it is started with.

use crate::common::error::Error;
use toml::Table;
use vstd::prelude::*;

verus! {

#[verifier::external_type_specification]
#[verifier::external_body]
#[verifier::reject_recursive_types(K)]
#[verifier::reject_recursive_types(V)]
pub struct ExTomlMap<K, V>(toml::map::Map<K, V>);

#[verifier::external_type_specification]
#[verifier::external_body]
pub struct ExTomlValue(toml::Value);

/// A TOML value as plain values.
pub enum TomlView {
    Str(Seq<char>),
    Integer(int),
    /// A float, by the bits of its IEEE 754 form.
    Float(u64),
    Bool(bool),
    /// A date, a time or both, by the text TOML writes for it.
    Datetime(Seq<char>),
    Array(Seq<TomlView>),
    Table(Map<Seq<char>, TomlView>),
}

/// What a `toml::Table` holds: each key with its value.
pub uninterp spec fn toml_table_view(t: Table) -> Map<
    Seq<char>,
    TomlView,
>;

/// What parsing a text as a TOML document gives: its top-level table, or
/// the text of the parse error.
pub uninterp spec fn toml_parse(text: Seq<char>) -> Result<Map<Seq<char>, TomlView>, Seq<char>>;

/// The text that `toml::to_string_pretty` writes for a table, or the empty
/// text where it fails.
pub uninterp spec fn toml_text(doc: Map<Seq<char>, TomlView>) -> Seq<char>;

/// `toml::Table::new`: an empty table.
#[verifier::external_body]
fn new_table() -> (t: Table)
    ensures
        toml_table_view(t) == empty_doc(),
{
    Table::new()
}

/// Parses a text as a TOML document with `str::parse::<toml::Table>`: the
/// table, or the error's text.
#[verifier::external_body]
fn parse_table(text: &str) -> (r: Result<Table, String>)
    ensures
        r matches Ok(t) ==> (toml_parse(text@) matches Ok(d) && d == toml_table_view(t)),
        r matches Err(e) ==> (toml_parse(text@) matches Err(m) && m == e@),
{
    match text.parse::<Table>() {
        Ok(t) => Ok(t),
        Err(e) => Err(e.to_string()),
    }
}

/// `toml::Table::contains_key`: whether the table has the key.
#[verifier::external_body]
fn table_has(t: &Table, key: &str) -> (r: bool)
    ensures
        r == toml_table_view(*t).dom().contains(key@),
{
    t.contains_key(key)
}

/// The table under a key, when the key holds a table: `get`, then
/// `Value::as_table`, cloned.
#[verifier::external_body]
fn subtable(t: &Table, key: &str) -> (r: Option<Table>)
    ensures
        r is Some <==> (toml_table_view(*t).dom().contains(key@) && toml_table_view(*t)[key@] is Table),
        r matches Some(s) ==> toml_table_view(*t)[key@] == TomlView::Table(toml_table_view(s)),
{
    t.get(key).and_then(|v| v.as_table()).cloned()
}

/// `toml::Table::insert` of a table: the key then holds it, whatever it held.
#[verifier::external_body]
fn insert_table(
    t: &mut Table,
    key: &str,
    value: Table,
)
    ensures
        toml_table_view(*final(t)) == toml_table_view(*old(t)).insert(
            key@,
            TomlView::Table(toml_table_view(value)),
        ),
{
    t.insert(key.to_string(), toml::Value::Table(value));
}

/// `toml::Table::insert` of a string.
#[verifier::external_body]
fn insert_str(t: &mut Table, key: &str, value: &str)
    ensures
        toml_table_view(*final(t)) == toml_table_view(*old(t)).insert(key@, TomlView::Str(value@)),
{
    t.insert(key.to_string(), toml::Value::String(value.to_string()));
}

/// `toml::Table::insert` of an array of strings.
#[verifier::external_body]
fn insert_str_array(t: &mut Table, key: &str, values: &Vec<String>)
    ensures
        toml_table_view(*final(t)) == toml_table_view(*old(t)).insert(
            key@,
            TomlView::Array(str_views(values@)),
        ),
{
    t.insert(
        key.to_string(),
        toml::Value::Array(values.iter().map(|s| toml::Value::String(s.clone())).collect()),
    );
}

/// `toml::to_string_pretty` on a table, with the empty text where it fails.
#[verifier::external_body]
fn print_table(t: &Table) -> (r: String)
    ensures
        r@ == toml_text(toml_table_view(*t)),
{
    toml::to_string_pretty(t).unwrap_or_default()
}

/// A table with no entries.
pub open spec fn empty_doc() -> Map<Seq<char>, TomlView> {
    Map::empty()
}

/// Strings as TOML string values.
pub open spec fn str_views(values: Seq<String>) -> Seq<TomlView> {
    values.map_values(|s: String| TomlView::Str(s@))
}

/// The `[adapters.<name>]` table of an adapter: its path, and its arguments
/// when there are any.
pub open spec fn adapter_table(path: Seq<char>, args: Seq<String>) -> Map<Seq<char>, TomlView> {
    let base = Map::<Seq<char>, TomlView>::empty().insert("path"@, TomlView::Str(path));
    if args.len() == 0 {
        base
    } else {
        base.insert("args"@, TomlView::Array(str_views(args)))
    }
}

/// A document with an `adapters` table added where it has none.
pub open spec fn with_adapters(doc: Map<Seq<char>, TomlView>) -> Map<Seq<char>, TomlView> {
    if doc.dom().contains("adapters"@) {
        doc
    } else {
        doc.insert("adapters"@, TomlView::Table(Map::empty()))
    }
}

/// The document with the adapter recorded under `debugger` in its
/// `adapters` table; `None` where `adapters` holds something other than a
/// table.
pub open spec fn adapter_recorded(
    doc: Map<Seq<char>, TomlView>,
    debugger: Seq<char>,
    path: Seq<char>,
    args: Seq<String>,
) -> Option<Map<Seq<char>, TomlView>> {
    let d = with_adapters(doc);
    match d["adapters"@] {
        TomlView::Table(a) => Some(
            d.insert("adapters"@, TomlView::Table(a.insert(debugger, TomlView::Table(adapter_table(path, args))))),
        ),
        _ => None,
    }
}

/// The document that a configuration file's content holds: an empty table
/// for an empty file, else what parsing gives.
pub open spec fn config_document(content: Seq<char>) -> Result<Map<Seq<char>, TomlView>, Seq<char>> {
    if content.len() == 0 {
        Ok(Map::empty())
    } else {
        toml_parse(content)
    }
}

/// The message for a configuration file that does not parse.
pub open spec fn parse_failure(file: Seq<char>, message: Seq<char>) -> Seq<char> {
    "Failed to parse "@ + file + ": "@ + message
}

/// The new content of the configuration file `file`, whose content was
/// `content`, with the adapter `debugger` recorded at `path` with `args`:
/// a parse error when the content is not TOML, `None` when its `adapters`
/// entry is not a table, else the document written out.
pub fn config_with_adapter(
    content: &str,
    file: &str,
    debugger: &str,
    path: &str,
    args: &Vec<String>,
) -> (r: Result<Option<String>, Error>)
    ensures
        r is Err <==> config_document(content@) is Err,
        r matches Err(e) ==> (e matches Error::ConfigParse(m) && m@ == parse_failure(
            file@,
            config_document(content@)->Err_0,
        )),
        r matches Ok(o) ==> config_document(content@) matches Ok(doc) && match adapter_recorded(
            doc,
            debugger@,
            path@,
            args@,
        ) {
            Some(new_doc) => o matches Some(t) && t@ == toml_text(new_doc),
            None => o is None,
        },
{
    let content_chars = crate::text::chars_of(content);
    let mut config = if content_chars.len() == 0 {
        new_table()
    } else {
        match parse_table(content) {
            Ok(t) => t,
            Err(msg) => {
                let mut m = crate::text::chars_of("Failed to parse ");
                crate::text::append_str(&mut m, file);
                crate::text::append_str(&mut m, ": ");
                crate::text::append_str(&mut m, msg.as_str());
                proof {
                    reveal_strlit("Failed to parse ");
                    reveal_strlit(": ");
                }
                return Err(Error::ConfigParse(crate::text::string_from(m.as_slice())));
            },
        }
    };
    let ghost doc = toml_table_view(config);
    assert(config_document(content@) == Ok::<Map<Seq<char>, TomlView>, Seq<char>>(doc));
    if !table_has(&config, "adapters") {
        insert_table(&mut config, "adapters", new_table());
    }
    assert(toml_table_view(config) == with_adapters(doc));
    let mut adapters = match subtable(&config, "adapters") {
        Some(a) => a,
        None => return Ok(None),
    };
    let mut entry = new_table();
    insert_str(&mut entry, "path", path);
    if args.len() > 0 {
        insert_str_array(&mut entry, "args", args);
    }
    assert(toml_table_view(entry) == adapter_table(path@, args@));
    insert_table(&mut adapters, debugger, entry);
    insert_table(&mut config, "adapters", adapters);
    Ok(Some(print_table(&config)))
}

/// The adapters that a document records: its `adapters` table, or none.
pub open spec fn adapters_of(doc: Map<Seq<char>, TomlView>) -> Map<Seq<char>, TomlView> {
    match doc["adapters"@] {
        TomlView::Table(a) if doc.dom().contains("adapters"@) => a,
        _ => Map::empty(),
    }
}

/// Recording an adapter in a document whose `adapters` entry, if any, is a
/// table succeeds; afterwards `adapters` holds the adapter's table under its
/// name and the other adapters as they were, and every other entry of the
/// document is as it was.
pub proof fn law_adapter_recorded(
    doc: Map<Seq<char>, TomlView>,
    debugger: Seq<char>,
    path: Seq<char>,
    args: Seq<String>,
)
    requires
        doc.dom().contains("adapters"@) ==> doc["adapters"@] is Table,
    ensures
        adapter_recorded(doc, debugger, path, args) matches Some(new_doc) && {
            &&& new_doc.dom().contains("adapters"@)
            &&& new_doc["adapters"@] == TomlView::Table(
                adapters_of(doc).insert(debugger, TomlView::Table(adapter_table(path, args))),
            )
            &&& new_doc.remove("adapters"@) == doc.remove("adapters"@)
        },
{
    let d = with_adapters(doc);
    assert(d.remove("adapters"@) =~= doc.remove("adapters"@));
    if let Some(new_doc) = adapter_recorded(doc, debugger, path, args) {
        assert(new_doc.remove("adapters"@) =~= d.remove("adapters"@));
    }
}

} // verus!
