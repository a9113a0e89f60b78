//! The TOML document a manifest is read from, as the `toml` crate parses it.

use vstd::prelude::*;

verus! {

/// `toml::Value`, a parsed TOML value. Nothing inside it is visible here.
#[verifier::external_type_specification]
#[verifier::external_body]
pub struct ExTomlValue(toml::Value);

/// `toml::map::Map`, a parsed TOML table.
#[verifier::external_type_specification]
#[verifier::external_body]
#[verifier::reject_recursive_types(K)]
#[verifier::reject_recursive_types(V)]
pub struct ExTomlMap<K, V>(toml::map::Map<K, V>);

/// `toml::de::Error`, the error of the TOML parser.
#[verifier::external_type_specification]
#[verifier::external_body]
pub struct ExTomlError(toml::de::Error);

/// What a manifest reads of a TOML value: a string, a table with its entries
/// in iteration order, or anything else.
pub enum Node {
    Text(Seq<char>),
    Table(Seq<(Seq<char>, Node)>),
    Other,
}

/// The value as a node.
pub uninterp spec fn value_node(value: toml::Value) -> Node;

/// The entries of a table, in the order in which the table is walked.
pub uninterp spec fn table_entries(table: toml::map::Map<String, toml::Value>) -> Seq<
    (Seq<char>, Node),
>;

/// The message of a parse error.
pub uninterp spec fn error_text(error: toml::de::Error) -> Seq<char>;

/// What `toml::from_str` makes of a text: the entries of the root table, or
/// the message of the error.
pub uninterp spec fn toml_document(text: Seq<char>) -> Result<Seq<(Seq<char>, Node)>, Seq<char>>;

/// The keys of the entries, in order.
pub open spec fn entry_keys(entries: Seq<(Seq<char>, Node)>) -> Seq<Seq<char>> {
    entries.map_values(|e: (Seq<char>, Node)| e.0)
}

/// The node stored under a key: that of the first entry with this key.
pub open spec fn lookup(entries: Seq<(Seq<char>, Node)>, key: Seq<char>) -> Option<Node>
    decreases entries.len(),
{
    if entries.len() == 0 {
        None
    } else if entries[0].0 == key {
        Some(entries[0].1)
    } else {
        lookup(entries.drop_first(), key)
    }
}

/// Calls `toml::from_str` for a `toml::Table`. The contract only names the
/// outcome: the parsed table holds the entries that `toml_document` gives for
/// the text, and a failure carries the error that `toml_document` gives.
#[verifier::external_body]
pub(crate) fn parse_document(text: &str) -> (r: Result<
    toml::map::Map<String, toml::Value>,
    toml::de::Error,
>)
    ensures
        match r {
            Ok(table) => toml_document(text@) == Ok::<Seq<(Seq<char>, Node)>, Seq<char>>(
                table_entries(table),
            ),
            Err(error) => toml_document(text@) == Err::<Seq<(Seq<char>, Node)>, Seq<char>>(
                error_text(error),
            ),
        },
{
    toml::from_str::<toml::Table>(text)
}

/// Calls `toml::de::Error::message`, which gives the text of what went wrong.
#[verifier::external_body]
pub(crate) fn error_message(error: &toml::de::Error) -> (message: String)
    ensures
        message@ == error_text(*error),
{
    error.message().to_string()
}

/// Calls `toml::map::Map::get`: the value stored under the key, if the table
/// has an entry with this key.
#[verifier::external_body]
pub(crate) fn table_get<'a>(table: &'a toml::map::Map<String, toml::Value>, key: &str) -> (r: Option<
    &'a toml::Value,
>)
    ensures
        match r {
            Some(value) => lookup(table_entries(*table), key@) == Some(value_node(*value)),
            None => lookup(table_entries(*table), key@) is None,
        },
{
    table.get(key)
}

/// Calls `toml::map::Map::keys` and copies the keys out: one key per entry,
/// in the order in which the table is walked. A table holds each key once.
#[verifier::external_body]
pub(crate) fn table_keys(table: &toml::map::Map<String, toml::Value>) -> (keys: Vec<String>)
    ensures
        keys@.map_values(|k: String| k@) == entry_keys(table_entries(*table)),
        keys@.map_values(|k: String| k@).no_duplicates(),
{
    table.keys().cloned().collect()
}

/// Calls `toml::Value::as_str`: the string, exactly when the value is one.
#[verifier::external_body]
pub(crate) fn value_as_str(value: &toml::Value) -> (r: Option<&str>)
    ensures
        match r {
            Some(s) => value_node(*value) == Node::Text(s@),
            None => !(value_node(*value) is Text),
        },
{
    value.as_str()
}

/// Calls `toml::Value::as_table`: the table, exactly when the value is one.
#[verifier::external_body]
pub(crate) fn value_as_table(value: &toml::Value) -> (r: Option<&toml::map::Map<String, toml::Value>>)
    ensures
        match r {
            Some(table) => value_node(*value) == Node::Table(table_entries(*table)),
            None => !(value_node(*value) is Table),
        },
{
    value.as_table()
}

/// A TOML value as far as a manifest reads it: a string, a table with its
/// entries in order, or anything else.
#[derive(Debug, PartialEq, Eq)]
pub enum Item {
    Text(String),
    Table(Vec<(String, Item)>),
    Other,
}

impl Item {
    /// The item as plain values.
    pub open spec fn node(self) -> Node
        decreases self,
    {
        match self {
            Item::Text(s) => Node::Text(s@),
            Item::Table(entries) => Node::Table(entry_nodes(entries@)),
            Item::Other => Node::Other,
        }
    }
}

/// The entries of a table as plain values.
pub open spec fn entry_nodes(entries: Seq<(String, Item)>) -> Seq<(Seq<char>, Node)>
    decreases entries,
{
    if entries.len() == 0 {
        Seq::empty()
    } else {
        entry_nodes(entries.drop_last()).push((entries.last().0@, entries.last().1.node()))
    }
}

/// The entries of a table as plain values, one by one.
pub proof fn lemma_entry_nodes(entries: Seq<(String, Item)>)
    ensures
        entry_nodes(entries).len() == entries.len(),
        forall|i: int|
            0 <= i < entries.len() ==> (#[trigger] entry_nodes(entries)[i]) == (
                entries[i].0@,
                entries[i].1.node(),
            ),
    decreases entries.len(),
{
    if entries.len() > 0 {
        lemma_entry_nodes(entries.drop_last());
    }
}

/// Copies a value of the `toml` crate into an item.
pub fn item_of_value(value: &toml::Value) -> (item: Item)
    ensures
        item.node() == value_node(*value),
    decreases value_node(*value),
{
    if let Some(s) = value_as_str(value) {
        return Item::Text(s.to_owned());
    }
    match value_as_table(value) {
        Some(table) => {
            assert(value_node(*value)->Table_0 == table_entries(*table));
            Item::Table(items_of_table(table))
        },
        None => Item::Other,
    }
}

/// Copies a table of the `toml` crate into a list of entries, in the order
/// in which the table is walked.
pub fn items_of_table(table: &toml::map::Map<String, toml::Value>) -> (entries: Vec<(String, Item)>)
    ensures
        entry_nodes(entries@) == table_entries(*table),
        entry_keys(table_entries(*table)).no_duplicates(),
    decreases table_entries(*table),
{
    let ghost given = table_entries(*table);
    let keys = table_keys(table);
    let mut entries: Vec<(String, Item)> = Vec::new();
    let mut i: usize = 0;
    assert(keys@.len() == given.len()) by {
        assert(keys@.map_values(|k: String| k@).len() == entry_keys(given).len());
    }
    assert(given.subrange(0, 0) == Seq::<(Seq<char>, Node)>::empty());
    while i < keys.len()
        invariant
            given == table_entries(*table),
            keys@.map_values(|k: String| k@) == entry_keys(given),
            entry_keys(given).no_duplicates(),
            keys@.len() == given.len(),
            i <= keys.len(),
            entries@.len() == i,
            entry_nodes(entries@) == given.subrange(0, i as int),
        decreases keys.len() - i,
    {
        let key = &keys[i];
        proof {
            assert(keys@.map_values(|k: String| k@)[i as int] == entry_keys(given)[i as int]);
            lemma_lookup_entry(given, i as int);
        }
        let item = match table_get(table, key.as_str()) {
            Some(value) => {
                assert(value_node(*value) == given[i as int].1);
                item_of_value(value)
            },
            None => Item::Other,
        };
        let ghost before = entries@;
        entries.push((key.clone(), item));
        proof {
            assert(entries@.drop_last() == before);
            assert(given.subrange(0, i + 1) == given.subrange(0, i as int).push(given[i as int]));
        }
        i += 1;
    }
    assert(given.subrange(0, given.len() as int) == given);
    entries
}

/// With distinct keys, looking up the key of an entry finds that entry.
pub proof fn lemma_lookup_entry(entries: Seq<(Seq<char>, Node)>, i: int)
    requires
        entry_keys(entries).no_duplicates(),
        0 <= i < entries.len(),
    ensures
        lookup(entries, entries[i].0) == Some(entries[i].1),
    decreases entries.len(),
{
    if i > 0 {
        let rest = entries.drop_first();
        assert(entry_keys(entries)[0] != entry_keys(entries)[i]);
        assert forall|a: int, b: int| 0 <= a < rest.len() && 0 <= b < rest.len() && a != b implies entry_keys(
            rest,
        )[a] != entry_keys(rest)[b] by {
            assert(entry_keys(rest)[a] == entry_keys(entries)[a + 1]);
            assert(entry_keys(rest)[b] == entry_keys(entries)[b + 1]);
        }
        lemma_lookup_entry(rest, i - 1);
    }
}

} // verus!
